//! Core of a small vector service: the dot product and the Euclidean norm of
//! vectors, offered as two unary remote operations.
//!
//! The crate holds the decisions of the service and proves them: input
//! validation, the typed domain errors and their rendering, the checked square
//! root, the server-side dispatch from request to reply, the client-side call,
//! and the carrier that moves a trace context through call metadata.
//!
//! Arithmetic on scalars is not done here. The numeric routines (the dot
//! product kernel and the square root) are handed in by the caller as
//! functions; scalars cross the boundary as [`binary32::Binary32`] bit
//! patterns, vectors as slices of any element type. The two formulations of
//! the kernel in [`kernel`] take the multiplication and the addition of the
//! scalars from the caller as well.

pub mod binary32;
pub mod carrier;
pub mod client;
pub mod decimal;
pub mod error;
pub mod kernel;
pub mod math;
pub mod message;
pub mod server;

pub use crate::binary32::Binary32;
pub use crate::error::VectorServiceError;
pub use crate::kernel::{vector_dot_product_efficient, vector_dot_product_inefficient};
pub use crate::math::{vector_dot_product, vector_norm};
