//! The messages of the two operations, and the failure that a client sees.
//!
//! `DotProduct` takes two vectors and answers with one scalar; `VectorNorm`
//! takes one vector and answers with one scalar. The messages say nothing
//! about the lengths of the vectors: the math core checks them.

use vstd::prelude::*;
use crate::binary32::Binary32;

verus! {

/// Request of the operation `DotProduct`.
pub struct DotProductRequest<T> {
    pub vector1: Vec<T>,
    pub vector2: Vec<T>,
}

/// Response of the operation `DotProduct`.
pub struct DotProductResponse {
    pub result: Binary32,
}

/// Request of the operation `VectorNorm`.
pub struct VectorNormRequest<T> {
    pub vector: Vec<T>,
}

/// Response of the operation `VectorNorm`.
pub struct VectorNormResponse {
    pub result: Binary32,
}

/// The failure that the server answers a call with: the call's argument was
/// not valid. It carries the text of the error that the math core gave.
pub struct InvalidArgument {
    pub message: String,
}

} // verus!
