//! The client side of the two operations.
//!
//! A call builds the request from its operands, hands it once to the
//! transport, and unwraps the response or hands on the failure. The
//! transport is a parameter: it owns the connection, waits for the answer,
//! and reports a failure of its own kind `E`. A call touches nothing but its
//! own operands, so what it returns belongs to them alone.

use vstd::prelude::*;
use crate::binary32::Binary32;
use crate::message::{
    DotProductRequest,
    DotProductResponse,
    VectorNormRequest,
    VectorNormResponse,
};

verus! {

/// What the caller of `DotProduct` gets for the reply of the transport.
pub open spec fn dot_product_result<E>(reply: Result<DotProductResponse, E>) -> Result<
    Binary32,
    E,
> {
    match reply {
        Ok(response) => Ok(response.result),
        Err(failure) => Err(failure),
    }
}

/// What the caller of `VectorNorm` gets for the reply of the transport.
pub open spec fn vector_norm_result<E>(reply: Result<VectorNormResponse, E>) -> Result<
    Binary32,
    E,
> {
    match reply {
        Ok(response) => Ok(response.result),
        Err(failure) => Err(failure),
    }
}

/// Unwraps the reply to a `DotProduct` call: the scalar of the response, or
/// the failure as it came.
pub fn unwrap_dot_product<E>(reply: Result<DotProductResponse, E>) -> (r: Result<Binary32, E>)
    ensures
        r == dot_product_result(reply),
{
    match reply {
        Ok(response) => Ok(response.result),
        Err(failure) => Err(failure),
    }
}

/// Unwraps the reply to a `VectorNorm` call: the scalar of the response, or
/// the failure as it came.
pub fn unwrap_vector_norm<E>(reply: Result<VectorNormResponse, E>) -> (r: Result<Binary32, E>)
    ensures
        r == vector_norm_result(reply),
{
    match reply {
        Ok(response) => Ok(response.result),
        Err(failure) => Err(failure),
    }
}

/// Calls the operation `DotProduct` with the operands `v1` and `v2`.
///
/// The transport gets one request, with `v1` as its first vector and `v2` as
/// its second. Its response is unwrapped to the scalar; its failure is
/// returned as it is.
pub fn vector_dot_product<T, C, E>(v1: Vec<T>, v2: Vec<T>, call: C) -> (r: Result<
    Binary32,
    E,
>) where C: FnOnce(DotProductRequest<T>) -> Result<DotProductResponse, E>
    requires
        call.requires((DotProductRequest { vector1: v1, vector2: v2 },)),
    ensures
        exists|reply: Result<DotProductResponse, E>|
            #[trigger] call.ensures((DotProductRequest { vector1: v1, vector2: v2 },), reply) && r
                == dot_product_result(reply),
{
    let request = DotProductRequest { vector1: v1, vector2: v2 };
    let reply = call(request);
    unwrap_dot_product(reply)
}

/// Calls the operation `VectorNorm` with the operand `v`.
///
/// The transport gets one request, with `v` as its vector. Its response is
/// unwrapped to the scalar; its failure is returned as it is.
pub fn vector_norm<T, C, E>(v: Vec<T>, call: C) -> (r: Result<Binary32, E>) where
    C: FnOnce(VectorNormRequest<T>) -> Result<VectorNormResponse, E>,

    requires
        call.requires((VectorNormRequest { vector: v },)),
    ensures
        exists|reply: Result<VectorNormResponse, E>|
            #[trigger] call.ensures((VectorNormRequest { vector: v },), reply) && r
                == vector_norm_result(reply),
{
    let request = VectorNormRequest { vector: v };
    let reply = call(request);
    unwrap_vector_norm(reply)
}

} // verus!
