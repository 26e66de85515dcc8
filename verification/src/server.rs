//! The server side of the two operations.
//!
//! A call is received, handed to the math core, and answered: with the
//! response that wraps the scalar, or, where the math core failed, with an
//! invalid-argument failure that carries the text of the error. So a call
//! goes from received to validated to computed to responded, or ends as
//! rejected; no other failure is made here. Nothing is kept from one call to
//! the next.

use vstd::prelude::*;
use crate::binary32::Binary32;
use crate::error::{ErrorView, VectorServiceError, rendering};
use crate::math::{
    is_dot_product,
    is_vector_norm,
    kernel_is_function,
    kernel_is_total,
    lemma_dot_product_repeats,
    lemma_vector_norm_repeats,
    outcome_view,
    root_is_function,
    root_is_total,
    vector_dot_product,
    vector_norm,
};
use crate::message::{
    DotProductRequest,
    DotProductResponse,
    InvalidArgument,
    VectorNormRequest,
    VectorNormResponse,
};

verus! {

/// The view of a reply: the response, or the message of the failure.
pub open spec fn reply_view<R>(reply: Result<R, InvalidArgument>) -> Result<R, Seq<char>> {
    match reply {
        Ok(response) => Ok(response),
        Err(failure) => Err(failure.message@),
    }
}

/// The reply to a `DotProduct` call whose computation had the given outcome.
pub open spec fn dot_product_reply(outcome: Result<Binary32, ErrorView>) -> Result<
    DotProductResponse,
    Seq<char>,
> {
    match outcome {
        Ok(result) => Ok(DotProductResponse { result }),
        Err(e) => Err(rendering(e)),
    }
}

/// The reply to a `VectorNorm` call whose computation had the given outcome.
pub open spec fn vector_norm_reply(outcome: Result<Binary32, ErrorView>) -> Result<
    VectorNormResponse,
    Seq<char>,
> {
    match outcome {
        Ok(result) => Ok(VectorNormResponse { result }),
        Err(e) => Err(rendering(e)),
    }
}

/// `reply` answers the `DotProduct` request: it is the reply to an outcome of
/// the dot product of the two vectors of the request.
pub open spec fn answers_dot_product<T, K: Fn(&[T], &[T]) -> Binary32>(
    kernel: K,
    request: DotProductRequest<T>,
    reply: Result<DotProductResponse, Seq<char>>,
) -> bool {
    exists|outcome: Result<Binary32, ErrorView>|
        #[trigger] is_dot_product(kernel, request.vector1@, request.vector2@, outcome) && reply
            == dot_product_reply(outcome)
}

/// `reply` answers the `VectorNorm` request: it is the reply to an outcome of
/// the norm of the vector of the request.
pub open spec fn answers_vector_norm<
    T,
    K: Fn(&[T], &[T]) -> Binary32,
    S: Fn(Binary32) -> Binary32,
>(
    kernel: K,
    root: S,
    request: VectorNormRequest<T>,
    reply: Result<VectorNormResponse, Seq<char>>,
) -> bool {
    exists|outcome: Result<Binary32, ErrorView>|
        #[trigger] is_vector_norm(kernel, root, request.vector@, outcome) && reply
            == vector_norm_reply(outcome)
}

/// Turns a failure of the math core into the failure that the client sees:
/// invalid argument, with the text of the error as its message.
pub fn invalid_argument(e: &VectorServiceError) -> (failure: InvalidArgument)
    ensures
        failure.message@ == rendering(e@),
{
    InvalidArgument { message: e.to_string() }
}

/// Answers a `DotProduct` call whose computation had the given outcome: the
/// scalar is wrapped into the response, a failure becomes an invalid
/// argument.
pub fn answer_dot_product(outcome: Result<Binary32, VectorServiceError>) -> (reply: Result<
    DotProductResponse,
    InvalidArgument,
>)
    ensures
        reply_view(reply) == dot_product_reply(outcome_view(outcome)),
{
    match outcome {
        Ok(result) => Ok(DotProductResponse { result }),
        Err(e) => Err(invalid_argument(&e)),
    }
}

/// Answers a `VectorNorm` call whose computation had the given outcome: the
/// scalar is wrapped into the response, a failure becomes an invalid
/// argument.
pub fn answer_vector_norm(outcome: Result<Binary32, VectorServiceError>) -> (reply: Result<
    VectorNormResponse,
    InvalidArgument,
>)
    ensures
        reply_view(reply) == vector_norm_reply(outcome_view(outcome)),
{
    match outcome {
        Ok(result) => Ok(VectorNormResponse { result }),
        Err(e) => Err(invalid_argument(&e)),
    }
}

/// The implementation of the service. It has no state.
pub struct VectorServiceServerImpl;

impl VectorServiceServerImpl {
    /// Handles one `DotProduct` call.
    pub fn dot_product<T, K>(&self, request: DotProductRequest<T>, kernel: K) -> (reply: Result<
        DotProductResponse,
        InvalidArgument,
    >) where K: Fn(&[T], &[T]) -> Binary32
        requires
            kernel_is_total(kernel),
        ensures
            answers_dot_product(kernel, request, reply_view(reply)),
    {
        let outcome = vector_dot_product(
            request.vector1.as_slice(),
            request.vector2.as_slice(),
            kernel,
        );
        answer_dot_product(outcome)
    }

    /// Handles one `VectorNorm` call.
    pub fn vector_norm<T, K, S>(&self, request: VectorNormRequest<T>, kernel: K, root: S) -> (reply:
        Result<VectorNormResponse, InvalidArgument>) where
        K: Fn(&[T], &[T]) -> Binary32,
        S: Fn(Binary32) -> Binary32,

        requires
            kernel_is_total(kernel),
            root_is_total(root),
        ensures
            answers_vector_norm(kernel, root, request, reply_view(reply)),
    {
        let outcome = vector_norm(request.vector.as_slice(), kernel, root);
        answer_vector_norm(outcome)
    }
}

/// A repeated `DotProduct` call is answered as the first one was, where the
/// kernel is a function of the contents of its operands: the server keeps
/// nothing between calls that could change the answer.
pub proof fn lemma_dot_product_call_repeats<T, K: Fn(&[T], &[T]) -> Binary32>(
    kernel: K,
    request: DotProductRequest<T>,
    first: Result<DotProductResponse, Seq<char>>,
    second: Result<DotProductResponse, Seq<char>>,
)
    requires
        kernel_is_function(kernel),
        answers_dot_product(kernel, request, first),
        answers_dot_product(kernel, request, second),
    ensures
        first == second,
{
    let a = choose|outcome: Result<Binary32, ErrorView>|
        #[trigger] is_dot_product(kernel, request.vector1@, request.vector2@, outcome) && first
            == dot_product_reply(outcome);
    let b = choose|outcome: Result<Binary32, ErrorView>|
        #[trigger] is_dot_product(kernel, request.vector1@, request.vector2@, outcome) && second
            == dot_product_reply(outcome);
    lemma_dot_product_repeats(kernel, request.vector1@, request.vector2@, a, b);
}

/// A repeated `VectorNorm` call is answered as the first one was, where the
/// kernel and the root routine are functions.
pub proof fn lemma_vector_norm_call_repeats<
    T,
    K: Fn(&[T], &[T]) -> Binary32,
    S: Fn(Binary32) -> Binary32,
>(
    kernel: K,
    root: S,
    request: VectorNormRequest<T>,
    first: Result<VectorNormResponse, Seq<char>>,
    second: Result<VectorNormResponse, Seq<char>>,
)
    requires
        kernel_is_function(kernel),
        root_is_function(root),
        answers_vector_norm(kernel, root, request, first),
        answers_vector_norm(kernel, root, request, second),
    ensures
        first == second,
{
    let a = choose|outcome: Result<Binary32, ErrorView>|
        #[trigger] is_vector_norm(kernel, root, request.vector@, outcome) && first
            == vector_norm_reply(outcome);
    let b = choose|outcome: Result<Binary32, ErrorView>|
        #[trigger] is_vector_norm(kernel, root, request.vector@, outcome) && second
            == vector_norm_reply(outcome);
    lemma_vector_norm_repeats(kernel, root, request.vector@, a, b);
}

} // verus!
