//! The math core: validation before the numeric routines, and the typed
//! failures around them.
//!
//! The two numeric routines are parameters. The kernel computes the dot
//! product of two operands of one length and checks nothing itself, so the
//! core checks the lengths first and enters the kernel only where they are
//! equal. The root routine computes a square root; the core decides from the
//! radicand and the root whether the answer is a failure.

use vstd::prelude::*;
use crate::binary32::Binary32;
use crate::error::{ErrorView, VectorServiceError, invalid_radicand_view, length_mismatch_view};

verus! {

/// The view of an outcome of the math core: the scalar, or the view of the
/// error.
pub open spec fn outcome_view(r: Result<Binary32, VectorServiceError>) -> Result<
    Binary32,
    ErrorView,
> {
    match r {
        Ok(x) => Ok(x),
        Err(e) => Err(e@),
    }
}

/// The kernel accepts every pair of operands of one length.
pub open spec fn kernel_is_total<T, K: Fn(&[T], &[T]) -> Binary32>(kernel: K) -> bool {
    forall|a: &[T], b: &[T]| a@.len() == b@.len() ==> #[trigger] kernel.requires((a, b))
}

/// The root routine accepts every scalar.
pub open spec fn root_is_total<S: Fn(Binary32) -> Binary32>(root: S) -> bool {
    forall|x: Binary32| #[trigger] root.requires((x,))
}

/// The kernel, entered with operands that hold `v1` and `v2`, may give `x`.
pub open spec fn kernel_gives<T, K: Fn(&[T], &[T]) -> Binary32>(
    kernel: K,
    v1: Seq<T>,
    v2: Seq<T>,
    x: Binary32,
) -> bool {
    exists|a: &[T], b: &[T]| a@ == v1 && b@ == v2 && #[trigger] kernel.ensures((a, b), x)
}

/// `r` is an outcome of the dot product of `v1` and `v2`: the failure
/// "length mismatch" where the lengths differ, else a scalar that the kernel
/// gives for the two operands.
pub open spec fn is_dot_product<T, K: Fn(&[T], &[T]) -> Binary32>(
    kernel: K,
    v1: Seq<T>,
    v2: Seq<T>,
    r: Result<Binary32, ErrorView>,
) -> bool {
    if v1.len() == v2.len() {
        r is Ok && kernel_gives(kernel, v1, v2, r->Ok_0)
    } else {
        r == Err::<Binary32, ErrorView>(length_mismatch_view())
    }
}

/// What the checked square root answers for the radicand `x` when the root
/// routine gave `root`.
///
/// A root that is not a number, for a radicand below zero, is the failure
/// "invalid radicand". Every other root is handed on as it is; so a NaN
/// radicand passes through as whatever the routine made of it.
pub open spec fn sqrt_outcome(x: Binary32, root: Binary32) -> Result<Binary32, ErrorView> {
    if root.is_nan() && x.is_strictly_negative() {
        Err(invalid_radicand_view())
    } else {
        Ok(root)
    }
}

/// `r` is an outcome of the checked square root of `x`.
pub open spec fn is_sqrt<S: Fn(Binary32) -> Binary32>(
    root: S,
    x: Binary32,
    r: Result<Binary32, ErrorView>,
) -> bool {
    exists|y: Binary32| #[trigger] root.ensures((x,), y) && r == sqrt_outcome(x, y)
}

/// `r` is an outcome of the norm of `v`: an outcome of the checked square
/// root of a dot product of `v` with itself.
pub open spec fn is_vector_norm<T, K: Fn(&[T], &[T]) -> Binary32, S: Fn(Binary32) -> Binary32>(
    kernel: K,
    root: S,
    v: Seq<T>,
    r: Result<Binary32, ErrorView>,
) -> bool {
    exists|product: Binary32|
        #[trigger] kernel_gives(kernel, v, v, product) && is_sqrt(root, product, r)
}

/// The dot product of two vectors.
///
/// Fails with "length mismatch" where the operands differ in length, and
/// then does not enter the kernel. Otherwise enters the kernel once, with
/// the two operands, and returns its scalar unchanged.
pub fn vector_dot_product<T, K>(v1: &[T], v2: &[T], kernel: K) -> (r: Result<
    Binary32,
    VectorServiceError,
>) where K: Fn(&[T], &[T]) -> Binary32
    requires
        kernel_is_total(kernel),
    ensures
        is_dot_product(kernel, v1@, v2@, outcome_view(r)),
        r is Err <==> v1@.len() != v2@.len(),
{
    if v1.len() != v2.len() {
        return Err(VectorServiceError::length_mismatch());
    }
    Ok(kernel(v1, v2))
}

/// Decides the answer of the checked square root from the radicand and the
/// root that the routine computed for it.
pub fn check_root(x: Binary32, root: Binary32) -> (r: Result<Binary32, VectorServiceError>)
    ensures
        outcome_view(r) == sqrt_outcome(x, root),
        r is Err <==> root.is_nan() && x.is_strictly_negative(),
{
    if root.is_nan() && x.is_strictly_negative() {
        Err(VectorServiceError::invalid_radicand())
    } else {
        Ok(root)
    }
}

/// The checked square root: runs the root routine once on `x` and decides
/// on its result.
pub fn sqrt_checked<S>(x: Binary32, root: S) -> (r: Result<Binary32, VectorServiceError>) where
    S: Fn(Binary32) -> Binary32,

    requires
        root_is_total(root),
    ensures
        is_sqrt(root, x, outcome_view(r)),
        r is Err ==> x.is_strictly_negative(),
{
    check_root(x, root(x))
}

/// The Euclidean norm of a vector: the checked square root of the dot
/// product of the vector with itself.
pub fn vector_norm<T, K, S>(v: &[T], kernel: K, root: S) -> (r: Result<
    Binary32,
    VectorServiceError,
>) where K: Fn(&[T], &[T]) -> Binary32, S: Fn(Binary32) -> Binary32
    requires
        kernel_is_total(kernel),
        root_is_total(root),
    ensures
        is_vector_norm(kernel, root, v@, outcome_view(r)),
        r is Err ==> outcome_view(r) == Err::<Binary32, ErrorView>(invalid_radicand_view()),
{
    match vector_dot_product(v, v, kernel) {
        Ok(product) => sqrt_checked(product, root),
        Err(e) => Err(e),
    }
}

/// The kernel gives at most one scalar for the contents of two operands.
pub open spec fn kernel_is_function<T, K: Fn(&[T], &[T]) -> Binary32>(kernel: K) -> bool {
    forall|v1: Seq<T>, v2: Seq<T>, x: Binary32, y: Binary32| #[trigger]
        kernel_gives(kernel, v1, v2, x) && #[trigger] kernel_gives(kernel, v1, v2, y) ==> x == y
}

/// The root routine gives at most one root for a radicand.
pub open spec fn root_is_function<S: Fn(Binary32) -> Binary32>(root: S) -> bool {
    forall|x: Binary32, y: Binary32, z: Binary32| #[trigger]
        root.ensures((x,), y) && #[trigger] root.ensures((x,), z) ==> y == z
}

/// The norm of a vector is the checked square root of the dot product of the
/// vector with itself: the outcomes of the one are the outcomes of the other.
pub proof fn lemma_norm_is_sqrt_of_self_product<
    T,
    K: Fn(&[T], &[T]) -> Binary32,
    S: Fn(Binary32) -> Binary32,
>(kernel: K, root: S, v: Seq<T>, r: Result<Binary32, ErrorView>)
    ensures
        is_vector_norm(kernel, root, v, r) <==> exists|product: Binary32|
            #[trigger] is_dot_product(kernel, v, v, Ok::<Binary32, ErrorView>(product)) && is_sqrt(
                root,
                product,
                r,
            ),
{
    if is_vector_norm(kernel, root, v, r) {
        let product = choose|product: Binary32|
            #[trigger] kernel_gives(kernel, v, v, product) && is_sqrt(root, product, r);
        assert(is_dot_product(kernel, v, v, Ok::<Binary32, ErrorView>(product)));
    }
    if exists|product: Binary32|
        #[trigger] is_dot_product(kernel, v, v, Ok::<Binary32, ErrorView>(product)) && is_sqrt(
            root,
            product,
            r,
        ) {
        let product = choose|product: Binary32|
            #[trigger] is_dot_product(kernel, v, v, Ok::<Binary32, ErrorView>(product)) && is_sqrt(
                root,
                product,
                r,
            );
        assert(kernel_gives(kernel, v, v, product));
    }
}

/// The norm fails in one way only, and not at all where the dot product of
/// the vector with itself is never below zero.
pub proof fn lemma_norm_fails_only_below_zero<
    T,
    K: Fn(&[T], &[T]) -> Binary32,
    S: Fn(Binary32) -> Binary32,
>(kernel: K, root: S, v: Seq<T>, r: Result<Binary32, ErrorView>)
    requires
        is_vector_norm(kernel, root, v, r),
    ensures
        r is Err ==> r == Err::<Binary32, ErrorView>(invalid_radicand_view()),
        (forall|product: Binary32| #[trigger]
            kernel_gives(kernel, v, v, product) ==> !product.is_strictly_negative()) ==> r is Ok,
{
}

/// Repeating a dot product gives the same outcome, where the kernel is a
/// function of the contents of its operands.
pub proof fn lemma_dot_product_repeats<T, K: Fn(&[T], &[T]) -> Binary32>(
    kernel: K,
    v1: Seq<T>,
    v2: Seq<T>,
    first: Result<Binary32, ErrorView>,
    second: Result<Binary32, ErrorView>,
)
    requires
        kernel_is_function(kernel),
        is_dot_product(kernel, v1, v2, first),
        is_dot_product(kernel, v1, v2, second),
    ensures
        first == second,
{
}

/// Repeating a norm gives the same outcome, where the kernel and the root
/// routine are functions.
pub proof fn lemma_vector_norm_repeats<
    T,
    K: Fn(&[T], &[T]) -> Binary32,
    S: Fn(Binary32) -> Binary32,
>(
    kernel: K,
    root: S,
    v: Seq<T>,
    first: Result<Binary32, ErrorView>,
    second: Result<Binary32, ErrorView>,
)
    requires
        kernel_is_function(kernel),
        root_is_function(root),
        is_vector_norm(kernel, root, v, first),
        is_vector_norm(kernel, root, v, second),
    ensures
        first == second,
{
}

} // verus!
