//! Two formulations of the dot product kernel.
//!
//! Both are generic in the scalar: the caller hands in the zero, the
//! multiplication and the addition. Both add the products up from the left,
//! starting at the zero, so they give the same scalar wherever the two
//! operations are functions of their arguments.

use vstd::prelude::*;

verus! {

/// `acc` is a sum of the first `n` elementwise products of `v1` and `v2`:
/// the zero for `n == 0`, else an outcome of adding the `n`-th product to a
/// sum of the first `n - 1`.
pub open spec fn is_dot<T, M: Fn(T, T) -> T, A: Fn(T, T) -> T>(
    times: M,
    plus: A,
    zero: T,
    v1: Seq<T>,
    v2: Seq<T>,
    n: nat,
    acc: T,
) -> bool
    decreases n,
{
    if n == 0 {
        acc == zero
    } else {
        exists|before: T, product: T|
            {
                &&& is_dot(times, plus, zero, v1, v2, (n - 1) as nat, before)
                &&& times.ensures((v1[n - 1], v2[n - 1]), product)
                &&& #[trigger] plus.ensures((before, product), acc)
            }
    }
}

/// The operation gives at most one result for each pair of arguments.
pub open spec fn is_function<T, F: Fn(T, T) -> T>(f: F) -> bool {
    forall|a: T, b: T, x: T, y: T| #[trigger]
        f.ensures((a, b), x) && #[trigger] f.ensures((a, b), y) ==> x == y
}

/// The smaller of two lengths.
pub open spec fn shorter(a: nat, b: nat) -> nat {
    if a <= b {
        a
    } else {
        b
    }
}

/// The dot product by an index loop: each product is computed, then added to
/// the running sum.
///
/// The first operand decides how many products there are; the second must
/// be at least as long.
pub fn vector_dot_product_inefficient<T: Copy, M, A>(
    v1: Vec<T>,
    v2: Vec<T>,
    zero: T,
    times: M,
    plus: A,
) -> (result: T) where M: Fn(T, T) -> T, A: Fn(T, T) -> T
    requires
        v1@.len() <= v2@.len(),
        forall|a: T, b: T| times.requires((a, b)),
        forall|a: T, b: T| plus.requires((a, b)),
    ensures
        is_dot(times, plus, zero, v1@, v2@, v1@.len(), result),
{
    let mut result = zero;
    let n = v1.len();
    for i in 0..n
        invariant
            n == v1@.len(),
            n <= v2@.len(),
            forall|a: T, b: T| times.requires((a, b)),
            forall|a: T, b: T| plus.requires((a, b)),
            is_dot(times, plus, zero, v1@, v2@, i as nat, result),
    {
        let product = times(v1[i], v2[i]);
        let sum = plus(result, product);
        result = sum;
    }
    result
}

/// The dot product by a fused reduction: one pass over the pairs of the two
/// operands, which ends with the shorter one.
pub fn vector_dot_product_efficient<T: Copy, M, A>(
    v1: &[T],
    v2: &[T],
    zero: T,
    times: M,
    plus: A,
) -> (result: T) where M: Fn(T, T) -> T, A: Fn(T, T) -> T
    requires
        forall|a: T, b: T| times.requires((a, b)),
        forall|a: T, b: T| plus.requires((a, b)),
    ensures
        is_dot(times, plus, zero, v1@, v2@, shorter(v1@.len(), v2@.len()), result),
{
    let mut result = zero;
    let mut i: usize = 0;
    while i < v1.len() && i < v2.len()
        invariant
            i <= v1@.len(),
            i <= v2@.len(),
            forall|a: T, b: T| times.requires((a, b)),
            forall|a: T, b: T| plus.requires((a, b)),
            is_dot(times, plus, zero, v1@, v2@, i as nat, result),
        decreases v1@.len() - i,
    {
        result = plus(result, times(v1[i], v2[i]));
        i += 1;
    }
    result
}

/// A sum of products is unique where the two operations are functions: any
/// two sums of the first `n` products are the same scalar.
pub proof fn lemma_dot_is_unique<T, M: Fn(T, T) -> T, A: Fn(T, T) -> T>(
    times: M,
    plus: A,
    zero: T,
    v1: Seq<T>,
    v2: Seq<T>,
    n: nat,
    x: T,
    y: T,
)
    requires
        is_function(times),
        is_function(plus),
        is_dot(times, plus, zero, v1, v2, n, x),
        is_dot(times, plus, zero, v1, v2, n, y),
    ensures
        x == y,
    decreases n,
{
    if n > 0 {
        let (bx, px) = choose|before: T, product: T|
            {
                &&& is_dot(times, plus, zero, v1, v2, (n - 1) as nat, before)
                &&& times.ensures((v1[n - 1], v2[n - 1]), product)
                &&& #[trigger] plus.ensures((before, product), x)
            };
        let (by, py) = choose|before: T, product: T|
            {
                &&& is_dot(times, plus, zero, v1, v2, (n - 1) as nat, before)
                &&& times.ensures((v1[n - 1], v2[n - 1]), product)
                &&& #[trigger] plus.ensures((before, product), y)
            };
        lemma_dot_is_unique(times, plus, zero, v1, v2, (n - 1) as nat, bx, by);
    }
}

/// The two formulations are interchangeable: on operands of one length, with
/// operations that are functions, the index loop and the fused reduction
/// give the same scalar.
pub proof fn lemma_formulations_agree<T, M: Fn(T, T) -> T, A: Fn(T, T) -> T>(
    times: M,
    plus: A,
    zero: T,
    v1: Seq<T>,
    v2: Seq<T>,
    by_index: T,
    by_reduction: T,
)
    requires
        is_function(times),
        is_function(plus),
        v1.len() == v2.len(),
        is_dot(times, plus, zero, v1, v2, v1.len(), by_index),
        is_dot(times, plus, zero, v1, v2, shorter(v1.len(), v2.len()), by_reduction),
    ensures
        by_index == by_reduction,
{
    lemma_dot_is_unique(times, plus, zero, v1, v2, v1.len(), by_index, by_reduction);
}

/// The dot product of a vector with itself stays in every class of scalars
/// that holds the zero, every product of a scalar with itself, and every sum
/// of two of its members. With the scalars that are not below zero as the
/// class, this says that such a dot product is not below zero.
pub proof fn lemma_self_product_stays_in_class<T, M: Fn(T, T) -> T, A: Fn(T, T) -> T>(
    times: M,
    plus: A,
    zero: T,
    v: Seq<T>,
    n: nat,
    acc: T,
    class: spec_fn(T) -> bool,
)
    requires
        n <= v.len(),
        class(zero),
        forall|a: T, square: T| #[trigger] times.ensures((a, a), square) ==> class(square),
        forall|x: T, y: T, sum: T|
            class(x) && class(y) && #[trigger] plus.ensures((x, y), sum) ==> class(sum),
        is_dot(times, plus, zero, v, v, n, acc),
    ensures
        class(acc),
    decreases n,
{
    if n > 0 {
        let (before, product) = choose|before: T, product: T|
            {
                &&& is_dot(times, plus, zero, v, v, (n - 1) as nat, before)
                &&& times.ensures((v[n - 1], v[n - 1]), product)
                &&& #[trigger] plus.ensures((before, product), acc)
            };
        lemma_self_product_stays_in_class(times, plus, zero, v, (n - 1) as nat, before, class);
    }
}

} // verus!
