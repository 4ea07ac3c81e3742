//! The mathematical model: the product of a closed integer range, the
//! factorial, and the laws that relate them.

use vstd::prelude::*;

verus! {

use vstd::arithmetic::mul::{lemma_mul_is_associative, lemma_mul_is_commutative};

/// Product of all integers in the closed range [a, b]; 1 when the range is
/// empty (a > b), the multiplicative identity.
pub open spec fn range_product(a: nat, b: nat) -> nat
    decreases b + 1 - a,
{
    if a > b {
        1
    } else {
        a * range_product(a + 1, b)
    }
}

/// n! in the usual recursive form, with 0! == 1.
pub open spec fn factorial(n: nat) -> nat
    decreases n,
{
    if n == 0 {
        1
    } else {
        n * factorial((n - 1) as nat)
    }
}

/// A one-element range multiplies to its single element.
pub proof fn lemma_range_product_singleton(n: nat)
    ensures
        range_product(n, n) == n,
{
    assert(range_product(n + 1, n) == 1);
    assert(range_product(n, n) == n * range_product(n + 1, n));
}

/// Splitting a closed range [a, b] at any point mid in [a, b-1] and
/// multiplying the two sub-products gives the product of the whole range:
/// every factor lands in exactly one half, and multiplication is associative.
pub proof fn lemma_range_product_split(a: nat, mid: nat, b: nat)
    requires
        a <= mid,
        mid < b,
    ensures
        range_product(a, b) == range_product(a, mid) * range_product(mid + 1, b),
    decreases mid - a,
{
    if a == mid {
        lemma_range_product_singleton(a);
    } else {
        lemma_range_product_split(a + 1, mid, b);
        lemma_mul_is_associative(
            a as int,
            range_product(a + 1, mid) as int,
            range_product(mid + 1, b) as int,
        );
    }
}

/// The product of the range [1, n] is n!. For n == 0 the range is empty and
/// both sides are 1.
pub proof fn lemma_range_product_is_factorial(n: nat)
    ensures
        range_product(1, n) == factorial(n),
    decreases n,
{
    if n == 0 {
        assert(range_product(1, 0) == 1);
    } else if n == 1 {
        lemma_range_product_singleton(1);
        assert(factorial(1) == 1 * factorial(0));
    } else {
        lemma_range_product_is_factorial((n - 1) as nat);
        lemma_range_product_split(1, (n - 1) as nat, n);
        lemma_range_product_singleton(n);
        lemma_mul_is_commutative(factorial((n - 1) as nat) as int, n as int);
        assert(factorial(n) == n * factorial((n - 1) as nat));
    }
}

} // verus!
