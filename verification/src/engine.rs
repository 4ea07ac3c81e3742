//! The range-product strategies: fork-join divide and conquer (the core),
//! the same recursion run sequentially, the plain sequential fold, and the
//! flat parallel reduction.

use vstd::prelude::*;

verus! {

use vstd::arithmetic::mul::lemma_mul_is_commutative;
use crate::arith::{
    range_product,
    factorial,
    lemma_range_product_singleton,
    lemma_range_product_split,
    lemma_range_product_is_factorial,
};
use crate::bigint::{
    big_value,
    big_from_u32,
    big_one,
    big_mul,
    join_range_products,
    par_multiply_range,
};

/// Why a product was not computed: the flat reduction was handed an empty
/// sequence of factors, or a range's bounds were out of order.
#[derive(Clone, Copy, PartialEq, Eq, Structural, Debug)]
pub enum ProductError {
    EmptyRange,
    InvalidRange,
}

/// Wraps a native integer as a Big-Integer Value.
pub fn from_native(n: u32) -> (r: num::BigUint)
    ensures
        big_value(r) == n as nat,
{
    big_from_u32(n)
}

/// The product of two Big-Integer Values. Both operands are consumed and a
/// new value is returned; nothing is mutated in place.
pub fn multiply(x: num::BigUint, y: num::BigUint) -> (r: num::BigUint)
    ensures
        big_value(r) == big_value(x) * big_value(y),
{
    big_mul(x, y)
}

/// The fork-join divide-and-conquer range product: the product of all
/// integers in the closed range [a, b], splitting at the midpoint and
/// evaluating the two halves as independent concurrent tasks. A range with
/// a > b is rejected by the precondition; `try_range_product` is the guarded
/// entry point for unchecked bounds.
pub fn range_product_join(a: u32, b: u32) -> (r: num::BigUint)
    requires
        a <= b,
    ensures
        big_value(r) == range_product(a as nat, b as nat),
{
    if a == b {
        proof {
            lemma_range_product_singleton(a as nat);
        }
        from_native(a)
    } else {
        let mid = a + (b - a) / 2;
        let (x, y) = join_range_products(a, mid, b);
        proof {
            lemma_range_product_split(a as nat, mid as nat, b as nat);
        }
        multiply(x, y)
    }
}

/// The sequential divide-and-conquer range product: the same split policy as
/// the fork-join strategy, evaluated by plain recursion in one thread.
pub fn range_product_seq(a: u32, b: u32) -> (r: num::BigUint)
    requires
        a <= b,
    ensures
        big_value(r) == range_product(a as nat, b as nat),
    decreases b - a,
{
    if a == b {
        proof {
            lemma_range_product_singleton(a as nat);
        }
        from_native(a)
    } else {
        let mid = a + (b - a) / 2;
        let x = range_product_seq(a, mid);
        let y = range_product_seq(mid + 1, b);
        proof {
            lemma_range_product_split(a as nat, mid as nat, b as nat);
        }
        multiply(x, y)
    }
}

/// The guarded entry point over the fork-join strategy: an out-of-order
/// range is rejected with `InvalidRange` rather than left undefined.
pub fn try_range_product(a: u32, b: u32) -> (r: Result<num::BigUint, ProductError>)
    ensures
        a <= b ==> (r matches Ok(v) && big_value(v) == range_product(a as nat, b as nat)),
        a > b ==> (r matches Err(e) && e == ProductError::InvalidRange),
{
    if a <= b {
        Ok(range_product_join(a, b))
    } else {
        Err(ProductError::InvalidRange)
    }
}

/// Determinism across strategies and schedules: two results that each meet
/// the range-product contract for the same range are the same number. Which
/// strategy produced a result, how many worker threads ran it, and in which
/// order the forked halves completed cannot show in the value.
pub proof fn lemma_result_schedule_independent(
    x: num::BigUint,
    y: num::BigUint,
    a: nat,
    b: nat,
)
    requires
        big_value(x) == range_product(a, b),
        big_value(y) == range_product(a, b),
    ensures
        big_value(x) == big_value(y),
{
}

/// The plain sequential fold: multiply the factors 1, 2, ..., n one at a
/// time into a running product that starts at the multiplicative identity.
/// With no factors (n == 0) the result is the identity, 1 == 0!.
pub fn factorial_fold(n: u32) -> (r: num::BigUint)
    ensures
        big_value(r) == factorial(n as nat),
{
    let mut acc = big_one();
    let mut i: u32 = 0;
    while i < n
        invariant
            i <= n,
            big_value(acc) == factorial(i as nat),
        decreases n - i,
    {
        let f = from_native(i + 1);
        acc = multiply(acc, f);
        proof {
            lemma_mul_is_commutative(factorial(i as nat) as int, (i + 1) as int);
            assert(factorial((i + 1) as nat) == (i + 1) * factorial(i as nat));
        }
        i = i + 1;
    }
    acc
}

/// The flat parallel reduction: each index of 1..=n becomes a Big-Integer
/// Value independently, and all of them are combined pairwise with
/// `multiply`. An empty sequence of factors (n == 0) supplies no identity,
/// so it is reported as `EmptyRange` rather than silently defaulted.
pub fn factorial_par(n: u32) -> (r: Result<num::BigUint, ProductError>)
    ensures
        n == 0 ==> (r matches Err(e) && e == ProductError::EmptyRange),
        n >= 1 ==> (r matches Ok(v) && big_value(v) == factorial(n as nat)),
{
    match par_multiply_range(n) {
        Some(v) => {
            proof {
                lemma_range_product_is_factorial(n as nat);
            }
            Ok(v)
        },
        None => Err(ProductError::EmptyRange),
    }
}

} // verus!
