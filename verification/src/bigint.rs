//! The arbitrary-precision integer capability, consumed from the `num` crate
//! behind trusted contracts, and the two `rayon` entry points that run parts
//! of the computation concurrently.

use vstd::prelude::*;
use rayon::iter::{IntoParallelIterator, ParallelIterator};

verus! {

use crate::arith::range_product;

#[verifier::external_type_specification]
#[verifier::external_body]
pub struct ExBigUint(num::BigUint);

/// The non-negative integer that a `num::BigUint` stands for.
pub uninterp spec fn big_value(x: num::BigUint) -> nat;

/// Relies on `impl From<u32> for num::BigUint`: the constructed value equals
/// the native integer, for every value of the native width.
#[verifier::external_body]
pub(crate) fn big_from_u32(n: u32) -> (r: num::BigUint)
    ensures
        big_value(r) == n as nat,
{
    num::BigUint::from(n)
}

/// Relies on `One::one` for `num::BigUint`: the multiplicative identity.
#[verifier::external_body]
pub(crate) fn big_one() -> (r: num::BigUint)
    ensures
        big_value(r) == 1,
{
    <num::BigUint as num::One>::one()
}

/// Relies on `Mul for num::BigUint`: the returned value is the product of the
/// operands' values, at arbitrary and differing magnitudes, without overflow.
#[verifier::external_body]
pub(crate) fn big_mul(x: num::BigUint, y: num::BigUint) -> (r: num::BigUint)
    ensures
        big_value(r) == big_value(x) * big_value(y),
{
    x * y
}

/// Relies on `rayon::join`: it runs both closures, possibly concurrently, and
/// returns their two results as a pair. Each closure only calls the library's
/// `range_product_join`, whose own contract gives each component's value.
#[verifier::external_body]
pub(crate) fn join_range_products(a: u32, mid: u32, b: u32) -> (r: (
    num::BigUint,
    num::BigUint,
))
    requires
        a <= mid,
        mid < b,
    ensures
        big_value(r.0) == range_product(a as nat, mid as nat),
        big_value(r.1) == range_product((mid + 1) as nat, b as nat),
{
    rayon::join(
        || crate::engine::range_product_join(a, mid),
        || crate::engine::range_product_join(mid + 1, b),
    )
}

/// Relies on rayon's `into_par_iter`, `map` and `reduce_with` over 1..=n:
/// `reduce_with` returns `None` exactly when the iterator is empty, and
/// otherwise combines all mapped items pairwise with the given operator, in
/// an unspecified grouping. The map closure only calls the library's
/// `from_native`, so the item made from index i has value i; the operator
/// only calls the library's `multiply`, whose value is the product of its
/// operands' values. Multiplication of naturals is associative and
/// commutative, so every grouping yields the product of all of 1..=n.
#[verifier::external_body]
pub(crate) fn par_multiply_range(n: u32) -> (r: Option<num::BigUint>)
    ensures
        n == 0 ==> r is None,
        n >= 1 ==> r is Some,
        r is Some ==> big_value(r->0) == range_product(1, n as nat),
{
    (1u32..=n)
        .into_par_iter()
        .map(crate::engine::from_native)
        .reduce_with(|x, y| crate::engine::multiply(x, y))
}

} // verus!
