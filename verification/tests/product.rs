use num::BigUint;
use rangeproduct::engine::{
    factorial_fold, factorial_par, from_native, multiply, range_product_join, range_product_seq,
    try_range_product, ProductError,
};

fn big(n: u128) -> BigUint {
    BigUint::from(n)
}

/// An independent naive factorial, for cross-checking small results.
fn naive_factorial(n: u32) -> u128 {
    let mut acc: u128 = 1;
    for i in 1..=n as u128 {
        acc *= i;
    }
    acc
}

#[test]
fn join_single_element_range_one() {
    assert_eq!(range_product_join(1, 1), big(1));
}

#[test]
fn join_one_to_five() {
    assert_eq!(range_product_join(1, 5), big(120));
}

#[test]
fn join_five_to_five() {
    assert_eq!(range_product_join(5, 5), big(5));
}

#[test]
fn join_three_to_four() {
    assert_eq!(range_product_join(3, 4), big(12));
}

#[test]
fn join_one_to_ten() {
    assert_eq!(range_product_join(1, 10), big(3628800));
}

#[test]
fn join_range_holding_zero() {
    assert_eq!(range_product_join(0, 5), big(0));
}

#[test]
fn seq_matches_scenarios() {
    assert_eq!(range_product_seq(1, 1), big(1));
    assert_eq!(range_product_seq(1, 5), big(120));
    assert_eq!(range_product_seq(5, 5), big(5));
    assert_eq!(range_product_seq(3, 4), big(12));
    assert_eq!(range_product_seq(1, 10), big(3628800));
}

#[test]
fn join_agrees_with_naive_factorial_up_to_twenty() {
    for n in 1..=20u32 {
        assert_eq!(range_product_join(1, n), big(naive_factorial(n)));
        assert_eq!(range_product_seq(1, n), big(naive_factorial(n)));
    }
}

#[test]
fn fold_agrees_with_naive_factorial_up_to_twenty() {
    for n in 0..=20u32 {
        assert_eq!(factorial_fold(n), big(naive_factorial(n)));
    }
}

#[test]
fn fold_of_zero_is_identity() {
    assert_eq!(factorial_fold(0), big(1));
}

#[test]
fn par_reduction_matches_naive_factorial() {
    for n in 1..=20u32 {
        assert_eq!(factorial_par(n), Ok(big(naive_factorial(n))));
    }
}

#[test]
fn par_reduction_of_empty_sequence_fails() {
    let r = factorial_par(0);
    assert_eq!(r, Err(ProductError::EmptyRange));
}

#[test]
fn out_of_order_range_is_rejected() {
    assert_eq!(try_range_product(3, 2), Err(ProductError::InvalidRange));
    assert_eq!(try_range_product(u32::MAX, 0), Err(ProductError::InvalidRange));
}

#[test]
fn in_order_range_is_accepted() {
    assert_eq!(try_range_product(2, 3), Ok(big(6)));
    assert_eq!(try_range_product(7, 7), Ok(big(7)));
}

#[test]
fn from_native_builds_the_same_number() {
    assert_eq!(from_native(0), big(0));
    assert_eq!(from_native(123), big(123));
    assert_eq!(from_native(u32::MAX), BigUint::from(u32::MAX));
}

#[test]
fn multiply_is_the_arithmetic_product() {
    assert_eq!(multiply(from_native(6), from_native(7)), big(42));
    assert_eq!(multiply(from_native(0), from_native(7)), big(0));
    let large = range_product_join(1, 30);
    assert_eq!(
        multiply(large.clone(), from_native(31)),
        range_product_join(1, 31)
    );
    assert!(multiply(large.clone(), from_native(2)) != large);
}

#[test]
fn strategies_agree_on_the_same_range() {
    for &(a, b) in &[(1u32, 1u32), (1, 17), (4, 9), (100, 200)] {
        assert_eq!(range_product_join(a, b), range_product_seq(a, b));
    }
    for n in 1..=15u32 {
        assert_eq!(factorial_par(n).unwrap(), factorial_fold(n));
        assert_eq!(range_product_join(1, n), factorial_fold(n));
    }
}

#[test]
fn result_independent_of_worker_count() {
    let one_worker = rayon::ThreadPoolBuilder::new().num_threads(1).build().unwrap();
    let four_workers = rayon::ThreadPoolBuilder::new().num_threads(4).build().unwrap();
    let serial = one_worker.install(|| range_product_join(1, 200));
    let parallel = four_workers.install(|| range_product_join(1, 200));
    assert_eq!(serial, parallel);
    assert_eq!(serial, range_product_seq(1, 200));
    let serial_par = one_worker.install(|| factorial_par(200));
    let parallel_par = four_workers.install(|| factorial_par(200));
    assert_eq!(serial_par, parallel_par);
}

#[test]
fn digit_count_follows_stirling() {
    for &n in &[10u32, 25, 50, 100, 250, 500, 1000] {
        let digits = range_product_join(1, n).to_string().len() as f64;
        let nf = n as f64;
        let log10_factorial = (nf * nf.ln() - nf + 0.5 * (2.0 * std::f64::consts::PI * nf).ln())
            / std::f64::consts::LN_10;
        let predicted = log10_factorial.floor() + 1.0;
        assert!((digits - predicted).abs() <= 1.0);
    }
}
