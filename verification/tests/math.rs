use std::cell::Cell;

use vector_service::binary32::Binary32;
use vector_service::error::{INVALID_RADICAND, LENGTH_MISMATCH};
use vector_service::math::{check_root, sqrt_checked, vector_dot_product, vector_norm};

fn scalar(x: f32) -> Binary32 {
    Binary32::from_bits(x.to_bits())
}

fn float(x: Binary32) -> f32 {
    f32::from_bits(x.to_bits())
}

fn kernel(a: &[f32], b: &[f32]) -> Binary32 {
    let mut sum = 0.0f32;
    for i in 0..a.len() {
        sum += a[i] * b[i];
    }
    scalar(sum)
}

fn root(x: Binary32) -> Binary32 {
    scalar(float(x).sqrt())
}

#[test]
fn test_vector_dot_product_success() {
    let v1 = vec![1.0, 2.0, 3.0];
    let v2 = vec![4.0, 5.0, 6.0];
    assert_eq!(32.0, float(vector_dot_product(&v1, &v2, kernel).unwrap()));
}

#[test]
fn test_vector_dot_product_error() {
    let v1 = vec![1.0, 2.0, 3.0];
    let v2 = vec![4.0, 5.0];
    assert_eq!(
        "VectorServiceError: code=1, message=vectors must have the same length",
        format!("{}", vector_dot_product(&v1, &v2, kernel).unwrap_err().to_string())
    );
}

#[test]
fn dot_product_of_unequal_lengths_has_code_and_message() {
    let v1 = vec![1.0f32, 2.0, 3.0];
    let v2 = vec![4.0f32, 5.0];
    let e = vector_dot_product(&v1, &v2, kernel).unwrap_err();
    assert_eq!(e.code(), 1);
    assert_eq!(e.code(), LENGTH_MISMATCH);
    assert_eq!(e.message(), "vectors must have the same length");
    let e = vector_dot_product(&v2, &v1, kernel).unwrap_err();
    assert_eq!(e.code(), 1);
}

#[test]
fn dot_product_of_empty_against_one_element_fails() {
    let v1: Vec<f32> = vec![];
    let v2 = vec![1.0f32];
    assert_eq!(vector_dot_product(&v1, &v2, kernel).unwrap_err().code(), 1);
}

#[test]
fn dot_product_does_not_enter_the_kernel_on_unequal_lengths() {
    let calls = Cell::new(0u32);
    let counting = |a: &[f32], b: &[f32]| {
        calls.set(calls.get() + 1);
        kernel(a, b)
    };
    let v1 = vec![1.0f32, 2.0];
    let v2 = vec![1.0f32];
    assert!(vector_dot_product(&v1, &v2, &counting).is_err());
    assert_eq!(calls.get(), 0);
    assert!(vector_dot_product(&v1, &v1, &counting).is_ok());
    assert_eq!(calls.get(), 1);
}

#[test]
fn dot_product_hands_the_operands_to_the_kernel_in_order() {
    let seen = Cell::new((0.0f32, 0.0f32));
    let looking = |a: &[f32], b: &[f32]| {
        seen.set((a[0], b[0]));
        kernel(a, b)
    };
    let v1 = vec![2.0f32, 0.0];
    let v2 = vec![7.0f32, 0.0];
    assert_eq!(float(vector_dot_product(&v1, &v2, &looking).unwrap()), 14.0);
    assert_eq!(seen.get(), (2.0, 7.0));
}

#[test]
fn dot_product_of_empty_vectors_is_what_the_kernel_says() {
    let v: Vec<f32> = vec![];
    assert_eq!(float(vector_dot_product(&v, &v, kernel).unwrap()), 0.0);
}

#[test]
fn dot_product_returns_the_kernel_result_unchanged() {
    let v = vec![1.0f32];
    for bits in [
        0x7fc0_0001u32, // a NaN with a payload
        0xffc0_0000,    // a NaN with the sign bit
        0x7f80_0000,    // infinity
        0xff80_0000,    // negative infinity
        0x8000_0000,    // negative zero
        0x0000_0001,    // the least subnormal
        0xc2f7_0000,    // -123.5
    ] {
        let fixed = move |_: &[f32], _: &[f32]| Binary32::from_bits(bits);
        assert_eq!(vector_dot_product(&v, &v, fixed).unwrap().to_bits(), bits);
    }
}

#[test]
fn dot_product_propagates_nan_and_infinity() {
    let v1 = vec![f32::NAN, 1.0];
    let v2 = vec![1.0f32, 1.0];
    assert!(float(vector_dot_product(&v1, &v2, kernel).unwrap()).is_nan());
    let v1 = vec![f32::MAX, f32::MAX];
    let v2 = vec![2.0f32, 2.0];
    assert_eq!(float(vector_dot_product(&v1, &v2, kernel).unwrap()), f32::INFINITY);
}

#[test]
fn dot_product_repeats_its_result() {
    let v1 = vec![1.5f32, -2.25, 3.0, 0.1];
    let v2 = vec![4.0f32, 5.5, -6.0, 0.7];
    let first = vector_dot_product(&v1, &v2, kernel).unwrap();
    let second = vector_dot_product(&v1, &v2, kernel).unwrap();
    assert_eq!(first.to_bits(), second.to_bits());
    assert_eq!(v1, vec![1.5f32, -2.25, 3.0, 0.1]);
    assert_eq!(v2, vec![4.0f32, 5.5, -6.0, 0.7]);
}

#[test]
fn sqrt_of_a_square_is_its_root() {
    assert_eq!(float(sqrt_checked(scalar(4.0), root).unwrap()), 2.0);
    assert_eq!(float(sqrt_checked(scalar(2.25), root).unwrap()), 1.5);
    assert_eq!(float(sqrt_checked(scalar(0.0), root).unwrap()), 0.0);
}

#[test]
fn sqrt_of_a_negative_number_has_code_and_message() {
    let e = sqrt_checked(scalar(-1.0), root).unwrap_err();
    assert_eq!(e.code(), 2);
    assert_eq!(e.code(), INVALID_RADICAND);
    assert_eq!(e.message(), "sqrt called with a strictly negative number");
    assert_eq!(
        e.to_string(),
        "VectorServiceError: code=2, message=sqrt called with a strictly negative number"
    );
}

#[test]
fn sqrt_of_negative_infinity_and_of_a_small_negative_fails() {
    assert_eq!(sqrt_checked(scalar(f32::NEG_INFINITY), root).unwrap_err().code(), 2);
    assert_eq!(
        sqrt_checked(Binary32::from_bits(0x8000_0001), root).unwrap_err().code(),
        2
    );
}

#[test]
fn sqrt_of_nan_passes_through() {
    let r = sqrt_checked(scalar(f32::NAN), root).unwrap();
    assert!(float(r).is_nan());
    let r = sqrt_checked(Binary32::from_bits(0xffc0_0000), root).unwrap();
    assert!(float(r).is_nan());
}

#[test]
fn sqrt_of_negative_zero_is_negative_zero() {
    let r = sqrt_checked(scalar(-0.0), root).unwrap();
    assert_eq!(r.to_bits(), 0x8000_0000);
}

#[test]
fn sqrt_of_infinity_is_infinity() {
    assert_eq!(float(sqrt_checked(scalar(f32::INFINITY), root).unwrap()), f32::INFINITY);
}

#[test]
fn sqrt_runs_the_root_routine_once_on_the_radicand() {
    let calls = Cell::new(0u32);
    let seen = Cell::new(0u32);
    let counting = |x: Binary32| {
        calls.set(calls.get() + 1);
        seen.set(x.to_bits());
        root(x)
    };
    assert_eq!(float(sqrt_checked(scalar(9.0), &counting).unwrap()), 3.0);
    assert_eq!(calls.get(), 1);
    assert_eq!(seen.get(), 9.0f32.to_bits());
}

#[test]
fn check_root_decides_for_every_pair() {
    let nan = scalar(f32::NAN);
    // a root that is a number is handed on, whatever the radicand
    assert_eq!(float(check_root(scalar(-4.0), scalar(2.0)).unwrap()), 2.0);
    assert_eq!(float(check_root(scalar(4.0), scalar(2.0)).unwrap()), 2.0);
    // a NaN root fails only for a radicand below zero
    assert_eq!(check_root(scalar(-4.0), nan).unwrap_err().code(), 2);
    assert!(float(check_root(scalar(4.0), nan).unwrap()).is_nan());
    assert!(float(check_root(scalar(0.0), nan).unwrap()).is_nan());
    assert!(float(check_root(scalar(-0.0), nan).unwrap()).is_nan());
    assert!(float(check_root(nan, nan).unwrap()).is_nan());
    assert!(float(check_root(Binary32::from_bits(0xffc0_0000), nan).unwrap()).is_nan());
    // the NaN that is handed on is the one that came
    let payload = Binary32::from_bits(0x7fc0_1234);
    assert_eq!(check_root(nan, payload).unwrap().to_bits(), 0x7fc0_1234);
}

#[test]
fn norm_of_three_four_is_five() {
    let v = vec![3.0f32, 4.0];
    assert_eq!(float(vector_norm(&v, kernel, root).unwrap()), 5.0);
}

#[test]
fn norm_is_the_root_of_the_self_product() {
    let v = vec![1.5f32, -2.25, 3.0, 0.1, 1e-3, 7.0e3];
    let norm = float(vector_norm(&v, kernel, root).unwrap());
    let product = float(vector_dot_product(&v, &v, kernel).unwrap());
    assert!(product >= 0.0);
    assert_eq!(norm, product.sqrt());
}

#[test]
fn norm_of_the_empty_vector_is_zero() {
    let v: Vec<f32> = vec![];
    assert_eq!(float(vector_norm(&v, kernel, root).unwrap()), 0.0);
}

#[test]
fn norm_of_a_vector_with_nan_is_nan() {
    let v = vec![1.0f32, f32::NAN];
    assert!(float(vector_norm(&v, kernel, root).unwrap()).is_nan());
}

#[test]
fn norm_of_a_vector_with_infinities_is_infinity() {
    let v = vec![f32::NEG_INFINITY, 1.0, f32::INFINITY];
    assert_eq!(float(vector_norm(&v, kernel, root).unwrap()), f32::INFINITY);
    let v = vec![f32::MAX, f32::MAX];
    assert_eq!(float(vector_norm(&v, kernel, root).unwrap()), f32::INFINITY);
}

#[test]
fn norm_never_fails_on_finite_vectors() {
    let samples: [f32; 9] = [0.0, -0.0, 1.0, -1.0, 1e-30, -1e-30, 3.5e18, -3.5e18, 1e-45];
    for a in samples {
        for b in samples {
            let v = vec![a, b, a];
            assert!(vector_norm(&v, kernel, root).is_ok());
        }
    }
}

#[test]
fn norm_fails_where_the_kernel_gives_a_negative_product() {
    let odd = |_: &[f32], _: &[f32]| scalar(-4.0);
    let v = vec![2.0f32];
    let e = vector_norm(&v, odd, root).unwrap_err();
    assert_eq!(e.code(), 2);
    assert_eq!(e.message(), "sqrt called with a strictly negative number");
}

#[test]
fn norm_repeats_its_result() {
    let v = vec![0.3f32, 0.4, 1.2];
    let first = vector_norm(&v, kernel, root).unwrap();
    let second = vector_norm(&v, kernel, root).unwrap();
    assert_eq!(first.to_bits(), second.to_bits());
}
