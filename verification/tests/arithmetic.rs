use complex_num::Complex;

#[test]
fn it_works() {
    let a = Complex::new(3, 2);
    let b = Complex::new(2, -(3));

    let c = a * b;
    assert_eq!(c, (12, -9 + 4).into());

    let c = a + b;
    assert_eq!(c, Complex::new(5, -(1)));

    let c = a - b;
    assert_eq!(c, Complex::new(1, 5));

    assert_eq!(b - a, -c);

    assert_eq!(a / b, (0, 1).into());
}

#[test]
fn product_follows_the_formula() {
    let c = Complex::new(3i64, 2) * Complex::new(2, -3);
    assert_eq!(c.real_part(), 12);
    assert_eq!(c.imaginary(), -5);
    let d = Complex::new(1i64, 1) * Complex::new(1, 1);
    assert_eq!(d, Complex::new(0, 2));
    let e = Complex::new(0i64, 1) * Complex::new(0, 1);
    assert_eq!(e, Complex::new(-1, 0));
}

#[test]
fn sum_and_difference_are_componentwise() {
    assert_eq!(Complex::new(3, 2) + Complex::new(2, -3), Complex::new(5, -1));
    assert_eq!(Complex::new(3, 2) - Complex::new(2, -3), Complex::new(1, 5));
    assert_eq!(Complex::new(2, -3) - Complex::new(3, 2), Complex::new(-1, -5));
    assert_eq!(Complex::new(0u8, 0) + Complex::new(0, 0), Complex::new(0, 0));
}

#[test]
fn sum_and_product_commute() {
    let x = Complex::new(7i32, -4);
    let y = Complex::new(-2i32, 9);
    assert_eq!(x + y, y + x);
    assert_eq!(x + y, Complex::new(5, 5));
    assert_eq!(x * y, y * x);
    assert_eq!(x * y, Complex::new(-14 + 36, 8 + 63));
}

#[test]
fn difference_is_the_negated_reverse() {
    let x = Complex::new(7i64, -4);
    let y = Complex::new(-2i64, 9);
    assert_eq!(x - y, -(y - x));
    assert_eq!(x - y, Complex::new(9, -13));
}

#[test]
fn negation_is_an_involution() {
    let x = Complex::new(7i64, -4);
    assert_eq!(-x, Complex::new(-7, 4));
    assert_eq!(-(-x), x);
    let zero = Complex::new(0i32, 0);
    assert_eq!(-zero, zero);
}

#[test]
fn quotient_follows_the_formula() {
    let q = Complex::new(3, 2) / Complex::new(2, -3);
    assert_eq!(q, Complex::new(0, 1));
    // (7 + 4i) / (2 + i): numerators 18 and 1 over 5, rounded toward zero
    assert_eq!(Complex::new(7, 4) / Complex::new(2, 1), Complex::new(3, 0));
    // (-7 + 4i) / (2 + i): numerators -10 and 15 over 5
    assert_eq!(Complex::new(-7, 4) / Complex::new(2, 1), Complex::new(-2, 3));
    // (-9 + 0i) / (2 + 0i): -18 over 4 rounds toward zero
    assert_eq!(Complex::new(-9, 0) / Complex::new(2, 0), Complex::new(-4, 0));
}

#[test]
fn division_undoes_multiplication() {
    let q = Complex::new(5i64, -7);
    let y = Complex::new(-3i64, 4);
    let x = q * y;
    assert_eq!(x, Complex::new(-15 + 28, 21 + 20));
    assert_eq!(x / y, q);
    assert_eq!((x / y) * y, x);
    let q = Complex::new(-6i32, 11);
    let y = Complex::new(0i32, -2);
    assert_eq!((q * y) / y, q);
}

#[test]
fn division_is_close_for_floats() {
    let x = Complex::new(3.0f64, 2.0);
    let y = Complex::new(2.0f64, -3.0);
    let back = (x / y) * y;
    assert!((back.real_part() - 3.0).abs() < 1e-12);
    assert!((back.imaginary() - 2.0).abs() < 1e-12);
    assert_eq!(x / y, Complex::new(0.0, 1.0));
}

#[test]
fn zero_divisor_is_passed_to_the_scalar() {
    let q = Complex::new(1.0f64, 2.0) / Complex::new(0.0, 0.0);
    assert!(q.real_part().is_nan());
    assert!(q.imaginary().is_nan());
    let s = Complex::new(1.0f64, -2.0) / 0.0;
    assert_eq!(s.real_part(), f64::INFINITY);
    assert_eq!(s.imaginary(), f64::NEG_INFINITY);
}

#[test]
fn scalar_sum_and_difference_shift_the_real_part() {
    assert_eq!(Complex::new(3, 2) + 4, Complex::new(7, 2));
    assert_eq!(Complex::new(3, 2) - 4, Complex::new(-1, 2));
    assert_eq!(Complex::new(3, 2) + 0, Complex::new(3, 2));
}

#[test]
fn scalar_product_and_quotient_scale_both_parts() {
    assert_eq!(Complex::new(3, 2) * 4, Complex::new(12, 8));
    assert_eq!(Complex::new(12, -8) / 4, Complex::new(3, -2));
    assert_eq!(Complex::new(7, -7) / 2, Complex::new(3, -3));
    assert_eq!(Complex::new(3, 2) * 0, Complex::new(0, 0));
}

#[test]
fn compound_assignment_matches_the_binary_operator() {
    let a = Complex::new(3, 2);
    let b = Complex::new(2, -3);

    let mut c = a;
    c += b;
    assert_eq!(c, a + b);
    let mut c = a;
    c -= b;
    assert_eq!(c, a - b);
    let mut c = a;
    c *= b;
    assert_eq!(c, a * b);
    assert_eq!(c, Complex::new(12, -5));
    let mut c = a;
    c /= b;
    assert_eq!(c, a / b);
    assert_eq!(c, Complex::new(0, 1));
}

#[test]
fn compound_assignment_with_a_scalar_matches_the_binary_operator() {
    let a = Complex::new(12, -8);

    let mut c = a;
    c += 4;
    assert_eq!(c, a + 4);
    assert_eq!(c, Complex::new(16, -8));
    let mut c = a;
    c -= 4;
    assert_eq!(c, a - 4);
    assert_eq!(c, Complex::new(8, -8));
    let mut c = a;
    c *= 4;
    assert_eq!(c, a * 4);
    assert_eq!(c, Complex::new(48, -32));
    let mut c = a;
    c /= 4;
    assert_eq!(c, a / 4);
    assert_eq!(c, Complex::new(3, -2));
}

#[test]
fn quotient_times_divisor_stays_close() {
    let x = Complex::new(7i64, 4);
    let y = Complex::new(2i64, 1);
    let back = (x / y) * y;
    assert_eq!(back, Complex::new(6, 3));
    assert!((x.real_part() - back.real_part()).abs() < 3);
    assert!((x.imaginary() - back.imaginary()).abs() < 3);

    let x = Complex::new(-100i32, 37);
    let y = Complex::new(-6i32, 11);
    let back = (x / y) * y;
    assert_eq!(x / y, Complex::new(6, 5));
    assert_eq!(back, Complex::new(-91, 36));
    assert!((x.real_part() - back.real_part()).abs() < 17);
    assert!((x.imaginary() - back.imaginary()).abs() < 17);
}

#[test]
fn exact_quotient_times_divisor_gives_the_dividend_back() {
    // numerators 0 and 13 over 13
    let x = Complex::new(3i16, 2);
    let y = Complex::new(2i16, -3);
    assert_eq!((x / y) * y, x);
    // numerators 12 and 8 over 4, in an unsigned type
    let x = Complex::new(6u64, 4);
    let y = Complex::new(2u64, 0);
    assert_eq!(x / y, Complex::new(3, 2));
    assert_eq!((x / y) * y, x);
    // numerators -50 and 25 over 25
    let x = Complex::new(-10i128, -5);
    let y = Complex::new(3i128, 4);
    assert_eq!(x / y, Complex::new(-2, 1));
    assert_eq!((x / y) * y, x);
}

#[test]
fn laws_hold_in_a_narrow_type() {
    let x = Complex::new(7i8, -4);
    let y = Complex::new(-2i8, 3);
    assert_eq!(x + y, y + x);
    assert_eq!(x * y, y * x);
    assert_eq!(x * y, Complex::new(-14 + 12, 8 + 21));
    assert_eq!(x - y, -(y - x));
    assert_eq!(-(-x), x);
}
