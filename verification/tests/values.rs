use complex_num::text::{frame_debug, render_debug};
use complex_num::Complex;

#[test]
fn constructors_agree() {
    let a = Complex::new(3, -2);
    let b = Complex::new_const(3, -2);
    let c: Complex<i32> = (3, -2).into();
    let d = Complex::from((3, -2));
    assert_eq!(a, b);
    assert_eq!(a, c);
    assert_eq!(a, d);
    assert_eq!(a.real_part(), 3);
    assert_eq!(a.imaginary(), -2);
}

#[test]
fn scalar_converts_to_a_purely_real_value() {
    let a: Complex<i32> = 7.into();
    assert_eq!(a, Complex::new(7, 0));
    let b = Complex::from(2.5f64);
    assert_eq!(b.real_part(), 2.5);
    assert_eq!(b.imaginary(), 0.0);
    let c = Complex::from(true);
    assert_eq!(c, Complex::new(true, false));
}

#[test]
fn setters_change_one_component() {
    let mut a = Complex::new(3, 2);
    a.set_real(10);
    assert_eq!(a, Complex::new(10, 2));
    a.set_imaginary(-1);
    assert_eq!(a, Complex::new(10, -1));
    assert_eq!(a.real_part(), 10);
    assert_eq!(a.imaginary(), -1);
}

#[test]
fn equality_is_exact_and_componentwise() {
    assert!(Complex::new(1, 2) == Complex::new(1, 2));
    assert!(Complex::new(1, 2) != Complex::new(1, 3));
    assert!(Complex::new(1, 2) != Complex::new(0, 2));
    assert!(Complex::new(0.1f64 + 0.2, 0.0) != Complex::new(0.3, 0.0));
    assert!(Complex::new(0, 0) == Complex::new(0, 0));
}

#[test]
fn copies_are_independent() {
    let a = Complex::new(3, 2);
    let mut b = a;
    b.set_real(9);
    assert_eq!(a, Complex::new(3, 2));
    assert_eq!(b, Complex::new(9, 2));
    let c = a.clone();
    assert_eq!(c, a);
}

#[test]
fn debug_text_has_the_documented_form() {
    assert_eq!(format!("{:?}", Complex::new(3, 2)), "(3, 2i)");
    assert_eq!(format!("{:?}", Complex::new(3, -2)), "(3, -2i)");
    assert_eq!(format!("{:?}", Complex::new(0, 0)), "(0, 0i)");
    assert_eq!(format!("{:?}", Complex::new(1.5f64, -0.25)), "(1.5, -0.25i)");
    assert_eq!(Complex::new(-3, 2).debug_string().unwrap(), "(-3, 2i)");
}

#[test]
fn render_debug_frames_the_two_texts() {
    assert_eq!(render_debug("3", "2"), "(3, 2i)");
    assert_eq!(render_debug("", ""), "(, i)");
    assert_eq!(render_debug("a b", "-c"), "(a b, -ci)");
}

#[test]
fn frame_debug_passes_the_first_error_on() {
    let three = || Ok(String::from("3"));
    let failed = || Err(std::fmt::Error);
    assert_eq!(frame_debug(three(), Ok(String::from("-2"))), Ok(String::from("(3, -2i)")));
    assert_eq!(frame_debug(failed(), three()), Err(std::fmt::Error));
    assert_eq!(frame_debug(three(), failed()), Err(std::fmt::Error));
    assert_eq!(frame_debug(failed(), failed()), Err(std::fmt::Error));
}

#[test]
fn formatter_options_reach_the_components() {
    assert_eq!(format!("{:x?}", Complex::new(255, 16)), "(ff, 10i)");
    assert_eq!(format!("{:3?}", Complex::new(3, -2)), "(  3,  -2i)");
    assert_eq!(format!("{:.2?}", Complex::new(1.0f64, -0.5)), "(1.00, -0.50i)");
    assert_eq!(format!("{:?}{:?}", Complex::new(1, 2), Complex::new(3, 4)), "(1, 2i)(3, 4i)");
}
