use complex::Complex;

const TOLERANCE: f64 = 1e-12;

fn close(x: f64, y: f64) -> bool {
    (x - y).abs() <= TOLERANCE
}

#[test]
fn add_is_componentwise() {
    let a = Complex { real: 1.5, imag: -2.0 };
    let b = Complex { real: 0.25, imag: 4.0 };
    assert_eq!(a + b, Complex { real: 1.75, imag: 2.0 });
    let m = Complex { real: 7i32, imag: -3 };
    let n = Complex { real: -10i32, imag: 8 };
    assert_eq!(m + n, Complex { real: -3, imag: 5 });
}

#[test]
fn sub_is_componentwise() {
    let a = Complex { real: 1.5, imag: -2.0 };
    let b = Complex { real: 0.25, imag: 4.0 };
    assert_eq!(a - b, Complex { real: 1.25, imag: -6.0 });
    let m = Complex { real: 7u8, imag: 9 };
    let n = Complex { real: 2u8, imag: 9 };
    assert_eq!(m - n, Complex { real: 5, imag: 0 });
}

#[test]
fn mul_follows_the_product_formula() {
    let a = Complex { real: 1.0, imag: 2.0 };
    let b = Complex { real: 3.0, imag: 4.0 };
    assert_eq!(a * b, Complex { real: -5.0, imag: 10.0 });
    let m = Complex { real: 1i64, imag: 2 };
    let n = Complex { real: 3i64, imag: 4 };
    assert_eq!(m * n, Complex { real: -5, imag: 10 });
}

#[test]
fn mul_by_i_turns_a_quarter() {
    let i = Complex { real: 0i32, imag: 1 };
    let z = Complex { real: 6i32, imag: -11 };
    assert_eq!(z * i, Complex { real: 11, imag: 6 });
    assert_eq!(i * i, Complex { real: -1, imag: 0 });
}

#[test]
fn div_follows_the_quotient_formula() {
    let a = Complex { real: -5.0, imag: 10.0 };
    let b = Complex { real: 3.0, imag: 4.0 };
    assert_eq!(a / b, Complex { real: 1.0, imag: 2.0 });
    let one = Complex { real: 1.0, imag: 0.0 };
    let i = Complex { real: 0.0, imag: 1.0 };
    assert_eq!(one / i, Complex { real: 0.0, imag: -1.0 });
}

#[test]
fn div_of_integers_truncates_each_part() {
    let a = Complex { real: 7i32, imag: 1 };
    let b = Complex { real: 2i32, imag: 0 };
    assert_eq!(a / b, Complex { real: 3, imag: 0 });
    let c = Complex { real: -7i32, imag: 5 };
    assert_eq!(c / b, Complex { real: -3, imag: 2 });
}

#[test]
fn div_by_zero_is_left_to_the_scalar() {
    let a = Complex { real: 1.0f64, imag: 2.0 };
    let zero = Complex { real: 0.0f64, imag: 0.0 };
    let q = a / zero;
    assert!(q.real.is_nan());
    assert!(q.imag.is_nan());
}

#[test]
fn div_by_a_vanishing_modulus_overflows_to_infinity() {
    let a = Complex { real: 1.0f64, imag: 0.0 };
    let tiny = Complex { real: 1e-200f64, imag: 0.0 };
    let q = a / tiny;
    assert!(q.real.is_infinite());
    assert!(q.real > 0.0);
}

#[test]
fn abs_is_the_squared_magnitude() {
    let a = Complex { real: 3.0, imag: 4.0 };
    assert_eq!(a.abs(), 25.0);
    assert_ne!(a.abs(), 5.0);
    let m = Complex { real: -3i32, imag: 4 };
    assert_eq!(m.abs(), 25);
    let origin = Complex { real: 0u16, imag: 0 };
    assert_eq!(origin.abs(), 0);
}

#[test]
fn accessors_return_the_parts() {
    let a = Complex { real: 2.5, imag: -7.0 };
    assert_eq!(a.real_part(), 2.5);
    assert_eq!(a.imag(), -7.0);
    assert_eq!(a.real, 2.5);
    assert_eq!(a.imag, -7.0);
}

#[test]
fn conj_negates_the_imaginary_part() {
    let a = Complex { real: 2.5, imag: -7.0 };
    assert_eq!(a.conj(), Complex { real: 2.5, imag: 7.0 });
    let m = Complex { real: 4i8, imag: 127 };
    assert_eq!(m.conj(), Complex { real: 4, imag: -127 });
}

#[test]
fn conj_of_conj_is_the_number() {
    let a = Complex { real: 2.5, imag: -7.0 };
    assert_eq!(a.conj().conj(), a);
    let m = Complex { real: -9i64, imag: 13 };
    assert_eq!(m.conj().conj(), m);
}

#[test]
fn a_number_times_its_conjugate_is_its_abs() {
    let m = Complex { real: -9i64, imag: 13 };
    assert_eq!(m * m.conj(), Complex { real: m.abs(), imag: 0 });
    assert_eq!(m.abs(), 250);
}

#[test]
fn adding_zero_changes_nothing() {
    let a = Complex { real: 2.5, imag: -7.0 };
    assert_eq!(a + Complex { real: 0.0, imag: 0.0 }, a);
    let m = Complex { real: -9i64, imag: 13 };
    assert_eq!(m + Complex { real: 0, imag: 0 }, m);
    let top = Complex { real: u8::MAX, imag: u8::MAX };
    assert_eq!(top + Complex { real: 0, imag: 0 }, top);
}

#[test]
fn add_commutes() {
    let a = Complex { real: 2.5, imag: -7.0 };
    let b = Complex { real: -0.125, imag: 3.0 };
    assert_eq!(a + b, b + a);
    let m = Complex { real: -9i64, imag: 13 };
    let n = Complex { real: 21i64, imag: -4 };
    assert_eq!(m + n, n + m);
    assert_eq!(m + n, Complex { real: 12, imag: 9 });
}

#[test]
fn mul_commutes() {
    let a = Complex { real: 2.5, imag: -7.0 };
    let b = Complex { real: -0.125, imag: 3.0 };
    assert_eq!(a * b, b * a);
    let m = Complex { real: -9i64, imag: 13 };
    let n = Complex { real: 21i64, imag: -4 };
    assert_eq!(m * n, n * m);
    assert_eq!(m * n, Complex { real: -137, imag: 309 });
}

#[test]
fn div_then_mul_returns_close_to_the_dividend() {
    let a = Complex { real: 2.5, imag: -7.0 };
    let b = Complex { real: -0.125, imag: 3.0 };
    let back = (a / b) * b;
    assert!(close(back.real, a.real));
    assert!(close(back.imag, a.imag));
    let c = Complex { real: 1e3, imag: 1e-3 };
    let d = Complex { real: 0.0, imag: -2.0 };
    let again = (c / d) * d;
    assert!(close(again.real, c.real));
    assert!(close(again.imag, c.imag));
}

#[test]
fn div_undoes_mul_exactly_for_integers() {
    let q = Complex { real: -3i64, imag: 7 };
    let b = Complex { real: 2i64, imag: -5 };
    let product = q * b;
    assert_eq!(product, Complex { real: 29, imag: 29 });
    assert_eq!(product / b, q);
    assert_eq!((product / b) * b, product);
}

#[test]
fn clone_copies_both_parts() {
    let a = Complex { real: 2.5, imag: -7.0 };
    let b = a.clone();
    assert_eq!(a, b);
    let left = Complex { real: String::from("re"), imag: String::from("im") };
    let right = left.clone();
    assert_eq!(left, right);
}

#[test]
fn numbers_nest_as_scalars() {
    let a = Complex {
        real: Complex { real: 1i32, imag: 0 },
        imag: Complex { real: 0i32, imag: 1 },
    };
    let b = Complex {
        real: Complex { real: 2i32, imag: 3 },
        imag: Complex { real: 4i32, imag: 5 },
    };
    let sum = a + b;
    assert_eq!(sum.real, Complex { real: 3, imag: 3 });
    assert_eq!(sum.imag, Complex { real: 4, imag: 6 });
    let product = a * b;
    assert_eq!(product.real, Complex { real: 7, imag: -1 });
    assert_eq!(product.imag, Complex { real: 1, imag: 7 });
}

#[test]
fn equality_compares_both_parts() {
    let a = Complex { real: 2i32, imag: 3 };
    assert!(a == Complex { real: 2, imag: 3 });
    assert!(a != Complex { real: 2, imag: 4 });
    assert!(a != Complex { real: 1, imag: 3 });
    let nan = Complex { real: f64::NAN, imag: 0.0 };
    assert!(nan != nan);
}
