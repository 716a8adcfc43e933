use complex_numbers::decimal::{dec_i64, dec_u64};
use complex_numbers::Complex;

#[test]
fn default_equals_new_of_zeros() {
    assert_eq!(Complex::<i64>::default(), Complex::new(0, 0));
    assert_eq!(Complex::<u32>::default(), Complex::new(0, 0));
    assert_eq!(Complex::<usize>::default(), Complex::new(0, 0));
}

#[test]
fn addition_identity() {
    let z: Complex<i32> = Complex::new(-7, 12);
    assert_eq!(z.clone() + Complex::default(), z);
}

#[test]
fn addition_commutative() {
    let a: Complex<i32> = Complex::new(3, -4);
    let b: Complex<i32> = Complex::new(-10, 25);
    assert_eq!(a.clone() + b.clone(), b + a);
}

#[test]
fn addition_associative() {
    let a: Complex<i64> = Complex::new(11, -2);
    let b: Complex<i64> = Complex::new(5, 8);
    let c: Complex<i64> = Complex::new(-9, 40);
    assert_eq!((a.clone() + b.clone()) + c.clone(), a + (b + c));
}

#[test]
fn subtraction_inverts_addition() {
    let a: Complex<i32> = Complex::new(21, -13);
    let b: Complex<i32> = Complex::new(-8, 5);
    assert_eq!((a.clone() + b.clone()) - b, a);
}

#[test]
fn subtraction_componentwise() {
    let a: Complex<i32> = Complex::new(5, 7);
    let b: Complex<i32> = Complex::new(2, 9);
    assert_eq!(a - b, Complex::new(3, -2));
}

#[test]
fn equality_reflexive_and_symmetric() {
    let a: Complex<i32> = Complex::new(4, -6);
    let b: Complex<i32> = Complex::new(4, -6);
    let c: Complex<i32> = Complex::new(4, 6);
    assert!(a == a);
    assert_eq!(a == b, b == a);
    assert_eq!(a == c, c == a);
    assert!(a != c);
}

#[test]
fn accessors_return_components() {
    let z: Complex<u64> = Complex::new(3, 9);
    assert_eq!(z.clone().re(), 3);
    assert_eq!(z.im(), 9);
}

#[test]
fn render_positive_components() {
    assert_eq!(Complex::new(1i32, 2i32).render(), "1+2i");
}

#[test]
fn render_negative_components() {
    assert_eq!(Complex::new(-1i32, -2i32).render(), "-1+-2i");
}

#[test]
fn render_zero() {
    assert_eq!(Complex::<i32>::default().render(), "0+0i");
}

#[test]
fn arithmetic_on_other_scalar_types() {
    assert_eq!(Complex::<isize>::new(2, 3) * Complex::new(1, 4), Complex::new(-10, 11));
    assert_eq!(Complex::<u64>::new(2, 3) + Complex::new(1, 4), Complex::new(3, 7));
    assert_eq!(Complex::<u32>::new(7, 2) - Complex::new(3, 1), Complex::new(4, 1));
}

#[test]
fn largest_values_add_zero() {
    let big: Complex<i32> = Complex::new(i32::MAX, i32::MIN);
    assert_eq!(big.clone() + Complex::default(), big);
    let ubig: Complex<u64> = Complex::new(u64::MAX, 0);
    assert_eq!(ubig.clone() + Complex::default(), ubig);
}

#[test]
fn decimal_rendering_bounds() {
    assert_eq!(dec_u64(0), "0");
    assert_eq!(dec_u64(10), "10");
    assert_eq!(dec_u64(u64::MAX), "18446744073709551615");
    assert_eq!(dec_i64(i64::MIN), "-9223372036854775808");
    assert_eq!(dec_i64(-1), "-1");
    assert_eq!(dec_i64(1000000), "1000000");
}
