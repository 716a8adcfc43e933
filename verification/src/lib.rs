//! Complex numbers over fixed-width integer component types, with verified
//! componentwise arithmetic, a zero (default) value, exact equality, and a
//! decimal rendering of the form `<re>+<im>i`.

pub mod complex;
pub mod decimal;
pub mod laws;
pub mod scalar;

pub use complex::Complex;
pub use scalar::Scalar;
