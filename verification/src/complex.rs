//! The complex-number type `re + im·i` and its componentwise arithmetic.
//!
//! A `Complex<T>` is modelled by the pair of the mathematical values of its
//! two components. The operators `+`, `-` and `*` are pinned to the
//! closed-form formulas over that model: addition and subtraction act
//! componentwise, and multiplication is the standard complex product.

use vstd::prelude::*;
use vstd::std_specs::cmp::PartialEqSpec;
use vstd::string::StringExecFns;

use crate::decimal::spec_dec;
use crate::scalar::Scalar;

verus! {

/// A complex number with real component `re` and imaginary component `im`,
/// both of the component type `T`. No cross-field invariant is enforced: any
/// two component values form a valid complex number.
#[derive(Clone, Debug)]
pub struct Complex<T> {
    pub re: T,
    pub im: T,
}

impl<T> Complex<T> {
    /// Builds the complex number with the given components.
    pub fn new(re: T, im: T) -> (r: Complex<T>)
        ensures
            r.re == re,
            r.im == im,
    {
        Complex { re, im }
    }

    /// Consumes the value and returns its real component.
    pub fn re(self) -> (r: T)
        ensures
            r == self.re,
    {
        self.re
    }

    /// Consumes the value and returns its imaginary component.
    pub fn im(self) -> (r: T)
        ensures
            r == self.im,
    {
        self.im
    }
}

impl<T: Scalar> View for Complex<T> {
    type V = (int, int);

    /// The mathematical model: the pair (real value, imaginary value).
    open spec fn view(&self) -> (int, int) {
        (self.re.as_int(), self.im.as_int())
    }
}

/// Componentwise addition on the mathematical model.
pub open spec fn spec_add(a: (int, int), b: (int, int)) -> (int, int) {
    (a.0 + b.0, a.1 + b.1)
}

/// Componentwise subtraction on the mathematical model.
pub open spec fn spec_sub(a: (int, int), b: (int, int)) -> (int, int) {
    (a.0 - b.0, a.1 - b.1)
}

/// The standard complex product on the mathematical model:
/// real part `a.0·b.0 − a.1·b.1`, imaginary part `a.0·b.1 + a.1·b.0`.
pub open spec fn spec_mul(a: (int, int), b: (int, int)) -> (int, int) {
    (a.0 * b.0 - a.1 * b.1, a.0 * b.1 + a.1 * b.0)
}

/// The rendering `<re>+<im>i` of a model pair: the decimal form of the real
/// value, a `'+'`, the decimal form of the imaginary value, and an `'i'`.
/// A negative imaginary value keeps its own sign, as in `1+-2i`.
pub open spec fn spec_render(v: (int, int)) -> Seq<char> {
    spec_dec(v.0) + seq!['+'] + spec_dec(v.1) + seq!['i']
}

impl<T: Scalar> Complex<T> {
    /// Renders the number as `<re>+<im>i`, for example `1+2i`.
    pub fn render(&self) -> (r: String)
        ensures
            r@ == spec_render(self@),
    {
        proof {
            reveal_strlit("+");
            reveal_strlit("i");
        }
        let mut r = self.re.to_dec();
        r.append("+");
        r.append(self.im.to_dec().as_str());
        r.append("i");
        r
    }
}

impl<T: Scalar> std::ops::Add for Complex<T> {
    type Output = Complex<T>;

    /// Componentwise addition; both component sums must be representable.
    fn add(self, rhs: Complex<T>) -> (r: Complex<T>)
        ensures
            r@ == spec_add(self@, rhs@),
    {
        Complex { re: self.re.add(rhs.re), im: self.im.add(rhs.im) }
    }
}

impl<T: Scalar> vstd::std_specs::ops::AddSpecImpl for Complex<T> {
    open spec fn obeys_add_spec() -> bool {
        true
    }

    open spec fn add_req(self, rhs: Complex<T>) -> bool {
        T::in_range(self@.0 + rhs@.0) && T::in_range(self@.1 + rhs@.1)
    }

    open spec fn add_spec(self, rhs: Complex<T>) -> Complex<T> {
        Complex { re: T::from_int(self@.0 + rhs@.0), im: T::from_int(self@.1 + rhs@.1) }
    }
}

impl<T: Scalar> std::ops::Sub for Complex<T> {
    type Output = Complex<T>;

    /// Componentwise subtraction; both component differences must be
    /// representable.
    fn sub(self, rhs: Complex<T>) -> (r: Complex<T>)
        ensures
            r@ == spec_sub(self@, rhs@),
    {
        Complex { re: self.re.sub(rhs.re), im: self.im.sub(rhs.im) }
    }
}

impl<T: Scalar> vstd::std_specs::ops::SubSpecImpl for Complex<T> {
    open spec fn obeys_sub_spec() -> bool {
        true
    }

    open spec fn sub_req(self, rhs: Complex<T>) -> bool {
        T::in_range(self@.0 - rhs@.0) && T::in_range(self@.1 - rhs@.1)
    }

    open spec fn sub_spec(self, rhs: Complex<T>) -> Complex<T> {
        Complex { re: T::from_int(self@.0 - rhs@.0), im: T::from_int(self@.1 - rhs@.1) }
    }
}

impl<T: Scalar> std::ops::Mul for Complex<T> {
    type Output = Complex<T>;

    /// The standard complex product; every intermediate product and the two
    /// final components must be representable.
    fn mul(self, rhs: Complex<T>) -> (r: Complex<T>)
        ensures
            r@ == spec_mul(self@, rhs@),
    {
        let rr = self.re.mul(rhs.re);
        let ii = self.im.mul(rhs.im);
        let ri = self.re.mul(rhs.im);
        let ir = self.im.mul(rhs.re);
        Complex { re: rr.sub(ii), im: ri.add(ir) }
    }
}

impl<T: Scalar> vstd::std_specs::ops::MulSpecImpl for Complex<T> {
    open spec fn obeys_mul_spec() -> bool {
        true
    }

    open spec fn mul_req(self, rhs: Complex<T>) -> bool {
        &&& T::in_range(self@.0 * rhs@.0)
        &&& T::in_range(self@.1 * rhs@.1)
        &&& T::in_range(self@.0 * rhs@.1)
        &&& T::in_range(self@.1 * rhs@.0)
        &&& T::in_range(self@.0 * rhs@.0 - self@.1 * rhs@.1)
        &&& T::in_range(self@.0 * rhs@.1 + self@.1 * rhs@.0)
    }

    open spec fn mul_spec(self, rhs: Complex<T>) -> Complex<T> {
        Complex {
            re: T::from_int(self@.0 * rhs@.0 - self@.1 * rhs@.1),
            im: T::from_int(self@.0 * rhs@.1 + self@.1 * rhs@.0),
        }
    }
}

impl<T: Scalar> std::default::Default for Complex<T> {
    /// The additive identity `0 + 0i`, built from the component type's zero.
    fn default() -> (r: Complex<T>)
        ensures
            r@ == (0int, 0int),
    {
        Complex { re: T::zero(), im: T::zero() }
    }
}

impl<T: PartialEq> PartialEq for Complex<T> {
    /// Two complex numbers are equal iff both pairs of components are equal,
    /// by the component type's own equality.
    fn eq(&self, other: &Complex<T>) -> bool {
        self.re == other.re && self.im == other.im
    }

    /// Explicit inequality: the negation of `eq`.
    fn ne(&self, other: &Complex<T>) -> bool {
        !(self.re == other.re && self.im == other.im)
    }
}

impl<T: PartialEq> vstd::std_specs::cmp::PartialEqSpecImpl for Complex<T> {
    open spec fn obeys_eq_spec() -> bool {
        T::obeys_eq_spec()
    }

    open spec fn eq_spec(&self, other: &Complex<T>) -> bool {
        self.re.eq_spec(&other.re) && self.im.eq_spec(&other.im)
    }
}

} // verus!
