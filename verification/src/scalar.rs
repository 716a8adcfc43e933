//! The capability bound on a component type: fixed-width integers that
//! support exact addition, subtraction, multiplication, a zero value and
//! equality, each tied to the mathematical value the scalar represents.

use vstd::prelude::*;

use crate::decimal::spec_dec;

verus! {

/// A numeric component type, modelled by the mathematical integer it
/// represents. `as_int` gives that value, `in_range` says which mathematical
/// integers the type can represent, and `from_int` maps a representable
/// integer back to the value standing for it. The executable operations are
/// exact: each one's result is pinned to the corresponding operation on the
/// models, and each requires the mathematical result to be representable, so
/// no operation of this trait overflows.
pub trait Scalar: Sized + Copy {
    /// The mathematical value of this scalar.
    spec fn as_int(self) -> int;

    /// Whether the mathematical integer `x` is representable in this type.
    spec fn in_range(x: int) -> bool;

    /// The value representing `x`; meaningful only when `in_range(x)` holds.
    spec fn from_int(x: int) -> Self;

    /// A scalar is determined by its mathematical value.
    proof fn lemma_as_int_injective(a: Self, b: Self)
        requires
            a.as_int() == b.as_int(),
        ensures
            a == b,
    ;

    /// Every value of the type has a representable mathematical value.
    proof fn lemma_in_range(self)
        ensures
            Self::in_range(self.as_int()),
    ;

    /// `from_int` inverts `as_int` on representable integers.
    proof fn lemma_from_int_as_int(x: int)
        requires
            Self::in_range(x),
        ensures
            Self::from_int(x).as_int() == x,
    ;

    /// The zero (additive identity) value of the type.
    fn zero() -> (r: Self)
        ensures
            r.as_int() == 0,
            r == Self::from_int(0),
    ;

    /// Exact addition.
    fn add(self, rhs: Self) -> (r: Self)
        requires
            Self::in_range(self.as_int() + rhs.as_int()),
        ensures
            r.as_int() == self.as_int() + rhs.as_int(),
            r == Self::from_int(self.as_int() + rhs.as_int()),
    ;

    /// Exact subtraction.
    fn sub(self, rhs: Self) -> (r: Self)
        requires
            Self::in_range(self.as_int() - rhs.as_int()),
        ensures
            r.as_int() == self.as_int() - rhs.as_int(),
            r == Self::from_int(self.as_int() - rhs.as_int()),
    ;

    /// Exact multiplication.
    fn mul(self, rhs: Self) -> (r: Self)
        requires
            Self::in_range(self.as_int() * rhs.as_int()),
        ensures
            r.as_int() == self.as_int() * rhs.as_int(),
            r == Self::from_int(self.as_int() * rhs.as_int()),
    ;

    /// Exact equality test, deciding equality of the mathematical values.
    fn eq_val(self, rhs: Self) -> (r: bool)
        ensures
            r == (self.as_int() == rhs.as_int()),
    ;

    /// The decimal rendering of this scalar's mathematical value.
    fn to_dec(self) -> (r: String)
        ensures
            r@ == spec_dec(self.as_int()),
    ;
}

impl Scalar for i32 {
    open spec fn as_int(self) -> int {
        self as int
    }

    open spec fn in_range(x: int) -> bool {
        i32::MIN <= x <= i32::MAX
    }

    open spec fn from_int(x: int) -> i32 {
        x as i32
    }

    proof fn lemma_as_int_injective(a: i32, b: i32) {
    }

    proof fn lemma_in_range(self) {
    }

    proof fn lemma_from_int_as_int(x: int) {
    }

    fn zero() -> (r: i32) {
        0
    }

    fn add(self, rhs: i32) -> (r: i32) {
        self + rhs
    }

    fn sub(self, rhs: i32) -> (r: i32) {
        self - rhs
    }

    fn mul(self, rhs: i32) -> (r: i32) {
        self * rhs
    }

    fn eq_val(self, rhs: i32) -> (r: bool) {
        self == rhs
    }

    fn to_dec(self) -> (r: String) {
        crate::decimal::dec_i64(self as i64)
    }
}

impl Scalar for i64 {
    open spec fn as_int(self) -> int {
        self as int
    }

    open spec fn in_range(x: int) -> bool {
        i64::MIN <= x <= i64::MAX
    }

    open spec fn from_int(x: int) -> i64 {
        x as i64
    }

    proof fn lemma_as_int_injective(a: i64, b: i64) {
    }

    proof fn lemma_in_range(self) {
    }

    proof fn lemma_from_int_as_int(x: int) {
    }

    fn zero() -> (r: i64) {
        0
    }

    fn add(self, rhs: i64) -> (r: i64) {
        self + rhs
    }

    fn sub(self, rhs: i64) -> (r: i64) {
        self - rhs
    }

    fn mul(self, rhs: i64) -> (r: i64) {
        self * rhs
    }

    fn eq_val(self, rhs: i64) -> (r: bool) {
        self == rhs
    }

    fn to_dec(self) -> (r: String) {
        crate::decimal::dec_i64(self)
    }
}

impl Scalar for isize {
    open spec fn as_int(self) -> int {
        self as int
    }

    open spec fn in_range(x: int) -> bool {
        isize::MIN <= x <= isize::MAX
    }

    open spec fn from_int(x: int) -> isize {
        x as isize
    }

    proof fn lemma_as_int_injective(a: isize, b: isize) {
    }

    proof fn lemma_in_range(self) {
    }

    proof fn lemma_from_int_as_int(x: int) {
    }

    fn zero() -> (r: isize) {
        0
    }

    fn add(self, rhs: isize) -> (r: isize) {
        self + rhs
    }

    fn sub(self, rhs: isize) -> (r: isize) {
        self - rhs
    }

    fn mul(self, rhs: isize) -> (r: isize) {
        self * rhs
    }

    fn eq_val(self, rhs: isize) -> (r: bool) {
        self == rhs
    }

    fn to_dec(self) -> (r: String) {
        crate::decimal::dec_i64(self as i64)
    }
}

impl Scalar for u32 {
    open spec fn as_int(self) -> int {
        self as int
    }

    open spec fn in_range(x: int) -> bool {
        0 <= x <= u32::MAX
    }

    open spec fn from_int(x: int) -> u32 {
        x as u32
    }

    proof fn lemma_as_int_injective(a: u32, b: u32) {
    }

    proof fn lemma_in_range(self) {
    }

    proof fn lemma_from_int_as_int(x: int) {
    }

    fn zero() -> (r: u32) {
        0
    }

    fn add(self, rhs: u32) -> (r: u32) {
        self + rhs
    }

    fn sub(self, rhs: u32) -> (r: u32) {
        self - rhs
    }

    fn mul(self, rhs: u32) -> (r: u32) {
        self * rhs
    }

    fn eq_val(self, rhs: u32) -> (r: bool) {
        self == rhs
    }

    fn to_dec(self) -> (r: String) {
        crate::decimal::dec_u64(self as u64)
    }
}

impl Scalar for u64 {
    open spec fn as_int(self) -> int {
        self as int
    }

    open spec fn in_range(x: int) -> bool {
        0 <= x <= u64::MAX
    }

    open spec fn from_int(x: int) -> u64 {
        x as u64
    }

    proof fn lemma_as_int_injective(a: u64, b: u64) {
    }

    proof fn lemma_in_range(self) {
    }

    proof fn lemma_from_int_as_int(x: int) {
    }

    fn zero() -> (r: u64) {
        0
    }

    fn add(self, rhs: u64) -> (r: u64) {
        self + rhs
    }

    fn sub(self, rhs: u64) -> (r: u64) {
        self - rhs
    }

    fn mul(self, rhs: u64) -> (r: u64) {
        self * rhs
    }

    fn eq_val(self, rhs: u64) -> (r: bool) {
        self == rhs
    }

    fn to_dec(self) -> (r: String) {
        crate::decimal::dec_u64(self)
    }
}

impl Scalar for usize {
    open spec fn as_int(self) -> int {
        self as int
    }

    open spec fn in_range(x: int) -> bool {
        0 <= x <= usize::MAX
    }

    open spec fn from_int(x: int) -> usize {
        x as usize
    }

    proof fn lemma_as_int_injective(a: usize, b: usize) {
    }

    proof fn lemma_in_range(self) {
    }

    proof fn lemma_from_int_as_int(x: int) {
    }

    fn zero() -> (r: usize) {
        0
    }

    fn add(self, rhs: usize) -> (r: usize) {
        self + rhs
    }

    fn sub(self, rhs: usize) -> (r: usize) {
        self - rhs
    }

    fn mul(self, rhs: usize) -> (r: usize) {
        self * rhs
    }

    fn eq_val(self, rhs: usize) -> (r: bool) {
        self == rhs
    }

    fn to_dec(self) -> (r: String) {
        crate::decimal::dec_u64(self as u64)
    }
}

} // verus!
