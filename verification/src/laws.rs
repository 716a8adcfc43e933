//! The algebraic laws of the complex type, stated over the mathematical
//! model that the operators' contracts use and proved for every component
//! type of the `Scalar` trait.

use vstd::prelude::*;

use crate::complex::{spec_add, spec_sub, Complex};
use crate::scalar::Scalar;

verus! {

/// A complex number is determined by its model: two values with the same
/// pair of component values are the same value.
pub proof fn lemma_view_determines_value<T: Scalar>(a: Complex<T>, b: Complex<T>)
    requires
        a@ == b@,
    ensures
        a == b,
{
    T::lemma_as_int_injective(a.re, b.re);
    T::lemma_as_int_injective(a.im, b.im);
}

/// Equality of complex numbers is equality of their models.
pub proof fn lemma_eq_is_model_eq<T: Scalar>(a: Complex<T>, b: Complex<T>)
    ensures
        (a == b) <==> (a@ == b@),
{
    if a@ == b@ {
        lemma_view_determines_value(a, b);
    }
}

/// Equality is reflexive and symmetric, both on values and on models.
pub proof fn lemma_eq_reflexive_symmetric<T: Scalar>(a: Complex<T>, b: Complex<T>)
    ensures
        (a == b) <==> (b == a),
        a == a,
        (a@ == b@) <==> (b@ == a@),
        a@ == a@,
{
}

/// Identity: the default value equals a number built from two zero
/// components. `d` is as the `Default` impl returns it, `zr` and `zi` are
/// zero values of the component type, and `n` is built from them as `new`
/// builds it.
pub proof fn lemma_default_is_new_of_zeros<T: Scalar>(d: Complex<T>, zr: T, zi: T, n: Complex<T>)
    requires
        d@ == (0int, 0int),
        zr.as_int() == 0,
        zi.as_int() == 0,
        n.re == zr,
        n.im == zi,
    ensures
        d == n,
{
    lemma_view_determines_value(d, n);
}

/// Additive identity: adding the zero value `e` to any `z` returns `z`
/// itself. `s` is as the addition operator returns it.
pub proof fn lemma_add_identity<T: Scalar>(z: Complex<T>, e: Complex<T>, s: Complex<T>)
    requires
        e@ == (0int, 0int),
        s@ == spec_add(z@, e@),
    ensures
        s == z,
{
    lemma_view_determines_value(s, z);
}

/// Commutativity of addition: for all `a` and `b`, the sum of `a` and `b`
/// equals the sum of `b` and `a`. `ab` and `ba` are as the addition operator
/// returns them for the two orders.
pub proof fn lemma_add_commutative<T: Scalar>(
    a: Complex<T>,
    b: Complex<T>,
    ab: Complex<T>,
    ba: Complex<T>,
)
    requires
        ab@ == spec_add(a@, b@),
        ba@ == spec_add(b@, a@),
    ensures
        ab == ba,
{
    lemma_view_determines_value(ab, ba);
}

/// Associativity of addition: for all `a`, `b` and `c`, `(a + b) + c`
/// equals `a + (b + c)`. `l` and `r` are as the two addition orders return
/// them.
pub proof fn lemma_add_associative<T: Scalar>(
    a: Complex<T>,
    b: Complex<T>,
    c: Complex<T>,
    l: Complex<T>,
    r: Complex<T>,
)
    requires
        l@ == spec_add(spec_add(a@, b@), c@),
        r@ == spec_add(a@, spec_add(b@, c@)),
    ensures
        l == r,
{
    lemma_view_determines_value(l, r);
}

/// Subtraction inverts addition: for all `a` and `b`, `(a + b) - b` equals
/// `a`. `s` is the sum and `d` the difference, as the operators return them.
pub proof fn lemma_sub_inverts_add<T: Scalar>(
    a: Complex<T>,
    b: Complex<T>,
    s: Complex<T>,
    d: Complex<T>,
)
    requires
        s@ == spec_add(a@, b@),
        d@ == spec_sub(s@, b@),
    ensures
        d == a,
{
    lemma_view_determines_value(d, a);
}

} // verus!
