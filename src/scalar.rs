//! The scalar capabilities that every other type is generic over, and the
//! vocabulary the contracts use to speak of scalar arithmetic.

use core::ops::{Add, Div, Mul, Neg, Sub};
use vstd::prelude::*;
use vstd::std_specs::cmp::{PartialEqSpec, PartialOrdSpec};
use vstd::std_specs::convert::FromSpec;
use vstd::std_specs::ops::{AddSpec, DivSpec, MulSpec, NegSpec, SubSpec};

verus! {

/// A scalar with the ring operations, small integer constants and equality.
pub trait RealScalar: Copy + Add<Output = Self> + Sub<Output = Self> + Mul<Output = Self> + Neg<
    Output = Self,
> + From<i8> + PartialEq {

}

impl<T> RealScalar for T where
    T: Copy + Add<Output = T> + Sub<Output = T> + Mul<Output = T> + Neg<Output = T> + From<
        i8,
    > + PartialEq,
 {

}

/// A scalar that can also be divided and ordered.
pub trait FloatScalar: RealScalar + Div<Output = Self> + PartialOrd {

}

impl<T> FloatScalar for T where T: RealScalar + Div<Output = T> + PartialOrd {

}

/// The scalar's operators compute what their specifications in vstd state.
pub open spec fn lawful<T: RealScalar>() -> bool {
    &&& T::obeys_add_spec()
    &&& T::obeys_sub_spec()
    &&& T::obeys_mul_spec()
    &&& T::obeys_neg_spec()
    &&& T::obeys_from_spec()
    &&& T::obeys_eq_spec()
}

/// `lawful`, and division and ordering follow their specifications too.
pub open spec fn lawful_float<T: FloatScalar>() -> bool {
    &&& lawful::<T>()
    &&& T::obeys_div_spec()
    &&& T::obeys_partial_cmp_spec()
}

/// Every ring operator accepts every operand, as floating-point operators do.
pub open spec fn ring_total<T: RealScalar>() -> bool {
    &&& forall|a: T, b: T| #[trigger] a.add_req(b)
    &&& forall|a: T, b: T| #[trigger] a.sub_req(b)
    &&& forall|a: T, b: T| #[trigger] a.mul_req(b)
    &&& forall|a: T| #[trigger] a.neg_req()
}

/// Every operator, division included, accepts every operand, as
/// floating-point operators do.
pub open spec fn total<T: FloatScalar>() -> bool {
    &&& ring_total::<T>()
    &&& forall|a: T, b: T| #[trigger] a.div_req(b)
}

pub open spec fn zero<T: RealScalar>() -> T {
    T::from_spec(0i8)
}

pub open spec fn one<T: RealScalar>() -> T {
    T::from_spec(1i8)
}

pub open spec fn two<T: RealScalar>() -> T {
    T::from_spec(2i8)
}

pub open spec fn plus<T: RealScalar>(a: T, b: T) -> T {
    a.add_spec(b)
}

pub open spec fn minus<T: RealScalar>(a: T, b: T) -> T {
    a.sub_spec(b)
}

pub open spec fn times<T: RealScalar>(a: T, b: T) -> T {
    a.mul_spec(b)
}

pub open spec fn negated<T: RealScalar>(a: T) -> T {
    a.neg_spec()
}

pub open spec fn over<T: FloatScalar>(a: T, b: T) -> T {
    a.div_spec(b)
}

pub open spec fn is_zero<T: RealScalar>(a: T) -> bool {
    a.eq_spec(&zero::<T>())
}

pub open spec fn plus_ok<T: RealScalar>(a: T, b: T) -> bool {
    a.add_req(b)
}

pub open spec fn minus_ok<T: RealScalar>(a: T, b: T) -> bool {
    a.sub_req(b)
}

pub open spec fn times_ok<T: RealScalar>(a: T, b: T) -> bool {
    a.mul_req(b)
}

pub open spec fn negated_ok<T: RealScalar>(a: T) -> bool {
    a.neg_req()
}

pub open spec fn over_ok<T: FloatScalar>(a: T, b: T) -> bool {
    a.div_req(b)
}

/// `a < b` by the scalar's own ordering.
pub open spec fn less<T: FloatScalar>(a: T, b: T) -> bool {
    a.partial_cmp_spec(&b) == Some(core::cmp::Ordering::Less)
}

/// `a > b` by the scalar's own ordering.
pub open spec fn greater<T: FloatScalar>(a: T, b: T) -> bool {
    a.partial_cmp_spec(&b) == Some(core::cmp::Ordering::Greater)
}

/// The identities of a commutative ring with unit that the laws of this
/// library rest on: those exact scalar types have, and floats have up to rounding.
pub open spec fn ring_identities<T: RealScalar>() -> bool {
    &&& forall|a: T| #[trigger] plus(zero::<T>(), a) == a
    &&& forall|a: T| #[trigger] plus(a, zero::<T>()) == a
    &&& forall|a: T| #[trigger] times(one::<T>(), a) == a
    &&& forall|a: T| #[trigger] times(a, one::<T>()) == a
    &&& forall|a: T| #[trigger] times(zero::<T>(), a) == zero::<T>()
    &&& forall|a: T| #[trigger] times(a, zero::<T>()) == zero::<T>()
}

/// Distributivity and the identities of subtraction that interpolation
/// weights rest on.
pub open spec fn blend_identities<T: RealScalar>() -> bool {
    &&& forall|a: T, b: T, c: T| #[trigger] plus(times(a, b), times(a, c)) == times(a, plus(b, c))
    &&& forall|a: T, b: T| #[trigger] plus(minus(a, b), b) == a
    &&& forall|a: T| #[trigger] minus(a, zero::<T>()) == a
    &&& forall|a: T| #[trigger] minus(a, a) == zero::<T>()
}

pub fn zero_of<T: RealScalar>() -> (r: T)
    requires
        lawful::<T>(),
    ensures
        r == zero::<T>(),
{
    T::from(0i8)
}

pub fn one_of<T: RealScalar>() -> (r: T)
    requires
        lawful::<T>(),
    ensures
        r == one::<T>(),
{
    T::from(1i8)
}

pub fn two_of<T: RealScalar>() -> (r: T)
    requires
        lawful::<T>(),
    ensures
        r == two::<T>(),
{
    T::from(2i8)
}

} // verus!

verus! {

/// Relies on `num_traits::Float::sqrt`: the square root.
#[verifier::external_body]
pub(crate) fn sqrt_of<T: num_traits::Float>(x: T) -> T {
    x.sqrt()
}

/// Relies on `num_traits::Float::sin`: the sine of an angle in radians.
#[verifier::external_body]
pub(crate) fn sin_of<T: num_traits::Float>(x: T) -> T {
    x.sin()
}

/// Relies on `num_traits::Float::cos`: the cosine of an angle in radians.
#[verifier::external_body]
pub(crate) fn cos_of<T: num_traits::Float>(x: T) -> T {
    x.cos()
}

/// Relies on `num_traits::Float::tan`: the tangent of an angle in radians.
#[verifier::external_body]
pub(crate) fn tan_of<T: num_traits::Float>(x: T) -> T {
    x.tan()
}

/// Relies on `num_traits::Float::asin`: the arcsine, in radians.
#[verifier::external_body]
pub(crate) fn asin_of<T: num_traits::Float>(x: T) -> T {
    x.asin()
}

/// Relies on `num_traits::Float::acos`: the arccosine, in radians.
#[verifier::external_body]
pub(crate) fn acos_of<T: num_traits::Float>(x: T) -> T {
    x.acos()
}

/// Relies on `num_traits::Float::atan2`: the angle of the point `(x, y)`.
#[verifier::external_body]
pub(crate) fn atan2_of<T: num_traits::Float>(y: T, x: T) -> T {
    y.atan2(x)
}

/// Relies on `num_traits::float::FloatConst::FRAC_PI_2`: the constant π/2.
#[verifier::external_body]
pub(crate) fn half_pi<T: num_traits::float::FloatConst>() -> T {
    T::FRAC_PI_2()
}

/// The absolute value, by the scalar's own ordering and negation.
pub open spec fn magnitude_of<T: FloatScalar>(a: T) -> T {
    if less(a, zero::<T>()) {
        negated(a)
    } else {
        a
    }
}

pub fn abs_of<T: FloatScalar>(a: T) -> (r: T)
    requires
        lawful_float::<T>(),
        negated_ok(a),
    ensures
        r == magnitude_of(a),
{
    let z = zero_of::<T>();
    if a < z {
        a.neg()
    } else {
        a
    }
}

pub open spec fn ten<T: RealScalar>() -> T {
    T::from_spec(10i8)
}

/// One ten-thousandth short of one: past it a rotation counts as gimbal locked.
pub open spec fn near_one<T: FloatScalar>() -> T {
    minus(one::<T>(), over(one::<T>(), times(times(ten::<T>(), ten::<T>()), times(ten::<T>(), ten::<T>()))))
}

/// One hundred-thousandth short of one.
pub open spec fn nearer_one<T: FloatScalar>() -> T {
    minus(one::<T>(), over(one::<T>(), times(times(times(ten::<T>(), ten::<T>()), times(ten::<T>(), ten::<T>())), ten::<T>())))
}

pub open spec fn near_one_ok<T: FloatScalar>() -> bool {
    let t = ten::<T>();
    let h = times(t, t);
    &&& times_ok(t, t)
    &&& times_ok(h, h)
    &&& over_ok(one::<T>(), times(h, h))
    &&& minus_ok(one::<T>(), over(one::<T>(), times(h, h)))
    &&& times_ok(times(h, h), t)
    &&& over_ok(one::<T>(), times(times(h, h), t))
    &&& minus_ok(one::<T>(), over(one::<T>(), times(times(h, h), t)))
}

pub fn near_one_of<T: FloatScalar>() -> (r: T)
    requires
        lawful_float::<T>(),
        near_one_ok::<T>(),
    ensures
        r == near_one::<T>(),
{
    let t = T::from(10i8);
    let h = t * t;
    one_of::<T>() - one_of::<T>() / (h * h)
}

pub fn nearer_one_of<T: FloatScalar>() -> (r: T)
    requires
        lawful_float::<T>(),
        near_one_ok::<T>(),
    ensures
        r == nearer_one::<T>(),
{
    let t = T::from(10i8);
    let h = t * t;
    one_of::<T>() - one_of::<T>() / (h * h * t)
}

} // verus!

verus! {

/// The 64-bit signed integers meet `lawful` and `ring_identities`: the laws
/// stated under them hold there exactly.
pub proof fn lemma_i64_exact()
    ensures
        lawful::<i64>(),
        ring_identities::<i64>(),
{
    assert(zero::<i64>() == 0 && one::<i64>() == 1);
    assert forall|a: i64| #[trigger] plus(zero::<i64>(), a) == a by {}
    assert forall|a: i64| #[trigger] plus(a, zero::<i64>()) == a by {}
    assert forall|a: i64| #[trigger] times(one::<i64>(), a) == a by {}
    assert forall|a: i64| #[trigger] times(a, one::<i64>()) == a by {}
    assert forall|a: i64| #[trigger] times(zero::<i64>(), a) == zero::<i64>() by {}
    assert forall|a: i64| #[trigger] times(a, zero::<i64>()) == zero::<i64>() by {}
}

} // verus!
