//! Three-component vectors.

use crate::scalar::{
    lawful, lawful_float, total, minus, minus_ok, negated, negated_ok, one, one_of, over, over_ok, plus,
    plus_ok, sqrt_of, times, times_ok, FloatScalar, RealScalar,
};
use crate::vec2::Vec2;
use crate::vec4::Vec4;
use core::ops::{Add, Div, Index, Mul, Neg, Sub};
use vstd::prelude::*;
use vstd::std_specs::ops::{AddSpec, DivSpec, MulSpec, NegSpec, SubSpec};
use vstd::std_specs::convert::FromSpecImpl;
use vstd::std_specs::ops::{AddSpecImpl, DivSpecImpl, MulSpecImpl, NegSpecImpl, SubSpecImpl};

verus! {

#[derive(Clone, Copy, Debug, PartialEq, Default)]
pub struct Vec3<T> {
    pub x: T,
    pub y: T,
    pub z: T,
}

impl<T> Vec3<T> {
    /// The component at `i`: `x`, `y`, `z` for 0, 1, 2.
    pub open spec fn at(self, i: int) -> T {
        if i == 0 {
            self.x
        } else if i == 1 {
            self.y
        } else {
            self.z
        }
    }

    pub fn new(x: T, y: T, z: T) -> (r: Self)
        ensures
            r == (Vec3 { x, y, z }),
    {
        Vec3 { x, y, z }
    }
}

impl<T: Copy> Vec3<T> {
    /// The component at `i`; the index must be below three.
    pub fn get(&self, i: usize) -> (r: T)
        requires
            i < 3,
        ensures
            r == self.at(i as int),
    {
        if i == 0 {
            self.x
        } else if i == 1 {
            self.y
        } else {
            self.z
        }
    }

    pub fn extend(self, w: T) -> (r: Vec4<T>)
        ensures
            r == (Vec4 { x: self.x, y: self.y, z: self.z, w }),
    {
        Vec4 { x: self.x, y: self.y, z: self.z, w }
    }

    pub fn truncate(self) -> (r: Vec2<T>)
        ensures
            r == (Vec2 { x: self.x, y: self.y }),
    {
        Vec2 { x: self.x, y: self.y }
    }
}

pub open spec fn dot3<T: RealScalar>(a: Vec3<T>, b: Vec3<T>) -> T {
    plus(plus(times(a.x, b.x), times(a.y, b.y)), times(a.z, b.z))
}

pub open spec fn dot3_ok<T: RealScalar>(a: Vec3<T>, b: Vec3<T>) -> bool {
    &&& times_ok(a.x, b.x)
    &&& times_ok(a.y, b.y)
    &&& times_ok(a.z, b.z)
    &&& plus_ok(times(a.x, b.x), times(a.y, b.y))
    &&& plus_ok(plus(times(a.x, b.x), times(a.y, b.y)), times(a.z, b.z))
}

/// The right-handed cross product.
pub open spec fn cross3<T: RealScalar>(a: Vec3<T>, b: Vec3<T>) -> Vec3<T> {
    Vec3 {
        x: minus(times(a.y, b.z), times(a.z, b.y)),
        y: negated(minus(times(a.x, b.z), times(a.z, b.x))),
        z: minus(times(a.x, b.y), times(a.y, b.x)),
    }
}

pub open spec fn cross3_ok<T: RealScalar>(a: Vec3<T>, b: Vec3<T>) -> bool {
    &&& times_ok(a.y, b.z)
    &&& times_ok(a.z, b.y)
    &&& times_ok(a.x, b.z)
    &&& times_ok(a.z, b.x)
    &&& times_ok(a.x, b.y)
    &&& times_ok(a.y, b.x)
    &&& minus_ok(times(a.y, b.z), times(a.z, b.y))
    &&& minus_ok(times(a.x, b.z), times(a.z, b.x))
    &&& negated_ok(minus(times(a.x, b.z), times(a.z, b.x)))
    &&& minus_ok(times(a.x, b.y), times(a.y, b.x))
}

pub open spec fn add3<T: RealScalar>(a: Vec3<T>, b: Vec3<T>) -> Vec3<T> {
    Vec3 { x: plus(a.x, b.x), y: plus(a.y, b.y), z: plus(a.z, b.z) }
}

pub open spec fn add3_ok<T: RealScalar>(a: Vec3<T>, b: Vec3<T>) -> bool {
    plus_ok(a.x, b.x) && plus_ok(a.y, b.y) && plus_ok(a.z, b.z)
}

pub open spec fn sub3<T: RealScalar>(a: Vec3<T>, b: Vec3<T>) -> Vec3<T> {
    Vec3 { x: minus(a.x, b.x), y: minus(a.y, b.y), z: minus(a.z, b.z) }
}

pub open spec fn scale3<T: RealScalar>(a: Vec3<T>, k: T) -> Vec3<T> {
    Vec3 { x: times(a.x, k), y: times(a.y, k), z: times(a.z, k) }
}

pub open spec fn scale3_ok<T: RealScalar>(a: Vec3<T>, k: T) -> bool {
    times_ok(a.x, k) && times_ok(a.y, k) && times_ok(a.z, k)
}

pub open spec fn neg3<T: RealScalar>(a: Vec3<T>) -> Vec3<T> {
    Vec3 { x: negated(a.x), y: negated(a.y), z: negated(a.z) }
}

pub open spec fn neg3_ok<T: RealScalar>(a: Vec3<T>) -> bool {
    negated_ok(a.x) && negated_ok(a.y) && negated_ok(a.z)
}

impl<T: RealScalar> Vec3<T> {
    /// The sum of the squares of the components.
    pub fn squared_mag(self) -> (r: T)
        requires
            lawful::<T>(),
            dot3_ok(self, self),
        ensures
            r == dot3(self, self),
    {
        self.x * self.x + self.y * self.y + self.z * self.z
    }

    /// The plain sum of the componentwise products.
    pub fn dot(self, rhs: Vec3<T>) -> (r: T)
        requires
            lawful::<T>(),
            dot3_ok(self, rhs),
        ensures
            r == dot3(self, rhs),
    {
        self.x * rhs.x + self.y * rhs.y + self.z * rhs.z
    }

    pub fn cross(self, b: Vec3<T>) -> (r: Vec3<T>)
        requires
            lawful::<T>(),
            cross3_ok(self, b),
        ensures
            r == cross3(self, b),
    {
        Vec3 {
            x: self.y * b.z - self.z * b.y,
            y: (self.x * b.z - self.z * b.x).neg(),
            z: self.x * b.y - self.y * b.x,
        }
    }

    /// The vector from `self` to `other`.
    pub fn vector_to(self, other: Vec3<T>) -> (r: Vec3<T>)
        requires
            lawful::<T>(),
            minus_ok(other.x, self.x),
            minus_ok(other.y, self.y),
            minus_ok(other.z, self.z),
        ensures
            r == sub3(other, self),
    {
        Vec3 { x: other.x - self.x, y: other.y - self.y, z: other.z - self.z }
    }
}

impl<T: FloatScalar + num_traits::Float> Vec3<T> {
    /// The square root of `squared_mag`.
    pub fn magnitude(self) -> T
        requires
            lawful::<T>(),
            dot3_ok(self, self),
    {
        sqrt_of(self.squared_mag())
    }

    /// The distance between the two points, the magnitude of `vector_to`.
    pub fn distance_to(self, other: Vec3<T>) -> T
        requires
            lawful::<T>(),
            minus_ok(other.x, self.x),
            minus_ok(other.y, self.y),
            minus_ok(other.z, self.z),
            dot3_ok(sub3(other, self), sub3(other, self)),
    {
        sqrt_of(self.vector_to(other).squared_mag())
    }

    /// The vector scaled by the reciprocal of its magnitude. A zero vector
    /// gives whatever the scalar's division by zero gives.
    pub fn normalized(self) -> (r: Vec3<T>)
        requires
            lawful_float::<T>(),
            dot3_ok(self, self),
            total::<T>(),
        ensures
            exists|m: T| r == scale3(self, over(one::<T>(), m)),
    {
        let m = self.magnitude();
        let k = one_of::<T>() / m;
        let r = Vec3 { x: self.x * k, y: self.y * k, z: self.z * k };
        assert(r == scale3(self, over(one::<T>(), m)));
        r
    }

    /// Scales `self` in place by the reciprocal of its magnitude.
    pub fn normalize(&mut self)
        requires
            lawful_float::<T>(),
            dot3_ok(*old(self), *old(self)),
            total::<T>(),
        ensures
            exists|m: T| *final(self) == scale3(*old(self), over(one::<T>(), m)),
    {
        let v = *self;
        *self = v.normalized();
    }
}

impl<T: RealScalar> Add for Vec3<T> {
    type Output = Vec3<T>;

    fn add(self, rhs: Vec3<T>) -> (r: Vec3<T>) {
        Vec3 { x: self.x + rhs.x, y: self.y + rhs.y, z: self.z + rhs.z }
    }
}

impl<T: RealScalar> AddSpecImpl for Vec3<T> {
    open spec fn obeys_add_spec() -> bool {
        T::obeys_add_spec()
    }

    open spec fn add_req(self, rhs: Vec3<T>) -> bool {
        add3_ok(self, rhs)
    }

    open spec fn add_spec(self, rhs: Vec3<T>) -> Vec3<T> {
        add3(self, rhs)
    }
}

impl<T: RealScalar> Sub for Vec3<T> {
    type Output = Vec3<T>;

    fn sub(self, rhs: Vec3<T>) -> (r: Vec3<T>) {
        Vec3 { x: self.x - rhs.x, y: self.y - rhs.y, z: self.z - rhs.z }
    }
}

impl<T: RealScalar> SubSpecImpl for Vec3<T> {
    open spec fn obeys_sub_spec() -> bool {
        T::obeys_sub_spec()
    }

    open spec fn sub_req(self, rhs: Vec3<T>) -> bool {
        minus_ok(self.x, rhs.x) && minus_ok(self.y, rhs.y) && minus_ok(self.z, rhs.z)
    }

    open spec fn sub_spec(self, rhs: Vec3<T>) -> Vec3<T> {
        sub3(self, rhs)
    }
}

/// The componentwise (Hadamard) product.
impl<T: RealScalar> Mul<Vec3<T>> for Vec3<T> {
    type Output = Vec3<T>;

    fn mul(self, rhs: Vec3<T>) -> (r: Vec3<T>) {
        Vec3 { x: self.x * rhs.x, y: self.y * rhs.y, z: self.z * rhs.z }
    }
}

impl<T: RealScalar> MulSpecImpl<Vec3<T>> for Vec3<T> {
    open spec fn obeys_mul_spec() -> bool {
        T::obeys_mul_spec()
    }

    open spec fn mul_req(self, rhs: Vec3<T>) -> bool {
        times_ok(self.x, rhs.x) && times_ok(self.y, rhs.y) && times_ok(self.z, rhs.z)
    }

    open spec fn mul_spec(self, rhs: Vec3<T>) -> Vec3<T> {
        Vec3 { x: times(self.x, rhs.x), y: times(self.y, rhs.y), z: times(self.z, rhs.z) }
    }
}

impl<T: RealScalar> Mul<T> for Vec3<T> {
    type Output = Vec3<T>;

    fn mul(self, k: T) -> (r: Vec3<T>) {
        Vec3 { x: self.x * k, y: self.y * k, z: self.z * k }
    }
}

impl<T: RealScalar> MulSpecImpl<T> for Vec3<T> {
    open spec fn obeys_mul_spec() -> bool {
        T::obeys_mul_spec()
    }

    open spec fn mul_req(self, k: T) -> bool {
        scale3_ok(self, k)
    }

    open spec fn mul_spec(self, k: T) -> Vec3<T> {
        scale3(self, k)
    }
}

impl<T: FloatScalar> Div<T> for Vec3<T> {
    type Output = Vec3<T>;

    fn div(self, k: T) -> (r: Vec3<T>) {
        Vec3 { x: self.x / k, y: self.y / k, z: self.z / k }
    }
}

impl<T: FloatScalar> DivSpecImpl<T> for Vec3<T> {
    open spec fn obeys_div_spec() -> bool {
        T::obeys_div_spec()
    }

    open spec fn div_req(self, k: T) -> bool {
        over_ok(self.x, k) && over_ok(self.y, k) && over_ok(self.z, k)
    }

    open spec fn div_spec(self, k: T) -> Vec3<T> {
        Vec3 { x: over(self.x, k), y: over(self.y, k), z: over(self.z, k) }
    }
}

impl<T: RealScalar> Neg for Vec3<T> {
    type Output = Vec3<T>;

    fn neg(self) -> (r: Vec3<T>) {
        Vec3 { x: self.x.neg(), y: self.y.neg(), z: self.z.neg() }
    }
}

impl<T: RealScalar> NegSpecImpl for Vec3<T> {
    open spec fn obeys_neg_spec() -> bool {
        T::obeys_neg_spec()
    }

    open spec fn neg_req(self) -> bool {
        neg3_ok(self)
    }

    open spec fn neg_spec(self) -> Vec3<T> {
        neg3(self)
    }
}

/// Component access by position; the index must be below three.
impl<T> Index<usize> for Vec3<T> {
    type Output = T;

    fn index(&self, i: usize) -> (r: &T) {
        let parts = [&self.x, &self.y, &self.z];
        parts[i]
    }
}

impl<T> vstd::std_specs::core::IndexSpecImpl<usize> for Vec3<T> {
    open spec fn index_req(&self, i: &usize) -> bool {
        *i < 3
    }
}

impl<T: Copy> From<[T; 3]> for Vec3<T> {
    fn from(a: [T; 3]) -> (r: Vec3<T>) {
        Vec3 { x: a[0], y: a[1], z: a[2] }
    }
}

impl<T: Copy> FromSpecImpl<[T; 3]> for Vec3<T> {
    open spec fn obeys_from_spec() -> bool {
        true
    }

    open spec fn from_spec(a: [T; 3]) -> Vec3<T> {
        Vec3 { x: a@[0], y: a@[1], z: a@[2] }
    }
}

impl<T> From<(T, T, T)> for Vec3<T> {
    fn from(t: (T, T, T)) -> (r: Vec3<T>) {
        Vec3 { x: t.0, y: t.1, z: t.2 }
    }
}

impl<T> FromSpecImpl<(T, T, T)> for Vec3<T> {
    open spec fn obeys_from_spec() -> bool {
        true
    }

    open spec fn from_spec(t: (T, T, T)) -> Vec3<T> {
        Vec3 { x: t.0, y: t.1, z: t.2 }
    }
}

} // verus!
