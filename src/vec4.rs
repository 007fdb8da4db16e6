//! Four-component vectors, also homogeneous points.

use crate::scalar::{
    lawful, lawful_float, total, minus, minus_ok, negated, negated_ok, one, one_of, over, over_ok, plus,
    plus_ok, sqrt_of, times, times_ok, FloatScalar, RealScalar,
};
use crate::vec3::Vec3;
use core::ops::{Add, Div, Index, Mul, Neg, Sub};
use vstd::prelude::*;
use vstd::std_specs::ops::{AddSpec, DivSpec, MulSpec, NegSpec, SubSpec};
use vstd::std_specs::convert::FromSpecImpl;
use vstd::std_specs::ops::{AddSpecImpl, DivSpecImpl, MulSpecImpl, NegSpecImpl, SubSpecImpl};

verus! {

#[derive(Clone, Copy, Debug, PartialEq, Default)]
pub struct Vec4<T> {
    pub x: T,
    pub y: T,
    pub z: T,
    pub w: T,
}

impl<T> Vec4<T> {
    /// The component at `i`: `x`, `y`, `z`, `w` for 0, 1, 2, 3.
    pub open spec fn at(self, i: int) -> T {
        if i == 0 {
            self.x
        } else if i == 1 {
            self.y
        } else if i == 2 {
            self.z
        } else {
            self.w
        }
    }

    pub fn new(x: T, y: T, z: T, w: T) -> (r: Self)
        ensures
            r == (Vec4 { x, y, z, w }),
    {
        Vec4 { x, y, z, w }
    }

    pub fn truncate(self) -> (r: Vec3<T>)
        ensures
            r == (Vec3 { x: self.x, y: self.y, z: self.z }),
    {
        Vec3 { x: self.x, y: self.y, z: self.z }
    }
}

impl<T: Copy> Vec4<T> {
    /// The component at `i`; the index must be below four.
    pub fn get(&self, i: usize) -> (r: T)
        requires
            i < 4,
        ensures
            r == self.at(i as int),
    {
        if i == 0 {
            self.x
        } else if i == 1 {
            self.y
        } else if i == 2 {
            self.z
        } else {
            self.w
        }
    }
}

pub open spec fn dot4<T: RealScalar>(a: Vec4<T>, b: Vec4<T>) -> T {
    plus(plus(plus(times(a.x, b.x), times(a.y, b.y)), times(a.z, b.z)), times(a.w, b.w))
}

pub open spec fn dot4_ok<T: RealScalar>(a: Vec4<T>, b: Vec4<T>) -> bool {
    &&& times_ok(a.x, b.x)
    &&& times_ok(a.y, b.y)
    &&& times_ok(a.z, b.z)
    &&& times_ok(a.w, b.w)
    &&& plus_ok(times(a.x, b.x), times(a.y, b.y))
    &&& plus_ok(plus(times(a.x, b.x), times(a.y, b.y)), times(a.z, b.z))
    &&& plus_ok(plus(plus(times(a.x, b.x), times(a.y, b.y)), times(a.z, b.z)), times(a.w, b.w))
}

pub open spec fn scale4<T: RealScalar>(a: Vec4<T>, k: T) -> Vec4<T> {
    Vec4 { x: times(a.x, k), y: times(a.y, k), z: times(a.z, k), w: times(a.w, k) }
}

pub open spec fn scale4_ok<T: RealScalar>(a: Vec4<T>, k: T) -> bool {
    times_ok(a.x, k) && times_ok(a.y, k) && times_ok(a.z, k) && times_ok(a.w, k)
}

impl<T: RealScalar> Vec4<T> {
    /// The sum of the squares of the components.
    pub fn squared_mag(self) -> (r: T)
        requires
            lawful::<T>(),
            dot4_ok(self, self),
        ensures
            r == dot4(self, self),
    {
        self.x * self.x + self.y * self.y + self.z * self.z + self.w * self.w
    }

    /// The plain sum of the componentwise products.
    pub fn dot(self, other: Vec4<T>) -> (r: T)
        requires
            lawful::<T>(),
            dot4_ok(self, other),
        ensures
            r == dot4(self, other),
    {
        self.x * other.x + self.y * other.y + self.z * other.z + self.w * other.w
    }
}

impl<T: FloatScalar + num_traits::Float> Vec4<T> {
    /// The square root of `squared_mag`.
    pub fn magnitude(self) -> T
        requires
            lawful::<T>(),
            dot4_ok(self, self),
    {
        sqrt_of(self.squared_mag())
    }

    /// The vector scaled by the reciprocal of its magnitude. A zero vector
    /// gives whatever the scalar's division by zero gives.
    pub fn normalized(self) -> (r: Vec4<T>)
        requires
            lawful_float::<T>(),
            dot4_ok(self, self),
            total::<T>(),
        ensures
            exists|m: T| r == scale4(self, over(one::<T>(), m)),
    {
        let m = self.magnitude();
        let s = one_of::<T>() / m;
        let r = Vec4 { x: self.x * s, y: self.y * s, z: self.z * s, w: self.w * s };
        assert(r == scale4(self, over(one::<T>(), m)));
        r
    }

    /// Scales `self` in place by the reciprocal of its magnitude.
    pub fn normalize(&mut self)
        requires
            lawful_float::<T>(),
            dot4_ok(*old(self), *old(self)),
            total::<T>(),
        ensures
            exists|m: T| *final(self) == scale4(*old(self), over(one::<T>(), m)),
    {
        let v = *self;
        *self = v.normalized();
    }
}

/// Component access by position; the index must be below four.
impl<T> Index<usize> for Vec4<T> {
    type Output = T;

    fn index(&self, i: usize) -> (r: &T) {
        let parts = [&self.x, &self.y, &self.z, &self.w];
        parts[i]
    }
}

impl<T> vstd::std_specs::core::IndexSpecImpl<usize> for Vec4<T> {
    open spec fn index_req(&self, i: &usize) -> bool {
        *i < 4
    }
}

impl<T: RealScalar> Add for Vec4<T> {
    type Output = Vec4<T>;

    fn add(self, rhs: Vec4<T>) -> (r: Vec4<T>) {
        Vec4 { x: self.x + rhs.x, y: self.y + rhs.y, z: self.z + rhs.z, w: self.w + rhs.w }
    }
}

impl<T: RealScalar> AddSpecImpl for Vec4<T> {
    open spec fn obeys_add_spec() -> bool {
        T::obeys_add_spec()
    }

    open spec fn add_req(self, rhs: Vec4<T>) -> bool {
        plus_ok(self.x, rhs.x) && plus_ok(self.y, rhs.y) && plus_ok(self.z, rhs.z) && plus_ok(self.w, rhs.w)
    }

    open spec fn add_spec(self, rhs: Vec4<T>) -> Vec4<T> {
        Vec4 { x: plus(self.x, rhs.x), y: plus(self.y, rhs.y), z: plus(self.z, rhs.z), w: plus(self.w, rhs.w) }
    }
}

impl<T: RealScalar> Sub for Vec4<T> {
    type Output = Vec4<T>;

    fn sub(self, rhs: Vec4<T>) -> (r: Vec4<T>) {
        Vec4 { x: self.x - rhs.x, y: self.y - rhs.y, z: self.z - rhs.z, w: self.w - rhs.w }
    }
}

impl<T: RealScalar> SubSpecImpl for Vec4<T> {
    open spec fn obeys_sub_spec() -> bool {
        T::obeys_sub_spec()
    }

    open spec fn sub_req(self, rhs: Vec4<T>) -> bool {
        minus_ok(self.x, rhs.x) && minus_ok(self.y, rhs.y) && minus_ok(self.z, rhs.z) && minus_ok(self.w, rhs.w)
    }

    open spec fn sub_spec(self, rhs: Vec4<T>) -> Vec4<T> {
        Vec4 { x: minus(self.x, rhs.x), y: minus(self.y, rhs.y), z: minus(self.z, rhs.z), w: minus(self.w, rhs.w) }
    }
}

/// The componentwise (Hadamard) product.
impl<T: RealScalar> Mul<Vec4<T>> for Vec4<T> {
    type Output = Vec4<T>;

    fn mul(self, rhs: Vec4<T>) -> (r: Vec4<T>) {
        Vec4 { x: self.x * rhs.x, y: self.y * rhs.y, z: self.z * rhs.z, w: self.w * rhs.w }
    }
}

impl<T: RealScalar> MulSpecImpl<Vec4<T>> for Vec4<T> {
    open spec fn obeys_mul_spec() -> bool {
        T::obeys_mul_spec()
    }

    open spec fn mul_req(self, rhs: Vec4<T>) -> bool {
        times_ok(self.x, rhs.x) && times_ok(self.y, rhs.y) && times_ok(self.z, rhs.z) && times_ok(self.w, rhs.w)
    }

    open spec fn mul_spec(self, rhs: Vec4<T>) -> Vec4<T> {
        Vec4 { x: times(self.x, rhs.x), y: times(self.y, rhs.y), z: times(self.z, rhs.z), w: times(self.w, rhs.w) }
    }
}

impl<T: RealScalar> Mul<T> for Vec4<T> {
    type Output = Vec4<T>;

    fn mul(self, k: T) -> (r: Vec4<T>) {
        Vec4 { x: self.x * k, y: self.y * k, z: self.z * k, w: self.w * k }
    }
}

impl<T: RealScalar> MulSpecImpl<T> for Vec4<T> {
    open spec fn obeys_mul_spec() -> bool {
        T::obeys_mul_spec()
    }

    open spec fn mul_req(self, k: T) -> bool {
        scale4_ok(self, k)
    }

    open spec fn mul_spec(self, k: T) -> Vec4<T> {
        scale4(self, k)
    }
}

impl<T: FloatScalar> Div<T> for Vec4<T> {
    type Output = Vec4<T>;

    fn div(self, k: T) -> (r: Vec4<T>) {
        Vec4 { x: self.x / k, y: self.y / k, z: self.z / k, w: self.w / k }
    }
}

impl<T: FloatScalar> DivSpecImpl<T> for Vec4<T> {
    open spec fn obeys_div_spec() -> bool {
        T::obeys_div_spec()
    }

    open spec fn div_req(self, k: T) -> bool {
        over_ok(self.x, k) && over_ok(self.y, k) && over_ok(self.z, k) && over_ok(self.w, k)
    }

    open spec fn div_spec(self, k: T) -> Vec4<T> {
        Vec4 { x: over(self.x, k), y: over(self.y, k), z: over(self.z, k), w: over(self.w, k) }
    }
}

impl<T: RealScalar> Neg for Vec4<T> {
    type Output = Vec4<T>;

    fn neg(self) -> (r: Vec4<T>) {
        Vec4 { x: self.x.neg(), y: self.y.neg(), z: self.z.neg(), w: self.w.neg() }
    }
}

impl<T: RealScalar> NegSpecImpl for Vec4<T> {
    open spec fn obeys_neg_spec() -> bool {
        T::obeys_neg_spec()
    }

    open spec fn neg_req(self) -> bool {
        negated_ok(self.x) && negated_ok(self.y) && negated_ok(self.z) && negated_ok(self.w)
    }

    open spec fn neg_spec(self) -> Vec4<T> {
        Vec4 { x: negated(self.x), y: negated(self.y), z: negated(self.z), w: negated(self.w) }
    }
}

impl<T: Copy> From<[T; 4]> for Vec4<T> {
    fn from(a: [T; 4]) -> (r: Vec4<T>) {
        Vec4 { x: a[0], y: a[1], z: a[2], w: a[3] }
    }
}

impl<T: Copy> FromSpecImpl<[T; 4]> for Vec4<T> {
    open spec fn obeys_from_spec() -> bool {
        true
    }

    open spec fn from_spec(a: [T; 4]) -> Vec4<T> {
        Vec4 { x: a@[0], y: a@[1], z: a@[2], w: a@[3] }
    }
}

impl<T> From<(T, T, T, T)> for Vec4<T> {
    fn from(t: (T, T, T, T)) -> (r: Vec4<T>) {
        Vec4 { x: t.0, y: t.1, z: t.2, w: t.3 }
    }
}

impl<T> FromSpecImpl<(T, T, T, T)> for Vec4<T> {
    open spec fn obeys_from_spec() -> bool {
        true
    }

    open spec fn from_spec(t: (T, T, T, T)) -> Vec4<T> {
        Vec4 { x: t.0, y: t.1, z: t.2, w: t.3 }
    }
}

} // verus!
