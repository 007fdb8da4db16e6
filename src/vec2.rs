//! Two-component vectors.

use crate::scalar::{
    lawful, lawful_float, total, minus, minus_ok, one, one_of, over, plus, plus_ok, sqrt_of, times,
    times_ok, FloatScalar, RealScalar,
};
use crate::vec3::Vec3;
use core::ops::{Add, Index, Sub};
use vstd::prelude::*;
use vstd::std_specs::ops::{AddSpec, DivSpec, MulSpec, NegSpec, SubSpec};
use vstd::std_specs::ops::{AddSpecImpl, SubSpecImpl};

verus! {

#[derive(Clone, Copy, Debug, PartialEq, Default)]
pub struct Vec2<T> {
    pub x: T,
    pub y: T,
}

impl<T> Vec2<T> {
    /// The component at `i`: `x` for 0, `y` for 1.
    pub open spec fn at(self, i: int) -> T {
        if i == 0 {
            self.x
        } else {
            self.y
        }
    }

    pub fn new(x: T, y: T) -> (r: Self)
        ensures
            r == (Vec2 { x, y }),
    {
        Vec2 { x, y }
    }

    pub fn extend(self, z: T) -> (r: Vec3<T>)
        ensures
            r == (Vec3 { x: self.x, y: self.y, z }),
    {
        Vec3 { x: self.x, y: self.y, z }
    }
}

impl<T: Copy> Vec2<T> {
    /// The component at `i`; the index must be below two.
    pub fn get(&self, i: usize) -> (r: T)
        requires
            i < 2,
        ensures
            r == self.at(i as int),
    {
        if i == 0 {
            self.x
        } else {
            self.y
        }
    }
}

pub open spec fn dot2<T: RealScalar>(a: Vec2<T>, b: Vec2<T>) -> T {
    plus(times(a.x, b.x), times(a.y, b.y))
}

pub open spec fn dot2_ok<T: RealScalar>(a: Vec2<T>, b: Vec2<T>) -> bool {
    &&& times_ok(a.x, b.x)
    &&& times_ok(a.y, b.y)
    &&& plus_ok(times(a.x, b.x), times(a.y, b.y))
}

pub open spec fn scale2<T: RealScalar>(a: Vec2<T>, k: T) -> Vec2<T> {
    Vec2 { x: times(a.x, k), y: times(a.y, k) }
}

impl<T: RealScalar> Vec2<T> {
    /// The plain sum of the componentwise products.
    pub fn dot(self, other: Vec2<T>) -> (r: T)
        requires
            lawful::<T>(),
            dot2_ok(self, other),
        ensures
            r == dot2(self, other),
    {
        self.x * other.x + self.y * other.y
    }
}

impl<T: FloatScalar + num_traits::Float> Vec2<T> {
    /// The square root of the vector's dot product with itself.
    pub fn magnitude(self) -> T
        requires
            lawful::<T>(),
            dot2_ok(self, self),
    {
        sqrt_of(self.dot(self))
    }

    /// The vector scaled by the reciprocal of its magnitude. A zero vector
    /// gives whatever the scalar's division by zero gives.
    pub fn normalized(self) -> (r: Vec2<T>)
        requires
            lawful_float::<T>(),
            dot2_ok(self, self),
            total::<T>(),
        ensures
            exists|m: T| r == scale2(self, over(one::<T>(), m)),
    {
        let m = self.magnitude();
        let k = one_of::<T>() / m;
        let r = Vec2 { x: self.x * k, y: self.y * k };
        assert(r == scale2(self, over(one::<T>(), m)));
        r
    }

    /// Scales `self` in place by the reciprocal of its magnitude.
    pub fn normalize(&mut self)
        requires
            lawful_float::<T>(),
            dot2_ok(*old(self), *old(self)),
            total::<T>(),
        ensures
            exists|m: T| *final(self) == scale2(*old(self), over(one::<T>(), m)),
    {
        let v = *self;
        *self = v.normalized();
    }
}

/// Component access by position; the index must be below two.
impl<T> Index<usize> for Vec2<T> {
    type Output = T;

    fn index(&self, i: usize) -> (r: &T) {
        let parts = [&self.x, &self.y];
        parts[i]
    }
}

impl<T> vstd::std_specs::core::IndexSpecImpl<usize> for Vec2<T> {
    open spec fn index_req(&self, i: &usize) -> bool {
        *i < 2
    }
}

impl<T: RealScalar> Add for Vec2<T> {
    type Output = Vec2<T>;

    fn add(self, rhs: Vec2<T>) -> (r: Vec2<T>) {
        Vec2 { x: self.x + rhs.x, y: self.y + rhs.y }
    }
}

impl<T: RealScalar> AddSpecImpl for Vec2<T> {
    open spec fn obeys_add_spec() -> bool {
        T::obeys_add_spec()
    }

    open spec fn add_req(self, rhs: Vec2<T>) -> bool {
        plus_ok(self.x, rhs.x) && plus_ok(self.y, rhs.y)
    }

    open spec fn add_spec(self, rhs: Vec2<T>) -> Vec2<T> {
        Vec2 { x: plus(self.x, rhs.x), y: plus(self.y, rhs.y) }
    }
}

impl<T: RealScalar> Sub for Vec2<T> {
    type Output = Vec2<T>;

    fn sub(self, rhs: Vec2<T>) -> (r: Vec2<T>) {
        Vec2 { x: self.x - rhs.x, y: self.y - rhs.y }
    }
}

impl<T: RealScalar> SubSpecImpl for Vec2<T> {
    open spec fn obeys_sub_spec() -> bool {
        T::obeys_sub_spec()
    }

    open spec fn sub_req(self, rhs: Vec2<T>) -> bool {
        minus_ok(self.x, rhs.x) && minus_ok(self.y, rhs.y)
    }

    open spec fn sub_spec(self, rhs: Vec2<T>) -> Vec2<T> {
        Vec2 { x: minus(self.x, rhs.x), y: minus(self.y, rhs.y) }
    }
}

} // verus!
