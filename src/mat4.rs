//! 4×4 matrices: the homogeneous transforms of 3-D space, cofactor
//! expansion and the adjugate inverse.

use crate::mat3::{det3, det3_ok, rodrigues, outer_update, sign, skip, tabulate3, Mat3};
use crate::scalar::{
    is_zero, lawful, lawful_float, ring_identities, minus, negated, negated_ok, one, one_of, over, over_ok, plus,
    plus_ok, tan_of, times, times_ok, total, two, two_of, zero, zero_of, FloatScalar, RealScalar,
};
use crate::vec3::{cross3, dot3, scale3, sub3, Vec3};
use crate::vec4::Vec4;
use core::ops::{Add, Index, Mul, Neg, Sub};
use vstd::prelude::*;
use vstd::std_specs::cmp::PartialEqSpec;
use vstd::std_specs::convert::{FromSpec, FromSpecImpl};
use vstd::std_specs::ops::{AddSpec, DivSpec, MulSpec, NegSpec, SubSpec};
use vstd::std_specs::ops::{AddSpecImpl, MulSpecImpl, SubSpecImpl};

verus! {

/// A 4×4 matrix stored row-major: `mat[r][c]` is row `r`, column `c`.
#[derive(Clone, Copy, Debug, PartialEq)]
pub struct Mat4<T> {
    pub mat: [[T; 4]; 4],
}

/// The matrix whose entry at row `i`, column `j` is `f(i, j)`.
pub open spec fn tabulate4<T>(f: spec_fn(int, int) -> T) -> Mat4<T> {
    Mat4 { mat: [[f(0, 0), f(0, 1), f(0, 2), f(0, 3)], [f(1, 0), f(1, 1), f(1, 2), f(1, 3)], [f(2, 0), f(2, 1), f(2, 2), f(2, 3)], [f(3, 0), f(3, 1), f(3, 2), f(3, 3)]] }
}

/// `a` in the upper-left corner of the identity.
pub open spec fn embed3<T: RealScalar>(a: Mat3<T>) -> Mat4<T> {
    tabulate4(
        |i: int, j: int|
            if i < 3 && j < 3 {
                a.at(i, j)
            } else if i == j {
                one::<T>()
            } else {
                zero::<T>()
            },
    )
}

/// `m` without row `i` and column `j`.
pub open spec fn submatrix4<T>(m: Mat4<T>, i: int, j: int) -> Mat3<T> {
    tabulate3(|a: int, b: int| m.at(skip(i, a), skip(j, b)))
}

/// The determinant of `m` without row `i` and column `j`.
pub open spec fn minor4<T: RealScalar>(m: Mat4<T>, i: int, j: int) -> T {
    det3(submatrix4(m, i, j))
}

pub open spec fn minor4_ok<T: RealScalar>(m: Mat4<T>, i: int, j: int) -> bool {
    det3_ok(submatrix4(m, i, j))
}

/// `(-1)^(i+j)` times the minor.
pub open spec fn cofactor4<T: RealScalar>(m: Mat4<T>, i: int, j: int) -> T {
    times(sign::<T>(i + j), minor4(m, i, j))
}

pub open spec fn cofactor4_ok<T: RealScalar>(m: Mat4<T>, i: int, j: int) -> bool {
    &&& negated_ok(one::<T>())
    &&& minor4_ok(m, i, j)
    &&& times_ok(sign::<T>(i + j), minor4(m, i, j))
}

/// The Laplace expansion along column 0.
pub open spec fn det4<T: RealScalar>(m: Mat4<T>) -> T {
    plus(
        plus(
            plus(times(m.at(0, 0), cofactor4(m, 0, 0)), times(m.at(1, 0), cofactor4(m, 1, 0))),
            times(m.at(2, 0), cofactor4(m, 2, 0)),
        ),
        times(m.at(3, 0), cofactor4(m, 3, 0)),
    )
}

pub open spec fn det4_ok<T: RealScalar>(m: Mat4<T>) -> bool {
    &&& cofactor4_ok(m, 0, 0)
    &&& cofactor4_ok(m, 1, 0)
    &&& cofactor4_ok(m, 2, 0)
    &&& cofactor4_ok(m, 3, 0)
    &&& times_ok(m.at(0, 0), cofactor4(m, 0, 0))
    &&& times_ok(m.at(1, 0), cofactor4(m, 1, 0))
    &&& times_ok(m.at(2, 0), cofactor4(m, 2, 0))
    &&& times_ok(m.at(3, 0), cofactor4(m, 3, 0))
    &&& plus_ok(times(m.at(0, 0), cofactor4(m, 0, 0)), times(m.at(1, 0), cofactor4(m, 1, 0)))
    &&& plus_ok(
        plus(times(m.at(0, 0), cofactor4(m, 0, 0)), times(m.at(1, 0), cofactor4(m, 1, 0))),
        times(m.at(2, 0), cofactor4(m, 2, 0)),
    )
    &&& plus_ok(
        plus(
            plus(times(m.at(0, 0), cofactor4(m, 0, 0)), times(m.at(1, 0), cofactor4(m, 1, 0))),
            times(m.at(2, 0), cofactor4(m, 2, 0)),
        ),
        times(m.at(3, 0), cofactor4(m, 3, 0)),
    )
}

/// No inverse for a zero determinant; else the adjugate (the transposed
/// matrix of cofactors) scaled by the reciprocal of the determinant.
pub open spec fn inverse4<T: FloatScalar>(m: Mat4<T>) -> Option<Mat4<T>> {
    if is_zero(det4(m)) {
        None
    } else {
        Some(tabulate4(|i: int, j: int| times(cofactor4(m, j, i), over(one::<T>(), det4(m)))))
    }
}

pub open spec fn inverse4_ok<T: FloatScalar>(m: Mat4<T>) -> bool {
    &&& det4_ok(m)
    &&& forall|i: int, j: int| 0 <= i < 4 && 0 <= j < 4 ==> #[trigger] cofactor4_ok(m, i, j)
    &&& !is_zero(det4(m)) ==> {
        &&& over_ok(one::<T>(), det4(m))
        &&& forall|i: int, j: int|
            0 <= i < 4 && 0 <= j < 4 ==> #[trigger] times_ok(cofactor4(m, j, i), over(one::<T>(), det4(m)))
    }
}

pub open spec fn identity4<T: RealScalar>() -> Mat4<T> {
    tabulate4(|i: int, j: int| if i == j { one::<T>() } else { zero::<T>() })
}

/// The product `a * b` under this library's convention (see `prod4`).
pub open spec fn product4<T: RealScalar>(a: Mat4<T>, b: Mat4<T>) -> Mat4<T> {
    tabulate4(|i: int, j: int| prod4(a, b, i, j))
}

/// Entry `(i, j)` of the product `a * b`: the sum over `k` of `a[k][j] * b[i][k]`.
pub open spec fn prod4<T: RealScalar>(a: Mat4<T>, b: Mat4<T>, i: int, j: int) -> T {
    plus(
        plus(plus(times(a.at(0, j), b.at(i, 0)), times(a.at(1, j), b.at(i, 1))), times(a.at(2, j), b.at(i, 2))),
        times(a.at(3, j), b.at(i, 3)),
    )
}

pub open spec fn prod4_ok<T: RealScalar>(a: Mat4<T>, b: Mat4<T>, i: int, j: int) -> bool {
    &&& times_ok(a.at(0, j), b.at(i, 0))
    &&& times_ok(a.at(1, j), b.at(i, 1))
    &&& times_ok(a.at(2, j), b.at(i, 2))
    &&& times_ok(a.at(3, j), b.at(i, 3))
    &&& plus_ok(times(a.at(0, j), b.at(i, 0)), times(a.at(1, j), b.at(i, 1)))
    &&& plus_ok(
        plus(times(a.at(0, j), b.at(i, 0)), times(a.at(1, j), b.at(i, 1))),
        times(a.at(2, j), b.at(i, 2)),
    )
    &&& plus_ok(
        plus(plus(times(a.at(0, j), b.at(i, 0)), times(a.at(1, j), b.at(i, 1))), times(a.at(2, j), b.at(i, 2))),
        times(a.at(3, j), b.at(i, 3)),
    )
}

/// Component `i` of the product of `m` and `v`: the sum over `j` of `v[j] * m[j][i]`.
pub open spec fn apply4<T: RealScalar>(m: Mat4<T>, v: Vec4<T>, i: int) -> T {
    plus(
        plus(plus(times(v.x, m.at(0, i)), times(v.y, m.at(1, i))), times(v.z, m.at(2, i))),
        times(v.w, m.at(3, i)),
    )
}

pub open spec fn apply4_ok<T: RealScalar>(m: Mat4<T>, v: Vec4<T>, i: int) -> bool {
    &&& times_ok(v.x, m.at(0, i))
    &&& times_ok(v.y, m.at(1, i))
    &&& times_ok(v.z, m.at(2, i))
    &&& times_ok(v.w, m.at(3, i))
    &&& plus_ok(times(v.x, m.at(0, i)), times(v.y, m.at(1, i)))
    &&& plus_ok(plus(times(v.x, m.at(0, i)), times(v.y, m.at(1, i))), times(v.z, m.at(2, i)))
    &&& plus_ok(
        plus(plus(times(v.x, m.at(0, i)), times(v.y, m.at(1, i))), times(v.z, m.at(2, i))),
        times(v.w, m.at(3, i)),
    )
}

impl<T> Mat4<T> {
    pub open spec fn at(self, i: int, j: int) -> T {
        self.mat[i][j]
    }

    pub fn new(s0e0: T, s0e1: T, s0e2: T, s0e3: T, s1e0: T, s1e1: T, s1e2: T, s1e3: T, s2e0: T, s2e1: T, s2e2: T, s2e3: T, s3e0: T, s3e1: T, s3e2: T, s3e3: T) -> (r: Self)
        ensures
            r == (Mat4 { mat: [[s0e0, s0e1, s0e2, s0e3], [s1e0, s1e1, s1e2, s1e3], [s2e0, s2e1, s2e2, s2e3], [s3e0, s3e1, s3e2, s3e3]] }),
    {
        Mat4 { mat: [[s0e0, s0e1, s0e2, s0e3], [s1e0, s1e1, s1e2, s1e3], [s2e0, s2e1, s2e2, s2e3], [s3e0, s3e1, s3e2, s3e3]] }
    }
}

impl<T: Copy> Mat4<T> {
    /// The entry at row `i`, column `j`; both must be below four.
    pub fn get(&self, i: usize, j: usize) -> (r: T)
        requires
            i < 4,
            j < 4,
        ensures
            r == self.at(i as int, j as int),
    {
        self.mat[i][j]
    }

    /// Row `i`, which must be below four.
    pub fn row(&self, i: usize) -> (r: [T; 4])
        requires
            i < 4,
        ensures
            r == self.mat[i as int],
    {
        self.mat[i]
    }

    /// The transpose, leaving `self` as it is.
    pub fn transpost(&self) -> (r: Self)
        ensures
            r == transposed4(*self),
    {
        let m = &self.mat;
        Mat4 { mat: [
            [m[0][0], m[1][0], m[2][0], m[3][0]],
            [m[0][1], m[1][1], m[2][1], m[3][1]],
            [m[0][2], m[1][2], m[2][2], m[3][2]],
            [m[0][3], m[1][3], m[2][3], m[3][3]],
        ] }
    }

    /// Transposes `self` in place.
    pub fn transpose(&mut self)
        ensures
            *final(self) == transposed4(*old(self)),
    {
        let t = self.transpost();
        *self = t;
    }
}

/// The last row and column of the identity: no translation, no projection.
pub open spec fn linear4<T: RealScalar>(r: Mat4<T>) -> bool {
    &&& forall|i: int| 0 <= i < 3 ==> #[trigger] r.at(i, 3) == zero::<T>() && r.at(3, i) == zero::<T>()
    &&& r.at(3, 3) == one::<T>()
}

impl<T: RealScalar> Mat4<T> {
    /// The matrix with every entry zero.
    pub fn zero() -> (r: Self)
        requires
            lawful::<T>(),
        ensures
            r == tabulate4(|i: int, j: int| zero::<T>()),
    {
        let z = zero_of::<T>();
        Mat4 { mat: [[z, z, z, z], [z, z, z, z], [z, z, z, z], [z, z, z, z]] }
    }

    /// The identity matrix.
    pub fn identity() -> (r: Self)
        requires
            lawful::<T>(),
        ensures
            r == identity4::<T>(),
    {
        let z = zero_of::<T>();
        let o = one_of::<T>();
        Mat4 { mat: [[o, z, z, z], [z, o, z, z], [z, z, o, z], [z, z, z, o]] }
    }

    /// `a` in the upper-left corner of the identity.
    fn embed(a: &Mat3<T>) -> (r: Self)
        requires
            lawful::<T>(),
        ensures
            r == embed3(*a),
    {
        let z = zero_of::<T>();
        let o = one_of::<T>();
        let m = &a.mat;
        Mat4 {
            mat: [
                [m[0][0], m[0][1], m[0][2], z],
                [m[1][0], m[1][1], m[1][2], z],
                [m[2][0], m[2][1], m[2][2], z],
                [z, z, z, o],
            ],
        }
    }

    /// The determinant of the 3×3 matrix left when row `i` and column `j`
    /// are taken out; both must be below four.
    pub fn minor(&self, i: usize, j: usize) -> (r: T)
        requires
            lawful::<T>(),
            i < 4,
            j < 4,
            minor4_ok(*self, i as int, j as int),
        ensures
            r == minor4(*self, i as int, j as int),
    {
        let r0: usize = if i == 0 { 1 } else { 0 };
        let r1: usize = if i >= 2 { 1 } else { 2 };
        let r2: usize = if i == 3 { 2 } else { 3 };
        let c0: usize = if j == 0 { 1 } else { 0 };
        let c1: usize = if j >= 2 { 1 } else { 2 };
        let c2: usize = if j == 3 { 2 } else { 3 };
        let m = &self.mat;
        let sub = Mat3 {
            mat: [
                [m[r0][c0], m[r0][c1], m[r0][c2]],
                [m[r1][c0], m[r1][c1], m[r1][c2]],
                [m[r2][c0], m[r2][c1], m[r2][c2]],
            ],
        };
        proof {
            assert(sub == submatrix4(*self, i as int, j as int));
        }
        sub.determinant()
    }

    /// The minor with the sign `(-1)^(i+j)`.
    pub fn cofactor(&self, i: usize, j: usize) -> (r: T)
        requires
            lawful::<T>(),
            i < 4,
            j < 4,
            cofactor4_ok(*self, i as int, j as int),
        ensures
            r == cofactor4(*self, i as int, j as int),
    {
        let o = one_of::<T>();
        let s = if (i + j) % 2 == 0 { o } else { o.neg() };
        s * self.minor(i, j)
    }

    /// The Laplace expansion along column 0.
    pub fn determinant(&self) -> (r: T)
        requires
            lawful::<T>(),
            det4_ok(*self),
        ensures
            r == det4(*self),
    {
        let m = &self.mat;
        m[0][0] * self.cofactor(0, 0) + m[1][0] * self.cofactor(1, 0) + m[2][0] * self.cofactor(2, 0)
            + m[3][0] * self.cofactor(3, 0)
    }

    /// The translation by `n`, carried in row 3.
    pub fn translation(n: Vec3<T>) -> (r: Self)
        requires
            lawful::<T>(),
        ensures
            r == tabulate4(
                |i: int, j: int|
                    if i == j {
                        one::<T>()
                    } else if i == 3 && j < 3 {
                        n.at(j)
                    } else {
                        zero::<T>()
                    },
            ),
    {
        let z = zero_of::<T>();
        let o = one_of::<T>();
        Mat4 { mat: [[o, z, z, z], [z, o, z, z], [z, z, o, z], [n.x, n.y, n.z, o]] }
    }

    /// A uniform scale by `k` of the three space coordinates.
    pub fn scale(k: T) -> (r: Self)
        requires
            lawful::<T>(),
        ensures
            r == tabulate4(
                |i: int, j: int|
                    if i == j && i < 3 {
                        k
                    } else if i == j {
                        one::<T>()
                    } else {
                        zero::<T>()
                    },
            ),
    {
        let z = zero_of::<T>();
        let o = one_of::<T>();
        Mat4 { mat: [[k, z, z, z], [z, k, z, z], [z, z, k, z], [z, z, z, o]] }
    }

    /// The shear of the xy-plane by `z`: the identity with `s` and `t` in row 2.
    pub fn shearing_xy(s: T, t: T) -> (r: Self)
        requires
            lawful::<T>(),
        ensures
            r == embed3(Mat3 { mat: [[one::<T>(), zero::<T>(), zero::<T>()], [zero::<T>(), one::<T>(), zero::<T>()], [s, t, one::<T>()]] }),
    {
        Self::embed(&Mat3::shearing_xy(s, t))
    }

    /// The shear of the xz-plane by `y`: the identity with `s` and `t` in row 1.
    pub fn shearing_xz(s: T, t: T) -> (r: Self)
        requires
            lawful::<T>(),
        ensures
            r == embed3(Mat3 { mat: [[one::<T>(), zero::<T>(), zero::<T>()], [s, one::<T>(), t], [zero::<T>(), zero::<T>(), one::<T>()]] }),
    {
        Self::embed(&Mat3::shearing_xz(s, t))
    }

    /// The shear of the yz-plane by `x`: the identity with `s` and `t` in row 0.
    pub fn shearing_yz(s: T, t: T) -> (r: Self)
        requires
            lawful::<T>(),
        ensures
            r == embed3(Mat3 { mat: [[one::<T>(), s, t], [zero::<T>(), one::<T>(), zero::<T>()], [zero::<T>(), zero::<T>(), one::<T>()]] }),
    {
        Self::embed(&Mat3::shearing_yz(s, t))
    }
}

impl<T: FloatScalar> Mat4<T> {
    /// No inverse when the determinant is exactly zero; else the adjugate
    /// scaled by the reciprocal of the determinant.
    pub fn inverse(&self) -> (r: Option<Mat4<T>>)
        requires
            lawful_float::<T>(),
            inverse4_ok(*self),
        ensures
            r == inverse4(*self),
    {
        let d = self.determinant();
        let z = zero_of::<T>();
        if d == z {
            return None;
        }
        let k = one_of::<T>() / d;
        let c00 = self.cofactor(0, 0);
        let c01 = self.cofactor(0, 1);
        let c02 = self.cofactor(0, 2);
        let c03 = self.cofactor(0, 3);
        let c10 = self.cofactor(1, 0);
        let c11 = self.cofactor(1, 1);
        let c12 = self.cofactor(1, 2);
        let c13 = self.cofactor(1, 3);
        let c20 = self.cofactor(2, 0);
        let c21 = self.cofactor(2, 1);
        let c22 = self.cofactor(2, 2);
        let c23 = self.cofactor(2, 3);
        let c30 = self.cofactor(3, 0);
        let c31 = self.cofactor(3, 1);
        let c32 = self.cofactor(3, 2);
        let c33 = self.cofactor(3, 3);
        proof {
            assert(times_ok(cofactor4(*self, 0, 0), over(one::<T>(), det4(*self))));
            assert(times_ok(cofactor4(*self, 0, 1), over(one::<T>(), det4(*self))));
            assert(times_ok(cofactor4(*self, 0, 2), over(one::<T>(), det4(*self))));
            assert(times_ok(cofactor4(*self, 0, 3), over(one::<T>(), det4(*self))));
            assert(times_ok(cofactor4(*self, 1, 0), over(one::<T>(), det4(*self))));
            assert(times_ok(cofactor4(*self, 1, 1), over(one::<T>(), det4(*self))));
            assert(times_ok(cofactor4(*self, 1, 2), over(one::<T>(), det4(*self))));
            assert(times_ok(cofactor4(*self, 1, 3), over(one::<T>(), det4(*self))));
            assert(times_ok(cofactor4(*self, 2, 0), over(one::<T>(), det4(*self))));
            assert(times_ok(cofactor4(*self, 2, 1), over(one::<T>(), det4(*self))));
            assert(times_ok(cofactor4(*self, 2, 2), over(one::<T>(), det4(*self))));
            assert(times_ok(cofactor4(*self, 2, 3), over(one::<T>(), det4(*self))));
            assert(times_ok(cofactor4(*self, 3, 0), over(one::<T>(), det4(*self))));
            assert(times_ok(cofactor4(*self, 3, 1), over(one::<T>(), det4(*self))));
            assert(times_ok(cofactor4(*self, 3, 2), over(one::<T>(), det4(*self))));
            assert(times_ok(cofactor4(*self, 3, 3), over(one::<T>(), det4(*self))));
        }
        Some(Mat4 { mat: [
            [c00 * k, c10 * k, c20 * k, c30 * k],
            [c01 * k, c11 * k, c21 * k, c31 * k],
            [c02 * k, c12 * k, c22 * k, c32 * k],
            [c03 * k, c13 * k, c23 * k, c33 * k],
        ] })
    }

    /// The orthographic projection of the box from `left`, `bottom`, `near`
    /// to `right`, `top`, `far` onto the unit cube.
    pub fn ortho(left: T, right: T, bottom: T, top: T, near: T, far: T) -> (r: Self)
        requires
            lawful_float::<T>(),
            total::<T>(),
        ensures
            r == (Mat4 {
                mat: [
                    [over(two::<T>(), minus(right, left)), zero::<T>(), zero::<T>(), zero::<T>()],
                    [zero::<T>(), over(two::<T>(), minus(top, bottom)), zero::<T>(), zero::<T>()],
                    [zero::<T>(), zero::<T>(), over(negated(two::<T>()), minus(far, near)), zero::<T>()],
                    [
                        negated(over(plus(right, left), minus(right, left))),
                        negated(over(plus(top, bottom), minus(top, bottom))),
                        negated(over(plus(far, near), minus(far, near))),
                        one::<T>(),
                    ],
                ],
            }),
    {
        let z = zero_of::<T>();
        let o = one_of::<T>();
        let t = two_of::<T>();
        let xt = ((right + left) / (right - left)).neg();
        let yt = ((top + bottom) / (top - bottom)).neg();
        let zt = ((far + near) / (far - near)).neg();
        Mat4 {
            mat: [
                [t / (right - left), z, z, z],
                [z, t / (top - bottom), z, z],
                [z, z, t.neg() / (far - near), z],
                [xt, yt, zt, o],
            ],
        }
    }

    /// The perspective projection of the view frustum from `left`, `bottom`,
    /// `near` to `right`, `top`, `far`.
    pub fn frustum(left: T, right: T, bottom: T, top: T, near: T, far: T) -> (r: Self)
        requires
            lawful_float::<T>(),
            total::<T>(),
        ensures
            r == (Mat4 {
                mat: [
                    [over(times(two::<T>(), near), minus(right, left)), zero::<T>(), zero::<T>(), zero::<T>()],
                    [zero::<T>(), over(times(two::<T>(), near), minus(top, bottom)), zero::<T>(), zero::<T>()],
                    [
                        over(plus(right, left), minus(right, left)),
                        over(plus(top, bottom), minus(top, bottom)),
                        over(negated(plus(far, near)), minus(far, near)),
                        negated(one::<T>()),
                    ],
                    [
                        zero::<T>(),
                        zero::<T>(),
                        over(times(times(negated(two::<T>()), far), near), minus(far, near)),
                        zero::<T>(),
                    ],
                ],
            }),
    {
        let z = zero_of::<T>();
        let o = one_of::<T>();
        let t = two_of::<T>();
        let horizontal = (right + left) / (right - left);
        let vertical = (top + bottom) / (top - bottom);
        let depth = (far + near).neg() / (far - near);
        Mat4 {
            mat: [
                [(t * near) / (right - left), z, z, z],
                [z, (t * near) / (top - bottom), z, z],
                [horizontal, vertical, depth, o.neg()],
                [z, z, (t.neg() * far * near) / (far - near), z],
            ],
        }
    }
}

/// The perspective matrix for the aspect ratio, the near and far planes, and
/// the tangent `h` of half the vertical field of view.
pub open spec fn perspective_of<T: FloatScalar>(aspect: T, near: T, far: T, h: T) -> Mat4<T> {
    Mat4 {
        mat: [
            [over(one::<T>(), times(aspect, h)), zero::<T>(), zero::<T>(), zero::<T>()],
            [zero::<T>(), over(one::<T>(), h), zero::<T>(), zero::<T>()],
            [zero::<T>(), zero::<T>(), over(minus(negated(near), far), minus(near, far)), one::<T>()],
            [zero::<T>(), zero::<T>(), over(times(times(two::<T>(), far), near), minus(near, far)), zero::<T>()],
        ],
    }
}

impl<T: FloatScalar + num_traits::Float> Mat4<T> {
    /// The rotation by `ang` radians about the x-axis, in the upper-left corner.
    pub fn rotation_x(ang: T) -> (r: Self)
        requires
            lawful_float::<T>(),
            total::<T>(),
        ensures
            linear4(r),
            r.at(0, 0) == one::<T>(),
            r.at(0, 1) == zero::<T>() && r.at(0, 2) == zero::<T>(),
            r.at(1, 0) == zero::<T>() && r.at(2, 0) == zero::<T>(),
            r.at(2, 2) == r.at(1, 1),
            r.at(2, 1) == negated(r.at(1, 2)),
    {
        Self::embed(&Mat3::rotation_x(ang))
    }

    /// The rotation by `ang` radians about the y-axis, in the upper-left corner.
    pub fn rotation_y(ang: T) -> (r: Self)
        requires
            lawful_float::<T>(),
            total::<T>(),
        ensures
            linear4(r),
            r.at(1, 1) == one::<T>(),
            r.at(0, 1) == zero::<T>() && r.at(2, 1) == zero::<T>(),
            r.at(1, 0) == zero::<T>() && r.at(1, 2) == zero::<T>(),
            r.at(2, 2) == r.at(0, 0),
            r.at(0, 2) == negated(r.at(2, 0)),
    {
        Self::embed(&Mat3::rotation_y(ang))
    }

    /// The rotation by `ang` radians about the z-axis, in the upper-left corner.
    pub fn rotation_z(ang: T) -> (r: Self)
        requires
            lawful_float::<T>(),
            total::<T>(),
        ensures
            linear4(r),
            r.at(2, 2) == one::<T>(),
            r.at(0, 2) == zero::<T>() && r.at(1, 2) == zero::<T>(),
            r.at(2, 0) == zero::<T>() && r.at(2, 1) == zero::<T>(),
            r.at(1, 1) == r.at(0, 0),
            r.at(1, 0) == negated(r.at(0, 1)),
    {
        Self::embed(&Mat3::rotation_z(ang))
    }

    /// The rotation by `ang` radians about the axis `n` of `Mat3::rotation`,
    /// in the upper-left corner.
    pub fn rotation(ang: T, n: Vec3<T>) -> (r: Self)
        requires
            lawful_float::<T>(),
            total::<T>(),
        ensures
            exists|m: T, c: T, s: T|
                r == embed3(#[trigger] rodrigues(scale3(n, over(one::<T>(), m)), minus(one::<T>(), c), c, s)),
    {
        let a = Mat3::rotation(ang, n);
        let r = Self::embed(&a);
        proof {
            let (m, c, s) = choose|m: T, c: T, s: T|
                a == #[trigger] rodrigues(scale3(n, over(one::<T>(), m)), minus(one::<T>(), c), c, s);
            assert(r == embed3(rodrigues(scale3(n, over(one::<T>(), m)), minus(one::<T>(), c), c, s)));
        }
        r
    }

    /// The scale by `k` along the direction `n` of `Mat3::scale_arb`, in the
    /// upper-left corner.
    pub fn scale_arb(k: T, n: Vec3<T>) -> (r: Self)
        requires
            lawful_float::<T>(),
            total::<T>(),
        ensures
            exists|m: T| r == embed3(outer_update(#[trigger] scale3(n, over(one::<T>(), m)), minus(k, one::<T>()))),
    {
        let a = Mat3::scale_arb(k, n);
        let r = Self::embed(&a);
        proof {
            let m = choose|m: T| a == outer_update(#[trigger] scale3(n, over(one::<T>(), m)), minus(k, one::<T>()));
            assert(r == embed3(outer_update(scale3(n, over(one::<T>(), m)), minus(k, one::<T>()))));
        }
        r
    }

    /// The reflection about the plane normal to `n` of `Mat3::reflection`, in
    /// the upper-left corner.
    pub fn reflection(n: Vec3<T>) -> (r: Self)
        requires
            lawful_float::<T>(),
            total::<T>(),
        ensures
            exists|m: T| r == embed3(outer_update(#[trigger] scale3(n, over(one::<T>(), m)), negated(two::<T>()))),
    {
        let a = Mat3::reflection(n);
        let r = Self::embed(&a);
        proof {
            let m = choose|m: T| a == outer_update(#[trigger] scale3(n, over(one::<T>(), m)), negated(two::<T>()));
            assert(r == embed3(outer_update(scale3(n, over(one::<T>(), m)), negated(two::<T>()))));
        }
        r
    }

    /// The perspective projection for a vertical field of view `fov` in
    /// radians, the width-to-height ratio `aspect` and the near and far planes.
    pub fn perspective(fov: T, aspect: T, near: T, far: T) -> (r: Self)
        requires
            lawful_float::<T>(),
            total::<T>(),
        ensures
            exists|h: T| r == #[trigger] perspective_of(aspect, near, far, h),
    {
        let z = zero_of::<T>();
        let o = one_of::<T>();
        let t = two_of::<T>();
        let h = tan_of(fov / t);
        let r = Mat4 {
            mat: [
                [o / (aspect * h), z, z, z],
                [z, o / h, z, z],
                [z, z, (near.neg() - far) / (near - far), o],
                [z, z, (t * far * near) / (near - far), z],
            ],
        };
        assert(r == perspective_of(aspect, near, far, h));
        r
    }

    /// The view matrix of a camera at `eye` looking at `direction` with `up`
    /// as its upward direction. Rows 0 to 2 hold the camera's axes as
    /// columns: `z` along `eye - direction`, `x` along `up × z`, `y` along
    /// `z × x`, each normalised; row 3 moves `eye` to the origin.
    pub fn look_at(eye: Vec3<T>, direction: Vec3<T>, up: Vec3<T>) -> (r: Self)
        requires
            lawful_float::<T>(),
            total::<T>(),
        ensures
            exists|x: Vec3<T>, y: Vec3<T>, z: Vec3<T>|
                {
                    &&& #[trigger] look_at_of(x, y, z, eye) == r
                    &&& exists|m: T| z == scale3(sub3(eye, direction), over(one::<T>(), m))
                    &&& exists|m: T| x == scale3(cross3(up, z), over(one::<T>(), m))
                    &&& exists|m: T| y == scale3(cross3(z, x), over(one::<T>(), m))
                },
    {
        let zero = zero_of::<T>();
        let o = one_of::<T>();
        let z = (eye - direction).normalized();
        let x = up.cross(z).normalized();
        let y = z.cross(x).normalized();
        let r = Mat4 {
            mat: [
                [x.x, y.x, z.x, zero],
                [x.y, y.y, z.y, zero],
                [x.z, y.z, z.z, zero],
                [x.dot(eye).neg(), y.dot(eye).neg(), z.dot(eye).neg(), o],
            ],
        };
        assert(look_at_of(x, y, z, eye) == r);
        r
    }
}

/// The view matrix with camera axes `x`, `y`, `z` as columns and `eye`
/// moved to the origin.
pub open spec fn look_at_of<T: RealScalar>(x: Vec3<T>, y: Vec3<T>, z: Vec3<T>, eye: Vec3<T>) -> Mat4<T> {
    Mat4 {
        mat: [
            [x.x, y.x, z.x, zero::<T>()],
            [x.y, y.y, z.y, zero::<T>()],
            [x.z, y.z, z.z, zero::<T>()],
            [negated(dot3(x, eye)), negated(dot3(y, eye)), negated(dot3(z, eye)), one::<T>()],
        ],
    }
}

/// The transpose of `m`.
pub open spec fn transposed4<T>(m: Mat4<T>) -> Mat4<T> {
    tabulate4(|i: int, j: int| m.at(j, i))
}

/// Transposing twice gives the matrix back.
pub proof fn lemma_transpose_twice4<T>(m: Mat4<T>)
    ensures
        transposed4(transposed4(m)) == m,
{
    let t = transposed4(transposed4(m));
    assert forall|i: int| 0 <= i < 4 implies t.mat[i] =~= m.mat[i] by {
        assert forall|j: int| 0 <= j < 4 implies t.mat[i][j] == m.mat[i][j] by {
        }
    }
    assert(t.mat =~= m.mat);
}

/// The identity is neutral on both sides of the product, for a scalar with
/// the ring identities.
pub proof fn lemma_identity_neutral4<T: RealScalar>(m: Mat4<T>)
    requires
        ring_identities::<T>(),
    ensures
        product4(identity4::<T>(), m) == m,
        product4(m, identity4::<T>()) == m,
{
    let a = product4(identity4::<T>(), m);
    let b = product4(m, identity4::<T>());
    assert forall|i: int| 0 <= i < 4 implies a.mat[i] =~= m.mat[i] && b.mat[i] =~= m.mat[i] by {
        assert forall|j: int| 0 <= j < 4 implies a.mat[i][j] == m.mat[i][j] && b.mat[i][j] == m.mat[i][j] by {
        }
    }
    assert(a.mat =~= m.mat);
    assert(b.mat =~= m.mat);
}

impl<T: RealScalar> Default for Mat4<T> {
    /// The identity matrix.
    fn default() -> (r: Self)
        ensures
            lawful::<T>() ==> r == identity4::<T>(),
    {
        let z = T::from(0i8);
        let o = T::from(1i8);
        Mat4 { mat: [[o, z, z, z], [z, o, z, z], [z, z, o, z], [z, z, z, o]] }
    }
}

/// Row access by position, so that `m[r][c]` reads row `r`, column `c`;
/// the row must be below four.
impl<T> Index<usize> for Mat4<T> {
    type Output = [T; 4];

    fn index(&self, i: usize) -> (r: &[T; 4]) {
        &self.mat[i]
    }
}

impl<T> vstd::std_specs::core::IndexSpecImpl<usize> for Mat4<T> {
    open spec fn index_req(&self, i: &usize) -> bool {
        *i < 4
    }
}

impl<T: RealScalar> Add for Mat4<T> {
    type Output = Mat4<T>;

    fn add(self, rhs: Mat4<T>) -> (r: Mat4<T>) {
        let a = &self.mat;
        let b = &rhs.mat;
        Mat4 { mat: [
            [a[0][0] + b[0][0], a[0][1] + b[0][1], a[0][2] + b[0][2], a[0][3] + b[0][3]],
            [a[1][0] + b[1][0], a[1][1] + b[1][1], a[1][2] + b[1][2], a[1][3] + b[1][3]],
            [a[2][0] + b[2][0], a[2][1] + b[2][1], a[2][2] + b[2][2], a[2][3] + b[2][3]],
            [a[3][0] + b[3][0], a[3][1] + b[3][1], a[3][2] + b[3][2], a[3][3] + b[3][3]],
        ] }
    }
}

impl<T: RealScalar> AddSpecImpl for Mat4<T> {
    open spec fn obeys_add_spec() -> bool {
        T::obeys_add_spec()
    }

    open spec fn add_req(self, rhs: Mat4<T>) -> bool {
        forall|i: int, j: int| 0 <= i < 4 && 0 <= j < 4 ==> #[trigger] self.mat[i][j].add_req(rhs.mat[i][j])
    }

    open spec fn add_spec(self, rhs: Mat4<T>) -> Mat4<T> {
        tabulate4(|i: int, j: int| plus(self.at(i, j), rhs.at(i, j)))
    }
}

impl<T: RealScalar> Sub for Mat4<T> {
    type Output = Mat4<T>;

    fn sub(self, rhs: Mat4<T>) -> (r: Mat4<T>) {
        let a = &self.mat;
        let b = &rhs.mat;
        Mat4 { mat: [
            [a[0][0] - b[0][0], a[0][1] - b[0][1], a[0][2] - b[0][2], a[0][3] - b[0][3]],
            [a[1][0] - b[1][0], a[1][1] - b[1][1], a[1][2] - b[1][2], a[1][3] - b[1][3]],
            [a[2][0] - b[2][0], a[2][1] - b[2][1], a[2][2] - b[2][2], a[2][3] - b[2][3]],
            [a[3][0] - b[3][0], a[3][1] - b[3][1], a[3][2] - b[3][2], a[3][3] - b[3][3]],
        ] }
    }
}

impl<T: RealScalar> SubSpecImpl for Mat4<T> {
    open spec fn obeys_sub_spec() -> bool {
        T::obeys_sub_spec()
    }

    open spec fn sub_req(self, rhs: Mat4<T>) -> bool {
        forall|i: int, j: int| 0 <= i < 4 && 0 <= j < 4 ==> #[trigger] self.mat[i][j].sub_req(rhs.mat[i][j])
    }

    open spec fn sub_spec(self, rhs: Mat4<T>) -> Mat4<T> {
        tabulate4(|i: int, j: int| minus(self.at(i, j), rhs.at(i, j)))
    }
}

impl<T: RealScalar> Mul<T> for Mat4<T> {
    type Output = Mat4<T>;

    fn mul(self, k: T) -> (r: Mat4<T>) {
        let a = &self.mat;
        Mat4 { mat: [
            [a[0][0] * k, a[0][1] * k, a[0][2] * k, a[0][3] * k],
            [a[1][0] * k, a[1][1] * k, a[1][2] * k, a[1][3] * k],
            [a[2][0] * k, a[2][1] * k, a[2][2] * k, a[2][3] * k],
            [a[3][0] * k, a[3][1] * k, a[3][2] * k, a[3][3] * k],
        ] }
    }
}

impl<T: RealScalar> MulSpecImpl<T> for Mat4<T> {
    open spec fn obeys_mul_spec() -> bool {
        T::obeys_mul_spec()
    }

    open spec fn mul_req(self, k: T) -> bool {
        forall|i: int, j: int| 0 <= i < 4 && 0 <= j < 4 ==> #[trigger] self.mat[i][j].mul_req(k)
    }

    open spec fn mul_spec(self, k: T) -> Mat4<T> {
        tabulate4(|i: int, j: int| times(self.at(i, j), k))
    }
}

/// Entry `(i, j)` of the product, as `prod4` states it.
fn prod4_entry<T: RealScalar>(a: &Mat4<T>, b: &Mat4<T>, i: usize, j: usize) -> (r: T)
    requires
        lawful::<T>(),
        i < 4,
        j < 4,
        prod4_ok(*a, *b, i as int, j as int),
    ensures
        r == prod4(*a, *b, i as int, j as int),
{
    a.mat[0][j] * b.mat[i][0] + a.mat[1][j] * b.mat[i][1] + a.mat[2][j] * b.mat[i][2] + a.mat[3][j] * b.mat[i][3]
}

impl<T: RealScalar> Mul<Mat4<T>> for Mat4<T> {
    type Output = Mat4<T>;

    fn mul(self, rhs: Mat4<T>) -> (r: Mat4<T>) {
        proof {
            assert(prod4_ok(self, rhs, 0, 0));
            assert(prod4_ok(self, rhs, 0, 1));
            assert(prod4_ok(self, rhs, 0, 2));
            assert(prod4_ok(self, rhs, 0, 3));
            assert(prod4_ok(self, rhs, 1, 0));
            assert(prod4_ok(self, rhs, 1, 1));
            assert(prod4_ok(self, rhs, 1, 2));
            assert(prod4_ok(self, rhs, 1, 3));
            assert(prod4_ok(self, rhs, 2, 0));
            assert(prod4_ok(self, rhs, 2, 1));
            assert(prod4_ok(self, rhs, 2, 2));
            assert(prod4_ok(self, rhs, 2, 3));
            assert(prod4_ok(self, rhs, 3, 0));
            assert(prod4_ok(self, rhs, 3, 1));
            assert(prod4_ok(self, rhs, 3, 2));
            assert(prod4_ok(self, rhs, 3, 3));
        }
        let (a, b) = (&self, &rhs);
        Mat4 { mat: [
            [prod4_entry(a, b, 0, 0), prod4_entry(a, b, 0, 1), prod4_entry(a, b, 0, 2), prod4_entry(a, b, 0, 3)],
            [prod4_entry(a, b, 1, 0), prod4_entry(a, b, 1, 1), prod4_entry(a, b, 1, 2), prod4_entry(a, b, 1, 3)],
            [prod4_entry(a, b, 2, 0), prod4_entry(a, b, 2, 1), prod4_entry(a, b, 2, 2), prod4_entry(a, b, 2, 3)],
            [prod4_entry(a, b, 3, 0), prod4_entry(a, b, 3, 1), prod4_entry(a, b, 3, 2), prod4_entry(a, b, 3, 3)],
        ] }
    }
}

impl<T: RealScalar> MulSpecImpl<Mat4<T>> for Mat4<T> {
    open spec fn obeys_mul_spec() -> bool {
        lawful::<T>()
    }

    open spec fn mul_req(self, rhs: Mat4<T>) -> bool {
        lawful::<T>() && forall|i: int, j: int| 0 <= i < 4 && 0 <= j < 4 ==> #[trigger] prod4_ok(self, rhs, i, j)
    }

    open spec fn mul_spec(self, rhs: Mat4<T>) -> Mat4<T> {
        product4(self, rhs)
    }
}

/// Component `i` of the product, as `apply4` states it.
fn apply4_entry<T: RealScalar>(m: &Mat4<T>, v: &Vec4<T>, i: usize) -> (r: T)
    requires
        lawful::<T>(),
        i < 4,
        apply4_ok(*m, *v, i as int),
    ensures
        r == apply4(*m, *v, i as int),
{
    v.x * m.mat[0][i] + v.y * m.mat[1][i] + v.z * m.mat[2][i] + v.w * m.mat[3][i]
}

impl<T: RealScalar> Mul<Vec4<T>> for Mat4<T> {
    type Output = Vec4<T>;

    fn mul(self, v: Vec4<T>) -> (r: Vec4<T>) {
        proof {
            assert(apply4_ok(self, v, 0) && apply4_ok(self, v, 1) && apply4_ok(self, v, 2) && apply4_ok(self, v, 3));
        }
        Vec4 {
            x: apply4_entry(&self, &v, 0),
            y: apply4_entry(&self, &v, 1),
            z: apply4_entry(&self, &v, 2),
            w: apply4_entry(&self, &v, 3),
        }
    }
}

impl<T: RealScalar> MulSpecImpl<Vec4<T>> for Mat4<T> {
    open spec fn obeys_mul_spec() -> bool {
        lawful::<T>()
    }

    open spec fn mul_req(self, v: Vec4<T>) -> bool {
        lawful::<T>() && forall|i: int| 0 <= i < 4 ==> #[trigger] apply4_ok(self, v, i)
    }

    open spec fn mul_spec(self, v: Vec4<T>) -> Vec4<T> {
        Vec4 { x: apply4(self, v, 0), y: apply4(self, v, 1), z: apply4(self, v, 2), w: apply4(self, v, 3) }
    }
}

impl<T: Copy> From<[[T; 4]; 4]> for Mat4<T> {
    fn from(a: [[T; 4]; 4]) -> (r: Mat4<T>) {
        Mat4 { mat: a }
    }
}

impl<T: Copy> FromSpecImpl<[[T; 4]; 4]> for Mat4<T> {
    open spec fn obeys_from_spec() -> bool {
        true
    }

    open spec fn from_spec(a: [[T; 4]; 4]) -> Mat4<T> {
        Mat4 { mat: a }
    }
}

impl<T> From<(Vec4<T>, Vec4<T>, Vec4<T>, Vec4<T>)> for Mat4<T> {
    /// The matrix whose rows are the four vectors.
    fn from(rows: (Vec4<T>, Vec4<T>, Vec4<T>, Vec4<T>)) -> (r: Mat4<T>) {
        Mat4 {
            mat: [
                [rows.0.x, rows.0.y, rows.0.z, rows.0.w],
                [rows.1.x, rows.1.y, rows.1.z, rows.1.w],
                [rows.2.x, rows.2.y, rows.2.z, rows.2.w],
                [rows.3.x, rows.3.y, rows.3.z, rows.3.w],
            ],
        }
    }
}

impl<T> FromSpecImpl<(Vec4<T>, Vec4<T>, Vec4<T>, Vec4<T>)> for Mat4<T> {
    open spec fn obeys_from_spec() -> bool {
        true
    }

    open spec fn from_spec(rows: (Vec4<T>, Vec4<T>, Vec4<T>, Vec4<T>)) -> Mat4<T> {
        Mat4 {
            mat: [
                [rows.0.x, rows.0.y, rows.0.z, rows.0.w],
                [rows.1.x, rows.1.y, rows.1.z, rows.1.w],
                [rows.2.x, rows.2.y, rows.2.z, rows.2.w],
                [rows.3.x, rows.3.y, rows.3.z, rows.3.w],
            ],
        }
    }
}

} // verus!
