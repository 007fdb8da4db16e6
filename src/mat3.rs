//! 3×3 matrices: algebra, cofactor expansion, the adjugate inverse and the
//! linear transforms of 3-D space.

use crate::mat2::{det2, det2_ok, Mat2};
use crate::scalar::{
    cos_of, is_zero, lawful, lawful_float, ring_identities, minus, negated, negated_ok, one, one_of, over, over_ok,
    plus, plus_ok, sin_of, times, times_ok, total, two, two_of, zero, zero_of, FloatScalar,
    RealScalar,
};
use crate::vec3::{scale3, Vec3};
use core::ops::{Add, Index, Mul, Neg, Sub};
use vstd::prelude::*;
use vstd::std_specs::cmp::PartialEqSpec;
use vstd::std_specs::convert::{FromSpec, FromSpecImpl};
use vstd::std_specs::ops::{AddSpec, DivSpec, MulSpec, NegSpec, SubSpec};
use vstd::std_specs::ops::{AddSpecImpl, MulSpecImpl, SubSpecImpl};

verus! {

/// A 3×3 matrix stored row-major: `mat[r][c]` is row `r`, column `c`.
#[derive(Clone, Copy, Debug, PartialEq)]
pub struct Mat3<T> {
    pub mat: [[T; 3]; 3],
}

/// The matrix whose entry at row `i`, column `j` is `f(i, j)`.
pub open spec fn tabulate3<T>(f: spec_fn(int, int) -> T) -> Mat3<T> {
    Mat3 { mat: [[f(0, 0), f(0, 1), f(0, 2)], [f(1, 0), f(1, 1), f(1, 2)], [f(2, 0), f(2, 1), f(2, 2)]] }
}

/// The `k`-th index below `n` once index `i` is left out.
pub open spec fn skip(i: int, k: int) -> int {
    if k < i {
        k
    } else {
        k + 1
    }
}

/// `1` for an even `k`, `-1` for an odd one.
pub open spec fn sign<T: RealScalar>(k: int) -> T {
    if k % 2 == 0 {
        one::<T>()
    } else {
        negated(one::<T>())
    }
}

/// The determinant of `m` without row `i` and column `j`.
pub open spec fn minor3<T: RealScalar>(m: Mat3<T>, i: int, j: int) -> T {
    det2(
        m.at(skip(i, 0), skip(j, 0)),
        m.at(skip(i, 0), skip(j, 1)),
        m.at(skip(i, 1), skip(j, 0)),
        m.at(skip(i, 1), skip(j, 1)),
    )
}

pub open spec fn minor3_ok<T: RealScalar>(m: Mat3<T>, i: int, j: int) -> bool {
    det2_ok(
        m.at(skip(i, 0), skip(j, 0)),
        m.at(skip(i, 0), skip(j, 1)),
        m.at(skip(i, 1), skip(j, 0)),
        m.at(skip(i, 1), skip(j, 1)),
    )
}

/// `(-1)^(i+j)` times the minor.
pub open spec fn cofactor3<T: RealScalar>(m: Mat3<T>, i: int, j: int) -> T {
    times(sign::<T>(i + j), minor3(m, i, j))
}

pub open spec fn cofactor3_ok<T: RealScalar>(m: Mat3<T>, i: int, j: int) -> bool {
    &&& negated_ok(one::<T>())
    &&& minor3_ok(m, i, j)
    &&& times_ok(sign::<T>(i + j), minor3(m, i, j))
}

/// The Laplace expansion along row 0.
pub open spec fn det3<T: RealScalar>(m: Mat3<T>) -> T {
    plus(
        plus(times(m.at(0, 0), cofactor3(m, 0, 0)), times(m.at(0, 1), cofactor3(m, 0, 1))),
        times(m.at(0, 2), cofactor3(m, 0, 2)),
    )
}

pub open spec fn det3_ok<T: RealScalar>(m: Mat3<T>) -> bool {
    &&& cofactor3_ok(m, 0, 0)
    &&& cofactor3_ok(m, 0, 1)
    &&& cofactor3_ok(m, 0, 2)
    &&& times_ok(m.at(0, 0), cofactor3(m, 0, 0))
    &&& times_ok(m.at(0, 1), cofactor3(m, 0, 1))
    &&& times_ok(m.at(0, 2), cofactor3(m, 0, 2))
    &&& plus_ok(times(m.at(0, 0), cofactor3(m, 0, 0)), times(m.at(0, 1), cofactor3(m, 0, 1)))
    &&& plus_ok(
        plus(times(m.at(0, 0), cofactor3(m, 0, 0)), times(m.at(0, 1), cofactor3(m, 0, 1))),
        times(m.at(0, 2), cofactor3(m, 0, 2)),
    )
}

/// No inverse for a zero determinant; else the adjugate (the transposed
/// matrix of cofactors) scaled by the reciprocal of the determinant.
pub open spec fn inverse3<T: FloatScalar>(m: Mat3<T>) -> Option<Mat3<T>> {
    if is_zero(det3(m)) {
        None
    } else {
        Some(tabulate3(|i: int, j: int| times(cofactor3(m, j, i), over(one::<T>(), det3(m)))))
    }
}

pub open spec fn inverse3_ok<T: FloatScalar>(m: Mat3<T>) -> bool {
    &&& det3_ok(m)
    &&& forall|i: int, j: int| 0 <= i < 3 && 0 <= j < 3 ==> #[trigger] cofactor3_ok(m, i, j)
    &&& !is_zero(det3(m)) ==> {
        &&& over_ok(one::<T>(), det3(m))
        &&& forall|i: int, j: int|
            0 <= i < 3 && 0 <= j < 3 ==> #[trigger] times_ok(cofactor3(m, j, i), over(one::<T>(), det3(m)))
    }
}

pub open spec fn identity3<T: RealScalar>() -> Mat3<T> {
    tabulate3(|i: int, j: int| if i == j { one::<T>() } else { zero::<T>() })
}

/// The product `a * b` under this library's convention (see `prod3`).
pub open spec fn product3<T: RealScalar>(a: Mat3<T>, b: Mat3<T>) -> Mat3<T> {
    tabulate3(|i: int, j: int| prod3(a, b, i, j))
}

/// Entry `(i, j)` of the product `a * b`: the sum over `k` of `a[k][j] * b[i][k]`.
pub open spec fn prod3<T: RealScalar>(a: Mat3<T>, b: Mat3<T>, i: int, j: int) -> T {
    plus(plus(times(a.at(0, j), b.at(i, 0)), times(a.at(1, j), b.at(i, 1))), times(a.at(2, j), b.at(i, 2)))
}

pub open spec fn prod3_ok<T: RealScalar>(a: Mat3<T>, b: Mat3<T>, i: int, j: int) -> bool {
    &&& times_ok(a.at(0, j), b.at(i, 0))
    &&& times_ok(a.at(1, j), b.at(i, 1))
    &&& times_ok(a.at(2, j), b.at(i, 2))
    &&& plus_ok(times(a.at(0, j), b.at(i, 0)), times(a.at(1, j), b.at(i, 1)))
    &&& plus_ok(
        plus(times(a.at(0, j), b.at(i, 0)), times(a.at(1, j), b.at(i, 1))),
        times(a.at(2, j), b.at(i, 2)),
    )
}

/// Component `i` of the product of `m` and `v`: the sum over `j` of `v[j] * m[j][i]`.
pub open spec fn apply3<T: RealScalar>(m: Mat3<T>, v: Vec3<T>, i: int) -> T {
    plus(plus(times(v.x, m.at(0, i)), times(v.y, m.at(1, i))), times(v.z, m.at(2, i)))
}

pub open spec fn apply3_ok<T: RealScalar>(m: Mat3<T>, v: Vec3<T>, i: int) -> bool {
    &&& times_ok(v.x, m.at(0, i))
    &&& times_ok(v.y, m.at(1, i))
    &&& times_ok(v.z, m.at(2, i))
    &&& plus_ok(times(v.x, m.at(0, i)), times(v.y, m.at(1, i)))
    &&& plus_ok(plus(times(v.x, m.at(0, i)), times(v.y, m.at(1, i))), times(v.z, m.at(2, i)))
}

impl<T> Mat3<T> {
    pub open spec fn at(self, i: int, j: int) -> T {
        self.mat[i][j]
    }

    pub fn new(
        s0e0: T,
        s0e1: T,
        s0e2: T,
        s1e0: T,
        s1e1: T,
        s1e2: T,
        s2e0: T,
        s2e1: T,
        s2e2: T,
    ) -> (r: Self)
        ensures
            r == (Mat3 { mat: [[s0e0, s0e1, s0e2], [s1e0, s1e1, s1e2], [s2e0, s2e1, s2e2]] }),
    {
        Mat3 { mat: [[s0e0, s0e1, s0e2], [s1e0, s1e1, s1e2], [s2e0, s2e1, s2e2]] }
    }
}

impl<T: Copy> Mat3<T> {
    /// The entry at row `i`, column `j`; both must be below three.
    pub fn get(&self, i: usize, j: usize) -> (r: T)
        requires
            i < 3,
            j < 3,
        ensures
            r == self.at(i as int, j as int),
    {
        self.mat[i][j]
    }

    /// Row `i`, which must be below three.
    pub fn row(&self, i: usize) -> (r: [T; 3])
        requires
            i < 3,
        ensures
            r == self.mat[i as int],
    {
        self.mat[i]
    }

    /// The transpose, leaving `self` as it is.
    pub fn transpost(&self) -> (r: Self)
        ensures
            r == transposed3(*self),
    {
        let m = &self.mat;
        Mat3 { mat: [[m[0][0], m[1][0], m[2][0]], [m[0][1], m[1][1], m[2][1]], [m[0][2], m[1][2], m[2][2]]] }
    }

    /// Transposes `self` in place.
    pub fn transpose(&mut self)
        ensures
            *final(self) == transposed3(*old(self)),
    {
        let t = self.transpost();
        *self = t;
    }
}

impl<T: RealScalar> Mat3<T> {
    /// The matrix with every entry zero.
    pub fn zero() -> (r: Self)
        requires
            lawful::<T>(),
        ensures
            r == tabulate3(|i: int, j: int| zero::<T>()),
    {
        let z = zero_of::<T>();
        Mat3 { mat: [[z, z, z], [z, z, z], [z, z, z]] }
    }

    /// The identity matrix.
    pub fn identity() -> (r: Self)
        requires
            lawful::<T>(),
        ensures
            r == identity3::<T>(),
    {
        let z = zero_of::<T>();
        let o = one_of::<T>();
        Mat3 { mat: [[o, z, z], [z, o, z], [z, z, o]] }
    }

    /// The determinant of the 2×2 matrix left when row `i` and column `j`
    /// are taken out; both must be below three.
    pub fn minor(&self, i: usize, j: usize) -> (r: T)
        requires
            lawful::<T>(),
            i < 3,
            j < 3,
            minor3_ok(*self, i as int, j as int),
        ensures
            r == minor3(*self, i as int, j as int),
    {
        let r0: usize = if i == 0 { 1 } else { 0 };
        let r1: usize = if i == 2 { 1 } else { 2 };
        let c0: usize = if j == 0 { 1 } else { 0 };
        let c1: usize = if j == 2 { 1 } else { 2 };
        let sub = Mat2::new(self.mat[r0][c0], self.mat[r0][c1], self.mat[r1][c0], self.mat[r1][c1]);
        sub.determinant()
    }

    /// The minor with the sign `(-1)^(i+j)`.
    pub fn cofactor(&self, i: usize, j: usize) -> (r: T)
        requires
            lawful::<T>(),
            i < 3,
            j < 3,
            cofactor3_ok(*self, i as int, j as int),
        ensures
            r == cofactor3(*self, i as int, j as int),
    {
        let o = one_of::<T>();
        let s = if (i + j) % 2 == 0 { o } else { o.neg() };
        s * self.minor(i, j)
    }

    /// The Laplace expansion along row 0.
    pub fn determinant(&self) -> (r: T)
        requires
            lawful::<T>(),
            det3_ok(*self),
        ensures
            r == det3(*self),
    {
        self.mat[0][0] * self.cofactor(0, 0) + self.mat[0][1] * self.cofactor(0, 1) + self.mat[0][2]
            * self.cofactor(0, 2)
    }

    /// A uniform scale by `k` in every direction.
    pub fn scale(k: T) -> (r: Self)
        requires
            lawful::<T>(),
        ensures
            r == tabulate3(|i: int, j: int| if i == j { k } else { zero::<T>() }),
    {
        let z = zero_of::<T>();
        Mat3 { mat: [[k, z, z], [z, k, z], [z, z, k]] }
    }

    /// The projection onto the xy-plane.
    pub fn projection_xy() -> (r: Self)
        requires
            lawful::<T>(),
        ensures
            r == tabulate3(|i: int, j: int| if i == j && i < 2 { one::<T>() } else { zero::<T>() }),
    {
        let z = zero_of::<T>();
        let o = one_of::<T>();
        Mat3 { mat: [[o, z, z], [z, o, z], [z, z, z]] }
    }

    /// The projection onto the xz-plane.
    pub fn projection_xz() -> (r: Self)
        requires
            lawful::<T>(),
        ensures
            r == tabulate3(|i: int, j: int| if i == j && i != 1 { one::<T>() } else { zero::<T>() }),
    {
        let z = zero_of::<T>();
        let o = one_of::<T>();
        Mat3 { mat: [[o, z, z], [z, z, z], [z, z, o]] }
    }

    /// The projection onto the yz-plane.
    pub fn projection_yz() -> (r: Self)
        requires
            lawful::<T>(),
        ensures
            r == tabulate3(|i: int, j: int| if i == j && i > 0 { one::<T>() } else { zero::<T>() }),
    {
        let z = zero_of::<T>();
        let o = one_of::<T>();
        Mat3 { mat: [[z, z, z], [z, o, z], [z, z, o]] }
    }

    /// The shear of the xy-plane by `z`: the identity with `s` and `t` in row 2.
    pub fn shearing_xy(s: T, t: T) -> (r: Self)
        requires
            lawful::<T>(),
        ensures
            r == (Mat3 { mat: [[one::<T>(), zero::<T>(), zero::<T>()], [zero::<T>(), one::<T>(), zero::<T>()], [s, t, one::<T>()]] }),
    {
        let z = zero_of::<T>();
        let o = one_of::<T>();
        Mat3 { mat: [[o, z, z], [z, o, z], [s, t, o]] }
    }

    /// The shear of the xz-plane by `y`: the identity with `s` and `t` in row 1.
    pub fn shearing_xz(s: T, t: T) -> (r: Self)
        requires
            lawful::<T>(),
        ensures
            r == (Mat3 { mat: [[one::<T>(), zero::<T>(), zero::<T>()], [s, one::<T>(), t], [zero::<T>(), zero::<T>(), one::<T>()]] }),
    {
        let z = zero_of::<T>();
        let o = one_of::<T>();
        Mat3 { mat: [[o, z, z], [s, o, t], [z, z, o]] }
    }

    /// The shear of the yz-plane by `x`: the identity with `s` and `t` in row 0.
    pub fn shearing_yz(s: T, t: T) -> (r: Self)
        requires
            lawful::<T>(),
        ensures
            r == (Mat3 { mat: [[one::<T>(), s, t], [zero::<T>(), one::<T>(), zero::<T>()], [zero::<T>(), zero::<T>(), one::<T>()]] }),
    {
        let z = zero_of::<T>();
        let o = one_of::<T>();
        Mat3 { mat: [[o, s, t], [z, o, z], [z, z, o]] }
    }
}

impl<T: FloatScalar> Mat3<T> {
    /// No inverse when the determinant is exactly zero; else the adjugate
    /// scaled by the reciprocal of the determinant.
    pub fn inverse(&self) -> (r: Option<Mat3<T>>)
        requires
            lawful_float::<T>(),
            inverse3_ok(*self),
        ensures
            r == inverse3(*self),
    {
        let d = self.determinant();
        let z = zero_of::<T>();
        if d == z {
            return None;
        }
        let k = one_of::<T>() / d;
        let c00 = self.cofactor(0, 0);
        let c01 = self.cofactor(0, 1);
        let c02 = self.cofactor(0, 2);
        let c10 = self.cofactor(1, 0);
        let c11 = self.cofactor(1, 1);
        let c12 = self.cofactor(1, 2);
        let c20 = self.cofactor(2, 0);
        let c21 = self.cofactor(2, 1);
        let c22 = self.cofactor(2, 2);
        proof {
            assert(times_ok(cofactor3(*self, 0, 0), over(one::<T>(), det3(*self))));
            assert(times_ok(cofactor3(*self, 0, 1), over(one::<T>(), det3(*self))));
            assert(times_ok(cofactor3(*self, 0, 2), over(one::<T>(), det3(*self))));
            assert(times_ok(cofactor3(*self, 1, 0), over(one::<T>(), det3(*self))));
            assert(times_ok(cofactor3(*self, 1, 1), over(one::<T>(), det3(*self))));
            assert(times_ok(cofactor3(*self, 1, 2), over(one::<T>(), det3(*self))));
            assert(times_ok(cofactor3(*self, 2, 0), over(one::<T>(), det3(*self))));
            assert(times_ok(cofactor3(*self, 2, 1), over(one::<T>(), det3(*self))));
            assert(times_ok(cofactor3(*self, 2, 2), over(one::<T>(), det3(*self))));
        }
        Some(Mat3 { mat: [[c00 * k, c10 * k, c20 * k], [c01 * k, c11 * k, c21 * k], [c02 * k, c12 * k, c22 * k]] })
    }
}

impl<T: FloatScalar + num_traits::Float> Mat3<T> {
    /// The rotation by `ang` radians about the x-axis:
    /// `[[1, 0, 0], [0, c, s], [0, -s, c]]` with `c`, `s` the angle's cosine and sine.
    pub fn rotation_x(ang: T) -> (r: Self)
        requires
            lawful_float::<T>(),
            total::<T>(),
        ensures
            r.at(0, 0) == one::<T>(),
            r.at(0, 1) == zero::<T>() && r.at(0, 2) == zero::<T>(),
            r.at(1, 0) == zero::<T>() && r.at(2, 0) == zero::<T>(),
            r.at(2, 2) == r.at(1, 1),
            r.at(2, 1) == negated(r.at(1, 2)),
    {
        let z = zero_of::<T>();
        let o = one_of::<T>();
        let c = cos_of(ang);
        let s = sin_of(ang);
        Mat3 { mat: [[o, z, z], [z, c, s], [z, s.neg(), c]] }
    }

    /// The rotation by `ang` radians about the y-axis:
    /// `[[c, 0, -s], [0, 1, 0], [s, 0, c]]`.
    pub fn rotation_y(ang: T) -> (r: Self)
        requires
            lawful_float::<T>(),
            total::<T>(),
        ensures
            r.at(1, 1) == one::<T>(),
            r.at(0, 1) == zero::<T>() && r.at(2, 1) == zero::<T>(),
            r.at(1, 0) == zero::<T>() && r.at(1, 2) == zero::<T>(),
            r.at(2, 2) == r.at(0, 0),
            r.at(0, 2) == negated(r.at(2, 0)),
    {
        let z = zero_of::<T>();
        let o = one_of::<T>();
        let c = cos_of(ang);
        let s = sin_of(ang);
        Mat3 { mat: [[c, z, s.neg()], [z, o, z], [s, z, c]] }
    }

    /// The rotation by `ang` radians about the z-axis:
    /// `[[c, s, 0], [-s, c, 0], [0, 0, 1]]`.
    pub fn rotation_z(ang: T) -> (r: Self)
        requires
            lawful_float::<T>(),
            total::<T>(),
        ensures
            r.at(2, 2) == one::<T>(),
            r.at(0, 2) == zero::<T>() && r.at(1, 2) == zero::<T>(),
            r.at(2, 0) == zero::<T>() && r.at(2, 1) == zero::<T>(),
            r.at(1, 1) == r.at(0, 0),
            r.at(1, 0) == negated(r.at(0, 1)),
    {
        let z = zero_of::<T>();
        let o = one_of::<T>();
        let c = cos_of(ang);
        let s = sin_of(ang);
        Mat3 { mat: [[c, s, z], [s.neg(), c, z], [z, z, o]] }
    }

    /// The rotation by `ang` radians about the axis `n`, normalised first
    /// (Rodrigues' formula), with `c`, `s` the angle's cosine and sine:
    /// entry `(i, j)` is `n_i n_j (1 - c) + c` on the diagonal and
    /// `n_i n_j (1 - c) ± n_k s` off it.
    pub fn rotation(ang: T, n: Vec3<T>) -> (r: Self)
        requires
            lawful_float::<T>(),
            total::<T>(),
        ensures
            exists|m: T, c: T, s: T|
                r == #[trigger] rodrigues(scale3(n, over(one::<T>(), m)), minus(one::<T>(), c), c, s),
    {
        let u = n.normalized();
        let c = cos_of(ang);
        let s = sin_of(ang);
        let f = one_of::<T>() - c;
        let r = Mat3 {
            mat: [
                [u.x * u.x * f + c, u.x * u.y * f + u.z * s, u.x * u.z * f - u.y * s],
                [u.x * u.y * f - u.z * s, u.y * u.y * f + c, u.y * u.z * f + u.x * s],
                [u.x * u.z * f + u.y * s, u.y * u.z * f - u.x * s, u.z * u.z * f + c],
            ],
        };
        proof {
            let m = choose|m: T| u == scale3(n, over(one::<T>(), m));
            assert(r == rodrigues(scale3(n, over(one::<T>(), m)), minus(one::<T>(), c), c, s));
        }
        r
    }

    /// The scale by `k` along the direction `n`, normalised first:
    /// `I + (k - 1) u uᵀ`.
    pub fn scale_arb(k: T, n: Vec3<T>) -> (r: Self)
        requires
            lawful_float::<T>(),
            total::<T>(),
        ensures
            exists|m: T|
                {
                    let u = #[trigger] scale3(n, over(one::<T>(), m));
                    r == outer_update(u, minus(k, one::<T>()))
                },
    {
        let u = n.normalized();
        let o = one_of::<T>();
        let f = k - o;
        let xy = f * (u.x * u.y);
        let xz = f * (u.x * u.z);
        let yz = f * (u.y * u.z);
        Mat3 {
            mat: [
                [o + f * (u.x * u.x), xy, xz],
                [xy, o + f * (u.y * u.y), yz],
                [xz, yz, o + f * (u.z * u.z)],
            ],
        }
    }

    /// The projection onto the plane through the origin normal to `n`,
    /// normalised first: `I - u uᵀ`.
    pub fn projection(n: Vec3<T>) -> (r: Self)
        requires
            lawful_float::<T>(),
            total::<T>(),
        ensures
            exists|m: T|
                {
                    let u = #[trigger] scale3(n, over(one::<T>(), m));
                    r == outer_update(u, negated(one::<T>()))
                },
    {
        let u = n.normalized();
        let o = one_of::<T>();
        Self::scale_arb_unit(o.neg(), u)
    }

    /// The reflection about the plane through the origin normal to `n`,
    /// normalised first: `I - 2 u uᵀ`.
    pub fn reflection(n: Vec3<T>) -> (r: Self)
        requires
            lawful_float::<T>(),
            total::<T>(),
        ensures
            exists|m: T|
                {
                    let u = #[trigger] scale3(n, over(one::<T>(), m));
                    r == outer_update(u, negated(two::<T>()))
                },
    {
        let u = n.normalized();
        Self::scale_arb_unit(two_of::<T>().neg(), u)
    }

    /// `I + f u uᵀ` for a vector `u` taken as it is.
    fn scale_arb_unit(f: T, u: Vec3<T>) -> (r: Self)
        requires
            lawful_float::<T>(),
            total::<T>(),
        ensures
            r == outer_update(u, f),
    {
        let o = one_of::<T>();
        let xy = f * (u.x * u.y);
        let xz = f * (u.x * u.z);
        let yz = f * (u.y * u.z);
        Mat3 {
            mat: [
                [o + f * (u.x * u.x), xy, xz],
                [xy, o + f * (u.y * u.y), yz],
                [xz, yz, o + f * (u.z * u.z)],
            ],
        }
    }
}

/// `I + f u uᵀ`, each entry computed as `1 + f (u_i u_i)` or `f (u_i u_j)`.
pub open spec fn outer_update<T: RealScalar>(u: Vec3<T>, f: T) -> Mat3<T> {
    tabulate3(
        |i: int, j: int|
            if i == j {
                plus(one::<T>(), times(f, times(u.at(i), u.at(i))))
            } else {
                times(f, times(u.at(if i < j { i } else { j }), u.at(if i < j { j } else { i })))
            },
    )
}

/// The rotation matrix of Rodrigues' formula for the unit axis `u`, with
/// `f = 1 - cos` and `c`, `s` the cosine and sine of the angle.
pub open spec fn rodrigues<T: RealScalar>(u: Vec3<T>, f: T, c: T, s: T) -> Mat3<T> {
    Mat3 {
        mat: [
            [
                plus(times(times(u.x, u.x), f), c),
                plus(times(times(u.x, u.y), f), times(u.z, s)),
                minus(times(times(u.x, u.z), f), times(u.y, s)),
            ],
            [
                minus(times(times(u.x, u.y), f), times(u.z, s)),
                plus(times(times(u.y, u.y), f), c),
                plus(times(times(u.y, u.z), f), times(u.x, s)),
            ],
            [
                plus(times(times(u.x, u.z), f), times(u.y, s)),
                minus(times(times(u.y, u.z), f), times(u.x, s)),
                plus(times(times(u.z, u.z), f), c),
            ],
        ],
    }
}

/// The transpose of `m`.
pub open spec fn transposed3<T>(m: Mat3<T>) -> Mat3<T> {
    tabulate3(|i: int, j: int| m.at(j, i))
}

/// Transposing twice gives the matrix back.
pub proof fn lemma_transpose_twice3<T>(m: Mat3<T>)
    ensures
        transposed3(transposed3(m)) == m,
{
    let t = transposed3(transposed3(m));
    assert forall|i: int| 0 <= i < 3 implies t.mat[i] =~= m.mat[i] by {
        assert forall|j: int| 0 <= j < 3 implies t.mat[i][j] == m.mat[i][j] by {
        }
    }
    assert(t.mat =~= m.mat);
}

/// The identity is neutral on both sides of the product, for a scalar with
/// the ring identities.
pub proof fn lemma_identity_neutral3<T: RealScalar>(m: Mat3<T>)
    requires
        ring_identities::<T>(),
    ensures
        product3(identity3::<T>(), m) == m,
        product3(m, identity3::<T>()) == m,
{
    let a = product3(identity3::<T>(), m);
    let b = product3(m, identity3::<T>());
    assert forall|i: int| 0 <= i < 3 implies a.mat[i] =~= m.mat[i] && b.mat[i] =~= m.mat[i] by {
        assert forall|j: int| 0 <= j < 3 implies a.mat[i][j] == m.mat[i][j] && b.mat[i][j] == m.mat[i][j] by {
        }
    }
    assert(a.mat =~= m.mat);
    assert(b.mat =~= m.mat);
}

impl<T: RealScalar> Default for Mat3<T> {
    /// The identity matrix.
    fn default() -> (r: Self)
        ensures
            lawful::<T>() ==> r == identity3::<T>(),
    {
        let z = T::from(0i8);
        let o = T::from(1i8);
        Mat3 { mat: [[o, z, z], [z, o, z], [z, z, o]] }
    }
}

/// Row access by position, so that `m[r][c]` reads row `r`, column `c`;
/// the row must be below three.
impl<T> Index<usize> for Mat3<T> {
    type Output = [T; 3];

    fn index(&self, i: usize) -> (r: &[T; 3]) {
        &self.mat[i]
    }
}

impl<T> vstd::std_specs::core::IndexSpecImpl<usize> for Mat3<T> {
    open spec fn index_req(&self, i: &usize) -> bool {
        *i < 3
    }
}

impl<T: RealScalar> Add for Mat3<T> {
    type Output = Mat3<T>;

    fn add(self, rhs: Mat3<T>) -> (r: Mat3<T>) {
        let a = &self.mat;
        let b = &rhs.mat;
        Mat3 {
            mat: [
                [a[0][0] + b[0][0], a[0][1] + b[0][1], a[0][2] + b[0][2]],
                [a[1][0] + b[1][0], a[1][1] + b[1][1], a[1][2] + b[1][2]],
                [a[2][0] + b[2][0], a[2][1] + b[2][1], a[2][2] + b[2][2]],
            ],
        }
    }
}

impl<T: RealScalar> AddSpecImpl for Mat3<T> {
    open spec fn obeys_add_spec() -> bool {
        T::obeys_add_spec()
    }

    open spec fn add_req(self, rhs: Mat3<T>) -> bool {
        forall|i: int, j: int| 0 <= i < 3 && 0 <= j < 3 ==> #[trigger] self.mat[i][j].add_req(rhs.mat[i][j])
    }

    open spec fn add_spec(self, rhs: Mat3<T>) -> Mat3<T> {
        tabulate3(|i: int, j: int| plus(self.at(i, j), rhs.at(i, j)))
    }
}

impl<T: RealScalar> Sub for Mat3<T> {
    type Output = Mat3<T>;

    fn sub(self, rhs: Mat3<T>) -> (r: Mat3<T>) {
        let a = &self.mat;
        let b = &rhs.mat;
        Mat3 {
            mat: [
                [a[0][0] - b[0][0], a[0][1] - b[0][1], a[0][2] - b[0][2]],
                [a[1][0] - b[1][0], a[1][1] - b[1][1], a[1][2] - b[1][2]],
                [a[2][0] - b[2][0], a[2][1] - b[2][1], a[2][2] - b[2][2]],
            ],
        }
    }
}

impl<T: RealScalar> SubSpecImpl for Mat3<T> {
    open spec fn obeys_sub_spec() -> bool {
        T::obeys_sub_spec()
    }

    open spec fn sub_req(self, rhs: Mat3<T>) -> bool {
        forall|i: int, j: int| 0 <= i < 3 && 0 <= j < 3 ==> #[trigger] self.mat[i][j].sub_req(rhs.mat[i][j])
    }

    open spec fn sub_spec(self, rhs: Mat3<T>) -> Mat3<T> {
        tabulate3(|i: int, j: int| minus(self.at(i, j), rhs.at(i, j)))
    }
}

impl<T: RealScalar> Mul<T> for Mat3<T> {
    type Output = Mat3<T>;

    fn mul(self, k: T) -> (r: Mat3<T>) {
        let a = &self.mat;
        Mat3 {
            mat: [
                [a[0][0] * k, a[0][1] * k, a[0][2] * k],
                [a[1][0] * k, a[1][1] * k, a[1][2] * k],
                [a[2][0] * k, a[2][1] * k, a[2][2] * k],
            ],
        }
    }
}

impl<T: RealScalar> MulSpecImpl<T> for Mat3<T> {
    open spec fn obeys_mul_spec() -> bool {
        T::obeys_mul_spec()
    }

    open spec fn mul_req(self, k: T) -> bool {
        forall|i: int, j: int| 0 <= i < 3 && 0 <= j < 3 ==> #[trigger] self.mat[i][j].mul_req(k)
    }

    open spec fn mul_spec(self, k: T) -> Mat3<T> {
        tabulate3(|i: int, j: int| times(self.at(i, j), k))
    }
}

/// Entry `(i, j)` of the product, as `prod3` states it.
fn prod3_entry<T: RealScalar>(a: &Mat3<T>, b: &Mat3<T>, i: usize, j: usize) -> (r: T)
    requires
        lawful::<T>(),
        i < 3,
        j < 3,
        prod3_ok(*a, *b, i as int, j as int),
    ensures
        r == prod3(*a, *b, i as int, j as int),
{
    a.mat[0][j] * b.mat[i][0] + a.mat[1][j] * b.mat[i][1] + a.mat[2][j] * b.mat[i][2]
}

impl<T: RealScalar> Mul<Mat3<T>> for Mat3<T> {
    type Output = Mat3<T>;

    fn mul(self, rhs: Mat3<T>) -> (r: Mat3<T>) {
        proof {
            assert(prod3_ok(self, rhs, 0, 0) && prod3_ok(self, rhs, 0, 1) && prod3_ok(self, rhs, 0, 2));
            assert(prod3_ok(self, rhs, 1, 0) && prod3_ok(self, rhs, 1, 1) && prod3_ok(self, rhs, 1, 2));
            assert(prod3_ok(self, rhs, 2, 0) && prod3_ok(self, rhs, 2, 1) && prod3_ok(self, rhs, 2, 2));
        }
        let (a, b) = (&self, &rhs);
        Mat3 {
            mat: [
                [prod3_entry(a, b, 0, 0), prod3_entry(a, b, 0, 1), prod3_entry(a, b, 0, 2)],
                [prod3_entry(a, b, 1, 0), prod3_entry(a, b, 1, 1), prod3_entry(a, b, 1, 2)],
                [prod3_entry(a, b, 2, 0), prod3_entry(a, b, 2, 1), prod3_entry(a, b, 2, 2)],
            ],
        }
    }
}

impl<T: RealScalar> MulSpecImpl<Mat3<T>> for Mat3<T> {
    open spec fn obeys_mul_spec() -> bool {
        lawful::<T>()
    }

    open spec fn mul_req(self, rhs: Mat3<T>) -> bool {
        lawful::<T>() && forall|i: int, j: int| 0 <= i < 3 && 0 <= j < 3 ==> #[trigger] prod3_ok(self, rhs, i, j)
    }

    open spec fn mul_spec(self, rhs: Mat3<T>) -> Mat3<T> {
        product3(self, rhs)
    }
}

/// Component `i` of the product, as `apply3` states it.
fn apply3_entry<T: RealScalar>(m: &Mat3<T>, v: &Vec3<T>, i: usize) -> (r: T)
    requires
        lawful::<T>(),
        i < 3,
        apply3_ok(*m, *v, i as int),
    ensures
        r == apply3(*m, *v, i as int),
{
    v.x * m.mat[0][i] + v.y * m.mat[1][i] + v.z * m.mat[2][i]
}

impl<T: RealScalar> Mul<Vec3<T>> for Mat3<T> {
    type Output = Vec3<T>;

    fn mul(self, v: Vec3<T>) -> (r: Vec3<T>) {
        proof {
            assert(apply3_ok(self, v, 0) && apply3_ok(self, v, 1) && apply3_ok(self, v, 2));
        }
        Vec3 { x: apply3_entry(&self, &v, 0), y: apply3_entry(&self, &v, 1), z: apply3_entry(&self, &v, 2) }
    }
}

impl<T: RealScalar> MulSpecImpl<Vec3<T>> for Mat3<T> {
    open spec fn obeys_mul_spec() -> bool {
        lawful::<T>()
    }

    open spec fn mul_req(self, v: Vec3<T>) -> bool {
        lawful::<T>() && forall|i: int| 0 <= i < 3 ==> #[trigger] apply3_ok(self, v, i)
    }

    open spec fn mul_spec(self, v: Vec3<T>) -> Vec3<T> {
        Vec3 { x: apply3(self, v, 0), y: apply3(self, v, 1), z: apply3(self, v, 2) }
    }
}

impl<T: Copy> From<[[T; 3]; 3]> for Mat3<T> {
    fn from(a: [[T; 3]; 3]) -> (r: Mat3<T>) {
        Mat3 { mat: a }
    }
}

impl<T: Copy> FromSpecImpl<[[T; 3]; 3]> for Mat3<T> {
    open spec fn obeys_from_spec() -> bool {
        true
    }

    open spec fn from_spec(a: [[T; 3]; 3]) -> Mat3<T> {
        Mat3 { mat: a }
    }
}

impl<T> From<(Vec3<T>, Vec3<T>, Vec3<T>)> for Mat3<T> {
    /// The matrix whose rows are the three vectors.
    fn from(rows: (Vec3<T>, Vec3<T>, Vec3<T>)) -> (r: Mat3<T>) {
        Mat3 {
            mat: [
                [rows.0.x, rows.0.y, rows.0.z],
                [rows.1.x, rows.1.y, rows.1.z],
                [rows.2.x, rows.2.y, rows.2.z],
            ],
        }
    }
}

impl<T> FromSpecImpl<(Vec3<T>, Vec3<T>, Vec3<T>)> for Mat3<T> {
    open spec fn obeys_from_spec() -> bool {
        true
    }

    open spec fn from_spec(rows: (Vec3<T>, Vec3<T>, Vec3<T>)) -> Mat3<T> {
        Mat3 {
            mat: [
                [rows.0.x, rows.0.y, rows.0.z],
                [rows.1.x, rows.1.y, rows.1.z],
                [rows.2.x, rows.2.y, rows.2.z],
            ],
        }
    }
}

} // verus!
