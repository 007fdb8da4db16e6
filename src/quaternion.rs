//! Rotation quaternions: the Hamilton product, interpolation, and the
//! conversions between quaternions and rotation matrices.

use crate::mat3::{tabulate3, Mat3};
use crate::mat4::{embed3, Mat4};
use crate::scalar::{
    acos_of, atan2_of, cos_of, greater, lawful, minus_ok, ring_total, ring_identities, blend_identities,
    lawful_float, less, magnitude_of, minus, near_one, near_one_ok, near_one_of, nearer_one,
    nearer_one_of, negated, negated_ok, one, one_of, over, plus, plus_ok, sin_of, sqrt_of, abs_of,
    times, times_ok, total, two, two_of, zero, zero_of, FloatScalar, RealScalar,
};
use crate::vec3::{add3, add3_ok, cross3, cross3_ok, dot3, dot3_ok, neg3, neg3_ok, scale3, scale3_ok, Vec3};
use core::ops::{Mul, Neg};
use vstd::prelude::*;
use vstd::std_specs::cmp::PartialOrdSpec;
use vstd::std_specs::convert::FromSpec;
use vstd::std_specs::ops::{AddSpec, DivSpec, MulSpec, NegSpec, SubSpec};
use vstd::std_specs::ops::{MulSpecImpl, NegSpecImpl};

verus! {

/// A quaternion `w + v`: a rotation when of unit length.
#[derive(Clone, Copy, Debug, PartialEq, Default)]
pub struct Quaternion<T> {
    pub w: T,
    pub v: Vec3<T>,
}

/// `w1 w2 + v1 · v2`.
pub open spec fn dot_q<T: RealScalar>(a: Quaternion<T>, b: Quaternion<T>) -> T {
    plus(times(a.w, b.w), dot3(a.v, b.v))
}

pub open spec fn dot_q_ok<T: RealScalar>(a: Quaternion<T>, b: Quaternion<T>) -> bool {
    times_ok(a.w, b.w) && dot3_ok(a.v, b.v) && plus_ok(times(a.w, b.w), dot3(a.v, b.v))
}

/// The Hamilton product: `w = w1 w2 - v1 · v2`, `v = w1 v2 + w2 v1 + v1 × v2`.
pub open spec fn hamilton<T: RealScalar>(a: Quaternion<T>, b: Quaternion<T>) -> Quaternion<T> {
    Quaternion {
        w: minus(times(a.w, b.w), dot3(a.v, b.v)),
        v: add3(add3(scale3(b.v, a.w), scale3(a.v, b.w)), cross3(a.v, b.v)),
    }
}

pub open spec fn hamilton_ok<T: RealScalar>(a: Quaternion<T>, b: Quaternion<T>) -> bool {
    &&& times_ok(a.w, b.w)
    &&& dot3_ok(a.v, b.v)
    &&& minus_ok(times(a.w, b.w), dot3(a.v, b.v))
    &&& scale3_ok(b.v, a.w)
    &&& scale3_ok(a.v, b.w)
    &&& cross3_ok(a.v, b.v)
    &&& add3_ok(scale3(b.v, a.w), scale3(a.v, b.w))
    &&& add3_ok(add3(scale3(b.v, a.w), scale3(a.v, b.w)), cross3(a.v, b.v))
}

pub open spec fn conjugate_of<T: RealScalar>(q: Quaternion<T>) -> Quaternion<T> {
    Quaternion { w: q.w, v: neg3(q.v) }
}

pub open spec fn neg_q<T: RealScalar>(q: Quaternion<T>) -> Quaternion<T> {
    Quaternion { w: negated(q.w), v: neg3(q.v) }
}

/// `a k0 + b k1`, coefficient by coefficient.
pub open spec fn blend<T: RealScalar>(a: Quaternion<T>, b: Quaternion<T>, k0: T, k1: T) -> Quaternion<T> {
    Quaternion {
        w: plus(times(a.w, k0), times(b.w, k1)),
        v: Vec3 {
            x: plus(times(a.v.x, k0), times(b.v.x, k1)),
            y: plus(times(a.v.y, k0), times(b.v.y, k1)),
            z: plus(times(a.v.z, k0), times(b.v.z, k1)),
        },
    }
}

/// The rotation matrix of `q`, row-major, for vectors multiplied on the left:
/// diagonal `1 - 2(y² + z²)` and the like, off the diagonal `2xy ± 2wz`
/// and the like. Only for a unit `q` is this a rotation.
pub open spec fn rotation_of<T: RealScalar>(q: Quaternion<T>) -> Mat3<T> {
    let (w, x, y, z) = (q.w, q.v.x, q.v.y, q.v.z);
    let t = two::<T>();
    Mat3 {
        mat: [
            [
                minus(minus(one::<T>(), times(t, times(y, y))), times(t, times(z, z))),
                plus(times(times(t, x), y), times(times(t, w), z)),
                minus(times(times(t, x), z), times(times(t, w), y)),
            ],
            [
                minus(times(times(t, x), y), times(times(t, w), z)),
                minus(minus(one::<T>(), times(t, times(x, x))), times(t, times(z, z))),
                plus(times(times(t, y), z), times(times(t, w), x)),
            ],
            [
                plus(times(times(t, x), z), times(times(t, w), y)),
                minus(times(times(t, y), z), times(times(t, w), x)),
                minus(minus(one::<T>(), times(t, times(x, x))), times(t, times(y, y))),
            ],
        ],
    }
}

/// The four trace-like candidates `W`, `X`, `Y`, `Z` of a rotation matrix.
pub open spec fn candidates<T: RealScalar>(m: Mat3<T>) -> (T, T, T, T) {
    (
        plus(plus(m.at(0, 0), m.at(1, 1)), m.at(2, 2)),
        minus(minus(m.at(0, 0), m.at(1, 1)), m.at(2, 2)),
        minus(minus(m.at(1, 1), m.at(0, 0)), m.at(2, 2)),
        minus(minus(m.at(2, 2), m.at(0, 0)), m.at(1, 1)),
    )
}

/// Which candidate is largest: 0 for `W`, 1 for `X`, 2 for `Y`, 3 for `Z`,
/// the first one on a tie.
pub open spec fn dominant<T: FloatScalar>(m: Mat3<T>) -> int {
    let (cw, cx, cy, cz) = candidates(m);
    let (b1, i1) = if greater(cx, cw) { (cx, 1int) } else { (cw, 0int) };
    let (b2, i2) = if greater(cy, b1) { (cy, 2int) } else { (b1, i1) };
    if greater(cz, b2) { 3 } else { i2 }
}

/// The quaternion of `m` when the component picked by `dominant` is `l`, the
/// others coming from off-diagonal differences and sums scaled by `k`, which
/// is `1 / (4 l)`.
pub open spec fn from_branch<T: FloatScalar>(m: Mat3<T>, branch: int, l: T, k: T) -> Quaternion<T> {
    let d12 = times(minus(m.at(1, 2), m.at(2, 1)), k);
    let d20 = times(minus(m.at(2, 0), m.at(0, 2)), k);
    let d01 = times(minus(m.at(0, 1), m.at(1, 0)), k);
    let s01 = times(plus(m.at(0, 1), m.at(1, 0)), k);
    let s20 = times(plus(m.at(2, 0), m.at(0, 2)), k);
    let s12 = times(plus(m.at(1, 2), m.at(2, 1)), k);
    if branch == 0 {
        Quaternion { w: l, v: Vec3 { x: d12, y: d20, z: d01 } }
    } else if branch == 1 {
        Quaternion { w: d12, v: Vec3 { x: l, y: s01, z: s20 } }
    } else if branch == 2 {
        Quaternion { w: d20, v: Vec3 { x: s01, y: l, z: s12 } }
    } else {
        Quaternion { w: d01, v: Vec3 { x: s20, y: s12, z: l } }
    }
}

/// The quaternion `slerp` returns for the weights `k0` and `k1`: after the
/// shorter arc is taken, a blend of `a` and `b`.
pub open spec fn slerp_blend<T: FloatScalar>(a: Quaternion<T>, b: Quaternion<T>, k0: T, k1: T) -> Quaternion<T> {
    if less(dot_q(a, b), zero::<T>()) {
        blend(a, neg_q(b), k0, k1)
    } else {
        blend(a, b, k0, k1)
    }
}

/// Past this cosine the two quaternions of `slerp` count as parallel.
pub open spec fn slerp_parallel<T: FloatScalar>(a: Quaternion<T>, b: Quaternion<T>) -> bool {
    greater(magnitude_of(dot_q(a, b)), near_one::<T>())
}

impl<T> Quaternion<T> {
    /// The quaternion with scalar part `w` and vector part `v`, taken as they are.
    pub fn new_sv(w: T, v: Vec3<T>) -> (r: Self)
        ensures
            r == (Quaternion { w, v }),
    {
        Quaternion { w, v }
    }
}

impl<T: RealScalar> Quaternion<T> {
    /// The same scalar part and the vector part negated: for a unit
    /// quaternion, its inverse.
    pub fn conjugate(self) -> (r: Self)
        requires
            lawful::<T>(),
            neg3_ok(self.v),
        ensures
            r == conjugate_of(self),
    {
        Quaternion { w: self.w, v: self.v.neg() }
    }

    /// `w1 w2 + v1 · v2`.
    pub fn dot(self, other: Quaternion<T>) -> (r: T)
        requires
            lawful::<T>(),
            dot_q_ok(self, other),
        ensures
            r == dot_q(self, other),
    {
        self.w * other.w + self.v.dot(other.v)
    }

    /// The rotation that takes `self` to `other`: `other * conjugate(self)`.
    pub fn displacement_from(self, other: Quaternion<T>) -> (r: Self)
        requires
            lawful::<T>(),
            neg3_ok(self.v),
            hamilton_ok(other, conjugate_of(self)),
        ensures
            r == hamilton(other, conjugate_of(self)),
    {
        other * self.conjugate()
    }
}

impl<T: FloatScalar + num_traits::Float> Quaternion<T> {
    /// The rotation by `ang` radians about `axis`, normalised first:
    /// `w = cos(ang / 2)`, `v = sin(ang / 2) axis`.
    pub fn new(ang: T, axis: Vec3<T>) -> (r: Self)
        requires
            lawful_float::<T>(),
            total::<T>(),
        ensures
            exists|m: T, c: T, s: T| r == #[trigger] axis_angle_of(axis, m, c, s),
    {
        let u = axis.normalized();
        let half = ang / two_of::<T>();
        let c = cos_of(half);
        let s = sin_of(half);
        let r = Quaternion { w: c, v: u * s };
        proof {
            let m = choose|m: T| u == scale3(axis, over(one::<T>(), m));
            assert(r == axis_angle_of(axis, m, c, s));
        }
        r
    }

    /// The square root of `w² + |v|²`.
    pub fn magnitude(self) -> T
        requires
            lawful::<T>(),
            total::<T>(),
    {
        sqrt_of(self.w * self.w + self.v.squared_mag())
    }

    /// The fractional rotation: `self` unchanged when `|w|` is past
    /// one hundred-thousandth short of one; else `w = cos(exp acos w)` and `v`
    /// rescaled by `sin(exp acos w) / sin(acos w)`.
    pub fn pow(self, exp: T) -> (r: Self)
        requires
            lawful_float::<T>(),
            total::<T>(),
            near_one_ok::<T>(),
        ensures
            greater(magnitude_of(self.w), nearer_one::<T>()) ==> r == self,
            !greater(magnitude_of(self.w), nearer_one::<T>()) ==> exists|k: T| r.v == #[trigger] scale3(self.v, k),
    {
        if abs_of(self.w) > nearer_one_of::<T>() {
            return self;
        }
        let a = acos_of(self.w);
        let alpha = a * exp;
        let c = cos_of(alpha);
        let k = sin_of(alpha) / sin_of(a);
        let r = Quaternion { w: c, v: Vec3::new(self.v.x * k, self.v.y * k, self.v.z * k) };
        assert(r.v == scale3(self.v, k));
        r
    }

    /// Spherical interpolation from `self` to `other` by `t`, along the
    /// shorter arc. When the cosine of the angle between them is past one
    /// ten-thousandth short of one, the weights are the linear `1 - t` and `t`.
    pub fn slerp(self, other: Quaternion<T>, t: T) -> (r: Self)
        requires
            lawful_float::<T>(),
            total::<T>(),
            near_one_ok::<T>(),
        ensures
            slerp_parallel(self, other) ==> r == slerp_blend(self, other, minus(one::<T>(), t), t),
            !slerp_parallel(self, other) ==> exists|k0: T, k1: T| r == #[trigger] slerp_blend(self, other, k0, k1),
    {
        let z = zero_of::<T>();
        let o = one_of::<T>();
        let mut c = self.dot(other);
        let w2;
        if c < z {
            w2 = other.neg();
            c = c.neg();
        } else {
            w2 = other;
        }
        let k0;
        let k1;
        if c > near_one_of::<T>() {
            k0 = o - t;
            k1 = t;
        } else {
            let s = sqrt_of(o - c * c);
            let omega = atan2_of(s, c);
            let inv = o / s;
            k0 = sin_of((o - t) * omega) * inv;
            k1 = sin_of(t * omega) * inv;
        }
        let r = Quaternion {
            w: self.w * k0 + w2.w * k1,
            v: Vec3::new(
                self.v.x * k0 + w2.v.x * k1,
                self.v.y * k0 + w2.v.y * k1,
                self.v.z * k0 + w2.v.z * k1,
            ),
        };
        assert(r == slerp_blend(self, other, k0, k1));
        r
    }

    /// The quaternion of the rotation matrix `m`, computed from its largest
    /// trace-like candidate (see `dominant`), whose component is
    /// `sqrt(candidate + 1) / 2`.
    pub fn from_mat3(m: Mat3<T>) -> (r: Self)
        requires
            lawful_float::<T>(),
            total::<T>(),
        ensures
            exists|l: T| r == #[trigger] from_branch(m, dominant(m), l, over(one::<T>(), times(times(two::<T>(), two::<T>()), l))),
    {
        let a = &m.mat;
        let cw = a[0][0] + a[1][1] + a[2][2];
        let cx = a[0][0] - a[1][1] - a[2][2];
        let cy = a[1][1] - a[0][0] - a[2][2];
        let cz = a[2][2] - a[0][0] - a[1][1];
        let mut branch: usize = 0;
        let mut biggest = cw;
        if cx > biggest {
            biggest = cx;
            branch = 1;
        }
        if cy > biggest {
            biggest = cy;
            branch = 2;
        }
        if cz > biggest {
            biggest = cz;
            branch = 3;
        }
        let o = one_of::<T>();
        let t = two_of::<T>();
        let l = sqrt_of(biggest + o) / t;
        let k = o / (t * t * l);
        let d12 = (a[1][2] - a[2][1]) * k;
        let d20 = (a[2][0] - a[0][2]) * k;
        let d01 = (a[0][1] - a[1][0]) * k;
        let s01 = (a[0][1] + a[1][0]) * k;
        let s20 = (a[2][0] + a[0][2]) * k;
        let s12 = (a[1][2] + a[2][1]) * k;
        let r = if branch == 0 {
            Quaternion { w: l, v: Vec3 { x: d12, y: d20, z: d01 } }
        } else if branch == 1 {
            Quaternion { w: d12, v: Vec3 { x: l, y: s01, z: s20 } }
        } else if branch == 2 {
            Quaternion { w: d20, v: Vec3 { x: s01, y: l, z: s12 } }
        } else {
            Quaternion { w: d01, v: Vec3 { x: s20, y: s12, z: l } }
        };
        assert(branch as int == dominant(m));
        assert(r == from_branch(m, dominant(m), l, over(one::<T>(), times(times(two::<T>(), two::<T>()), l))));
        r
    }

    /// The quaternion of the rotation in the upper-left corner of `m`, as
    /// `from_mat3` computes it.
    pub fn from_mat4(m: Mat4<T>) -> (r: Self)
        requires
            lawful_float::<T>(),
            total::<T>(),
        ensures
            exists|l: T|
                r == #[trigger] from_branch(
                    upper_left(m),
                    dominant(upper_left(m)),
                    l,
                    over(one::<T>(), times(times(two::<T>(), two::<T>()), l)),
                ),
    {
        let a = &m.mat;
        let u = Mat3 {
            mat: [[a[0][0], a[0][1], a[0][2]], [a[1][0], a[1][1], a[1][2]], [a[2][0], a[2][1], a[2][2]]],
        };
        assert(u == upper_left(m));
        Self::from_mat3(u)
    }
}

/// The upper-left 3×3 corner of `m`.
pub open spec fn upper_left<T>(m: Mat4<T>) -> Mat3<T> {
    tabulate3(|i: int, j: int| m.at(i, j))
}

/// `c + s u` with `u` the axis scaled by `1 / m`.
pub open spec fn axis_angle_of<T: FloatScalar>(axis: Vec3<T>, m: T, c: T, s: T) -> Quaternion<T> {
    Quaternion { w: c, v: scale3(scale3(axis, over(one::<T>(), m)), s) }
}

impl<T: RealScalar> Mat3<T> {
    /// The rotation matrix of `q`, as `rotation_of` states it; `q` should be
    /// of unit length, as nothing here normalises it.
    pub fn from_quaternion(q: Quaternion<T>) -> (r: Mat3<T>)
        requires
            lawful::<T>(),
            ring_total::<T>(),
        ensures
            r == rotation_of(q),
    {
        let (w, x, y, z) = (q.w, q.v.x, q.v.y, q.v.z);
        let o = one_of::<T>();
        let t = two_of::<T>();
        Mat3 {
            mat: [
                [o - t * (y * y) - t * (z * z), t * x * y + t * w * z, t * x * z - t * w * y],
                [t * x * y - t * w * z, o - t * (x * x) - t * (z * z), t * y * z + t * w * x],
                [t * x * z + t * w * y, t * y * z - t * w * x, o - t * (x * x) - t * (y * y)],
            ],
        }
    }
}

impl<T: RealScalar> Mat4<T> {
    /// The rotation matrix of `q` in the upper-left corner of the identity.
    pub fn from_quaternion(q: Quaternion<T>) -> (r: Mat4<T>)
        requires
            lawful::<T>(),
            ring_total::<T>(),
        ensures
            r == embed3(rotation_of(q)),
    {
        let a = Mat3::from_quaternion(q);
        let z = zero_of::<T>();
        let o = one_of::<T>();
        let m = &a.mat;
        Mat4 {
            mat: [
                [m[0][0], m[0][1], m[0][2], z],
                [m[1][0], m[1][1], m[1][2], z],
                [m[2][0], m[2][1], m[2][2], z],
                [z, z, z, o],
            ],
        }
    }
}

/// Interpolating a unit quaternion with itself gives it back, whatever `t`:
/// such a pair is on the near-parallel path, whose weights `1 - t` and `t`
/// sum to one.
pub proof fn lemma_slerp_same<T: FloatScalar>(q: Quaternion<T>, t: T)
    requires
        ring_identities::<T>(),
        blend_identities::<T>(),
        dot_q(q, q) == one::<T>(),
        greater(one::<T>(), near_one::<T>()),
        !less(one::<T>(), zero::<T>()),
    ensures
        slerp_parallel(q, q),
        slerp_blend(q, q, minus(one::<T>(), t), t) == q,
{
    let k0 = minus(one::<T>(), t);
    assert(plus(times(q.w, k0), times(q.w, t)) == q.w);
    assert(plus(times(q.v.x, k0), times(q.v.x, t)) == q.v.x);
    assert(plus(times(q.v.y, k0), times(q.v.y, t)) == q.v.y);
    assert(plus(times(q.v.z, k0), times(q.v.z, t)) == q.v.z);
}

/// On the near-parallel path, interpolating by zero gives the start.
pub proof fn lemma_slerp_start<T: FloatScalar>(a: Quaternion<T>, b: Quaternion<T>)
    requires
        ring_identities::<T>(),
        blend_identities::<T>(),
    ensures
        slerp_blend(a, b, minus(one::<T>(), zero::<T>()), zero::<T>()) == a,
{
    assert(minus(one::<T>(), zero::<T>()) == one::<T>());
}

/// On the near-parallel path, interpolating by one gives the end, or its
/// negation (the same rotation) when the shorter arc runs through it.
pub proof fn lemma_slerp_end<T: FloatScalar>(a: Quaternion<T>, b: Quaternion<T>)
    requires
        ring_identities::<T>(),
        blend_identities::<T>(),
    ensures
        slerp_blend(a, b, minus(one::<T>(), one::<T>()), one::<T>()) == if less(dot_q(a, b), zero::<T>()) {
            neg_q(b)
        } else {
            b
        },
{
    assert(minus(one::<T>(), one::<T>()) == zero::<T>());
}

impl<T: RealScalar> Mul<Quaternion<T>> for Quaternion<T> {
    type Output = Quaternion<T>;

    /// The Hamilton product.
    fn mul(self, other: Quaternion<T>) -> (r: Quaternion<T>) {
        Quaternion {
            w: self.w * other.w - self.v.dot(other.v),
            v: other.v * self.w + self.v * other.w + self.v.cross(other.v),
        }
    }
}

impl<T: RealScalar> MulSpecImpl<Quaternion<T>> for Quaternion<T> {
    open spec fn obeys_mul_spec() -> bool {
        lawful::<T>()
    }

    open spec fn mul_req(self, other: Quaternion<T>) -> bool {
        lawful::<T>() && hamilton_ok(self, other)
    }

    open spec fn mul_spec(self, other: Quaternion<T>) -> Quaternion<T> {
        hamilton(self, other)
    }
}

impl<T: RealScalar> Mul<T> for Quaternion<T> {
    type Output = Quaternion<T>;

    fn mul(self, k: T) -> (r: Quaternion<T>) {
        Quaternion { w: self.w * k, v: self.v * k }
    }
}

impl<T: RealScalar> MulSpecImpl<T> for Quaternion<T> {
    open spec fn obeys_mul_spec() -> bool {
        T::obeys_mul_spec()
    }

    open spec fn mul_req(self, k: T) -> bool {
        times_ok(self.w, k) && scale3_ok(self.v, k)
    }

    open spec fn mul_spec(self, k: T) -> Quaternion<T> {
        Quaternion { w: times(self.w, k), v: scale3(self.v, k) }
    }
}

impl<T: RealScalar> Neg for Quaternion<T> {
    type Output = Quaternion<T>;

    fn neg(self) -> (r: Quaternion<T>) {
        Quaternion { w: self.w.neg(), v: self.v.neg() }
    }
}

impl<T: RealScalar> NegSpecImpl for Quaternion<T> {
    open spec fn obeys_neg_spec() -> bool {
        T::obeys_neg_spec()
    }

    open spec fn neg_req(self) -> bool {
        negated_ok(self.w) && neg3_ok(self.v)
    }

    open spec fn neg_spec(self) -> Quaternion<T> {
        neg_q(self)
    }
}

} // verus!
