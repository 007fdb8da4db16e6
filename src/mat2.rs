//! 2×2 matrices.

use crate::scalar::{
    cos_of, lawful, lawful_float, ring_identities, minus, minus_ok, negated, one, one_of, over, plus, plus_ok,
    sin_of, times, times_ok, total, two, two_of, zero, zero_of, FloatScalar, RealScalar,
};
use crate::vec2::{scale2, Vec2};
use core::ops::{Add, Index, Mul, Neg, Sub};
use vstd::prelude::*;
use vstd::std_specs::convert::{FromSpec, FromSpecImpl};
use vstd::std_specs::ops::{AddSpec, DivSpec, MulSpec, NegSpec, SubSpec};
use vstd::std_specs::ops::{AddSpecImpl, MulSpecImpl, SubSpecImpl};

verus! {

/// A 2×2 matrix stored row-major: `mat[r][c]` is row `r`, column `c`.
#[derive(Clone, Copy, Debug, PartialEq)]
pub struct Mat2<T> {
    pub mat: [[T; 2]; 2],
}

/// The matrix whose entry at row `i`, column `j` is `f(i, j)`.
pub open spec fn tabulate2<T>(f: spec_fn(int, int) -> T) -> Mat2<T> {
    Mat2 { mat: [[f(0, 0), f(0, 1)], [f(1, 0), f(1, 1)]] }
}

/// `a * d - c * b`: the determinant of the matrix with rows `(a, b)` and `(c, d)`.
pub open spec fn det2<T: RealScalar>(a: T, b: T, c: T, d: T) -> T {
    minus(times(a, d), times(c, b))
}

pub open spec fn det2_ok<T: RealScalar>(a: T, b: T, c: T, d: T) -> bool {
    times_ok(a, d) && times_ok(c, b) && minus_ok(times(a, d), times(c, b))
}

impl<T> Mat2<T> {
    pub open spec fn at(self, i: int, j: int) -> T {
        self.mat[i][j]
    }

    pub fn new(s0e0: T, s0e1: T, s1e0: T, s1e1: T) -> (r: Self)
        ensures
            r == (Mat2 { mat: [[s0e0, s0e1], [s1e0, s1e1]] }),
    {
        Mat2 { mat: [[s0e0, s0e1], [s1e0, s1e1]] }
    }
}

impl<T: Copy> Mat2<T> {
    /// The entry at row `i`, column `j`; both must be below two.
    pub fn get(&self, i: usize, j: usize) -> (r: T)
        requires
            i < 2,
            j < 2,
        ensures
            r == self.at(i as int, j as int),
    {
        self.mat[i][j]
    }

    /// Row `i`, which must be below two.
    pub fn row(&self, i: usize) -> (r: [T; 2])
        requires
            i < 2,
        ensures
            r == self.mat[i as int],
    {
        self.mat[i]
    }

    /// The transpose, leaving `self` as it is.
    pub fn transpost(&self) -> (r: Self)
        ensures
            r == transposed2(*self),
    {
        Mat2 { mat: [[self.mat[0][0], self.mat[1][0]], [self.mat[0][1], self.mat[1][1]]] }
    }

    /// Transposes `self` in place.
    pub fn transpose(&mut self)
        ensures
            *final(self) == transposed2(*old(self)),
    {
        let t = self.transpost();
        *self = t;
    }
}

impl<T: RealScalar> Mat2<T> {
    /// The matrix with every entry zero.
    pub fn zero() -> (r: Self)
        requires
            lawful::<T>(),
        ensures
            r == tabulate2(|i: int, j: int| zero::<T>()),
    {
        let z = zero_of::<T>();
        Mat2 { mat: [[z, z], [z, z]] }
    }

    /// The identity matrix.
    pub fn identity() -> (r: Self)
        requires
            lawful::<T>(),
        ensures
            r == identity2::<T>(),
    {
        let z = zero_of::<T>();
        let o = one_of::<T>();
        Mat2 { mat: [[o, z], [z, o]] }
    }

    /// `m[0][0] * m[1][1] - m[1][0] * m[0][1]`.
    pub fn determinant(&self) -> (r: T)
        requires
            lawful::<T>(),
            det2_ok(self.at(0, 0), self.at(0, 1), self.at(1, 0), self.at(1, 1)),
        ensures
            r == det2(self.at(0, 0), self.at(0, 1), self.at(1, 0), self.at(1, 1)),
    {
        self.mat[0][0] * self.mat[1][1] - self.mat[1][0] * self.mat[0][1]
    }

    /// A uniform scale by `k` in both directions.
    pub fn scale(k: T) -> (r: Self)
        requires
            lawful::<T>(),
        ensures
            r == (Mat2 { mat: [[k, zero::<T>()], [zero::<T>(), k]] }),
    {
        let z = zero_of::<T>();
        Mat2 { mat: [[k, z], [z, k]] }
    }

    /// The projection onto the x-axis.
    pub fn projection_x() -> (r: Self)
        requires
            lawful::<T>(),
        ensures
            r == (Mat2 { mat: [[one::<T>(), zero::<T>()], [zero::<T>(), zero::<T>()]] }),
    {
        let z = zero_of::<T>();
        let o = one_of::<T>();
        Mat2 { mat: [[o, z], [z, z]] }
    }

    /// The projection onto the y-axis.
    pub fn projection_y() -> (r: Self)
        requires
            lawful::<T>(),
        ensures
            r == (Mat2 { mat: [[zero::<T>(), zero::<T>()], [zero::<T>(), one::<T>()]] }),
    {
        let z = zero_of::<T>();
        let o = one_of::<T>();
        Mat2 { mat: [[z, z], [z, o]] }
    }

    /// A shear along x by `s`.
    pub fn shearing_x(s: T) -> (r: Self)
        requires
            lawful::<T>(),
        ensures
            r == (Mat2 { mat: [[one::<T>(), zero::<T>()], [s, one::<T>()]] }),
    {
        let z = zero_of::<T>();
        let o = one_of::<T>();
        Mat2 { mat: [[o, z], [s, o]] }
    }

    /// A shear along y by `s`.
    pub fn shearing_y(s: T) -> (r: Self)
        requires
            lawful::<T>(),
        ensures
            r == (Mat2 { mat: [[one::<T>(), s], [zero::<T>(), one::<T>()]] }),
    {
        let z = zero_of::<T>();
        let o = one_of::<T>();
        Mat2 { mat: [[o, s], [z, o]] }
    }
}

pub open spec fn identity2<T: RealScalar>() -> Mat2<T> {
    tabulate2(|i: int, j: int| if i == j { one::<T>() } else { zero::<T>() })
}

/// The product `a * b` under this library's convention (see `prod2`).
pub open spec fn product2<T: RealScalar>(a: Mat2<T>, b: Mat2<T>) -> Mat2<T> {
    tabulate2(|i: int, j: int| prod2(a, b, i, j))
}

/// Entry `(i, j)` of the product `a * b`: the sum over `k` of `a[k][j] * b[i][k]`.
pub open spec fn prod2<T: RealScalar>(a: Mat2<T>, b: Mat2<T>, i: int, j: int) -> T {
    plus(times(a.at(0, j), b.at(i, 0)), times(a.at(1, j), b.at(i, 1)))
}

pub open spec fn prod2_ok<T: RealScalar>(a: Mat2<T>, b: Mat2<T>, i: int, j: int) -> bool {
    &&& times_ok(a.at(0, j), b.at(i, 0))
    &&& times_ok(a.at(1, j), b.at(i, 1))
    &&& plus_ok(times(a.at(0, j), b.at(i, 0)), times(a.at(1, j), b.at(i, 1)))
}

/// Component `i` of the product of `m` and the vector `v`: the sum over `j` of `v[j] * m[j][i]`.
pub open spec fn apply2<T: RealScalar>(m: Mat2<T>, v: Vec2<T>, i: int) -> T {
    plus(times(v.x, m.at(0, i)), times(v.y, m.at(1, i)))
}

pub open spec fn apply2_ok<T: RealScalar>(m: Mat2<T>, v: Vec2<T>, i: int) -> bool {
    &&& times_ok(v.x, m.at(0, i))
    &&& times_ok(v.y, m.at(1, i))
    &&& plus_ok(times(v.x, m.at(0, i)), times(v.y, m.at(1, i)))
}

impl<T: FloatScalar + num_traits::Float> Mat2<T> {
    /// The rotation by `ang` radians about the origin: `[[c, -s], [s, c]]`
    /// with `c` and `s` the angle's cosine and sine.
    pub fn rotation(ang: T) -> (r: Self)
        requires
            lawful_float::<T>(),
            total::<T>(),
        ensures
            r.at(1, 1) == r.at(0, 0),
            r.at(0, 1) == negated(r.at(1, 0)),
    {
        let c = cos_of(ang);
        let s = sin_of(ang);
        Mat2 { mat: [[c, s.neg()], [s, c]] }
    }

    /// The scale by `k` along the direction of `n`, normalised first.
    pub fn scale_arb(k: T, n: Vec2<T>) -> (r: Self)
        requires
            lawful_float::<T>(),
            total::<T>(),
        ensures
            exists|m: T|
                {
                    let u = #[trigger] scale2(n, over(one::<T>(), m));
                    let f = minus(k, one::<T>());
                    r == (Mat2 {
                        mat: [
                            [plus(one::<T>(), times(f, times(u.x, u.x))), times(times(f, u.x), u.y)],
                            [times(times(f, u.x), u.y), plus(one::<T>(), times(f, times(u.y, u.y)))],
                        ],
                    })
                },
    {
        let u = n.normalized();
        let o = one_of::<T>();
        let f = k - o;
        let xy = f * u.x * u.y;
        Mat2 { mat: [[o + f * (u.x * u.x), xy], [xy, o + f * (u.y * u.y)]] }
    }

    /// The projection onto the line through the origin perpendicular to `n`,
    /// with `n` normalised first: `I - u uᵀ`.
    pub fn projection(n: Vec2<T>) -> (r: Self)
        requires
            lawful_float::<T>(),
            total::<T>(),
        ensures
            exists|m: T|
                {
                    let u = #[trigger] scale2(n, over(one::<T>(), m));
                    r == (Mat2 {
                        mat: [
                            [minus(one::<T>(), times(u.x, u.x)), times(negated(u.x), u.y)],
                            [times(negated(u.x), u.y), minus(one::<T>(), times(u.y, u.y))],
                        ],
                    })
                },
    {
        let u = n.normalized();
        let o = one_of::<T>();
        let xy = u.x.neg() * u.y;
        Mat2 { mat: [[o - u.x * u.x, xy], [xy, o - u.y * u.y]] }
    }

    /// The reflection about the line whose normal is `n`, normalised first.
    pub fn reflection(n: Vec2<T>) -> (r: Self)
        requires
            lawful_float::<T>(),
            total::<T>(),
        ensures
            exists|m: T|
                {
                    let u = #[trigger] scale2(n, over(one::<T>(), m));
                    r == (Mat2 {
                        mat: [
                            [
                                minus(one::<T>(), times(two::<T>(), times(u.x, u.x))),
                                times(times(negated(two::<T>()), u.x), u.y),
                            ],
                            [
                                times(times(negated(two::<T>()), u.x), u.y),
                                minus(one::<T>(), times(two::<T>(), times(u.y, u.y))),
                            ],
                        ],
                    })
                },
    {
        let u = n.normalized();
        let o = one_of::<T>();
        let t = two_of::<T>();
        let xy = t.neg() * u.x * u.y;
        Mat2 { mat: [[o - t * (u.x * u.x), xy], [xy, o - t * (u.y * u.y)]] }
    }
}

/// The transpose of `m`.
pub open spec fn transposed2<T>(m: Mat2<T>) -> Mat2<T> {
    tabulate2(|i: int, j: int| m.at(j, i))
}

/// Transposing twice gives the matrix back.
pub proof fn lemma_transpose_twice2<T>(m: Mat2<T>)
    ensures
        transposed2(transposed2(m)) == m,
{
    let t = transposed2(transposed2(m));
    assert forall|i: int| 0 <= i < 2 implies t.mat[i] =~= m.mat[i] by {
        assert forall|j: int| 0 <= j < 2 implies t.mat[i][j] == m.mat[i][j] by {
        }
    }
    assert(t.mat =~= m.mat);
}

/// The identity is neutral on both sides of the product, for a scalar with
/// the ring identities.
pub proof fn lemma_identity_neutral2<T: RealScalar>(m: Mat2<T>)
    requires
        ring_identities::<T>(),
    ensures
        product2(identity2::<T>(), m) == m,
        product2(m, identity2::<T>()) == m,
{
    let a = product2(identity2::<T>(), m);
    let b = product2(m, identity2::<T>());
    assert forall|i: int| 0 <= i < 2 implies a.mat[i] =~= m.mat[i] && b.mat[i] =~= m.mat[i] by {
        assert forall|j: int| 0 <= j < 2 implies a.mat[i][j] == m.mat[i][j] && b.mat[i][j] == m.mat[i][j] by {
        }
    }
    assert(a.mat =~= m.mat);
    assert(b.mat =~= m.mat);
}

impl<T: RealScalar> Default for Mat2<T> {
    /// The identity matrix.
    fn default() -> (r: Self)
        ensures
            lawful::<T>() ==> r == identity2::<T>(),
    {
        let z = T::from(0i8);
        let o = T::from(1i8);
        Mat2 { mat: [[o, z], [z, o]] }
    }
}

/// Row access by position, so that `m[r][c]` reads row `r`, column `c`;
/// the row must be below two.
impl<T> Index<usize> for Mat2<T> {
    type Output = [T; 2];

    fn index(&self, i: usize) -> (r: &[T; 2]) {
        &self.mat[i]
    }
}

impl<T> vstd::std_specs::core::IndexSpecImpl<usize> for Mat2<T> {
    open spec fn index_req(&self, i: &usize) -> bool {
        *i < 2
    }
}

impl<T: RealScalar> Add for Mat2<T> {
    type Output = Mat2<T>;

    fn add(self, rhs: Mat2<T>) -> (r: Mat2<T>) {
        Mat2 {
            mat: [
                [self.mat[0][0] + rhs.mat[0][0], self.mat[0][1] + rhs.mat[0][1]],
                [self.mat[1][0] + rhs.mat[1][0], self.mat[1][1] + rhs.mat[1][1]],
            ],
        }
    }
}

impl<T: RealScalar> AddSpecImpl for Mat2<T> {
    open spec fn obeys_add_spec() -> bool {
        T::obeys_add_spec()
    }

    open spec fn add_req(self, rhs: Mat2<T>) -> bool {
        forall|i: int, j: int| 0 <= i < 2 && 0 <= j < 2 ==> #[trigger] self.mat[i][j].add_req(rhs.mat[i][j])
    }

    open spec fn add_spec(self, rhs: Mat2<T>) -> Mat2<T> {
        tabulate2(|i: int, j: int| plus(self.at(i, j), rhs.at(i, j)))
    }
}

impl<T: RealScalar> Sub for Mat2<T> {
    type Output = Mat2<T>;

    fn sub(self, rhs: Mat2<T>) -> (r: Mat2<T>) {
        Mat2 {
            mat: [
                [self.mat[0][0] - rhs.mat[0][0], self.mat[0][1] - rhs.mat[0][1]],
                [self.mat[1][0] - rhs.mat[1][0], self.mat[1][1] - rhs.mat[1][1]],
            ],
        }
    }
}

impl<T: RealScalar> SubSpecImpl for Mat2<T> {
    open spec fn obeys_sub_spec() -> bool {
        T::obeys_sub_spec()
    }

    open spec fn sub_req(self, rhs: Mat2<T>) -> bool {
        forall|i: int, j: int| 0 <= i < 2 && 0 <= j < 2 ==> #[trigger] self.mat[i][j].sub_req(rhs.mat[i][j])
    }

    open spec fn sub_spec(self, rhs: Mat2<T>) -> Mat2<T> {
        tabulate2(|i: int, j: int| minus(self.at(i, j), rhs.at(i, j)))
    }
}

impl<T: RealScalar> Mul<T> for Mat2<T> {
    type Output = Mat2<T>;

    fn mul(self, k: T) -> (r: Mat2<T>) {
        Mat2 {
            mat: [
                [self.mat[0][0] * k, self.mat[0][1] * k],
                [self.mat[1][0] * k, self.mat[1][1] * k],
            ],
        }
    }
}

impl<T: RealScalar> MulSpecImpl<T> for Mat2<T> {
    open spec fn obeys_mul_spec() -> bool {
        T::obeys_mul_spec()
    }

    open spec fn mul_req(self, k: T) -> bool {
        forall|i: int, j: int| 0 <= i < 2 && 0 <= j < 2 ==> #[trigger] self.mat[i][j].mul_req(k)
    }

    open spec fn mul_spec(self, k: T) -> Mat2<T> {
        tabulate2(|i: int, j: int| times(self.at(i, j), k))
    }
}

/// Entry `(i, j)` of the product, as `prod2` states it.
fn prod2_entry<T: RealScalar>(a: &Mat2<T>, b: &Mat2<T>, i: usize, j: usize) -> (r: T)
    requires
        lawful::<T>(),
        i < 2,
        j < 2,
        prod2_ok(*a, *b, i as int, j as int),
    ensures
        r == prod2(*a, *b, i as int, j as int),
{
    a.mat[0][j] * b.mat[i][0] + a.mat[1][j] * b.mat[i][1]
}

impl<T: RealScalar> Mul<Mat2<T>> for Mat2<T> {
    type Output = Mat2<T>;

    fn mul(self, rhs: Mat2<T>) -> (r: Mat2<T>) {
        proof {
            assert(prod2_ok(self, rhs, 0, 0) && prod2_ok(self, rhs, 0, 1));
            assert(prod2_ok(self, rhs, 1, 0) && prod2_ok(self, rhs, 1, 1));
        }
        Mat2 {
            mat: [
                [prod2_entry(&self, &rhs, 0, 0), prod2_entry(&self, &rhs, 0, 1)],
                [prod2_entry(&self, &rhs, 1, 0), prod2_entry(&self, &rhs, 1, 1)],
            ],
        }
    }
}

impl<T: RealScalar> MulSpecImpl<Mat2<T>> for Mat2<T> {
    open spec fn obeys_mul_spec() -> bool {
        lawful::<T>()
    }

    open spec fn mul_req(self, rhs: Mat2<T>) -> bool {
        lawful::<T>() && forall|i: int, j: int| 0 <= i < 2 && 0 <= j < 2 ==> #[trigger] prod2_ok(self, rhs, i, j)
    }

    open spec fn mul_spec(self, rhs: Mat2<T>) -> Mat2<T> {
        product2(self, rhs)
    }
}

impl<T: RealScalar> Mul<Vec2<T>> for Mat2<T> {
    type Output = Vec2<T>;

    fn mul(self, v: Vec2<T>) -> (r: Vec2<T>) {
        proof {
            assert(apply2_ok(self, v, 0) && apply2_ok(self, v, 1));
        }
        Vec2 {
            x: v.x * self.mat[0][0] + v.y * self.mat[1][0],
            y: v.x * self.mat[0][1] + v.y * self.mat[1][1],
        }
    }
}

impl<T: RealScalar> MulSpecImpl<Vec2<T>> for Mat2<T> {
    open spec fn obeys_mul_spec() -> bool {
        lawful::<T>()
    }

    open spec fn mul_req(self, v: Vec2<T>) -> bool {
        lawful::<T>() && forall|i: int| 0 <= i < 2 ==> #[trigger] apply2_ok(self, v, i)
    }

    open spec fn mul_spec(self, v: Vec2<T>) -> Vec2<T> {
        Vec2 { x: apply2(self, v, 0), y: apply2(self, v, 1) }
    }
}

impl<T: Copy> From<[[T; 2]; 2]> for Mat2<T> {
    fn from(a: [[T; 2]; 2]) -> (r: Mat2<T>) {
        Mat2 { mat: a }
    }
}

impl<T: Copy> FromSpecImpl<[[T; 2]; 2]> for Mat2<T> {
    open spec fn obeys_from_spec() -> bool {
        true
    }

    open spec fn from_spec(a: [[T; 2]; 2]) -> Mat2<T> {
        Mat2 { mat: a }
    }
}

impl<T> From<(Vec2<T>, Vec2<T>)> for Mat2<T> {
    /// The matrix whose rows are the two vectors.
    fn from(rows: (Vec2<T>, Vec2<T>)) -> (r: Mat2<T>) {
        Mat2 { mat: [[rows.0.x, rows.0.y], [rows.1.x, rows.1.y]] }
    }
}

impl<T> FromSpecImpl<(Vec2<T>, Vec2<T>)> for Mat2<T> {
    open spec fn obeys_from_spec() -> bool {
        true
    }

    open spec fn from_spec(rows: (Vec2<T>, Vec2<T>)) -> Mat2<T> {
        Mat2 { mat: [[rows.0.x, rows.0.y], [rows.1.x, rows.1.y]] }
    }
}

} // verus!
