use gfx_math::{Euler, Mat2, Mat3, Mat4, Quaternion, Vec2, Vec3, Vec4};

fn near(a: f64, b: f64) -> bool {
    (a - b).abs() < 1e-5
}

fn near3(a: &Mat3<f64>, b: &Mat3<f64>) -> bool {
    (0..3).all(|i| (0..3).all(|j| near(a.get(i, j), b.get(i, j))))
}

fn near4(a: &Mat4<f64>, b: &Mat4<f64>) -> bool {
    (0..4).all(|i| (0..4).all(|j| near(a.get(i, j), b.get(i, j))))
}

fn sample3() -> Mat3<f64> {
    Mat3::new(2.0, -1.0, 0.5, 3.0, 4.0, -2.0, 1.0, 0.0, 6.0)
}

fn sample4() -> Mat4<f64> {
    Mat4::new(
        2.0, -1.0, 0.5, 1.0, 3.0, 4.0, -2.0, 0.0, 1.0, 0.0, 6.0, 2.0, -1.0, 2.0, 0.0, 5.0,
    )
}

#[test]
fn transpose_twice_gives_back() {
    let m2 = Mat2::new(1.0, 2.0, 3.0, 4.0);
    assert_eq!(m2.transpost().transpost(), m2);
    let m3 = sample3();
    assert_eq!(m3.transpost().transpost(), m3);
    let m4 = sample4();
    assert_eq!(m4.transpost().transpost(), m4);
}

#[test]
fn transpose_moves_entries() {
    let mut m = sample3();
    m.transpose();
    assert_eq!(m.row(0), [2.0, 3.0, 1.0]);
    assert_eq!(m.row(1), [-1.0, 4.0, 0.0]);
    assert_eq!(m.row(2), [0.5, -2.0, 6.0]);
}

#[test]
fn identity_neutral_both_sides() {
    let m3 = sample3();
    assert_eq!(Mat3::identity() * m3, m3);
    assert_eq!(m3 * Mat3::identity(), m3);
    let m4 = sample4();
    assert_eq!(Mat4::identity() * m4, m4);
    assert_eq!(m4 * Mat4::identity(), m4);
    let m2 = Mat2::new(2.0, 3.4, 5.0, 2.1);
    assert_eq!(Mat2::identity() * m2, m2);
}

#[test]
fn product_convention() {
    let a = Mat2::new(1, 2, 3, 4);
    let b = Mat2::new(5, 6, 7, 8);
    // entry (i, j) is the sum over k of a[k][j] * b[i][k]
    assert_eq!(a * b, Mat2::new(23, 34, 31, 46));
    let v = Vec3::new(1, 2, 3);
    let m = Mat3::new(1, 2, 3, 4, 5, 6, 7, 8, 9);
    assert_eq!(m * v, Vec3::new(30, 36, 42));
}

#[test]
fn inverse_times_matrix_is_identity() {
    let m3 = sample3();
    let inv3 = m3.inverse().unwrap();
    assert!(near3(&(inv3 * m3), &Mat3::identity()));
    assert!(near3(&(m3 * inv3), &Mat3::identity()));
    let m4 = sample4();
    let inv4 = m4.inverse().unwrap();
    assert!(near4(&(inv4 * m4), &Mat4::identity()));
    assert!(near4(&(m4 * inv4), &Mat4::identity()));
}

#[test]
fn singular_has_no_inverse() {
    let m3 = Mat3::new(1.0, 2.0, 3.0, 2.0, 4.0, 6.0, 0.0, 1.0, 5.0);
    assert_eq!(m3.determinant(), 0.0);
    assert!(m3.inverse().is_none());
    let m4: Mat4<f64> = Mat4::zero();
    assert!(m4.inverse().is_none());
}

#[test]
fn determinants_exact_on_integers() {
    assert_eq!(Mat2::new(3i64, 8, 4, 6).determinant(), -14);
    assert_eq!(Mat3::new(6i64, 1, 1, 4, -2, 5, 2, 8, 7).determinant(), -306);
    let m4 = Mat4::new(1i64, 0, 2, -1, 3, 0, 0, 5, 2, 1, 4, -3, 1, 0, 5, 0);
    assert_eq!(m4.determinant(), 30);
    assert_eq!(m4.minor(0, 0), 25);
    assert_eq!(m4.cofactor(1, 0), 5);
}

#[test]
fn cofactor_sign_pattern() {
    let m = Mat3::new(-4.0, -3.0, 3.0, 0.0, 2.0, -2.0, 1.0, 4.0, -1.0);
    assert_eq!(m.cofactor(0, 0), 6.0);
    assert_eq!(m.minor(0, 1), 2.0);
    assert_eq!(m.cofactor(0, 1), -2.0);
}

#[test]
fn identity_is_its_own_inverse() {
    let m: Mat3<f64> = Mat3::default();
    assert_eq!(m.inverse().unwrap(), m);
    let m4: Mat4<f64> = Mat4::default();
    assert_eq!(m4.inverse().unwrap(), m4);
}

#[test]
fn unit_quaternion_gives_orthogonal_matrix() {
    let q = Quaternion::new(0.7, Vec3::new(1.0, -2.0, 0.5));
    let m = Mat3::from_quaternion(q);
    assert!(near3(&(m.transpost() * m), &Mat3::identity()));
}

#[test]
fn matrix_quaternion_round_trip() {
    let m = Mat3::from_euler(Euler::new(0.3, 0.4, 0.5));
    let q = Quaternion::from_mat3(m);
    assert!(near3(&Mat3::from_quaternion(q), &m));
    let neg = -q;
    assert!(near3(&Mat3::from_quaternion(neg), &m));
    let big = Mat3::rotation(2.9, Vec3::new(0.2, 1.0, -0.4));
    assert!(near3(&Mat3::from_quaternion(Quaternion::from_mat3(big)), &big));
}

#[test]
fn matrix_euler_round_trip() {
    let m = Mat3::from_euler(Euler::new(0.3, -0.4, 1.1));
    let e = Euler::from_mat3(m);
    assert!(near(e.yaw, 0.3) && near(e.pitch, -0.4) && near(e.roll, 1.1));
    assert!(near3(&Mat3::from_euler(e), &m));
    let m4 = Mat4::from_euler(Euler::new(-1.0, 0.2, 0.6));
    assert!(near4(&Mat4::from_euler(Euler::from_mat4(m4)), &m4));
}

#[test]
fn euler_quaternion_agree() {
    let e = Euler::new(0.3, 0.4, 0.5);
    let q = Quaternion::from_euler(e);
    assert!(near3(&Mat3::from_quaternion(q), &Mat3::from_euler(e)));
    let back = Euler::from_quaternion(q);
    assert!(near(back.yaw, 0.3) && near(back.pitch, 0.4) && near(back.roll, 0.5));
}

#[test]
fn gimbal_lock_sets_roll_zero() {
    let m = Mat3::from_euler(Euler::new(0.8, std::f64::consts::FRAC_PI_2, 0.0));
    let e = Euler::from_mat3(m);
    assert_eq!(e.roll, 0.0);
    assert!(near(e.pitch, std::f64::consts::FRAC_PI_2));
    assert!(near(e.yaw, 0.8));
    assert!(near3(&Mat3::from_euler(e), &m));
    let q = Quaternion::from_euler(Euler::new(0.8, std::f64::consts::FRAC_PI_2, 0.0));
    let eq = Euler::from_quaternion(q);
    assert_eq!(eq.roll, 0.0);
    assert!(near(eq.yaw, 0.8));
    assert_eq!(eq.pitch, std::f64::consts::FRAC_PI_2);
}

#[test]
fn gimbal_lock_clamps_pitch_below() {
    let m = Mat3::new(1.0, 0.0, 0.0, 0.0, 0.0, 1.5, 0.0, -1.0, 0.0);
    let e = Euler::from_mat3(m);
    assert_eq!(e.pitch, -std::f64::consts::FRAC_PI_2);
    assert_eq!(e.roll, 0.0);
}

#[test]
fn slerp_same_and_ends() {
    let q = Quaternion::new(0.9, Vec3::new(0.0, 1.0, 1.0));
    let p = Quaternion::new(-1.3, Vec3::new(1.0, 0.0, 2.0));
    for t in [0.0, 0.25, 0.5, 1.0] {
        let s = q.slerp(q, t);
        assert!(near(s.w, q.w) && near(s.v.x, q.v.x) && near(s.v.y, q.v.y) && near(s.v.z, q.v.z));
    }
    assert_eq!(q.slerp(p, 0.0), q);
    let end = q.slerp(p, 1.0);
    let target = if q.dot(p) < 0.0 { -p } else { p };
    assert!(near(end.w, target.w) && near(end.v.x, target.v.x));
    assert!(near(end.v.y, target.v.y) && near(end.v.z, target.v.z));
}

#[test]
fn slerp_takes_shorter_arc() {
    let q = Quaternion::new_sv(1.0, Vec3::new(0.0, 0.0, 0.0));
    let p = Quaternion::new_sv(-1.0, Vec3::new(0.0, 0.0, 0.0));
    assert_eq!(q.slerp(p, 0.5), q);
}

#[test]
fn rotation_z_half_turn() {
    let m = Mat3::rotation_z(-std::f64::consts::PI);
    let r = m * Vec3::new(0.0, 1.0, 0.0);
    assert!((r.x - 0.0).abs() < 1e-4 && (r.y + 1.0).abs() < 1e-4 && r.z.abs() < 1e-4);
}

#[test]
fn quaternion_quarter_turn_on_point() {
    let q = Quaternion::new(-std::f64::consts::FRAC_PI_2, Vec3::new(0.0, 0.0, 1.0));
    let r = Mat4::from_quaternion(q) * Vec4::new(1.0, 0.0, 0.0, 1.0);
    assert!(r.x.abs() < 1e-4 && (r.y + 1.0).abs() < 1e-4 && r.z.abs() < 1e-4 && (r.w - 1.0).abs() < 1e-4);
}

#[test]
fn hamilton_product() {
    let i = Quaternion::new_sv(0, Vec3::new(1, 0, 0));
    let j = Quaternion::new_sv(0, Vec3::new(0, 1, 0));
    let k = Quaternion::new_sv(0, Vec3::new(0, 0, 1));
    assert_eq!(i * j, k);
    assert_eq!(j * i, -k);
    let a = Quaternion::new_sv(1, Vec3::new(2, 3, 4));
    let b = Quaternion::new_sv(5, Vec3::new(6, 7, 8));
    assert_eq!(a * b, Quaternion::new_sv(-60, Vec3::new(12, 30, 24)));
}

#[test]
fn conjugate_dot_displacement() {
    let a = Quaternion::new_sv(1, Vec3::new(2, 3, 4));
    assert_eq!(a.conjugate(), Quaternion::new_sv(1, Vec3::new(-2, -3, -4)));
    assert_eq!(a.dot(a), 30);
    let b = Quaternion::new_sv(5, Vec3::new(6, 7, 8));
    assert_eq!(a.displacement_from(b), b * a.conjugate());
    assert_eq!(a * 2, Quaternion::new_sv(2, Vec3::new(4, 6, 8)));
}

#[test]
fn quaternion_magnitude_and_pow() {
    let q = Quaternion::new_sv(1.0, Vec3::new(2.0, 2.0, 4.0));
    assert_eq!(q.magnitude(), 5.0);
    let near_identity = Quaternion::new_sv(1.0, Vec3::new(0.0, 0.0, 0.0));
    assert_eq!(near_identity.pow(0.5), near_identity);
    let r = Quaternion::new(1.0, Vec3::new(0.0, 0.0, 1.0));
    let half = r.pow(0.5);
    let expect = Quaternion::new(0.5, Vec3::new(0.0, 0.0, 1.0));
    assert!(near(half.w, expect.w) && near(half.v.z, expect.v.z));
}

#[test]
fn vector_products() {
    let a = Vec3::new(1, 2, 3);
    let b = Vec3::new(4, 5, 6);
    assert_eq!(a.dot(b), 32);
    assert_eq!(a.cross(b), Vec3::new(-3, 6, -3));
    assert_eq!(a.squared_mag(), 14);
    assert_eq!(a.vector_to(b), Vec3::new(3, 3, 3));
    assert_eq!(Vec2::new(3, 4).dot(Vec2::new(3, 4)), 25);
    assert_eq!(Vec4::new(1, 2, 3, 4).dot(Vec4::new(1, 1, 1, 1)), 10);
    assert_eq!(a * b, Vec3::new(4, 10, 18));
    assert_eq!(a * 2, Vec3::new(2, 4, 6));
    assert_eq!(-a, Vec3::new(-1, -2, -3));
}

#[test]
fn vector_sizes() {
    let v = Vec2::new(1, 2).extend(3);
    assert_eq!(v, Vec3::new(1, 2, 3));
    assert_eq!(v.extend(4), Vec4::new(1, 2, 3, 4));
    assert_eq!(v.extend(4).truncate(), v);
    assert_eq!(v.truncate(), Vec2::new(1, 2));
    assert_eq!(Vec3::from([1, 2, 3]), v);
    assert_eq!(Vec4::from((1, 2, 3, 4)), Vec4::new(1, 2, 3, 4));
}

#[test]
fn magnitudes_and_normalizing() {
    let v = Vec3::new(3.0, 0.0, 4.0);
    assert_eq!(v.magnitude(), 5.0);
    assert_eq!(v.distance_to(Vec3::new(0.0, 0.0, 0.0)), 5.0);
    let n = v.normalized();
    assert!(near(n.x, 0.6) && n.y == 0.0 && near(n.z, 0.8));
    let mut w = v;
    w.normalize();
    assert_eq!(w, v.normalized());
    let mut u = Vec2::new(3.0, 4.0);
    assert_eq!(u.magnitude(), 5.0);
    u.normalize();
    assert!(near(u.x, 0.6) && near(u.y, 0.8));
    let q = Vec4::new(2.0, 0.0, 0.0, 0.0);
    assert_eq!(q.magnitude(), 2.0);
    assert_eq!(q.squared_mag(), 4.0);
    assert_eq!(q.normalized(), Vec4::new(1.0, 0.0, 0.0, 0.0));
}

#[test]
fn matrix_builders() {
    assert_eq!(Mat3::scale(2), Mat3::new(2, 0, 0, 0, 2, 0, 0, 0, 2));
    assert_eq!(Mat3::projection_xz(), Mat3::new(1, 0, 0, 0, 0, 0, 0, 0, 1));
    assert_eq!(Mat3::shearing_xy(2, 3), Mat3::new(1, 0, 0, 0, 1, 0, 2, 3, 1));
    assert_eq!(Mat2::shearing_y(5), Mat2::new(1, 5, 0, 1));
    assert_eq!(Mat4::translation(Vec3::new(1, 2, 3)).row(3), [1, 2, 3, 1]);
    assert_eq!(Mat4::scale(3).row(3), [0, 0, 0, 1]);
    let p = Mat3::projection(Vec3::new(0.0, 0.0, 2.0));
    assert_eq!(p, Mat3::projection_xy());
    let r = Mat3::reflection(Vec3::new(0.0, 3.0, 0.0));
    assert_eq!(r * Vec3::new(1.0, 2.0, 3.0), Vec3::new(1.0, -2.0, 3.0));
    let s = Mat3::scale_arb(3.0, Vec3::new(1.0, 0.0, 0.0));
    assert_eq!(s * Vec3::new(1.0, 1.0, 1.0), Vec3::new(3.0, 1.0, 1.0));
    let rot = Mat3::rotation(std::f64::consts::FRAC_PI_2, Vec3::new(0.0, 0.0, 5.0));
    assert!(near3(&rot, &Mat3::rotation_z(std::f64::consts::FRAC_PI_2)));
    let rot4 = Mat4::rotation(0.4, Vec3::new(1.0, 0.0, 0.0));
    assert!(near4(&rot4, &Mat4::rotation_x(0.4)));
}

#[test]
fn projections_4x4() {
    let o: Mat4<f64> = Mat4::ortho(-1.0, 1.0, -1.0, 1.0, 1.0, 3.0);
    assert_eq!(o.row(0), [1.0, 0.0, 0.0, 0.0]);
    assert_eq!(o.row(2), [0.0, 0.0, -1.0, 0.0]);
    assert_eq!(o.row(3), [0.0, 0.0, -2.0, 1.0]);
    let f: Mat4<f64> = Mat4::frustum(-1.0, 1.0, -1.0, 1.0, 1.0, 3.0);
    assert_eq!(f.row(0), [1.0, 0.0, 0.0, 0.0]);
    assert_eq!(f.row(2), [0.0, 0.0, -2.0, -1.0]);
    assert_eq!(f.row(3), [0.0, 0.0, -3.0, 0.0]);
    let p: Mat4<f64> = Mat4::perspective(std::f64::consts::FRAC_PI_2, 2.0, 1.0, 3.0);
    assert!(near(p.get(0, 0), 0.5) && near(p.get(1, 1), 1.0));
    assert_eq!(p.row(2), [0.0, 0.0, 2.0, 1.0]);
    assert_eq!(p.row(3), [0.0, 0.0, -3.0, 0.0]);
    let v = Mat4::look_at(Vec3::new(0.0, 0.0, 5.0), Vec3::new(0.0, 0.0, 0.0), Vec3::new(0.0, 1.0, 0.0));
    assert_eq!(v.row(3), [-0.0, -0.0, -5.0, 1.0]);
    assert_eq!(v * Vec4::new(0.0, 0.0, 5.0, 1.0), Vec4::new(0.0, 0.0, 0.0, 1.0));
}

#[test]
fn matrix_arithmetic() {
    let a = Mat3::new(1, 2, 3, 4, 5, 6, 7, 8, 9);
    assert_eq!(a - a, Mat3::zero());
    assert_eq!(a * 2, a + a);
    assert_eq!(Mat3::from([[1, 2, 3], [4, 5, 6], [7, 8, 9]]), a);
    let rows = (Vec3::new(1, 2, 3), Vec3::new(4, 5, 6), Vec3::new(7, 8, 9));
    assert_eq!(Mat3::from(rows), a);
    assert_eq!(Mat2::from([[1, 2], [3, 4]]).get(1, 0), 3);
    assert_eq!(Mat4::from([[1, 2, 3, 4]; 4]).get(2, 3), 4);
}
