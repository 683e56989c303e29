use tracer::matrix::Matrix4;
use tracer::matrix::Transform;
use tracer::tuple::Point;
use tracer::tuple::Vector;

fn u(x: f64) -> i64 {
    (x * 10_000_000.0).round() as i64
}

fn mat(rows: [[f64; 4]; 4]) -> Matrix4 {
    Matrix4 {
        m00: u(rows[0][0]), m01: u(rows[0][1]), m02: u(rows[0][2]), m03: u(rows[0][3]),
        m10: u(rows[1][0]), m11: u(rows[1][1]), m12: u(rows[1][2]), m13: u(rows[1][3]),
        m20: u(rows[2][0]), m21: u(rows[2][1]), m22: u(rows[2][2]), m23: u(rows[2][3]),
        m30: u(rows[3][0]), m31: u(rows[3][1]), m32: u(rows[3][2]), m33: u(rows[3][3]),
    }
}

#[test]
pub fn comparing_identical_matrix4() {
    let a = mat([[1., 2., 3., 4.], [5., 6., 7., 8.], [9., 8., 7., 6.], [5., 4., 3., 2.]]);
    let b = mat([[1., 2., 3., 4.], [5., 6., 7., 8.], [9., 8., 7., 6.], [5., 4., 3., 2.]]);
    assert!(a.approx_eq(&b));
}

#[test]
pub fn comparing_different_matrix4() {
    let a = mat([[1., 2., 3., 4.], [5., 6., 7., 8.], [9., 8., 7., 6.], [5., 4., 3., 2.]]);
    let b = mat([[2., 3., 4., 5.], [6., 7., 8., 9.], [8., 7., 6., 5.], [4., 3., 2., 1.]]);
    assert!(!a.approx_eq(&b));
}

#[test]
pub fn multiplying_matrices() {
    let a = mat([[1., 2., 3., 4.], [5., 6., 7., 8.], [9., 8., 7., 6.], [5., 4., 3., 2.]]);
    let b = mat([[-2., 1., 2., 3.], [3., 2., 1., -1.], [4., 3., 6., 5.], [1., 2., 7., 8.]]);
    let res = mat([
        [20., 22., 50., 48.],
        [44., 54., 114., 108.],
        [40., 58., 110., 102.],
        [16., 26., 46., 42.],
    ]);
    assert!(a.times(&b).approx_eq(&res));
}

#[test]
pub fn multiply_by_point() {
    let a = mat([[1., 2., 3., 4.], [2., 4., 4., 2.], [8., 6., 4., 1.], [0., 0., 0., 1.]]);
    let b = Point::new(u(1.0), u(2.0), u(3.0));
    let res = a.times_point(&b);
    assert!(res.approx_eq(&Point::new(u(18.0), u(24.0), u(33.0))));
}

#[test]
pub fn multiplying_matrix_by_identity_matrix() {
    let a = mat([[0., 1., 2., 4.], [1., 2., 4., 8.], [2., 4., 8., 16.], [4., 8., 16., 32.]]);
    let b = Matrix4::identity();
    assert!(a.times(&b).approx_eq(&a));
}

#[test]
pub fn multiplying_point_by_identity_matrix() {
    let a = Point::new(u(1.0), u(2.0), u(3.0));
    let b = Matrix4::identity();
    assert!(b.times_point(&a).approx_eq(&a));
}

#[test]
pub fn transposing_matrix() {
    let a = mat([[0., 9., 3., 0.], [9., 8., 0., 8.], [1., 8., 5., 3.], [0., 0., 5., 8.]]);
    let transposed = mat([[0., 9., 1., 0.], [9., 8., 8., 0.], [3., 0., 5., 5.], [0., 8., 3., 8.]]);
    assert!(a.transpose().approx_eq(&transposed));
}

#[test]
pub fn transposing_identity_matrix() {
    let a = Matrix4::identity();
    assert!(a.transpose().approx_eq(&a));
}

#[test]
pub fn translate_point() {
    let p = Point::new(u(5.0), u(-3.0), u(2.0)).translate(&Vector::new(u(-3.0), u(4.0), u(5.0)));
    assert!(p.approx_eq(&Point::new(u(2.0), u(1.0), u(7.0))));
}

#[test]
pub fn inverse_undoes_translation() {
    let t = Transform::identity().translate(&Vector::new(u(5.0), u(-3.0), u(2.0)));
    let p = Point::new(u(-3.0), u(4.0), u(5.0));
    let res = t.inverse.times_point(&p);
    assert!(res.approx_eq(&Point::new(u(-8.0), u(7.0), u(3.0))));
}

#[test]
pub fn scaling_point() {
    let p = Point::new(u(-4.0), u(6.0), u(8.0)).scale(&Vector::new(u(2.0), u(3.0), u(4.0)));
    assert!(p.approx_eq(&Point::new(u(-8.0), u(18.0), u(32.0))));
}

#[test]
pub fn inverse_undoes_scale_point() {
    let t = Transform::identity().scale(&Vector::new(u(2.0), u(3.0), u(4.0)));
    let p = Point::new(u(-4.0), u(6.0), u(8.0));
    let res = t.inverse.times_point(&p);
    assert!(res.approx_eq(&Point::new(u(-2.0), u(2.0), u(2.0))));
}

#[test]
pub fn scaling_vector() {
    let p = Vector::new(u(-4.0), u(6.0), u(8.0)).scale(&Vector::new(u(2.0), u(3.0), u(4.0)));
    assert!(p.approx_eq(&Vector::new(u(-8.0), u(18.0), u(32.0))));
}

#[test]
pub fn inverse_undoes_scale_vector() {
    let t = Transform::identity().scale(&Vector::new(u(2.0), u(3.0), u(4.0)));
    let p = Vector::new(u(-4.0), u(6.0), u(8.0));
    let res = t.inverse.times_vector(&p);
    assert!(res.approx_eq(&Vector::new(u(-2.0), u(2.0), u(2.0))));
}

#[test]
pub fn rotating_point_around_x() {
    let p = Point::new(u(0.0), u(1.0), u(0.0));
    let q = std::f64::consts::FRAC_PI_4;
    let h = std::f64::consts::FRAC_PI_2;
    let res1 = p.rotate_x(u(q.cos()), u(q.sin()));
    let res2 = p.rotate_x(u(h.cos()), u(h.sin()));
    let s2 = (2.0_f64).sqrt() / 2.0;
    assert!(res1.approx_eq(&Point::new(u(0.0), u(s2), u(s2))));
    assert!(res2.approx_eq(&Point::new(u(0.0), u(0.0), u(1.0))));
}

#[test]
pub fn rotating_point_around_y() {
    let p = Point::new(u(0.0), u(0.0), u(1.0));
    let q = std::f64::consts::FRAC_PI_4;
    let h = std::f64::consts::FRAC_PI_2;
    let res1 = p.rotate_y(u(q.cos()), u(q.sin()));
    let res2 = p.rotate_y(u(h.cos()), u(h.sin()));
    let s2 = (2.0_f64).sqrt() / 2.0;
    assert!(res1.approx_eq(&Point::new(u(s2), u(0.0), u(s2))));
    assert!(res2.approx_eq(&Point::new(u(1.0), u(0.0), u(0.0))));
}

#[test]
pub fn rotating_point_around_z() {
    let p = Point::new(u(0.0), u(1.0), u(0.0));
    let q = std::f64::consts::FRAC_PI_4;
    let h = std::f64::consts::FRAC_PI_2;
    let res1 = p.rotate_z(u(q.cos()), u(q.sin()));
    let res2 = p.rotate_z(u(h.cos()), u(h.sin()));
    let s2 = (2.0_f64).sqrt() / 2.0;
    assert!(res1.approx_eq(&Point::new(u(-s2), u(s2), u(0.0))));
    assert!(res2.approx_eq(&Point::new(u(-1.0), u(0.0), u(0.0))));
}

#[test]
pub fn composing_transforms() {
    let p = Point::new(u(1.0), u(0.0), u(1.0));
    let h = std::f64::consts::FRAC_PI_2;
    let a = p.rotate_x(u(h.cos()), u(h.sin()));
    assert!(a.approx_eq(&Point::new(u(1.0), u(-1.0), u(0.0))));
    let b = a.scale(&Vector::new(u(5.0), u(5.0), u(5.0)));
    assert!(b.approx_eq(&Point::new(u(5.0), u(-5.0), u(0.0))));
    let c = b.translate(&Vector::new(u(10.0), u(5.0), u(7.0)));
    assert!(c.approx_eq(&Point::new(u(15.0), u(0.0), u(7.0))));
}

#[test]
pub fn composing_transforms_fluent() {
    let p = Point::new(u(1.0), u(0.0), u(1.0));
    let h = std::f64::consts::FRAC_PI_2;
    let res = p
        .rotate_x(u(h.cos()), u(h.sin()))
        .scale(&Vector::new(u(5.0), u(5.0), u(5.0)))
        .translate(&Vector::new(u(10.0), u(5.0), u(7.0)));
    assert!(res.approx_eq(&Point::new(u(15.0), u(0.0), u(7.0))));
}
