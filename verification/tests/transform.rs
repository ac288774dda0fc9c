//! The matrix constructors and the point, vector and ray transforms, with
//! exact expected values, including the homogeneous divide.

use cgmath::{vec3, vec4, Matrix4, Point3, Ray3, Vector3, Vector4};

fn rows(m: [[i32; 4]; 4]) -> Matrix4<i32> {
    Matrix4::from_rows(
        Vector4::new(m[0][0], m[0][1], m[0][2], m[0][3]),
        Vector4::new(m[1][0], m[1][1], m[1][2], m[1][3]),
        Vector4::new(m[2][0], m[2][1], m[2][2], m[2][3]),
        Vector4::new(m[3][0], m[3][1], m[3][2], m[3][3]),
    )
}

#[test]
fn test_identity_matrix() {
    let m: Matrix4<i32> = Matrix4::identity();
    assert_eq!(m.row(0), Vector4::new(1, 0, 0, 0));
    assert_eq!(m.row(1), Vector4::new(0, 1, 0, 0));
    assert_eq!(m.row(2), Vector4::new(0, 0, 1, 0));
    assert_eq!(m.row(3), Vector4::new(0, 0, 0, 1));
}

#[test]
fn test_matrix_constructors() {
    let t = Matrix4::translate(vec3(5i32, -6i32, 7i32));
    assert_eq!(t.row(0), Vector4::new(1, 0, 0, 5));
    assert_eq!(t.row(3), Vector4::new(0, 0, 0, 1));
    let s = Matrix4::scale(vec3(2i32, 3i32, 4i32));
    assert_eq!(s.row(1), Vector4::new(0, 3, 0, 0));
    let u: Matrix4<i32> = Matrix4::uniform_scale(9);
    assert_eq!(u.row(2), Vector4::new(0, 0, 9, 0));
    assert_eq!(u.row(3), Vector4::new(0, 0, 0, 1));
}

#[test]
fn test_point_transform_translate() {
    let p = Point3::new(1i32, 2i32, 3i32);
    let m = Matrix4::translate(vec3(10i32, 20i32, 30i32));
    assert_eq!(p.transform(&m), Point3::new(11, 22, 33));
    let id: Matrix4<i32> = Matrix4::identity();
    assert_eq!(p.transform(&id), p);
}

#[test]
fn test_point_transform_homogeneous_divide() {
    // last row makes the fourth homogeneous coordinate 2: every result
    // coordinate is divided, truncating
    let p = Point3::new(3i32, 4i32, -5i32);
    let m = rows([
        [1, 0, 0, 0],
        [0, 1, 0, 0],
        [0, 0, 1, 0],
        [0, 0, 0, 2],
    ]);
    assert_eq!(p.transform(&m), Point3::new(1, 2, -2));
}

#[test]
fn test_vector_transform_ignores_translation() {
    let v = vec3(1i32, 2i32, 3i32);
    let m = Matrix4::translate(vec3(100i32, 100i32, 100i32));
    assert_eq!(v.transform(&m), v);
    let s = Matrix4::scale(vec3(2i32, -3i32, 4i32));
    assert_eq!(v.transform(&s), vec3(2, -6, 12));
}

#[test]
fn test_ray_transform() {
    let r = Ray3::segment(
        Point3::new(1i32, 0i32, 0i32),
        vec3(0i32, 1i32, 0i32),
        2,
        7,
        4,
    );
    let m = Matrix4::translate(vec3(0i32, 0i32, 5i32));
    let rt = r.transform(&m);
    assert_eq!(rt.o, Point3::new(1, 0, 5));
    assert_eq!(rt.d, vec3(0, 1, 0));
    assert_eq!(rt.min_t, r.min_t);
    assert_eq!(rt.max_t, r.max_t);
    assert_eq!(rt.depth, r.depth);
    assert_eq!(rt.time, r.time);
}

#[test]
fn test_ray3_family() {
    let o = Point3::new(0i32, 0i32, 0i32);
    let d = vec3(1i32, 1i32, 1i32);
    let r = Ray3::new(o, d, 0);
    assert_eq!(r.max_t, i32::MAX);
    assert_eq!(r.at(3), Point3::new(3, 3, 3));
    let c = r.child(o, d);
    assert_eq!(c.depth, 1);
    let cs = c.child_segment(o, d, 1, 9);
    assert_eq!(cs.depth, 2);
    assert_eq!(cs.min_t, 1);
    assert_eq!(cs.max_t, 9);
}

#[test]
fn test_cross_pairings() {
    let v = vec3(1i32, 0i32, 0i32);
    let n = cgmath::norm3(0i32, 1i32, 0i32);
    // a normal crossed with anything yields a displacement vector
    let vn: Vector3<i32> = v.cross_normal(n);
    assert_eq!(vn, vec3(0, 0, 1));
    let nv: Vector3<i32> = n.cross_vector(v);
    assert_eq!(nv, vec3(0, 0, -1));
    // crossing two normals also yields a displacement vector
    let nn: Vector3<i32> = cgmath::norm3(1i32, 0i32, 0i32).cross(n);
    assert_eq!(nn, vec3(0, 0, 1));
}

#[test]
fn test_compose() {
    let t = Matrix4::translate(vec3(1i32, 2i32, 3i32));
    let s = Matrix4::scale(vec3(2i32, 2i32, 2i32));
    let id: Matrix4<i32> = Matrix4::identity();
    assert_eq!(id.compose(&t), t);
    assert_eq!(t.compose(&id), t);
    // translate after scale: the scaling happens first
    let ts = t.compose(&s);
    let p = Point3::new(1i32, 1i32, 1i32);
    assert_eq!(p.transform(&ts), Point3::new(3, 4, 5));
    assert_eq!(p.transform(&s).transform(&t), Point3::new(3, 4, 5));
}
