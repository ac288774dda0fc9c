//! Concrete instances of the algebraic laws the library proves in
//! `cgmath::ops`, plus the headline scenarios.

use cgmath::{norm2, norm3, vec2, vec3, vec4, Normal2, Point2, Ray2, Vector2, Vector3};

#[test]
fn test_linearity_scenario() {
    let a = vec2(1i32, 2i32);
    let b = vec2(3i32, 4i32);
    let s = 5i32;
    assert_eq!(a.plus(b).mul_scalar(s), a.mul_scalar(s).plus(b.mul_scalar(s)));
    assert_eq!(a.plus(b), b.plus(a));
    let c = vec4(-7i64, 8i64, -9i64, 10i64);
    let d = vec4(1i64, -2i64, 3i64, -4i64);
    assert_eq!(c.plus(d).mul_scalar(-3), c.mul_scalar(-3).plus(d.mul_scalar(-3)));
    assert_eq!(c.plus(d), d.plus(c));
}

#[test]
fn test_add_scenario() {
    assert_eq!(vec2(1i32, 2i32).plus(vec2(3i32, 4i32)), vec2(4i32, 6i32));
}

#[test]
fn test_dot_symmetry() {
    let a = vec3(2i32, -3i32, 5i32);
    let b = vec3(7i32, 11i32, -13i32);
    assert_eq!(a.dot(b), b.dot(a));
    assert_eq!(a.dot(b), 2 * 7 + (-3) * 11 + 5 * (-13));
    assert_eq!(a.dot(a), a.magnitude2());
    let n = norm2(4i32, -6i32);
    let m = norm2(-1i32, 9i32);
    assert_eq!(n.dot(m), m.dot(n));
    assert_eq!(n.dot(n), n.magnitude2());
}

#[test]
fn test_cross_antisymmetry() {
    let a = vec3(2i32, -3i32, 5i32);
    let b = vec3(7i32, 11i32, -13i32);
    assert_eq!(a.cross(b), b.cross(a).negate());
    assert_eq!(a.cross(a), Vector3::zero());
    let n = norm3(1i32, 2i32, 3i32);
    assert_eq!(n.cross(n).is_zero(), true);
}

#[test]
fn test_cross_scenario() {
    assert_eq!(
        vec3(1i32, 0i32, 0i32).cross(vec3(0i32, 1i32, 0i32)),
        vec3(0i32, 0i32, 1i32)
    );
}

#[test]
fn test_normal_mutation_scenario() {
    let mut n = Normal2::new(1i32, 2i32);
    assert_eq!(n.index(0), 1);
    n.set_index(0, 0);
    assert_eq!(n, Normal2::from([0, 2]));
}

#[test]
fn test_ray_at_scenario() {
    let origin = Point2 { x: 0i32, y: 0i32 };
    let direction = Vector2 { x: 1i32, y: 1i32 };
    let r = Ray2::new(origin, direction, 0);
    assert_eq!(r.at(1), origin.add_vector(direction));
    assert_eq!(r.at(1), Point2 { x: 1, y: 1 });
}

#[test]
fn test_range_split_reconstruct() {
    let v = vec4(1i32, 2i32, 3i32, 4i32);
    for k in 0..=4usize {
        let mut joined = v.index_to(k);
        joined.extend(v.index_from(k));
        assert_eq!(joined, v.components());
    }
    let n = norm2(5i32, 6i32);
    for k in 0..=2usize {
        let mut joined = n.index_to(k);
        joined.extend(n.index_from(k));
        assert_eq!(joined, n.components());
    }
}

#[test]
fn test_index_matches_fields_all_arities() {
    let v1 = cgmath::vec1(9i32);
    assert_eq!(v1.index(0), v1.x);
    let v2 = vec2(1i32, 2i32);
    assert_eq!(v2.index(0), v2.x);
    assert_eq!(v2.index(1), v2.y);
    let v3 = vec3(1i32, 2i32, 3i32);
    assert_eq!(v3.index(0), v3.x);
    assert_eq!(v3.index(1), v3.y);
    assert_eq!(v3.index(2), v3.z);
    let v4 = vec4(1i32, 2i32, 3i32, 4i32);
    assert_eq!(v4.index(0), v4.x);
    assert_eq!(v4.index(1), v4.y);
    assert_eq!(v4.index(2), v4.z);
    assert_eq!(v4.index(3), v4.w);
}

#[test]
fn test_array_tuple_round_trip() {
    let a = [3i32, -4i32, 5i32];
    let v: Vector3<i32> = Vector3::from(a);
    assert_eq!(v.to_array(), a);
    let t = (3i32, -4i32, 5i32);
    let w: Vector3<i32> = Vector3::from(t);
    assert_eq!(w.to_tuple(), t);
    assert_eq!(v, w);
}
