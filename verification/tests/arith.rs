//! Exact expected values for the arithmetic, element-wise, fold and cast
//! operations, including the truncating division and remainder edges.

use cgmath::{norm4, vec1, vec2, vec3, vec4, Normal4, Vector2, Vector3, Vector4};

#[test]
fn test_sub_neg_assign() {
    let a = vec2(5i32, -3i32);
    let b = vec2(2i32, 4i32);
    assert_eq!(a.minus(b), vec2(3, -7));
    assert_eq!(a.negate(), vec2(-5, 3));
    let mut c = a;
    c.plus_assign(b);
    assert_eq!(c, vec2(7, 1));
    c.minus_assign(b);
    assert_eq!(c, a);
    let mut d = vec3(1i64, -2i64, 3i64);
    d.mul_assign(-4);
    assert_eq!(d, vec3(-4, 8, -12));
}

#[test]
fn test_scalar_ops_truncate() {
    let v = vec2(-7i32, 7i32);
    assert_eq!(v.div_scalar(2), vec2(-3, 3));
    assert_eq!(v.rem_scalar(2), vec2(-1, 1));
    assert_eq!(v.mul_scalar(-3), vec2(21, -21));
    let mut w = v;
    w.div_assign(-2);
    assert_eq!(w, vec2(3, -3));
    let mut u = v;
    u.rem_assign(-2);
    assert_eq!(u, vec2(-1, 1));
}

#[test]
fn test_scalar_left_ops() {
    let v = vec2(2i32, -3i32);
    assert_eq!(Vector2::scalar_mul(4, v), vec2(8, -12));
    assert_eq!(Vector2::scalar_div(7, v), vec2(3, -2));
    assert_eq!(Vector2::scalar_rem(7, v), vec2(1, 1));
}

#[test]
fn test_element_wise() {
    let a = vec3(6i32, -7i32, 8i32);
    let b = vec3(3i32, 2i32, -5i32);
    assert_eq!(a.add_element_wise(b), vec3(9, -5, 3));
    assert_eq!(a.sub_element_wise(b), vec3(3, -9, 13));
    assert_eq!(a.mul_element_wise(b), vec3(18, -14, -40));
    assert_eq!(a.div_element_wise(b), vec3(2, -3, -1));
    assert_eq!(a.rem_element_wise(b), vec3(0, -1, 3));
}

#[test]
fn test_folds() {
    let v = vec4(1i32, -2i32, 3i32, -4i32);
    assert_eq!(v.sum(), -2);
    assert_eq!(v.product(), 24);
    assert_eq!(v.min(), -4);
    assert_eq!(v.max(), 3);
    assert_eq!(vec1(9i32).sum(), 9);
    assert_eq!(vec1(9i32).product(), 9);
    assert_eq!(vec1(9i32).min(), 9);
    assert_eq!(vec1(9i32).max(), 9);
    // equal components: the fold result is that very value
    let t = vec2(5i32, 5i32);
    assert_eq!(t.min(), 5);
    assert_eq!(t.max(), 5);
}

#[test]
fn test_pluck() {
    let a = vec3(1i32, 8i32, -3i32);
    let b = vec3(4i32, -2i32, -3i32);
    assert_eq!(a.pluck_min(b), vec3(1, -2, -3));
    assert_eq!(a.pluck_max(b), vec3(4, 8, -3));
}

#[test]
fn test_zero_is_zero() {
    let z: Vector3<i32> = Vector3::zero();
    assert_eq!(z, vec3(0, 0, 0));
    assert!(z.is_zero());
    assert!(!vec3(0i32, 1i32, 0i32).is_zero());
    assert_eq!(Vector2::<i32>::zero().sum(), 0);
}

#[test]
fn test_unit_vectors() {
    assert_eq!(Vector2::<i32>::unit_x(), vec2(1, 0));
    assert_eq!(Vector2::<i32>::unit_y(), vec2(0, 1));
    assert_eq!(Vector3::<i32>::unit_z(), vec3(0, 0, 1));
    assert_eq!(Vector4::<i32>::unit_w(), vec4(0, 0, 0, 1));
    assert_eq!(cgmath::Vector1::<i32>::unit_x(), vec1(1));
    assert_eq!(cgmath::Normal1::<i32>::unit_x(), cgmath::norm1(1));
    assert_eq!(cgmath::Normal3::<i32>::unit_y(), cgmath::norm3(0, 1, 0));
}

#[test]
fn test_perp_dot() {
    let a = vec2(2i32, 3i32);
    let b = vec2(5i32, 7i32);
    assert_eq!(a.perp_dot(b), 2 * 7 - 3 * 5);
    assert_eq!(cgmath::norm2(1i32, 0i32).perp_dot(cgmath::norm2(0i32, 1i32)), 1);
}

#[test]
fn test_extend_truncate() {
    let v = vec2(1i32, 2i32);
    assert_eq!(v.extend(3), vec3(1, 2, 3));
    assert_eq!(v.extend(3).extend(4), vec4(1, 2, 3, 4));
    assert_eq!(vec4(1i32, 2i32, 3i32, 4i32).truncate(), vec3(1, 2, 3));
    assert_eq!(vec3(1i32, 2i32, 3i32).truncate(), vec2(1, 2));
}

#[test]
fn test_truncate_n() {
    let v = vec4(1i32, 2i32, 3i32, 4i32);
    assert_eq!(v.truncate_n(0), vec3(2, 3, 4));
    assert_eq!(v.truncate_n(1), vec3(1, 3, 4));
    assert_eq!(v.truncate_n(2), vec3(1, 2, 4));
    assert_eq!(v.truncate_n(3), vec3(1, 2, 3));
    let n = norm4(1i32, 2i32, 3i32, 4i32);
    assert_eq!(n.truncate_n(0), cgmath::norm3(2, 3, 4));
    assert_eq!(n.truncate_n(3), cgmath::norm3(1, 2, 3));
}

#[test]
fn test_cast_success() {
    let v = vec2(100i64, -100i64);
    let c: Option<Vector2<i8>> = v.cast::<i8>();
    assert_eq!(c, Some(vec2(100i8, -100i8)));
    let u: Option<Vector2<u16>> = vec2(1i64, 65535i64).cast::<u16>();
    assert_eq!(u, Some(vec2(1u16, 65535u16)));
}

#[test]
fn test_cast_not_representable() {
    // one component past the target's upper bound
    assert_eq!(vec2(300i64, 1i64).cast::<i8>(), None);
    // a negative component cast to an unsigned target
    assert_eq!(vec2(-1i64, 1i64).cast::<u32>(), None);
    // every arity rejects the same way
    assert_eq!(norm4(0i64, 0i64, 0i64, 1i64 << 40).cast::<i32>(), None);
}

#[test]
fn test_distance2() {
    let a = vec2(1i32, 2i32);
    let b = vec2(4i32, 6i32);
    assert_eq!(a.distance2(b), 25);
    assert_eq!(b.distance2(a), 25);
    assert_eq!(a.magnitude2(), 5);
}

#[test]
fn test_normal4_assign_ops() {
    let mut n = Normal4::new(1i32, 2i32, 3i32, 4i32);
    n.plus_assign(Normal4::from_value(1));
    assert_eq!(n, norm4(2, 3, 4, 5));
    n.rem_assign(3);
    assert_eq!(n, norm4(2, 0, 1, 2));
}
