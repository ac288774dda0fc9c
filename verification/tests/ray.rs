use cgmath::{Point2, Ray2, Vector2};

fn origin() -> Point2<i32> {
    Point2 { x: 0, y: 0 }
}

fn direction() -> Vector2<i32> {
    Vector2 { x: 1, y: 1 }
}

fn base_ray() -> Ray2<i32> {
    Ray2 {
        o: origin(),
        d: direction(),
        min_t: 0,
        max_t: i32::MAX,
        depth: 0,
        time: 0,
    }
}

#[test]
fn test_new() {
    let r = Ray2::new(origin(), direction(), 0);
    assert_eq!(base_ray().o, r.o);
    assert_eq!(base_ray().d, r.d);
    assert_eq!(base_ray().depth, r.depth);
    assert_eq!(base_ray().min_t, r.min_t);
    assert_eq!(base_ray().time, r.time);
}

#[test]
fn test_segment() {
    let r = Ray2::segment(origin(), direction(), 1, 1000, 0);
    assert_eq!(base_ray().o, r.o);
    assert_eq!(base_ray().d, r.d);
    assert_eq!(base_ray().depth, r.depth);
    assert_ne!(base_ray().min_t, r.min_t);
    assert_ne!(base_ray().max_t, r.max_t);
    assert_eq!(base_ray().time, r.time);
}

#[test]
fn test_child() {
    let r = base_ray().child(origin(), direction());
    assert_eq!(base_ray().o, r.o);
    assert_eq!(base_ray().d, r.d);
    assert_ne!(base_ray().depth, r.depth);
    assert_eq!(r.depth, 1);
    assert_eq!(base_ray().min_t, r.min_t);
    assert_eq!(base_ray().time, r.time);
}

#[test]
fn test_child_segment() {
    let r = base_ray().child_segment(origin(), direction(), 1, 1000);
    assert_eq!(base_ray().o, r.o);
    assert_eq!(base_ray().d, r.d);
    assert_ne!(base_ray().depth, r.depth);
    assert_eq!(r.depth, 1);
    assert_ne!(base_ray().min_t, r.min_t);
    assert_ne!(base_ray().max_t, r.max_t);
    assert_eq!(base_ray().time, r.time);
}

#[test]
fn test_at() {
    let p = base_ray().at(1);
    assert_eq!(Point2 { x: 1, y: 1 }, p);
}
