use cgmath::{norm2, norm3, norm4, Normal2, Normal3, Normal4};

#[test]
fn test_constructor() {
    assert_eq!(norm2(1i32, 2i32), Normal2::new(1i32, 2i32));
    assert_eq!(norm3(1i64, 2i64, 3i64), Normal3::new(1i64, 2i64, 3i64));
    assert_eq!(
        norm4(1isize, 2isize, 3isize, 4isize),
        Normal4::new(1isize, 2isize, 3isize, 4isize)
    );
}

#[test]
fn test_from_value() {
    assert_eq!(Normal2::from_value(102isize), Normal2::new(102isize, 102isize));
    assert_eq!(
        Normal3::from_value(22isize),
        Normal3::new(22isize, 22isize, 22isize)
    );
    assert_eq!(
        Normal4::from_value(76i64),
        Normal4::new(76i64, 76i64, 76i64, 76i64)
    );
}
