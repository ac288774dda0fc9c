use cgmath::Vector2;

fn vector2() -> Vector2<i32> {
    Vector2 { x: 1, y: 2 }
}

#[test]
fn vector_test_index() {
    let v = vector2();
    assert_eq!(v.index(0), v.x);
    assert_eq!(v.index(1), v.y);
}

#[test]
fn vector_test_index_mut() {
    let mut v = vector2();
    v.set_index(0, 0);
    assert_eq!(v, [0, 2].into());
}

#[test]
fn vector_test_index_range() {
    let v = vector2();
    assert_eq!(v.index_to(0), vec![]);
    assert_eq!(v.index_to(1), vec![1]);
    assert_eq!(v.index_to(0).len(), 0);
    assert_eq!(v.index_to(1).len(), 1);
    assert_eq!(v.index_from(2), vec![]);
    assert_eq!(v.index_from(1), vec![2]);
    assert_eq!(v.index_from(2).len(), 0);
    assert_eq!(v.index_from(1).len(), 1);
    assert_eq!(v.components(), vec![1, 2]);
    assert_eq!(v.components().len(), 2);
}

#[test]
fn vector_test_into() {
    let v = vector2();
    {
        let a: [i32; 2] = v.to_array();
        assert_eq!(a, [1, 2]);
    }
    {
        let t: (i32, i32) = v.to_tuple();
        assert_eq!(t, (1, 2));
    }
}

#[test]
fn vector_test_as_ref() {
    let v = vector2();
    {
        let a = &v.to_array();
        assert_eq!(a, &[1, 2]);
    }
    {
        let t = &v.to_tuple();
        assert_eq!(t, &(1, 2));
    }
}

#[test]
fn vector_test_as_mut() {
    let mut v = vector2();
    {
        v.set_index(0, 1);
        let a = &mut v.to_array();
        assert_eq!(a, &mut [1, 2]);
    }
    {
        let t = &mut v.to_tuple();
        assert_eq!(t, &mut (1, 2));
    }
}

#[test]
fn vector_test_from() {
    assert_eq!(Vector2::from([1, 2]), vector2());
    {
        let v = &[1, 2];
        let v: Vector2<i32> = Vector2::from(*v);
        assert_eq!(v, vector2());
    }
    {
        let v = &mut [1, 2];
        let v: Vector2<i32> = Vector2::from(*v);
        assert_eq!(v, vector2());
    }
    assert_eq!(Vector2::from((1, 2)), vector2());
    {
        let v = &(1, 2);
        let v: Vector2<i32> = Vector2::from(*v);
        assert_eq!(v, vector2());
    }
    {
        let v = &mut (1, 2);
        let v: Vector2<i32> = Vector2::from(*v);
        assert_eq!(v, vector2());
    }
}
