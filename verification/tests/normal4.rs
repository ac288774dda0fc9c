use cgmath::Normal4;

fn normal4() -> Normal4<i32> {
    Normal4 { x: 1, y: 2, z: 3, w: 4 }
}

#[test]
fn normal4_test_index() {
    let v = normal4();
    assert_eq!(v.index(0), v.x);
    assert_eq!(v.index(1), v.y);
    assert_eq!(v.index(2), v.z);
    assert_eq!(v.index(3), v.w);
}

#[test]
fn normal4_test_index_mut() {
    let mut v = normal4();
    v.set_index(2, 0);
    assert_eq!(v, [1, 2, 0, 4].into());
}

#[test]
fn normal4_test_index_range() {
    let v = normal4();
    assert_eq!(v.index_to(2), vec![1, 2]);
    assert_eq!(v.index_to(3), vec![1, 2, 3]);
    assert_eq!(v.index_to(2).len(), 2);
    assert_eq!(v.index_to(3).len(), 3);
    assert_eq!(v.index_from(2), vec![3, 4]);
    assert_eq!(v.index_from(1), vec![2, 3, 4]);
    assert_eq!(v.index_from(2).len(), 2);
    assert_eq!(v.index_from(1).len(), 3);
    assert_eq!(v.components(), vec![1, 2, 3, 4]);
    assert_eq!(v.components().len(), 4);
}

#[test]
fn normal4_test_into() {
    let v = normal4();
    {
        let a: [i32; 4] = v.to_array();
        assert_eq!(a, [1, 2, 3, 4]);
    }
    {
        let t: (i32, i32, i32, i32) = v.to_tuple();
        assert_eq!(t, (1, 2, 3, 4));
    }
}

#[test]
fn normal4_test_as_ref() {
    let v = normal4();
    {
        let a = &v.to_array();
        assert_eq!(a, &[1, 2, 3, 4]);
    }
    {
        let t = &v.to_tuple();
        assert_eq!(t, &(1, 2, 3, 4));
    }
}

#[test]
fn normal4_test_as_mut() {
    let mut v = normal4();
    {
        v.set_index(0, 1);
        let a = &mut v.to_array();
        assert_eq!(a, &mut [1, 2, 3, 4]);
    }
    {
        let t = &mut v.to_tuple();
        assert_eq!(t, &mut (1, 2, 3, 4));
    }
}

#[test]
fn normal4_test_from() {
    assert_eq!(Normal4::from([1, 2, 3, 4]), normal4());
    {
        let v = &[1, 2, 3, 4];
        let v: Normal4<i32> = Normal4::from(*v);
        assert_eq!(v, normal4());
    }
    {
        let v = &mut [1, 2, 3, 4];
        let v: Normal4<i32> = Normal4::from(*v);
        assert_eq!(v, normal4());
    }
    assert_eq!(Normal4::from((1, 2, 3, 4)), normal4());
    {
        let v = &(1, 2, 3, 4);
        let v: Normal4<i32> = Normal4::from(*v);
        assert_eq!(v, normal4());
    }
    {
        let v = &mut (1, 2, 3, 4);
        let v: Normal4<i32> = Normal4::from(*v);
        assert_eq!(v, normal4());
    }
}
