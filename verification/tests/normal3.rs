use cgmath::Normal3;

fn normal3() -> Normal3<i32> {
    Normal3 { x: 1, y: 2, z: 3 }
}

#[test]
fn test_index() {
    let v = normal3();
    assert_eq!(v.index(0), v.x);
    assert_eq!(v.index(1), v.y);
    assert_eq!(v.index(2), v.z);
}

#[test]
fn test_index_mut() {
    let mut v = normal3();
    v.set_index(1, 0);
    assert_eq!(v, [1, 0, 3].into());
}

#[test]
fn test_index_range() {
    let v = normal3();
    assert_eq!(v.index_to(1), vec![1]);
    assert_eq!(v.index_to(2), vec![1, 2]);
    assert_eq!(v.index_to(1).len(), 1);
    assert_eq!(v.index_to(2).len(), 2);
    assert_eq!(v.index_from(2), vec![3]);
    assert_eq!(v.index_from(1), vec![2, 3]);
    assert_eq!(v.index_from(2).len(), 1);
    assert_eq!(v.index_from(1).len(), 2);
    assert_eq!(v.components(), vec![1, 2, 3]);
    assert_eq!(v.components().len(), 3);
}

#[test]
fn test_into() {
    let v = normal3();
    {
        let a: [i32; 3] = v.to_array();
        assert_eq!(a, [1, 2, 3]);
    }
    {
        let t: (i32, i32, i32) = v.to_tuple();
        assert_eq!(t, (1, 2, 3));
    }
}

#[test]
fn test_as_ref() {
    let v = normal3();
    {
        let a = &v.to_array();
        assert_eq!(a, &[1, 2, 3]);
    }
    {
        let t = &v.to_tuple();
        assert_eq!(t, &(1, 2, 3));
    }
}

#[test]
fn test_as_mut() {
    let mut v = normal3();
    {
        v.set_index(0, 1);
        let a = &mut v.to_array();
        assert_eq!(a, &mut [1, 2, 3]);
    }
    {
        let t = &mut v.to_tuple();
        assert_eq!(t, &mut (1, 2, 3));
    }
}

#[test]
fn test_from() {
    assert_eq!(Normal3::from([1, 2, 3]), normal3());
    {
        let v = &[1, 2, 3];
        let v: Normal3<i32> = Normal3::from(*v);
        assert_eq!(v, normal3());
    }
    {
        let v = &mut [1, 2, 3];
        let v: Normal3<i32> = Normal3::from(*v);
        assert_eq!(v, normal3());
    }
    assert_eq!(Normal3::from((1, 2, 3)), normal3());
    {
        let v = &(1, 2, 3);
        let v: Normal3<i32> = Normal3::from(*v);
        assert_eq!(v, normal3());
    }
    {
        let v = &mut (1, 2, 3);
        let v: Normal3<i32> = Normal3::from(*v);
        assert_eq!(v, normal3());
    }
}
