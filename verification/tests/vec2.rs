use toon::Vec2;

#[test]
fn vec_test() {
    let mut vec = Vec2::new(5, 6);
    assert_eq!(vec.sum(), 11);
    assert_eq!(vec.product(), 30);

    assert_eq!(vec.swap(), Vec2::new(6, 5));
    vec.swapped();
    assert_eq!(vec, Vec2::new(6, 5));

    let mut other = Vec2::new(2, 7);

    assert_eq!(vec.min(other), Vec2::new(2, 5));
    assert_eq!(vec.max(other), Vec2::new(6, 7));
    assert_eq!(vec.min_max(other), (vec.min(other), vec.max(other)));

    assert_eq!(vec + other, Vec2::new(8, 12));
    other += vec;
    assert_eq!(other, Vec2::new(8, 12));
}

#[test]
fn vec2_components_and_conversions() {
    let vec = Vec2::new(3u16, 9u16);
    assert_eq!(vec.map(|v| u32::from(v) * 2), Vec2::new(6u32, 18u32));
    assert_eq!(vec.into::<u32>(), Vec2::new(3u32, 9u32));
    assert_eq!(vec.zip(Vec2::new('a', 'b')), Vec2::new((3, 'a'), (9, 'b')));
    assert_eq!(vec.as_ref(), Vec2::new(&3, &9));
    assert_eq!(Vec2::from((1, 2)), Vec2::new(1, 2));
    assert_eq!(<(i32, i32)>::from(Vec2::new(1, 2)), (1, 2));
    assert_eq!(Vec2::new(7, 3) - Vec2::new(2, 1), Vec2::new(5, 2));
    assert_eq!(-Vec2::new(7, -3), Vec2::new(-7, 3));
    let mut sub = Vec2::new(7, 3);
    sub -= Vec2::new(2, 1);
    assert_eq!(sub, Vec2::new(5, 2));
    let mut refs = Vec2::new(1, 2);
    {
        let parts = refs.as_mut();
        *parts.x = 10;
        *parts.y = 20;
    }
    assert_eq!(refs, Vec2::new(10, 20));
}

#[test]
fn vec2_both_some() {
    assert_eq!(Vec2::new(Some(1), Some(2)).both_some(), Some(Vec2::new(1, 2)));
    assert_eq!(Vec2::new(Some(1), None).both_some(), None);
    assert_eq!(Vec2::new(None, Some(2)).both_some(), None);
    assert_eq!(Vec2::<Option<u8>>::new(None, None).both_some(), None);
}

#[test]
fn vec2_min_max_with_equal_components() {
    let a = Vec2::new(4, 4);
    let b = Vec2::new(4, 1);
    assert_eq!(a.min(b), Vec2::new(4, 1));
    assert_eq!(a.max(b), Vec2::new(4, 4));
    assert_eq!(a.min_max(b), (Vec2::new(4, 1), Vec2::new(4, 4)));
}
