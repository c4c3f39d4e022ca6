use polar_clock::Vec2;

#[test]
fn repeat_fills_both_coordinates() {
    let v = Vec2::repeat(50_000);
    assert_eq!(v.x, 50_000);
    assert_eq!(v.y, 50_000);
}

#[test]
fn componentwise_sum_and_difference() {
    let a = Vec2 { x: 50_000, y: 50_000 };
    let b = Vec2 { x: 30_000, y: -20_000 };
    assert_eq!(a.add(b), Vec2 { x: 80_000, y: 30_000 });
    assert_eq!(a.sub(b), Vec2 { x: 20_000, y: 70_000 });
    assert_eq!(a.add(b).sub(b), a);
}
