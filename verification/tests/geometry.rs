use bubble_core::geometry::{BoundingSphere, Direction, Position};

fn at(x: i64, y: i64, z: i64) -> Position {
    Position { x, y, z }
}

#[test]
fn direction_accepts_the_axes() {
    for (cos, sin) in [(1_000_000, 0), (0, 1_000_000), (-1_000_000, 0), (0, -1_000_000)] {
        let direction = Direction::new(cos, sin).unwrap();
        assert_eq!(direction.cos(), cos);
        assert_eq!(direction.sin(), sin);
    }
}

#[test]
fn direction_accepts_exact_and_rounded_unit_vectors() {
    assert!(Direction::new(600_000, 800_000).is_some());
    assert!(Direction::new(-280_000, 960_000).is_some());
    // 45 degrees, rounded to the nearest millionth
    assert!(Direction::new(707_107, 707_107).is_some());
    // 30 degrees, rounded to the nearest millionth
    assert!(Direction::new(866_025, 500_000).is_some());
}

#[test]
fn direction_rejects_vectors_that_are_not_of_length_one() {
    assert!(Direction::new(0, 0).is_none());
    assert!(Direction::new(1_000_000, 1_000_000).is_none());
    assert!(Direction::new(500_000, 500_000).is_none());
    assert!(Direction::new(2_000_001, 0).is_none());
    assert!(Direction::new(i64::MAX, i64::MIN).is_none());
    assert!(Direction::new(i64::MIN, 0).is_none());
}

#[test]
fn direction_tolerance_is_four_units_on_the_squared_length() {
    // 1_000_002 squared is 1_000_004_000_004: four over the tolerance
    assert!(Direction::new(1_000_002, 0).is_none());
    // 1_000_001 squared is 1_000_002_000_001
    assert!(Direction::new(1_000_001, 0).is_some());
    // 999_998 squared is 999_996_000_004: four above the lower limit
    assert!(Direction::new(999_998, 0).is_some());
    // 999_997 squared is 999_994_000_009: below the lower limit
    assert!(Direction::new(999_997, 0).is_none());
}

#[test]
fn spheres_overlap_up_to_the_sum_of_their_radii() {
    let a = BoundingSphere::new(at(0, 0, 0), 350_000);
    let touching = BoundingSphere::new(at(950_000, 0, 0), 600_000);
    let apart = BoundingSphere::new(at(950_001, 0, 0), 600_000);
    assert!(a.intersects(&touching));
    assert!(touching.intersects(&a));
    assert!(!a.intersects(&apart));
    assert!(!apart.intersects(&a));
}

#[test]
fn spheres_overlap_test_uses_all_three_axes() {
    let a = BoundingSphere::new(at(0, 0, 0), 350_000);
    // 3-4-12-13 triple scaled: distance 13 * 70_000 = 910_000
    let inside = BoundingSphere::new(at(210_000, 280_000, 840_000), 600_000);
    assert!(a.intersects(&inside));
    // distance 13 * 73_077 = 950_001
    let outside = BoundingSphere::new(at(219_231, 292_308, 876_924), 600_000);
    assert!(!a.intersects(&outside));
    // height alone separates
    let above = BoundingSphere::new(at(0, 1_000_000, 0), 600_000);
    assert!(!a.intersects(&above));
}

#[test]
fn spheres_far_apart_do_not_overlap() {
    let a = BoundingSphere::new(at(i64::MIN, i64::MIN, i64::MIN), u32::MAX);
    let b = BoundingSphere::new(at(i64::MAX, i64::MAX, i64::MAX), u32::MAX);
    assert!(!a.intersects(&b));
    assert!(a.intersects(&a));
    let c = BoundingSphere::new(at(i64::MIN + 8_000_000_000, i64::MIN, i64::MIN), u32::MAX);
    assert!(a.intersects(&c));
}

#[test]
fn spheres_of_radius_zero_overlap_only_at_the_same_point() {
    let a = BoundingSphere::new(at(5, 6, 7), 0);
    let b = BoundingSphere::new(at(5, 6, 7), 0);
    let c = BoundingSphere::new(at(5, 6, 8), 0);
    assert!(a.intersects(&b));
    assert!(!a.intersects(&c));
}
