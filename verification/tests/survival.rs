use bubble_core::geometry::Position;
use bubble_core::survival::{
    enforce_plateau_limits, is_outside_plateau, reduce_oxygen_level, GameOverEvent,
};

#[test]
fn oxygen_drains_by_one_unit_per_second() {
    let mut oxygen: u64 = 10_000_000;
    let mut is_game_over = false;
    assert_eq!(reduce_oxygen_level(&mut oxygen, &mut is_game_over, 1_000_000), None);
    assert_eq!(oxygen, 9_000_000);
    assert_eq!(reduce_oxygen_level(&mut oxygen, &mut is_game_over, 15_625), None);
    assert_eq!(oxygen, 8_984_375);
    assert_eq!(reduce_oxygen_level(&mut oxygen, &mut is_game_over, 0), None);
    assert_eq!(oxygen, 8_984_375);
    assert!(!is_game_over);
}

#[test]
fn oxygen_drain_stops_at_zero() {
    let mut oxygen: u64 = 500;
    let mut is_game_over = false;
    assert_eq!(reduce_oxygen_level(&mut oxygen, &mut is_game_over, 1_000), None);
    assert_eq!(oxygen, 0);
    assert!(!is_game_over);
    let mut oxygen: u64 = 500;
    assert_eq!(reduce_oxygen_level(&mut oxygen, &mut is_game_over, u64::MAX), None);
    assert_eq!(oxygen, 0);
}

#[test]
fn game_over_fires_on_the_first_tick_that_finds_no_oxygen() {
    let mut oxygen: u64 = 0;
    let mut is_game_over = false;
    assert_eq!(reduce_oxygen_level(&mut oxygen, &mut is_game_over, 15_625), Some(GameOverEvent));
    assert!(is_game_over);
    assert_eq!(oxygen, 0);
}

#[test]
fn game_over_fires_once() {
    let mut oxygen: u64 = 0;
    let mut is_game_over = false;
    let mut fired = 0;
    for _ in 0..100 {
        if reduce_oxygen_level(&mut oxygen, &mut is_game_over, 15_625).is_some() {
            fired += 1;
        }
        assert!(is_game_over);
        assert_eq!(oxygen, 0);
    }
    assert_eq!(fired, 1);
}

#[test]
fn ten_seconds_use_up_ten_units_and_then_the_session_ends_once() {
    let mut oxygen: u64 = 10_000_000;
    let mut is_game_over = false;
    let mut elapsed: u64 = 0;
    let mut fired_at = Vec::new();
    for _ in 0..(64 * 12) {
        let before = oxygen;
        if reduce_oxygen_level(&mut oxygen, &mut is_game_over, 15_625).is_some() {
            fired_at.push(elapsed);
        }
        assert!(oxygen <= before);
        elapsed += 15_625;
        if elapsed < 10_000_000 {
            assert!(oxygen > 0);
            assert!(!is_game_over);
        }
        if elapsed == 10_000_000 {
            assert_eq!(oxygen, 0);
        }
    }
    assert_eq!(fired_at, vec![10_000_000]);
    assert!(is_game_over);
}

#[test]
fn no_drain_after_game_over() {
    let mut oxygen: u64 = 3_000_000;
    let mut is_game_over = true;
    assert_eq!(reduce_oxygen_level(&mut oxygen, &mut is_game_over, 1_000_000), None);
    assert_eq!(oxygen, 3_000_000);
    assert!(is_game_over);
}

#[test]
fn plateau_ends_at_its_radius() {
    assert!(!is_outside_plateau(&Position { x: 0, y: 0, z: 0 }));
    assert!(!is_outside_plateau(&Position { x: 4_000_000, y: 0, z: 0 }));
    assert!(is_outside_plateau(&Position { x: 4_000_001, y: 0, z: 0 }));
    assert!(!is_outside_plateau(&Position { x: 0, y: 0, z: -4_000_000 }));
    assert!(is_outside_plateau(&Position { x: 0, y: 0, z: -4_000_001 }));
    assert!(!is_outside_plateau(&Position { x: 2_828_427, y: 0, z: 2_828_427 }));
    assert!(is_outside_plateau(&Position { x: 2_828_428, y: 0, z: 2_828_428 }));
    assert!(!is_outside_plateau(&Position { x: 2_400_000, y: 0, z: -3_200_000 }));
    assert!(is_outside_plateau(&Position { x: 2_400_001, y: 0, z: -3_200_000 }));
}

#[test]
fn plateau_ignores_the_height() {
    assert!(!is_outside_plateau(&Position { x: 0, y: i64::MAX, z: 0 }));
    assert!(is_outside_plateau(&Position { x: i64::MIN, y: 0, z: i64::MAX }));
    assert!(is_outside_plateau(&Position { x: i64::MAX, y: 0, z: 0 }));
}

#[test]
fn oxygen_drains_twice_as_fast_off_the_plateau() {
    let outside = Position { x: 5_000_000, y: 0, z: 0 };
    let mut oxygen: u64 = 10_000_000;
    let mut is_game_over = false;
    reduce_oxygen_level(&mut oxygen, &mut is_game_over, 1_000_000);
    enforce_plateau_limits(&outside, &mut oxygen, is_game_over, 1_000_000);
    assert_eq!(oxygen, 8_000_000);
}

#[test]
fn no_extra_drain_on_the_plateau() {
    let inside = Position { x: 3_000_000, y: 0, z: 0 };
    let mut oxygen: u64 = 10_000_000;
    enforce_plateau_limits(&inside, &mut oxygen, false, 1_000_000);
    assert_eq!(oxygen, 10_000_000);
}

#[test]
fn no_extra_drain_after_game_over() {
    let outside = Position { x: 5_000_000, y: 0, z: 0 };
    let mut oxygen: u64 = 10_000_000;
    enforce_plateau_limits(&outside, &mut oxygen, true, 1_000_000);
    assert_eq!(oxygen, 10_000_000);
}

#[test]
fn extra_drain_stops_at_zero() {
    let outside = Position { x: 0, y: 0, z: 9_000_000 };
    let mut oxygen: u64 = 10;
    enforce_plateau_limits(&outside, &mut oxygen, false, 1_000_000);
    assert_eq!(oxygen, 0);
}
