use bubble_core::bubble::{Bubble, BubbleHitEvent, BubbleType};
use bubble_core::constants::{BUBBLE_SPAWN_INTERVAL, PLAYER_OXYGEN_START_SUPPLY};
use bubble_core::geometry::{Direction, Position, Velocity};
use bubble_core::models::BubbleModels;
use bubble_core::player::MovementInput;
use bubble_core::session::{Session, TickInput};
use bubble_core::spawn::spawn_bubble;
use bubble_core::survival::GameOverEvent;

const FRAME: u64 = 15_625;

fn no_keys() -> MovementInput {
    MovementInput { up: false, down: false, left: false, right: false }
}

fn east() -> Direction {
    Direction::new(1_000_000, 0).unwrap()
}

fn input(dt: u64, type_index: u32) -> TickInput {
    TickInput { dt, keys: no_keys(), type_index, direction: east() }
}

fn with_all_models() -> Session {
    let mut session = Session::new();
    session.models = BubbleModels { regular: true, blood: true, dirt: true, freeze: true };
    session
}

fn still(x: i64, z: i64, bubble_type: BubbleType) -> Bubble {
    Bubble {
        position: Position { x, y: 250_000, z },
        velocity: Velocity { x: 0, z: 0 },
        bubble_type,
    }
}

#[test]
fn session_starts_alive_with_the_full_supply() {
    let session = Session::new();
    assert_eq!(session.player, Position { x: 0, y: 0, z: 0 });
    assert_eq!(session.oxygen, PLAYER_OXYGEN_START_SUPPLY);
    assert_eq!(session.oxygen, 10_000_000);
    assert!(!session.is_game_over);
    assert_eq!(session.freeze.time_remaining, 0);
    assert_eq!(session.timer.interval(), BUBBLE_SPAWN_INTERVAL);
    assert_eq!(session.timer.elapsed(), 0);
    assert_eq!(session.models, BubbleModels::new());
    assert!(session.bubbles.is_empty());
    assert!(session.hits.is_empty());
}

#[test]
fn ten_seconds_without_a_hit_end_the_session_once() {
    let mut session = Session::new();
    let mut elapsed: u64 = 0;
    let mut fired_at = Vec::new();
    for _ in 0..(64 * 15) {
        let before = session.oxygen;
        let report = session.tick_with(input(FRAME, 0));
        assert!(session.oxygen <= before);
        assert!(report.removed.is_empty());
        if report.game_over.is_some() {
            fired_at.push(elapsed);
        }
        elapsed += FRAME;
        assert_eq!(session.oxygen, 10_000_000u64.saturating_sub(elapsed));
        assert_eq!(session.is_game_over, !fired_at.is_empty());
    }
    // the supply reaches zero at the ten second mark; the tick after it ends the session
    assert_eq!(fired_at, vec![10_000_000]);
    assert!(session.is_game_over);
    assert_eq!(session.oxygen, 0);
}

#[test]
fn ten_ticks_of_one_second_use_up_the_supply() {
    let mut session = Session::new();
    for second in 1..=10u64 {
        assert_eq!(session.update(1_000_000), None);
        assert_eq!(session.oxygen, 10_000_000 - second * 1_000_000);
        assert!(!session.is_game_over);
    }
    assert_eq!(session.update(1_000_000), Some(GameOverEvent));
    assert!(session.is_game_over);
    for _ in 0..20 {
        assert_eq!(session.update(1_000_000), None);
        assert!(session.is_game_over);
    }
}

#[test]
fn dirt_bubble_on_the_player_costs_one_unit() {
    let mut session = Session::new();
    session.bubbles.push(still(900_000, 0, BubbleType::Dirt));
    session.bubbles.push(still(5_000_000, 0, BubbleType::Regular));
    let report = session.fixed_update_with(input(0, 0));
    assert_eq!(report.removed, vec![0]);
    assert_eq!(report.spawned, None);
    assert_eq!(session.bubbles, vec![still(5_000_000, 0, BubbleType::Regular)]);
    assert_eq!(session.hits, vec![BubbleHitEvent { bubble_type: BubbleType::Dirt }]);
    // the hit is not felt before the effects are resolved
    assert_eq!(session.oxygen, 10_000_000);
    assert_eq!(session.update(0), None);
    assert_eq!(session.oxygen, 9_000_000);
    assert!(session.hits.is_empty());
    // and it is felt once
    assert_eq!(session.update(0), None);
    assert_eq!(session.oxygen, 9_000_000);
    let again = session.fixed_update_with(input(0, 0));
    assert!(again.removed.is_empty());
    assert_eq!(session.bubbles.len(), 1);
}

#[test]
fn oxygen_rises_only_with_a_restoring_hit() {
    for (kind, expected) in [
        (BubbleType::Regular, 12_000_000 - FRAME),
        (BubbleType::Freeze, 11_000_000 - FRAME),
        (BubbleType::Dirt, 9_000_000 - FRAME),
        (BubbleType::Blood, 6_000_000 - FRAME),
    ] {
        let mut session = Session::new();
        session.bubbles.push(still(0, 0, kind));
        let report = session.tick_with(input(FRAME, 0));
        assert_eq!(report.removed, vec![0]);
        assert_eq!(session.oxygen, expected);
        assert_eq!(session.oxygen > 10_000_000, kind == BubbleType::Regular || kind == BubbleType::Freeze);
    }
}

#[test]
fn bubble_appears_every_interval() {
    let mut session = with_all_models();
    let mut spawned = 0;
    for _ in 0..64 {
        let report = session.fixed_update_with(input(FRAME, 2));
        if let Some(bubble) = report.spawned {
            spawned += 1;
            assert_eq!(bubble, spawn_bubble(&Position { x: 0, y: 0, z: 0 }, east(), BubbleType::Dirt));
        }
    }
    assert_eq!(spawned, 2);
    assert_eq!(session.bubbles.len(), 2);
    assert_eq!(session.timer.elapsed(), 200_000);
}

#[test]
fn spawned_bubble_drifts_in_the_tick_it_appears_in() {
    let mut session = with_all_models();
    let report = session.fixed_update_with(input(400_000, 0));
    let fresh = report.spawned.unwrap();
    assert_eq!(fresh.position, Position { x: 6_000_000, y: 250_000, z: 0 });
    assert_eq!(session.bubbles.len(), 1);
    // 1.8 units per second for 0.4 s
    assert_eq!(session.bubbles[0].position, Position { x: 5_280_000, y: 250_000, z: 0 });
}

#[test]
fn bubble_reaches_the_waiting_player_and_is_felt() {
    let mut session = with_all_models();
    // a freeze bubble appears in the first tick; later draws find no model
    let first = session.tick_with(input(400_000, 3));
    assert!(first.spawned.is_some());
    session.models = BubbleModels::new();
    let mut hit_after = None;
    for tick in 1..400u64 {
        let report = session.tick_with(input(FRAME, 3));
        if !report.removed.is_empty() {
            assert_eq!(report.removed, vec![0]);
            hit_after = Some(tick);
            break;
        }
        assert_eq!(session.freeze.time_remaining, 0);
    }
    // after the first tick the bubble is 5_280_000 away and comes 28_125
    // closer per tick; it touches from 916_515 on
    assert_eq!(hit_after, Some(156));
    assert!(session.bubbles.is_empty());
    assert!(session.hits.is_empty());
    assert_eq!(session.freeze.time_remaining, 800_000);
    assert_eq!(session.oxygen, 10_000_000 - 400_000 - 156 * FRAME + 1_000_000);
}

#[test]
fn frozen_player_ignores_the_keys_until_the_freeze_is_over() {
    let mut session = Session::new();
    session.bubbles.push(still(0, 0, BubbleType::Freeze));
    let right = MovementInput { up: false, down: false, left: false, right: true };
    let step = TickInput { dt: FRAME, keys: right, type_index: 0, direction: east() };
    // first tick: the player moves, then touches the bubble
    session.tick_with(step);
    assert_eq!(session.player.x, 109_375);
    assert_eq!(session.freeze.time_remaining, 800_000);
    let mut frozen_ticks = 0;
    loop {
        let before = session.player;
        let was_frozen = session.freeze.time_remaining > 0;
        session.tick_with(step);
        if session.player == before {
            assert!(was_frozen);
            frozen_ticks += 1;
        } else {
            assert!(!was_frozen);
            break;
        }
    }
    assert_eq!(frozen_ticks, 52);
    assert_eq!(session.player.x, 218_750);
}

#[test]
fn nothing_spawns_and_nobody_moves_after_game_over() {
    let mut session = with_all_models();
    session.oxygen = 0;
    let up = MovementInput { up: true, down: false, left: false, right: false };
    let step = TickInput { dt: 400_000, keys: up, type_index: 2, direction: east() };
    let report = session.tick_with(step);
    assert_eq!(report.game_over, Some(GameOverEvent));
    // the tick that ends the session still ran its first half alive
    assert!(report.spawned.is_some());
    assert_eq!(session.player.z, -2_800_000);
    let elapsed = session.timer.elapsed();
    for _ in 0..10 {
        let report = session.tick_with(step);
        assert_eq!(report.game_over, None);
        assert_eq!(report.spawned, None);
        assert!(report.removed.is_empty());
        assert_eq!(session.player, Position { x: 0, y: 0, z: -2_800_000 });
        assert_eq!(session.timer.elapsed(), elapsed);
        assert_eq!(session.oxygen, 0);
    }
    assert_eq!(session.bubbles.len(), 1);
    assert_eq!(session.bubbles[0].position.x, 6_000_000 - 11 * 720_000);
}

#[test]
fn bubbles_keep_drifting_and_hitting_after_game_over() {
    let mut session = Session::new();
    session.is_game_over = true;
    session.oxygen = 0;
    session.bubbles.push(Bubble {
        position: Position { x: 2_000_000, y: 250_000, z: 0 },
        velocity: Velocity { x: -1_000_000, z: 0 },
        bubble_type: BubbleType::Regular,
    });
    let first = session.tick_with(input(1_000_000, 0));
    assert!(first.removed.is_empty());
    assert_eq!(session.bubbles[0].position.x, 1_000_000);
    let second = session.tick_with(input(1_000_000, 0));
    assert_eq!(second.removed, vec![0]);
    assert_eq!(second.game_over, None);
    assert_eq!(session.oxygen, 2_000_000);
    assert!(session.is_game_over);
    // the end is not reported again when the supply runs out once more
    session.bubbles.push(still(0, 0, BubbleType::Blood));
    let third = session.tick_with(input(1_000_000, 0));
    assert_eq!(third.game_over, None);
    assert_eq!(session.oxygen, 0);
    assert_eq!(session.tick_with(input(1_000_000, 0)).game_over, None);
}

#[test]
fn blood_hit_that_uses_up_the_supply_ends_the_session_in_the_same_tick() {
    let mut session = Session::new();
    session.oxygen = 3_000_000;
    session.bubbles.push(still(0, 0, BubbleType::Blood));
    let report = session.tick_with(input(FRAME, 0));
    assert_eq!(report.game_over, Some(GameOverEvent));
    assert_eq!(session.oxygen, 0);
    assert!(session.is_game_over);
}

#[test]
fn off_the_plateau_the_supply_drains_twice_as_fast() {
    let mut session = Session::new();
    session.player = Position { x: 4_500_000, y: 0, z: 0 };
    assert_eq!(session.update(1_000_000), None);
    assert_eq!(session.oxygen, 8_000_000);
    session.player = Position { x: 3_500_000, y: 0, z: 0 };
    assert_eq!(session.update(1_000_000), None);
    assert_eq!(session.oxygen, 7_000_000);
}

#[test]
fn freeze_hit_leaves_the_fixed_duration_at_the_end_of_the_tick() {
    let mut session = Session::new();
    session.freeze.time_remaining = 300_000;
    session.hits.push(BubbleHitEvent { bubble_type: BubbleType::Freeze });
    session.update(FRAME);
    assert_eq!(session.freeze.time_remaining, 800_000);
    session.update(FRAME);
    assert_eq!(session.freeze.time_remaining, 784_375);
}

#[test]
fn drawn_tick_spawns_a_bubble_of_some_kind() {
    for _ in 0..100 {
        let mut session = with_all_models();
        let report = session.tick(400_000, no_keys(), east());
        let fresh = report.spawned.unwrap();
        assert_eq!(
            fresh,
            spawn_bubble(&Position { x: 0, y: 0, z: 0 }, east(), fresh.bubble_type)
        );
        assert_eq!(session.bubbles.len(), 1);
        assert_eq!(session.bubbles[0].bubble_type, fresh.bubble_type);
        assert_eq!(session.oxygen, 9_600_000);
        assert_eq!(report.game_over, None);
        assert!(report.removed.is_empty());
    }
}

#[test]
fn drawn_first_half_spawns_a_bubble_of_some_kind() {
    let mut session = with_all_models();
    let mut kinds = Vec::new();
    for _ in 0..400 {
        let report = session.fixed_update(400_000, no_keys(), east());
        assert!(report.removed.is_empty());
        let fresh = report.spawned.unwrap();
        if !kinds.contains(&fresh.bubble_type) {
            kinds.push(fresh.bubble_type);
        }
        session.bubbles.clear();
        session.hits.clear();
    }
    assert_eq!(kinds.len(), 4);
    assert_eq!(session.oxygen, 10_000_000);
}
