use bubble_core::constants::BUBBLE_SPAWN_INTERVAL;
use bubble_core::timer::{BubbleSpawnTimer, MAXIMUM_INTERVAL};

#[test]
fn new_timer_has_the_spawn_interval() {
    let timer = BubbleSpawnTimer::new();
    assert_eq!(timer.interval(), BUBBLE_SPAWN_INTERVAL);
    assert_eq!(timer.interval(), 400_000);
    assert_eq!(timer.elapsed(), 0);
}

#[test]
fn timer_interval_must_be_positive_and_bounded() {
    assert!(BubbleSpawnTimer::from_micros(0).is_none());
    assert!(BubbleSpawnTimer::from_micros(1).is_some());
    assert!(BubbleSpawnTimer::from_micros(MAXIMUM_INTERVAL).is_some());
    assert!(BubbleSpawnTimer::from_micros(MAXIMUM_INTERVAL + 1).is_none());
    assert!(BubbleSpawnTimer::from_micros(u64::MAX).is_none());
}

#[test]
fn timer_accumulates_until_the_interval() {
    let mut timer = BubbleSpawnTimer::new();
    assert!(!timer.tick(100_000));
    assert_eq!(timer.elapsed(), 100_000);
    assert!(!timer.tick(299_999));
    assert_eq!(timer.elapsed(), 399_999);
    assert!(timer.tick(1));
    assert_eq!(timer.elapsed(), 0);
}

#[test]
fn timer_keeps_the_remainder() {
    let mut timer = BubbleSpawnTimer::new();
    assert!(timer.tick(450_000));
    assert_eq!(timer.elapsed(), 50_000);
    assert!(!timer.tick(349_999));
    assert_eq!(timer.elapsed(), 399_999);
    assert!(timer.tick(2));
    assert_eq!(timer.elapsed(), 1);
}

#[test]
fn timer_fires_once_for_several_intervals() {
    let mut timer = BubbleSpawnTimer::new();
    assert!(timer.tick(1_300_000));
    assert_eq!(timer.elapsed(), 100_000);
    assert_eq!(timer.interval(), 400_000);
}

#[test]
fn timer_with_zero_delta_stands_still() {
    let mut timer = BubbleSpawnTimer::new();
    assert!(!timer.tick(0));
    assert_eq!(timer.elapsed(), 0);
    assert!(!timer.tick(7));
    assert!(!timer.tick(0));
    assert_eq!(timer.elapsed(), 7);
}

#[test]
fn timer_at_sixty_four_ticks_per_second() {
    let mut timer = BubbleSpawnTimer::new();
    let mut fired = 0;
    for _ in 0..64 {
        if timer.tick(15_625) {
            fired += 1;
        }
    }
    // one second holds two whole intervals of 0.4 s
    assert_eq!(fired, 2);
    assert_eq!(timer.elapsed(), 200_000);
}

#[test]
fn timer_takes_the_longest_tick_and_interval() {
    let mut timer = BubbleSpawnTimer::from_micros(MAXIMUM_INTERVAL).unwrap();
    assert!(timer.tick(u64::MAX));
    assert_eq!(timer.elapsed(), u64::MAX % MAXIMUM_INTERVAL);
    let mut short = BubbleSpawnTimer::from_micros(1).unwrap();
    assert!(short.tick(u64::MAX));
    assert_eq!(short.elapsed(), 0);
    assert!(!short.tick(0));
    let mut odd = BubbleSpawnTimer::from_micros(7).unwrap();
    assert!(!odd.tick(6));
    assert!(odd.tick(u64::MAX));
    assert_eq!(odd.elapsed(), ((u64::MAX as u128 + 6) % 7) as u64);
}
