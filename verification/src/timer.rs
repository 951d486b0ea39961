//! The repeating timer that paces the bubbles.

use bevy::time::{Timer, TimerMode};
use vstd::prelude::*;

use crate::constants::BUBBLE_SPAWN_INTERVAL;

verus! {

/// Longest interval a spawn timer can have.
pub const MAXIMUM_INTERVAL: u64 = 18_446_744_073_709_551;

/// What a spawn timer holds: its interval and the time gone by since it last
/// fired, in microseconds.
pub ghost struct TimerState {
    pub interval: nat,
    pub elapsed: nat,
}

impl TimerState {
    /// The interval is positive and not too long, and less than one interval
    /// has gone by.
    pub open spec fn wf(self) -> bool {
        0 < self.interval <= MAXIMUM_INTERVAL && self.elapsed < self.interval
    }

    /// Whether the timer fires when `dt` more microseconds go by.
    pub open spec fn fires(self, dt: u64) -> bool {
        self.elapsed + dt >= self.interval
    }

    /// The timer after `dt` more microseconds: whole intervals are dropped
    /// and the remainder is kept.
    pub open spec fn advance(self, dt: u64) -> TimerState {
        TimerState {
            interval: self.interval,
            elapsed: ((self.elapsed + dt) % (self.interval as int)) as nat,
        }
    }
}

/// A repeating interval timer. It fires on a tick in which the time gone by
/// reaches the interval, and carries the remainder over.
#[derive(Clone, Copy, Debug)]
pub struct BubbleSpawnTimer {
    interval: u64,
    elapsed: u64,
}

impl View for BubbleSpawnTimer {
    type V = TimerState;

    closed spec fn view(&self) -> TimerState {
        TimerState { interval: self.interval as nat, elapsed: self.elapsed as nat }
    }
}

/// Ticks a repeating `bevy::time::Timer` of the given interval, on which
/// `elapsed` has gone by, with `delta`; all three in microseconds. Returns
/// what `Timer::finished` and `Timer::elapsed` say after the tick.
///
/// Trusted: a repeating timer adds `delta` to the elapsed time, is finished
/// if the sum has reached the interval, and then keeps the sum's remainder
/// by the interval. The timer computes the remainder in nanoseconds and
/// narrows it to 64 bits, hence the limit on the interval.
#[verifier::external_body]
fn tick_repeating(interval: u64, elapsed: u64, delta: u64) -> (r: (bool, u64))
    requires
        0 < interval <= MAXIMUM_INTERVAL,
    ensures
        r.0 == (elapsed + delta >= interval),
        r.1 == (elapsed + delta) % (interval as int),
{
    let mut timer = Timer::new(std::time::Duration::from_micros(interval), TimerMode::Repeating);
    timer.set_elapsed(std::time::Duration::from_micros(elapsed));
    timer.tick(std::time::Duration::from_micros(delta));
    (timer.finished(), timer.elapsed().as_micros() as u64)
}

impl BubbleSpawnTimer {
    #[verifier::type_invariant]
    spec fn valid(self) -> bool {
        self@.wf()
    }

    /// A timer that fires every `interval` microseconds, if the interval is
    /// positive and at most `MAXIMUM_INTERVAL`.
    pub fn from_micros(interval: u64) -> (r: Option<BubbleSpawnTimer>)
        ensures
            r.is_some() <==> 0 < interval <= MAXIMUM_INTERVAL,
            r matches Some(timer) ==> timer@ == (TimerState {
                interval: interval as nat,
                elapsed: 0,
            }),
    {
        if interval == 0 || interval > MAXIMUM_INTERVAL {
            None
        } else {
            Some(BubbleSpawnTimer { interval, elapsed: 0 })
        }
    }

    /// The timer that paces the bubbles of the game.
    pub fn new() -> (r: BubbleSpawnTimer)
        ensures
            r@ == (TimerState { interval: BUBBLE_SPAWN_INTERVAL as nat, elapsed: 0 }),
    {
        BubbleSpawnTimer { interval: BUBBLE_SPAWN_INTERVAL, elapsed: 0 }
    }

    /// The interval in microseconds.
    pub fn interval(&self) -> (r: u64)
        ensures
            r == self@.interval,
            self@.wf(),
    {
        proof {
            use_type_invariant(self);
        }
        self.interval
    }

    /// The time gone by since the timer last fired, in microseconds.
    pub fn elapsed(&self) -> (r: u64)
        ensures
            r == self@.elapsed,
            self@.wf(),
    {
        proof {
            use_type_invariant(self);
        }
        self.elapsed
    }

    /// Lets `dt` microseconds go by and reports whether the timer fired.
    pub fn tick(&mut self, dt: u64) -> (fired: bool)
        ensures
            fired == old(self)@.fires(dt),
            final(self)@ == old(self)@.advance(dt),
            final(self)@.wf(),
    {
        proof {
            use_type_invariant(&*self);
        }
        let (fired, remainder) = tick_repeating(self.interval, self.elapsed, dt);
        self.elapsed = remainder;
        fired
    }
}

} // verus!
