//! Deterministic gameplay core of an underwater survival arcade game.
//!
//! A diver swims on a plateau while the oxygen supply runs down. Bubbles
//! appear on a circle around the diver and drift towards the place where the
//! diver was; touching one restores oxygen, costs oxygen or freezes the
//! diver for a moment. When the oxygen is used up the session is over.
//!
//! The crate holds the rules of the game and nothing of the engine that
//! shows it: no scene, no sound, no keyboard. A [`session::Session`] is the
//! whole gameplay state. Each tick the caller hands it the time gone by, the
//! keys held down and a direction drawn at random, and gets back what to
//! show: the bubble that appeared, the bubbles that were hit, the end of the
//! session.
//!
//! All quantities are fixed-point integers: lengths and oxygen in millionths
//! of a unit, durations in microseconds. A result that would leave the range
//! of its type is held at the end of the range, so no function panics and
//! none asks more of its caller than a positive divisor.
//!
//! Every function states what it returns and changes over the plain
//! mathematical functions next to it, and [`history`] proves what follows
//! for any sequence of steps: the oxygen only rises with a hit that restores
//! it, and the end of the session is reported once.

pub mod assets;
pub mod bubble;
pub mod collision;
pub mod constants;
pub mod effects;
pub mod freeze;
pub mod geometry;
pub mod history;
pub mod models;
pub mod motion;
pub mod player;
pub mod random;
pub mod session;
pub mod spawn;
pub mod survival;
pub mod timer;
pub mod units;
