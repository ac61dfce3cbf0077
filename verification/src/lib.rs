//! Decision logic of a gamepad input server.
//!
//! The server turns raw gamepad events into a filtered, de-duplicated stream
//! of events for many subscribers, and answers text-analysis requests through
//! a supervised worker process. This library holds the rules and leaves the
//! reading, writing and waiting to its caller:
//!
//! - [`registry`] keeps one state per device ([`state`]).
//! - [`normalizer`] decides what an input event changes and what is sent for
//!   it, using the normalisation in [`axes`] and the layout in [`buttons`].
//! - [`repeater`] re-sends sticks that are held away from the centre.
//! - [`bridge`], [`spawn`] and [`request`] supervise the worker; [`tokens`]
//!   holds the local fallbacks for when it is away.
//! - [`session`] holds the rules of one subscriber's connection.
//!
//! Analog quantities are fixed-point numbers counting millionths ([`units`]),
//! and points in time count nanoseconds on a monotonic clock.

pub mod axes;
pub mod bridge;
pub mod buttons;
pub mod config;
pub mod event;
pub mod normalizer;
pub mod registry;
pub mod repeater;
pub mod request;
pub mod session;
pub mod spawn;
pub mod state;
pub mod text;
pub mod tokens;
pub mod units;
