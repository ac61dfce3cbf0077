//! Process-wide tuning values.

use vstd::prelude::*;

verus! {

/// Tuning values, fixed once the server has started. Analog quantities count
/// millionths, time spans count nanoseconds.
#[derive(Copy, Clone, Debug, PartialEq, Eq)]
pub struct Config {
    /// Stick magnitudes below this are snapped to zero.
    pub deadzone: i32,
    /// A trigger counts as a pressed button once its travel exceeds this.
    pub trigger_threshold: i32,
    /// Smallest change of an axis that is sent without waiting.
    pub axis_epsilon: i32,
    /// Time after which an axis is sent again even without such a change.
    pub axis_min_interval: u64,
    /// Cadence at which held sticks are repeated.
    pub axis_hold_repeat_interval: u64,
}

impl Config {
    /// The values used when nothing else is configured: a deadzone of 0.15, a
    /// trigger threshold of one half, an epsilon of 0.02, a minimum interval of
    /// a 120th of a second and a repeat interval of a 60th of a second.
    pub open spec fn standard() -> Config {
        Config {
            deadzone: 150_000,
            trigger_threshold: 500_000,
            axis_epsilon: 20_000,
            axis_min_interval: 8_333_333,
            axis_hold_repeat_interval: 16_666_667,
        }
    }
}

impl Default for Config {
    fn default() -> (r: Config)
        ensures
            r == Config::standard(),
    {
        Config {
            deadzone: 150_000,
            trigger_threshold: 500_000,
            axis_epsilon: 20_000,
            axis_min_interval: 8_333_333,
            axis_hold_repeat_interval: 16_666_667,
        }
    }
}

} // verus!
