//! Axis names and the normalisation of raw axis readings.

use vstd::prelude::*;
use crate::units::{clamp, clamp_int, magnitude, HALF, UNIT};

verus! {

/// Number of named axes.
pub const AXIS_COUNT: usize = 6;

/// A named axis, in the order in which device state stores them.
#[derive(Copy, Clone, Debug, PartialEq, Eq, Structural)]
pub enum AxisName {
    LeftX,
    LeftY,
    RightX,
    RightY,
    Lt,
    Rt,
}

/// A physical axis as the hardware source reports it.
#[derive(Copy, Clone, Debug, PartialEq, Eq, Structural)]
pub enum PadAxis {
    LeftStickX,
    LeftStickY,
    LeftZ,
    RightStickX,
    RightStickY,
    RightZ,
    DPadX,
    DPadY,
    Unknown,
}

impl AxisName {
    /// The position of the axis in device state.
    pub open spec fn index(self) -> int {
        match self {
            AxisName::LeftX => 0,
            AxisName::LeftY => 1,
            AxisName::RightX => 2,
            AxisName::RightY => 3,
            AxisName::Lt => 4,
            AxisName::Rt => 5,
        }
    }

    /// Whether the axis is a trigger rather than a stick.
    pub open spec fn is_trigger(self) -> bool {
        self == AxisName::Lt || self == AxisName::Rt
    }

    /// The name of the axis on the wire.
    pub open spec fn label(self) -> Seq<char> {
        match self {
            AxisName::LeftX => "left_x"@,
            AxisName::LeftY => "left_y"@,
            AxisName::RightX => "right_x"@,
            AxisName::RightY => "right_y"@,
            AxisName::Lt => "lt"@,
            AxisName::Rt => "rt"@,
        }
    }

    /// Returns the position of the axis, which is below `AXIS_COUNT`.
    pub fn slot(self) -> (r: usize)
        ensures
            r as int == self.index(),
            r < AXIS_COUNT,
    {
        match self {
            AxisName::LeftX => 0,
            AxisName::LeftY => 1,
            AxisName::RightX => 2,
            AxisName::RightY => 3,
            AxisName::Lt => 4,
            AxisName::Rt => 5,
        }
    }

    /// Returns the axis stored at the given position, if there is one.
    pub fn from_slot(slot: usize) -> (r: Option<AxisName>)
        ensures
            slot < AXIS_COUNT <==> r is Some,
            r matches Some(a) ==> a.index() == slot,
    {
        match slot {
            0 => Some(AxisName::LeftX),
            1 => Some(AxisName::LeftY),
            2 => Some(AxisName::RightX),
            3 => Some(AxisName::RightY),
            4 => Some(AxisName::Lt),
            5 => Some(AxisName::Rt),
            _ => None,
        }
    }

    /// Tells whether the axis is `Lt` or `Rt`.
    pub fn is_analog_trigger(self) -> (r: bool)
        ensures
            r == self.is_trigger(),
    {
        match self {
            AxisName::Lt => true,
            AxisName::Rt => true,
            _ => false,
        }
    }

    /// Returns the wire name of the axis.
    pub fn as_str(self) -> (r: &'static str)
        ensures
            r@ == self.label(),
    {
        match self {
            AxisName::LeftX => "left_x",
            AxisName::LeftY => "left_y",
            AxisName::RightX => "right_x",
            AxisName::RightY => "right_y",
            AxisName::Lt => "lt",
            AxisName::Rt => "rt",
        }
    }
}

/// The named axis that a physical axis feeds, if any.
pub open spec fn named_axis(axis: PadAxis) -> Option<AxisName> {
    match axis {
        PadAxis::LeftStickX => Some(AxisName::LeftX),
        PadAxis::LeftStickY => Some(AxisName::LeftY),
        PadAxis::RightStickX => Some(AxisName::RightX),
        PadAxis::RightStickY => Some(AxisName::RightY),
        PadAxis::LeftZ => Some(AxisName::Lt),
        PadAxis::RightZ => Some(AxisName::Rt),
        PadAxis::DPadX => None,
        PadAxis::DPadY => None,
        PadAxis::Unknown => None,
    }
}

/// Names a physical axis; the directional pad and unknown axes have no name.
pub fn axis_name(axis: PadAxis) -> (r: Option<AxisName>)
    ensures
        r == named_axis(axis),
{
    match axis {
        PadAxis::LeftStickX => Some(AxisName::LeftX),
        PadAxis::LeftStickY => Some(AxisName::LeftY),
        PadAxis::RightStickX => Some(AxisName::RightX),
        PadAxis::RightStickY => Some(AxisName::RightY),
        PadAxis::LeftZ => Some(AxisName::Lt),
        PadAxis::RightZ => Some(AxisName::Rt),
        _ => None,
    }
}

/// A stick reading after the deadzone: readings whose magnitude is below the
/// deadzone count as centred, all others are limited to one whole either way.
pub open spec fn stick_value(v: int, deadzone: int) -> int {
    if magnitude(v) < deadzone {
        0
    } else {
        clamp_int(v, -(UNIT as int), UNIT as int)
    }
}

/// A trigger reading as travel between nothing and one whole. A reading that
/// already lies there is kept; any other is taken to span minus one to one and
/// is moved onto the range by halving its distance from minus one, rounded
/// down to a whole millionth.
pub open spec fn trigger_value(v: int) -> int {
    if 0 <= v <= UNIT {
        v
    } else {
        clamp_int((v + UNIT) / 2, 0, UNIT as int)
    }
}

/// Normalises a raw stick reading against the deadzone.
pub fn normalize_stick(v: i32, deadzone: i32) -> (r: i32)
    ensures
        r == stick_value(v as int, deadzone as int),
        -UNIT <= r <= UNIT,
{
    let wide: i64 = v as i64;
    let size: i64 = if wide < 0 {
        -wide
    } else {
        wide
    };
    if size < deadzone as i64 {
        0
    } else {
        clamp(v, -UNIT, UNIT)
    }
}

/// Normalises a raw trigger reading.
pub fn normalize_trigger(v: i32) -> (r: i32)
    ensures
        r == trigger_value(v as int),
        0 <= r <= UNIT,
{
    if 0 <= v && v <= UNIT {
        v
    } else if v > UNIT {
        UNIT
    } else if v < -UNIT {
        0
    } else {
        (v + UNIT) / 2
    }
}

/// A stick reading inside the deadzone normalises to exactly zero.
pub proof fn lemma_stick_inside_deadzone(v: int, deadzone: int)
    requires
        magnitude(v) < deadzone,
    ensures
        stick_value(v, deadzone) == 0,
{
}

/// A stick reading at or beyond the deadzone normalises to the reading
/// limited to one whole either way.
pub proof fn lemma_stick_outside_deadzone(v: int, deadzone: int)
    requires
        magnitude(v) >= deadzone,
    ensures
        stick_value(v, deadzone) == clamp_int(v, -(UNIT as int), UNIT as int),
        -UNIT <= stick_value(v, deadzone) <= UNIT,
{
}

/// Normalising a stick reading twice gives what normalising it once gives,
/// for every deadzone of at most one whole.
pub proof fn lemma_stick_idempotent(v: int, deadzone: int)
    requires
        deadzone <= UNIT,
    ensures
        stick_value(stick_value(v, deadzone), deadzone) == stick_value(v, deadzone),
{
}

/// A trigger reading between nothing and one whole is kept as it is.
pub proof fn lemma_trigger_keeps_unit_range(v: int)
    requires
        0 <= v <= UNIT,
    ensures
        trigger_value(v) == v,
{
}

/// A trigger reading from minus one up to, but not including, nothing maps to
/// half its distance from minus one, which lies below one half.
pub proof fn lemma_trigger_remaps_negative(v: int)
    requires
        -UNIT <= v < 0,
    ensures
        trigger_value(v) == (v + UNIT) / 2,
        0 <= trigger_value(v) < HALF,
{
}

/// Normalising a trigger reading twice gives what normalising it once gives.
pub proof fn lemma_trigger_idempotent(v: int)
    ensures
        trigger_value(trigger_value(v)) == trigger_value(v),
{
}

} // verus!
