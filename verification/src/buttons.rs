//! The numeric button layout and the mapping from physical buttons onto it.

use vstd::prelude::*;
use crate::units::HALF;

verus! {

/// Number of semantic buttons; their codes run from 0 to `BUTTON_COUNT - 1`.
pub const BUTTON_COUNT: usize = 17;

/// A semantic button, in the order of its numeric code.
#[allow(non_camel_case_types)]
#[derive(Copy, Clone, Debug, PartialEq, Eq, Structural)]
pub enum ButtonCode {
    A,
    B,
    X,
    Y,
    LB,
    RB,
    LT,
    RT,
    BACK,
    START,
    LS,
    RS,
    DPAD_UP,
    DPAD_DOWN,
    DPAD_LEFT,
    DPAD_RIGHT,
    GUIDE,
}

/// A physical button as the hardware source reports it.
#[derive(Copy, Clone, Debug, PartialEq, Eq, Structural)]
pub enum PadButton {
    South,
    East,
    North,
    West,
    C,
    Z,
    LeftTrigger,
    LeftTrigger2,
    RightTrigger,
    RightTrigger2,
    Select,
    Start,
    Mode,
    LeftThumb,
    RightThumb,
    DPadUp,
    DPadDown,
    DPadLeft,
    DPadRight,
    Unknown,
}

impl ButtonCode {
    /// The numeric code of the button.
    pub open spec fn index(self) -> int {
        match self {
            ButtonCode::A => 0,
            ButtonCode::B => 1,
            ButtonCode::X => 2,
            ButtonCode::Y => 3,
            ButtonCode::LB => 4,
            ButtonCode::RB => 5,
            ButtonCode::LT => 6,
            ButtonCode::RT => 7,
            ButtonCode::BACK => 8,
            ButtonCode::START => 9,
            ButtonCode::LS => 10,
            ButtonCode::RS => 11,
            ButtonCode::DPAD_UP => 12,
            ButtonCode::DPAD_DOWN => 13,
            ButtonCode::DPAD_LEFT => 14,
            ButtonCode::DPAD_RIGHT => 15,
            ButtonCode::GUIDE => 16,
        }
    }

    /// Whether the button is one of the two analog triggers.
    pub open spec fn is_trigger(self) -> bool {
        self == ButtonCode::LT || self == ButtonCode::RT
    }

    /// The human-readable name that accompanies the button on the wire.
    pub open spec fn label(self) -> Seq<char> {
        match self {
            ButtonCode::A => "A"@,
            ButtonCode::B => "B"@,
            ButtonCode::X => "X"@,
            ButtonCode::Y => "Y"@,
            ButtonCode::LB => "LB"@,
            ButtonCode::RB => "RB"@,
            ButtonCode::LT => "LT"@,
            ButtonCode::RT => "RT"@,
            ButtonCode::BACK => "BACK"@,
            ButtonCode::START => "START"@,
            ButtonCode::LS => "LS"@,
            ButtonCode::RS => "RS"@,
            ButtonCode::DPAD_UP => "DPAD_UP"@,
            ButtonCode::DPAD_DOWN => "DPAD_DOWN"@,
            ButtonCode::DPAD_LEFT => "DPAD_LEFT"@,
            ButtonCode::DPAD_RIGHT => "DPAD_RIGHT"@,
            ButtonCode::GUIDE => "GUIDE"@,
        }
    }

    /// Returns the numeric code, which is below `BUTTON_COUNT`.
    pub fn code(self) -> (r: u8)
        ensures
            r as int == self.index(),
            r < BUTTON_COUNT,
    {
        match self {
            ButtonCode::A => 0,
            ButtonCode::B => 1,
            ButtonCode::X => 2,
            ButtonCode::Y => 3,
            ButtonCode::LB => 4,
            ButtonCode::RB => 5,
            ButtonCode::LT => 6,
            ButtonCode::RT => 7,
            ButtonCode::BACK => 8,
            ButtonCode::START => 9,
            ButtonCode::LS => 10,
            ButtonCode::RS => 11,
            ButtonCode::DPAD_UP => 12,
            ButtonCode::DPAD_DOWN => 13,
            ButtonCode::DPAD_LEFT => 14,
            ButtonCode::DPAD_RIGHT => 15,
            ButtonCode::GUIDE => 16,
        }
    }

    /// Returns the button with the given numeric code, if there is one.
    pub fn from_code(code: u8) -> (r: Option<ButtonCode>)
        ensures
            code < BUTTON_COUNT <==> r is Some,
            r matches Some(b) ==> b.index() == code,
    {
        match code {
            0 => Some(ButtonCode::A),
            1 => Some(ButtonCode::B),
            2 => Some(ButtonCode::X),
            3 => Some(ButtonCode::Y),
            4 => Some(ButtonCode::LB),
            5 => Some(ButtonCode::RB),
            6 => Some(ButtonCode::LT),
            7 => Some(ButtonCode::RT),
            8 => Some(ButtonCode::BACK),
            9 => Some(ButtonCode::START),
            10 => Some(ButtonCode::LS),
            11 => Some(ButtonCode::RS),
            12 => Some(ButtonCode::DPAD_UP),
            13 => Some(ButtonCode::DPAD_DOWN),
            14 => Some(ButtonCode::DPAD_LEFT),
            15 => Some(ButtonCode::DPAD_RIGHT),
            16 => Some(ButtonCode::GUIDE),
            _ => None,
        }
    }

    /// Tells whether the button is `LT` or `RT`.
    pub fn is_analog_trigger(self) -> (r: bool)
        ensures
            r == self.is_trigger(),
    {
        match self {
            ButtonCode::LT => true,
            ButtonCode::RT => true,
            _ => false,
        }
    }

    /// Returns the wire name of the button.
    pub fn name(self) -> (r: &'static str)
        ensures
            r@ == self.label(),
    {
        match self {
            ButtonCode::A => "A",
            ButtonCode::B => "B",
            ButtonCode::X => "X",
            ButtonCode::Y => "Y",
            ButtonCode::LB => "LB",
            ButtonCode::RB => "RB",
            ButtonCode::LT => "LT",
            ButtonCode::RT => "RT",
            ButtonCode::BACK => "BACK",
            ButtonCode::START => "START",
            ButtonCode::LS => "LS",
            ButtonCode::RS => "RS",
            ButtonCode::DPAD_UP => "DPAD_UP",
            ButtonCode::DPAD_DOWN => "DPAD_DOWN",
            ButtonCode::DPAD_LEFT => "DPAD_LEFT",
            ButtonCode::DPAD_RIGHT => "DPAD_RIGHT",
            ButtonCode::GUIDE => "GUIDE",
        }
    }
}

/// The semantic button that a physical button stands for, if any.
pub open spec fn mapped_button(btn: PadButton) -> Option<ButtonCode> {
    match btn {
        PadButton::South => Some(ButtonCode::A),
        PadButton::East => Some(ButtonCode::B),
        PadButton::West => Some(ButtonCode::X),
        PadButton::North => Some(ButtonCode::Y),
        PadButton::LeftTrigger => Some(ButtonCode::LB),
        PadButton::RightTrigger => Some(ButtonCode::RB),
        PadButton::LeftTrigger2 => Some(ButtonCode::LT),
        PadButton::RightTrigger2 => Some(ButtonCode::RT),
        PadButton::Select => Some(ButtonCode::BACK),
        PadButton::Start => Some(ButtonCode::START),
        PadButton::LeftThumb => Some(ButtonCode::LS),
        PadButton::RightThumb => Some(ButtonCode::RS),
        PadButton::DPadUp => Some(ButtonCode::DPAD_UP),
        PadButton::DPadDown => Some(ButtonCode::DPAD_DOWN),
        PadButton::DPadLeft => Some(ButtonCode::DPAD_LEFT),
        PadButton::DPadRight => Some(ButtonCode::DPAD_RIGHT),
        PadButton::Mode => Some(ButtonCode::GUIDE),
        PadButton::C => None,
        PadButton::Z => None,
        PadButton::Unknown => None,
    }
}

/// Maps a physical button onto the numeric layout; buttons outside the layout
/// have no code.
pub fn map_button(btn: PadButton) -> (r: Option<ButtonCode>)
    ensures
        r == mapped_button(btn),
{
    match btn {
        PadButton::South => Some(ButtonCode::A),
        PadButton::East => Some(ButtonCode::B),
        PadButton::West => Some(ButtonCode::X),
        PadButton::North => Some(ButtonCode::Y),
        PadButton::LeftTrigger => Some(ButtonCode::LB),
        PadButton::RightTrigger => Some(ButtonCode::RB),
        PadButton::LeftTrigger2 => Some(ButtonCode::LT),
        PadButton::RightTrigger2 => Some(ButtonCode::RT),
        PadButton::Select => Some(ButtonCode::BACK),
        PadButton::Start => Some(ButtonCode::START),
        PadButton::LeftThumb => Some(ButtonCode::LS),
        PadButton::RightThumb => Some(ButtonCode::RS),
        PadButton::DPadUp => Some(ButtonCode::DPAD_UP),
        PadButton::DPadDown => Some(ButtonCode::DPAD_DOWN),
        PadButton::DPadLeft => Some(ButtonCode::DPAD_LEFT),
        PadButton::DPadRight => Some(ButtonCode::DPAD_RIGHT),
        PadButton::Mode => Some(ButtonCode::GUIDE),
        _ => None,
    }
}

/// An analog reading of an ordinary button counts as pressed from one half on.
pub fn digital_pressed(value: i32) -> (r: bool)
    ensures
        r == (value >= HALF),
{
    value >= HALF
}

/// Distinct buttons have distinct codes.
pub proof fn lemma_code_injective(a: ButtonCode, b: ButtonCode)
    requires
        a.index() == b.index(),
    ensures
        a == b,
{
}

} // verus!
