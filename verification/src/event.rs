//! Raw input events and the events sent out in response.

use vstd::prelude::*;
use crate::axes::{AxisName, PadAxis};
use crate::buttons::{ButtonCode, PadButton};

verus! {

/// One event of the hardware source, for one device. Analog readings count
/// millionths.
#[derive(Copy, Clone, Debug, PartialEq, Eq)]
pub enum InputEvent {
    Connected,
    Disconnected,
    ButtonPressed(PadButton),
    ButtonReleased(PadButton),
    ButtonChanged(PadButton, i32),
    AxisChanged(PadAxis, i32),
    /// Any other event; it changes nothing.
    Other,
}

/// What is told to subscribers about one device.
#[derive(Copy, Clone, Debug, PartialEq, Eq)]
pub enum PadEvent {
    Connected,
    Disconnected,
    /// A button made a transition. Trigger buttons carry their analog travel.
    Button { button: ButtonCode, pressed: bool, travel: Option<i32> },
    /// An axis took a new value.
    Axis { axis: AxisName, value: i32 },
}

impl PadEvent {
    /// The kind of message that tells of the event on the wire.
    pub open spec fn kind_label(self) -> Seq<char> {
        match self {
            PadEvent::Connected => "gamepad_connected"@,
            PadEvent::Disconnected => "gamepad_disconnected"@,
            PadEvent::Button { .. } => "button"@,
            PadEvent::Axis { .. } => "axis"@,
        }
    }

    /// Returns the kind of message that tells of the event on the wire.
    pub fn kind(&self) -> (r: &'static str)
        ensures
            r@ == self.kind_label(),
    {
        match self {
            PadEvent::Connected => "gamepad_connected",
            PadEvent::Disconnected => "gamepad_disconnected",
            PadEvent::Button { .. } => "button",
            PadEvent::Axis { .. } => "axis",
        }
    }
}

/// An outbound event together with the label of the device it is about.
#[derive(Clone, Debug, PartialEq, Eq)]
pub struct Broadcast {
    pub device: String,
    pub event: PadEvent,
}

/// The mathematical content of a `Broadcast`.
pub struct BroadcastModel {
    pub device: Seq<char>,
    pub event: PadEvent,
}

impl View for Broadcast {
    type V = BroadcastModel;

    open spec fn view(&self) -> BroadcastModel {
        BroadcastModel { device: self.device@, event: self.event }
    }
}

/// The events of one device, each under the device's label.
pub open spec fn labelled(device: Seq<char>, events: Seq<PadEvent>) -> Seq<BroadcastModel> {
    Seq::new(events.len(), |i: int| BroadcastModel { device, event: events[i] })
}

/// The contents of a list of broadcasts.
pub open spec fn broadcast_models(list: Seq<Broadcast>) -> Seq<BroadcastModel> {
    Seq::new(list.len(), |i: int| list[i]@)
}

} // verus!
