//! The decision of what a raw input event does to a device's state and which
//! events go out because of it.

use vstd::prelude::*;
use crate::axes::{axis_name, named_axis, normalize_stick, normalize_trigger, stick_value, trigger_value, AxisName, PadAxis};
use crate::buttons::{digital_pressed, map_button, mapped_button, ButtonCode};
use crate::config::Config;
use crate::event::{InputEvent, PadEvent};
use crate::state::{GamepadState, PadModel};
use crate::units::{HALF, UNIT};

verus! {

/// A device's state after an input event, and the events to send for it.
pub struct Reaction {
    pub pad: PadModel,
    pub events: Seq<PadEvent>,
}

/// The axis that belongs to a trigger button.
pub open spec fn trigger_axis_of(code: ButtonCode) -> AxisName {
    if code == ButtonCode::LT {
        AxisName::Lt
    } else {
        AxisName::Rt
    }
}

/// The button that belongs to a trigger axis.
pub open spec fn trigger_button_of(axis: AxisName) -> ButtonCode {
    if axis == AxisName::Lt {
        ButtonCode::LT
    } else {
        ButtonCode::RT
    }
}

/// The travel that a fully pressed or fully released trigger stands for.
pub open spec fn full_travel(pressed: bool) -> i32 {
    if pressed {
        UNIT
    } else {
        0
    }
}

/// Edge-triggered emission: a button's new pressed state is stored, and one
/// `Button` event goes out, exactly if it differs from the stored state.
pub open spec fn button_edge(pad: PadModel, code: ButtonCode, pressed: bool, travel: Option<i32>) -> Reaction {
    if pad.button(code) != pressed {
        Reaction {
            pad: pad.with_button(code, pressed),
            events: seq![PadEvent::Button { button: code, pressed, travel }],
        }
    } else {
        Reaction { pad, events: Seq::empty() }
    }
}

/// A digital press or release of a mapped button. A trigger button also moves
/// its axis fully in or out, and its event carries that travel.
pub open spec fn digital_button(pad: PadModel, label: Seq<char>, code: ButtonCode, pressed: bool) -> Reaction {
    let named = pad.with_name(label);
    if code.is_trigger() {
        button_edge(
            named.with_axis(trigger_axis_of(code), full_travel(pressed)),
            code,
            pressed,
            Some(full_travel(pressed)),
        )
    } else {
        button_edge(named, code, pressed, None)
    }
}

/// An analog reading of a mapped button. A trigger counts as pressed above
/// the trigger threshold and stores its normalised travel; any other button
/// counts as pressed from one half on.
pub open spec fn analog_button(pad: PadModel, label: Seq<char>, code: ButtonCode, value: i32, cfg: Config) -> Reaction {
    let named = pad.with_name(label);
    if code.is_trigger() {
        let travel = trigger_value(value as int) as i32;
        button_edge(
            named.with_axis(trigger_axis_of(code), travel),
            code,
            value > cfg.trigger_threshold,
            Some(travel),
        )
    } else {
        button_edge(named, code, value >= HALF, None)
    }
}

/// One axis of the directional pad: the button on the low side is pressed
/// below minus one half, the one on the high side above one half, and each
/// makes its own transition.
pub open spec fn dpad_axis(pad: PadModel, label: Seq<char>, low: ButtonCode, high: ButtonCode, raw: i32) -> Reaction {
    let first = button_edge(pad.with_name(label), low, raw < -HALF, None);
    let second = button_edge(first.pad, high, raw > HALF, None);
    Reaction { pad: second.pad, events: first.events + second.events }
}

/// A reading of a named axis. The normalised value is stored. If the axis is
/// a trigger whose button makes a transition across the threshold, that
/// `Button` event goes out in place of the `Axis` event; otherwise the `Axis`
/// event goes out if the debounce rule lets it pass.
pub open spec fn named_axis_change(pad: PadModel, label: Seq<char>, axis: AxisName, raw: i32, cfg: Config, now: u64) -> Reaction {
    let value = if axis.is_trigger() {
        trigger_value(raw as int) as i32
    } else {
        stick_value(raw as int, cfg.deadzone as int) as i32
    };
    let stored = pad.with_name(label).with_axis(axis, value);
    let code = trigger_button_of(axis);
    let pressed = value > cfg.trigger_threshold;
    if axis.is_trigger() && stored.button(code) != pressed {
        Reaction {
            pad: stored.with_button(code, pressed),
            events: seq![PadEvent::Button { button: code, pressed, travel: Some(value) }],
        }
    } else if stored.may_send(axis, value, now, cfg) {
        Reaction {
            pad: stored.with_sent(axis, value, now),
            events: seq![PadEvent::Axis { axis, value }],
        }
    } else {
        Reaction { pad: stored, events: Seq::empty() }
    }
}

/// What an input event does to the state of its device, which is known under
/// `label` at the time of the event. Buttons and axes that map to nothing
/// leave the state alone and send nothing.
pub open spec fn react(pad: PadModel, label: Seq<char>, input: InputEvent, cfg: Config, now: u64) -> Reaction {
    match input {
        InputEvent::Connected => Reaction {
            pad: pad.with_connected(true).with_name(label),
            events: seq![PadEvent::Connected],
        },
        InputEvent::Disconnected => Reaction {
            pad: pad.with_connected(false),
            events: seq![PadEvent::Disconnected],
        },
        InputEvent::ButtonPressed(btn) => match mapped_button(btn) {
            Some(code) => digital_button(pad, label, code, true),
            None => Reaction { pad, events: Seq::empty() },
        },
        InputEvent::ButtonReleased(btn) => match mapped_button(btn) {
            Some(code) => digital_button(pad, label, code, false),
            None => Reaction { pad, events: Seq::empty() },
        },
        InputEvent::ButtonChanged(btn, value) => match mapped_button(btn) {
            Some(code) => analog_button(pad, label, code, value, cfg),
            None => Reaction { pad, events: Seq::empty() },
        },
        InputEvent::AxisChanged(axis, raw) => match axis {
            PadAxis::DPadX => dpad_axis(pad, label, ButtonCode::DPAD_LEFT, ButtonCode::DPAD_RIGHT, raw),
            PadAxis::DPadY => dpad_axis(pad, label, ButtonCode::DPAD_UP, ButtonCode::DPAD_DOWN, raw),
            _ => match named_axis(axis) {
                Some(name) => named_axis_change(pad, label, name, raw, cfg, now),
                None => Reaction { pad, events: Seq::empty() },
            },
        },
        InputEvent::Other => Reaction { pad, events: Seq::empty() },
    }
}

/// Returns the axis that belongs to a trigger button.
fn trigger_axis(code: ButtonCode) -> (r: AxisName)
    requires
        code.is_trigger(),
    ensures
        r == trigger_axis_of(code),
{
    match code {
        ButtonCode::LT => AxisName::Lt,
        _ => AxisName::Rt,
    }
}

/// Returns the button that belongs to a trigger axis.
fn trigger_button(axis: AxisName) -> (r: ButtonCode)
    requires
        axis.is_trigger(),
    ensures
        r == trigger_button_of(axis),
{
    match axis {
        AxisName::Lt => ButtonCode::LT,
        _ => ButtonCode::RT,
    }
}

impl GamepadState {
    /// Stores a button's pressed state and appends one `Button` event to `out`
    /// exactly if the state made a transition.
    pub fn press(&mut self, code: ButtonCode, pressed: bool, travel: Option<i32>, out: &mut Vec<PadEvent>)
        requires
            old(self).wf(),
        ensures
            final(self).wf(),
            final(self)@ == button_edge(old(self)@, code, pressed, travel).pad,
            final(out)@ == old(out)@ + button_edge(old(self)@, code, pressed, travel).events,
    {
        if self.set_button(code, pressed) {
            out.push(PadEvent::Button { button: code, pressed, travel });
        } else {
            assert(self@.buttons =~= old(self)@.buttons);
        }
    }

    /// Applies one input event of this device, known under `label` at the
    /// time of the event, and returns the events to send for it, in order.
    pub fn apply(&mut self, label: &str, input: InputEvent, cfg: &Config, now: u64) -> (events: Vec<PadEvent>)
        requires
            old(self).wf(),
        ensures
            final(self).wf(),
            final(self)@ == react(old(self)@, label@, input, *cfg, now).pad,
            events@ == react(old(self)@, label@, input, *cfg, now).events,
    {
        let mut out: Vec<PadEvent> = Vec::new();
        match input {
            InputEvent::Connected => {
                self.connected = true;
                self.device_name = String::from_str(label);
                out.push(PadEvent::Connected);
            },
            InputEvent::Disconnected => {
                self.connected = false;
                out.push(PadEvent::Disconnected);
            },
            InputEvent::ButtonPressed(btn) => {
                if let Some(code) = map_button(btn) {
                    self.apply_digital(label, code, true, &mut out);
                }
            },
            InputEvent::ButtonReleased(btn) => {
                if let Some(code) = map_button(btn) {
                    self.apply_digital(label, code, false, &mut out);
                }
            },
            InputEvent::ButtonChanged(btn, value) => {
                if let Some(code) = map_button(btn) {
                    self.apply_analog(label, code, value, cfg, &mut out);
                }
            },
            InputEvent::AxisChanged(axis, raw) => {
                match axis {
                    PadAxis::DPadX => {
                        self.apply_dpad(label, ButtonCode::DPAD_LEFT, ButtonCode::DPAD_RIGHT, raw, &mut out);
                    },
                    PadAxis::DPadY => {
                        self.apply_dpad(label, ButtonCode::DPAD_UP, ButtonCode::DPAD_DOWN, raw, &mut out);
                    },
                    _ => {
                        if let Some(name) = axis_name(axis) {
                            self.apply_axis(label, name, raw, cfg, now, &mut out);
                        }
                    },
                }
            },
            InputEvent::Other => {},
        }
        out
    }

    /// Applies a digital press or release of a mapped button and appends the
    /// events to send to `out`.
    pub fn apply_digital(&mut self, label: &str, code: ButtonCode, pressed: bool, out: &mut Vec<PadEvent>)
        requires
            old(self).wf(),
        ensures
            final(self).wf(),
            final(self)@ == digital_button(old(self)@, label@, code, pressed).pad,
            final(out)@ == old(out)@ + digital_button(old(self)@, label@, code, pressed).events,
    {
        self.device_name = String::from_str(label);
        if code.is_analog_trigger() {
            let travel: i32 = if pressed {
                UNIT
            } else {
                0
            };
            self.set_axis(trigger_axis(code), travel);
            self.press(code, pressed, Some(travel), out);
        } else {
            self.press(code, pressed, None, out);
        }
    }

    /// Applies an analog reading of a mapped button and appends the events to
    /// send to `out`.
    pub fn apply_analog(&mut self, label: &str, code: ButtonCode, value: i32, cfg: &Config, out: &mut Vec<PadEvent>)
        requires
            old(self).wf(),
        ensures
            final(self).wf(),
            final(self)@ == analog_button(old(self)@, label@, code, value, *cfg).pad,
            final(out)@ == old(out)@ + analog_button(old(self)@, label@, code, value, *cfg).events,
    {
        self.device_name = String::from_str(label);
        if code.is_analog_trigger() {
            let travel: i32 = normalize_trigger(value);
            self.set_axis(trigger_axis(code), travel);
            self.press(code, value > cfg.trigger_threshold, Some(travel), out);
        } else {
            self.press(code, digital_pressed(value), None, out);
        }
    }

    /// Applies a reading of one axis of the directional pad, whose low and
    /// high sides press the two given buttons, and appends the events to send
    /// to `out`.
    pub fn apply_dpad(&mut self, label: &str, low: ButtonCode, high: ButtonCode, raw: i32, out: &mut Vec<PadEvent>)
        requires
            old(self).wf(),
        ensures
            final(self).wf(),
            final(self)@ == dpad_axis(old(self)@, label@, low, high, raw).pad,
            final(out)@ == old(out)@ + dpad_axis(old(self)@, label@, low, high, raw).events,
    {
        self.device_name = String::from_str(label);
        self.press(low, raw < -HALF, None, out);
        self.press(high, raw > HALF, None, out);
    }

    /// Applies a reading of a named axis and appends the events to send to
    /// `out`.
    pub fn apply_axis(&mut self, label: &str, axis: AxisName, raw: i32, cfg: &Config, now: u64, out: &mut Vec<PadEvent>)
        requires
            old(self).wf(),
        ensures
            final(self).wf(),
            final(self)@ == named_axis_change(old(self)@, label@, axis, raw, *cfg, now).pad,
            final(out)@ == old(out)@ + named_axis_change(old(self)@, label@, axis, raw, *cfg, now).events,
    {
        self.device_name = String::from_str(label);
        let value: i32 = if axis.is_analog_trigger() {
            normalize_trigger(raw)
        } else {
            normalize_stick(raw, cfg.deadzone)
        };
        self.set_axis(axis, value);
        if axis.is_analog_trigger() {
            let code = trigger_button(axis);
            let pressed = value > cfg.trigger_threshold;
            if self.button(code) != pressed {
                self.press(code, pressed, Some(value), out);
                return ;
            }
        }
        if self.should_send_axis(axis, value, cfg, now) {
            out.push(PadEvent::Axis { axis, value });
        }
    }
}

/// Whether an event tells of the given button.
pub open spec fn is_button_event(event: PadEvent, code: ButtonCode) -> bool {
    event matches PadEvent::Button { button, .. } && button == code
}

/// Two identical pressed states in a row: the second produces no event and
/// changes nothing, whatever the first did.
pub proof fn lemma_edge_repeat_is_silent(
    pad: PadModel,
    code: ButtonCode,
    pressed: bool,
    first: Option<i32>,
    second: Option<i32>,
)
    requires
        pad.wf(),
    ensures
        button_edge(button_edge(pad, code, pressed, first).pad, code, pressed, second).events.len() == 0,
        button_edge(button_edge(pad, code, pressed, first).pad, code, pressed, second).pad == button_edge(
            pad,
            code,
            pressed,
            first,
        ).pad,
{
}

/// A transition produces exactly one event, which tells of the button, its
/// new state and the given travel, and the new state is stored.
pub proof fn lemma_edge_transition_emits_once(pad: PadModel, code: ButtonCode, pressed: bool, travel: Option<i32>)
    requires
        pad.wf(),
        pad.button(code) != pressed,
    ensures
        button_edge(pad, code, pressed, travel).events == seq![PadEvent::Button { button: code, pressed, travel }],
        button_edge(pad, code, pressed, travel).pad.button(code) == pressed,
{
}

/// Every `Button` event that an input event produces tells of a transition:
/// the button was stored in the opposite state before and is stored in the
/// reported state afterwards.
pub proof fn lemma_button_events_are_transitions(
    pad: PadModel,
    label: Seq<char>,
    input: InputEvent,
    cfg: Config,
    now: u64,
    k: int,
)
    requires
        pad.wf(),
        0 <= k < react(pad, label, input, cfg, now).events.len(),
        react(pad, label, input, cfg, now).events[k] is Button,
    ensures
        ({
            let r = react(pad, label, input, cfg, now);
            &&& r.events[k] matches PadEvent::Button { button, pressed, .. }
            &&& pad.button(button) != pressed
            &&& r.pad.button(button) == pressed
        }),
{
}

/// No input event produces two events about the same button.
pub proof fn lemma_one_event_per_button(
    pad: PadModel,
    label: Seq<char>,
    input: InputEvent,
    cfg: Config,
    now: u64,
    code: ButtonCode,
    i: int,
    j: int,
)
    requires
        pad.wf(),
        0 <= i < j < react(pad, label, input, cfg, now).events.len(),
    ensures
        !(is_button_event(react(pad, label, input, cfg, now).events[i], code) && is_button_event(
            react(pad, label, input, cfg, now).events[j],
            code,
        )),
{
}

/// The same digital press or release arriving twice in a row produces no
/// event the second time.
pub proof fn lemma_repeated_digital_is_silent(
    pad: PadModel,
    label: Seq<char>,
    again: Seq<char>,
    code: ButtonCode,
    pressed: bool,
)
    requires
        pad.wf(),
    ensures
        digital_button(digital_button(pad, label, code, pressed).pad, again, code, pressed).events.len() == 0,
{
    let once = digital_button(pad, label, code, pressed).pad;
    assert(once.button(code) == pressed);
}

/// A digital press or release of a button stored in the opposite state
/// produces exactly one event.
pub proof fn lemma_digital_transition_emits_once(pad: PadModel, label: Seq<char>, code: ButtonCode, pressed: bool)
    requires
        pad.wf(),
        pad.button(code) != pressed,
    ensures
        digital_button(pad, label, code, pressed).events.len() == 1,
        is_button_event(digital_button(pad, label, code, pressed).events[0], code),
{
}

/// Whatever the input event, the state stays well-formed.
pub proof fn lemma_react_keeps_wf(pad: PadModel, label: Seq<char>, input: InputEvent, cfg: Config, now: u64)
    requires
        pad.wf(),
    ensures
        react(pad, label, input, cfg, now).pad.wf(),
{
}

/// A trigger reading whose button crosses the threshold sends the `Button`
/// event alone: no `Axis` event goes out for that reading, and the record of
/// the latest send is left alone.
pub proof fn lemma_trigger_edge_supersedes_axis(
    pad: PadModel,
    label: Seq<char>,
    axis: AxisName,
    raw: i32,
    cfg: Config,
    now: u64,
)
    requires
        pad.wf(),
        axis.is_trigger(),
        pad.button(trigger_button_of(axis)) != (trigger_value(raw as int) > cfg.trigger_threshold),
    ensures
        ({
            let r = named_axis_change(pad, label, axis, raw, cfg, now);
            &&& r.events.len() == 1
            &&& r.events[0] == PadEvent::Button {
                button: trigger_button_of(axis),
                pressed: trigger_value(raw as int) > cfg.trigger_threshold,
                travel: Some(trigger_value(raw as int) as i32),
            }
            &&& r.pad.sent == pad.sent
        }),
{
}

/// Input that maps to nothing is dropped: a button outside the layout, an
/// axis without a name and any other event change nothing and send nothing.
pub proof fn lemma_unmapped_input_is_dropped(pad: PadModel, label: Seq<char>, input: InputEvent, cfg: Config, now: u64)
    requires
        match input {
            InputEvent::ButtonPressed(btn) => mapped_button(btn) is None,
            InputEvent::ButtonReleased(btn) => mapped_button(btn) is None,
            InputEvent::ButtonChanged(btn, _) => mapped_button(btn) is None,
            InputEvent::AxisChanged(axis, _) => axis == PadAxis::Unknown,
            InputEvent::Other => true,
            _ => false,
        },
    ensures
        react(pad, label, input, cfg, now).pad == pad,
        react(pad, label, input, cfg, now).events.len() == 0,
{
}

/// Only connect and disconnect events change whether a device counts as
/// connected.
pub proof fn lemma_connectivity_follows_connect_events(
    pad: PadModel,
    label: Seq<char>,
    input: InputEvent,
    cfg: Config,
    now: u64,
)
    ensures
        react(pad, label, input, cfg, now).pad.connected == (match input {
            InputEvent::Connected => true,
            InputEvent::Disconnected => false,
            _ => pad.connected,
        }),
{
}

/// An input event sends at most two events, and two only for the
/// directional pad.
pub proof fn lemma_at_most_two_events(pad: PadModel, label: Seq<char>, input: InputEvent, cfg: Config, now: u64)
    ensures
        react(pad, label, input, cfg, now).events.len() <= 2,
        react(pad, label, input, cfg, now).events.len() == 2 ==> (input matches InputEvent::AxisChanged(axis, _)
            && (axis == PadAxis::DPadX || axis == PadAxis::DPadY)),
{
}

} // verus!
