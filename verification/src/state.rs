//! Per-device state: button and axis values and the record of what was last
//! sent for each axis.

use vstd::prelude::*;
use crate::axes::{AxisName, AXIS_COUNT};
use crate::buttons::{ButtonCode, BUTTON_COUNT};
use crate::config::Config;
use crate::units::{magnitude, UNIT};

verus! {

/// The value and the time of the latest send of one axis.
#[derive(Copy, Clone, Debug, PartialEq, Eq)]
pub struct AxisSent {
    pub value: i32,
    pub time: u64,
}

/// The state of one input device. Every button and every axis has an entry at
/// all times.
#[derive(Clone, Debug)]
pub struct GamepadState {
    pub device_name: String,
    pub connected: bool,
    pub buttons: [bool; BUTTON_COUNT],
    pub axes: [i32; AXIS_COUNT],
    pub last_axis_sent: [Option<AxisSent>; AXIS_COUNT],
}

/// The mathematical content of a `GamepadState`.
pub struct PadModel {
    pub name: Seq<char>,
    pub connected: bool,
    pub buttons: Seq<bool>,
    pub axes: Seq<i32>,
    pub sent: Seq<Option<AxisSent>>,
}

/// Time that has passed from `earlier` to `now`; nothing if `earlier` is the
/// later of the two.
pub open spec fn elapsed(earlier: u64, now: u64) -> int {
    if now >= earlier {
        now - earlier
    } else {
        0
    }
}

/// Whether an axis value may be sent, given the latest send of that axis: yes
/// if there was none, if the value moved by at least the epsilon, or if at
/// least the minimum interval has passed.
pub open spec fn debounce_passes(prev: Option<AxisSent>, value: i32, now: u64, cfg: Config) -> bool {
    match prev {
        None => true,
        Some(p) => magnitude(value - p.value) >= cfg.axis_epsilon || elapsed(p.time, now)
            >= cfg.axis_min_interval,
    }
}

impl PadModel {
    /// A device that was just seen for the first time: connected, nothing
    /// pressed, every axis centred, nothing sent yet.
    pub open spec fn fresh(name: Seq<char>) -> PadModel {
        PadModel {
            name,
            connected: true,
            buttons: Seq::new(BUTTON_COUNT as nat, |i: int| false),
            axes: Seq::new(AXIS_COUNT as nat, |i: int| 0i32),
            sent: Seq::new(AXIS_COUNT as nat, |i: int| None::<AxisSent>),
        }
    }

    /// Every button and axis has its entry, sticks lie within one whole either
    /// way and triggers between nothing and one whole.
    pub open spec fn wf(self) -> bool {
        &&& self.buttons.len() == BUTTON_COUNT
        &&& self.axes.len() == AXIS_COUNT
        &&& self.sent.len() == AXIS_COUNT
        &&& forall|i: int| 0 <= i < 4 ==> -UNIT <= #[trigger] self.axes[i] <= UNIT
        &&& forall|i: int| 4 <= i < 6 ==> 0 <= #[trigger] self.axes[i] <= UNIT
    }

    /// Whether a value is admissible for the given axis.
    pub open spec fn in_range(axis: AxisName, value: i32) -> bool {
        if axis.is_trigger() {
            0 <= value <= UNIT
        } else {
            -UNIT <= value <= UNIT
        }
    }

    /// Whether the button is held down.
    pub open spec fn button(self, code: ButtonCode) -> bool {
        self.buttons[code.index()]
    }

    /// The value of the axis.
    pub open spec fn axis(self, axis: AxisName) -> i32 {
        self.axes[axis.index()]
    }

    /// The latest send of the axis, if it was ever sent.
    pub open spec fn last_sent(self, axis: AxisName) -> Option<AxisSent> {
        self.sent[axis.index()]
    }

    /// The state under another name.
    pub open spec fn with_name(self, name: Seq<char>) -> PadModel {
        PadModel { name, ..self }
    }

    /// The state with the connectivity flag set as given.
    pub open spec fn with_connected(self, connected: bool) -> PadModel {
        PadModel { connected, ..self }
    }

    /// The state with one button set as given.
    pub open spec fn with_button(self, code: ButtonCode, pressed: bool) -> PadModel {
        PadModel { buttons: self.buttons.update(code.index(), pressed), ..self }
    }

    /// The state with one axis set as given.
    pub open spec fn with_axis(self, axis: AxisName, value: i32) -> PadModel {
        PadModel { axes: self.axes.update(axis.index(), value), ..self }
    }

    /// The state with a send of one axis recorded.
    pub open spec fn with_sent(self, axis: AxisName, value: i32, now: u64) -> PadModel {
        PadModel {
            sent: self.sent.update(axis.index(), Some(AxisSent { value, time: now })),
            ..self
        }
    }

    /// Whether a value of the axis may be sent now.
    pub open spec fn may_send(self, axis: AxisName, value: i32, now: u64, cfg: Config) -> bool {
        debounce_passes(self.last_sent(axis), value, now, cfg)
    }

    /// The state after an attempt to send: the record of the axis is renewed
    /// exactly when the value was sent.
    pub open spec fn after_send(self, axis: AxisName, value: i32, now: u64, cfg: Config) -> PadModel {
        if self.may_send(axis, value, now, cfg) {
            self.with_sent(axis, value, now)
        } else {
            self
        }
    }
}

impl View for GamepadState {
    type V = PadModel;

    open spec fn view(&self) -> PadModel {
        PadModel {
            name: self.device_name@,
            connected: self.connected,
            buttons: self.buttons@,
            axes: self.axes@,
            sent: self.last_axis_sent@,
        }
    }
}

impl GamepadState {
    /// Well-formedness of the state, which every function here keeps.
    pub open spec fn wf(&self) -> bool {
        self@.wf()
    }

    /// Creates the state of a device seen for the first time.
    pub fn new(device_name: String) -> (r: GamepadState)
        ensures
            r@ == PadModel::fresh(device_name@),
            r.wf(),
    {
        let r = GamepadState {
            device_name,
            connected: true,
            buttons: [false;BUTTON_COUNT],
            axes: [0i32;AXIS_COUNT],
            last_axis_sent: [None;AXIS_COUNT],
        };
        assert(r@.buttons =~= PadModel::fresh(r@.name).buttons);
        assert(r@.axes =~= PadModel::fresh(r@.name).axes);
        assert(r@.sent =~= PadModel::fresh(r@.name).sent);
        r
    }

    /// Tells whether the state is well-formed.
    pub fn is_well_formed(&self) -> (r: bool)
        ensures
            r == self.wf(),
    {
        let mut k: usize = 0;
        while k < AXIS_COUNT
            invariant
                k <= AXIS_COUNT,
                forall|i: int| 0 <= i < k && i < 4 ==> -UNIT <= #[trigger] self@.axes[i] <= UNIT,
                forall|i: int| 4 <= i < k ==> 0 <= #[trigger] self@.axes[i] <= UNIT,
            decreases AXIS_COUNT - k,
        {
            let v: i32 = self.axes[k];
            let low: i32 = if k < 4 {
                -UNIT
            } else {
                0
            };
            if v < low || v > UNIT {
                return false;
            }
            k = k + 1;
        }
        true
    }

    /// Returns whether the button is held down.
    pub fn button(&self, code: ButtonCode) -> (r: bool)
        ensures
            r == self@.button(code),
    {
        self.buttons[code.code() as usize]
    }

    /// Returns the value of the axis.
    pub fn axis(&self, axis: AxisName) -> (r: i32)
        ensures
            r == self@.axis(axis),
    {
        self.axes[axis.slot()]
    }

    /// Returns the latest send of the axis, if it was ever sent.
    pub fn last_sent(&self, axis: AxisName) -> (r: Option<AxisSent>)
        ensures
            r == self@.last_sent(axis),
    {
        self.last_axis_sent[axis.slot()]
    }

    /// Stores the pressed state of a button and tells whether it differs from
    /// the stored one, that is whether the button made a transition.
    pub fn set_button(&mut self, code: ButtonCode, pressed: bool) -> (changed: bool)
        requires
            old(self).wf(),
        ensures
            final(self).wf(),
            changed == (old(self)@.button(code) != pressed),
            final(self)@ == old(self)@.with_button(code, pressed),
    {
        let slot: usize = code.code() as usize;
        let before = self.buttons[slot];
        self.buttons[slot] = pressed;
        before != pressed
    }

    /// Stores the value of an axis.
    pub fn set_axis(&mut self, axis: AxisName, value: i32)
        requires
            old(self).wf(),
            PadModel::in_range(axis, value),
        ensures
            final(self).wf(),
            final(self)@ == old(self)@.with_axis(axis, value),
    {
        let slot: usize = axis.slot();
        self.axes[slot] = value;
    }

    /// Decides whether an axis value is sent now and, if so, records the send.
    /// A value is held back only if the axis was sent before, the value moved
    /// by less than the epsilon since then, and less than the minimum interval
    /// has passed.
    pub fn should_send_axis(&mut self, axis: AxisName, value: i32, cfg: &Config, now: u64) -> (send:
        bool)
        requires
            old(self).wf(),
        ensures
            final(self).wf(),
            send == old(self)@.may_send(axis, value, now, *cfg),
            final(self)@ == old(self)@.after_send(axis, value, now, *cfg),
    {
        let slot: usize = axis.slot();
        match self.last_axis_sent[slot] {
            Some(prev) => {
                let delta: i64 = value as i64 - prev.value as i64;
                let moved: i64 = if delta < 0 {
                    -delta
                } else {
                    delta
                };
                let waited: u64 = if now >= prev.time {
                    now - prev.time
                } else {
                    0
                };
                if moved < cfg.axis_epsilon as i64 && waited < cfg.axis_min_interval {
                    return false;
                }
            },
            None => {},
        }
        self.last_axis_sent[slot] = Some(AxisSent { value, time: now });
        true
    }
}

/// Storing the same pressed state twice in a row reports no transition the
/// second time and leaves the state as the first store left it.
pub proof fn lemma_repeated_state_is_silent(pad: PadModel, code: ButtonCode, pressed: bool)
    requires
        pad.wf(),
    ensures
        pad.with_button(code, pressed).button(code) == pressed,
        pad.with_button(code, pressed).with_button(code, pressed) == pad.with_button(code, pressed),
{
    assert(pad.buttons.update(code.index(), pressed).update(code.index(), pressed)
        =~= pad.buttons.update(code.index(), pressed));
}

/// Storing a pressed state touches no other button.
pub proof fn lemma_other_buttons_untouched(
    pad: PadModel,
    code: ButtonCode,
    pressed: bool,
    other: ButtonCode,
)
    requires
        pad.wf(),
        other != code,
    ensures
        pad.with_button(code, pressed).button(other) == pad.button(other),
{
}

/// Once a value of an axis was sent, the same value is held back until the
/// minimum interval has passed, whoever asks: live input and the hold
/// repeater go by the same record. This needs an epsilon and an interval
/// above nothing.
pub proof fn lemma_resend_is_held_back(
    pad: PadModel,
    axis: AxisName,
    value: i32,
    cfg: Config,
    now: u64,
    later: u64,
)
    requires
        pad.wf(),
        pad.may_send(axis, value, now, cfg),
        cfg.axis_epsilon > 0,
        elapsed(now, later) < cfg.axis_min_interval,
    ensures
        !pad.after_send(axis, value, now, cfg).may_send(axis, value, later, cfg),
        pad.after_send(axis, value, now, cfg).after_send(axis, value, later, cfg) == pad.after_send(
            axis,
            value,
            now,
            cfg,
        ),
{
}

/// Every send renews the record of its axis with the value and the time of
/// the send, and a value that is held back leaves the record alone.
pub proof fn lemma_send_renews_record(pad: PadModel, axis: AxisName, value: i32, cfg: Config, now: u64)
    requires
        pad.wf(),
    ensures
        pad.may_send(axis, value, now, cfg) ==> pad.after_send(axis, value, now, cfg).last_sent(axis) == Some(
            AxisSent { value, time: now },
        ),
        !pad.may_send(axis, value, now, cfg) ==> pad.after_send(axis, value, now, cfg) == pad,
        pad.last_sent(axis) is None ==> pad.may_send(axis, value, now, cfg),
{
}

} // verus!
