//! The hold repeater: on every tick, sticks that are held away from the
//! centre are sent again, under the same debounce rule as live input.

use vstd::prelude::*;
use crate::axes::AxisName;
use crate::config::Config;
use crate::event::{broadcast_models, labelled, Broadcast, BroadcastModel, PadEvent};
use crate::normalizer::Reaction;
use crate::registry::DeviceRegistry;
use crate::state::{GamepadState, PadModel};
use crate::units::magnitude;

verus! {

/// The repeat of one stick axis: a stick inside the deadzone is skipped; any
/// other is sent again, and the send recorded, if the debounce rule lets its
/// current value pass.
pub open spec fn repeat_axis(pad: PadModel, axis: AxisName, cfg: Config, now: u64) -> Reaction {
    let value = pad.axis(axis);
    if magnitude(value as int) >= cfg.deadzone && pad.may_send(axis, value, now, cfg) {
        Reaction { pad: pad.with_sent(axis, value, now), events: seq![PadEvent::Axis { axis, value }] }
    } else {
        Reaction { pad, events: Seq::empty() }
    }
}

/// The repeat of one device: nothing for a disconnected device, else the
/// repeats of the four stick axes, in the order left x, left y, right x,
/// right y.
pub open spec fn repeat_pad(pad: PadModel, cfg: Config, now: u64) -> Reaction {
    if !pad.connected {
        Reaction { pad, events: Seq::empty() }
    } else {
        let a = repeat_axis(pad, AxisName::LeftX, cfg, now);
        let b = repeat_axis(a.pad, AxisName::LeftY, cfg, now);
        let c = repeat_axis(b.pad, AxisName::RightX, cfg, now);
        let d = repeat_axis(c.pad, AxisName::RightY, cfg, now);
        Reaction { pad: d.pad, events: a.events + b.events + c.events + d.events }
    }
}

/// The states of all devices after one tick.
pub open spec fn repeated_pads(pads: Seq<PadModel>, cfg: Config, now: u64) -> Seq<PadModel> {
    Seq::new(pads.len(), |i: int| repeat_pad(pads[i], cfg, now).pad)
}

/// The events of one tick for the first `n` devices: those of each device
/// under its label, device after device.
pub open spec fn repeated_events(pads: Seq<PadModel>, cfg: Config, now: u64, n: nat) -> Seq<BroadcastModel>
    decreases n,
{
    if n == 0 {
        Seq::empty()
    } else {
        let pad = pads[n - 1];
        repeated_events(pads, cfg, now, (n - 1) as nat) + labelled(pad.name, repeat_pad(pad, cfg, now).events)
    }
}

impl GamepadState {
    /// Repeats one stick axis if it is held away from the centre and the
    /// debounce rule allows it, appending the event to `out`.
    pub fn repeat_stick(&mut self, axis: AxisName, cfg: &Config, now: u64, out: &mut Vec<PadEvent>)
        requires
            old(self).wf(),
        ensures
            final(self).wf(),
            final(self)@ == repeat_axis(old(self)@, axis, *cfg, now).pad,
            final(out)@ == old(out)@ + repeat_axis(old(self)@, axis, *cfg, now).events,
    {
        let value: i32 = self.axis(axis);
        let wide: i64 = value as i64;
        let size: i64 = if wide < 0 {
            -wide
        } else {
            wide
        };
        if size < cfg.deadzone as i64 {
            return ;
        }
        if self.should_send_axis(axis, value, cfg, now) {
            out.push(PadEvent::Axis { axis, value });
        } else {
        }
    }

    /// Repeats the held sticks of this device and returns the events to send.
    pub fn hold_repeat(&mut self, cfg: &Config, now: u64) -> (events: Vec<PadEvent>)
        requires
            old(self).wf(),
        ensures
            final(self).wf(),
            final(self)@ == repeat_pad(old(self)@, *cfg, now).pad,
            events@ == repeat_pad(old(self)@, *cfg, now).events,
    {
        let mut out: Vec<PadEvent> = Vec::new();
        if self.connected {
            self.repeat_stick(AxisName::LeftX, cfg, now, &mut out);
            self.repeat_stick(AxisName::LeftY, cfg, now, &mut out);
            self.repeat_stick(AxisName::RightX, cfg, now, &mut out);
            self.repeat_stick(AxisName::RightY, cfg, now, &mut out);
        }
        out
    }
}

impl DeviceRegistry {
    /// Runs one tick of the hold repeater over every device, in order, and
    /// returns the events to broadcast, each under the label of its device.
    pub fn hold_repeat(&mut self, cfg: &Config, now: u64) -> (out: Vec<Broadcast>)
        requires
            old(self).wf(),
        ensures
            final(self).wf(),
            final(self)@.ids == old(self)@.ids,
            final(self)@.pads == repeated_pads(old(self)@.pads, *cfg, now),
            broadcast_models(out@) == repeated_events(
                old(self)@.pads,
                *cfg,
                now,
                old(self)@.pads.len(),
            ),
            out@.len() == repeated_events(old(self)@.pads, *cfg, now, old(self)@.pads.len()).len(),
    {
        let mut out: Vec<Broadcast> = Vec::new();
        let mut k: usize = 0;
        while k < self.entries.len()
            invariant
                k <= self.entries.len(),
                self.entries@.len() == old(self).entries@.len(),
                self@.ids == old(self)@.ids,
                self@.ids.len() == self@.pads.len(),
                forall|j: int| 0 <= j < k ==> self@.pads[j] == repeat_pad(old(self)@.pads[j], *cfg, now).pad,
                forall|j: int| k <= j < self.entries@.len() ==> self@.pads[j] == old(self)@.pads[j],
                forall|j: int| 0 <= j < self.entries@.len() ==> (#[trigger] self@.pads[j]).wf(),
                broadcast_models(out@) == repeated_events(old(self)@.pads, *cfg, now, k as nat),
            decreases self.entries.len() - k,
        {
            let ghost before = self@;
            let ghost sent = broadcast_models(out@);
            assert(before.pads[k as int].wf());
            let events = self.entries[k].state.hold_repeat(cfg, now);
            let name = self.entries[k].state.device_name.clone();
            let ghost pad = old(self)@.pads[k as int];
            assert(self@.pads =~= before.pads.update(k as int, repeat_pad(pad, *cfg, now).pad));
            let mut j: usize = 0;
            while j < events.len()
                invariant
                    j <= events.len(),
                    name@ == pad.name,
                    events@ == repeat_pad(pad, *cfg, now).events,
                    broadcast_models(out@) == sent + labelled(pad.name, events@.take(j as int)),
                decreases events.len() - j,
            {
                let ghost prior = out@;
                out.push(Broadcast { device: name.clone(), event: events[j] });
                assert(broadcast_models(out@) =~= broadcast_models(prior).push(
                    BroadcastModel { device: pad.name, event: events@[j as int] },
                ));
                j = j + 1;
            }
            k = k + 1;
        }
        out
    }
}

/// A tick changes nothing of a device but the records of what was sent:
/// name, connectivity, buttons and axes stay as they are.
pub proof fn lemma_repeat_touches_records_only(pad: PadModel, cfg: Config, now: u64)
    requires
        pad.wf(),
    ensures
        repeat_pad(pad, cfg, now).pad.wf(),
        repeat_pad(pad, cfg, now).pad.name == pad.name,
        repeat_pad(pad, cfg, now).pad.connected == pad.connected,
        repeat_pad(pad, cfg, now).pad.buttons == pad.buttons,
        repeat_pad(pad, cfg, now).pad.axes == pad.axes,
{
}

/// A disconnected device is passed over: nothing is sent and nothing
/// recorded.
pub proof fn lemma_disconnected_is_not_repeated(pad: PadModel, cfg: Config, now: u64)
    requires
        !pad.connected,
    ensures
        repeat_pad(pad, cfg, now).events.len() == 0,
        repeat_pad(pad, cfg, now).pad == pad,
{
}

/// A stick inside the deadzone is not repeated, and neither is any trigger:
/// every event of a tick is an `Axis` event of a stick axis that carries the
/// stored value, whose magnitude is at least the deadzone.
pub proof fn lemma_only_held_sticks_are_repeated(pad: PadModel, cfg: Config, now: u64, k: int)
    requires
        pad.wf(),
        0 <= k < repeat_pad(pad, cfg, now).events.len(),
    ensures
        repeat_pad(pad, cfg, now).events[k] matches PadEvent::Axis { axis, value } && !axis.is_trigger() && value
            == pad.axis(axis) && magnitude(value as int) >= cfg.deadzone,
{
}

} // verus!
