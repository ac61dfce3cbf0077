//! The registry of devices: one state per device identifier, kept in the
//! order in which the devices were first seen and never removed.

use vstd::prelude::*;
use crate::axes::{AxisName, AXIS_COUNT};
use crate::buttons::BUTTON_COUNT;
use crate::config::Config;
use crate::event::{broadcast_models, labelled, Broadcast, BroadcastModel, InputEvent, PadEvent};
use crate::normalizer::{react, Reaction};
use crate::state::{GamepadState, PadModel};

verus! {

/// One registered device.
#[derive(Clone, Debug)]
pub struct DeviceEntry {
    pub id: u64,
    pub state: GamepadState,
}

/// All devices seen so far, connected or not.
#[derive(Clone, Debug)]
pub struct DeviceRegistry {
    pub entries: Vec<DeviceEntry>,
}

/// The mathematical content of a registry: identifiers and states, position
/// by position, in order of first appearance.
pub struct RegistryModel {
    pub ids: Seq<u64>,
    pub pads: Seq<PadModel>,
}

/// The label, buttons and axes of one device at one moment.
#[derive(Clone, Debug, PartialEq, Eq)]
pub struct PadSnapshot {
    pub device: String,
    pub buttons: [bool; BUTTON_COUNT],
    pub axes: [i32; AXIS_COUNT],
}

/// The mathematical content of a `PadSnapshot`.
pub struct SnapshotModel {
    pub device: Seq<char>,
    pub buttons: Seq<bool>,
    pub axes: Seq<i32>,
}

impl View for PadSnapshot {
    type V = SnapshotModel;

    open spec fn view(&self) -> SnapshotModel {
        SnapshotModel { device: self.device@, buttons: self.buttons@, axes: self.axes@ }
    }
}

/// What a snapshot shows of a device's state.
pub open spec fn snapshot_of(pad: PadModel) -> SnapshotModel {
    SnapshotModel { device: pad.name, buttons: pad.buttons, axes: pad.axes }
}

impl RegistryModel {
    /// Every identifier has its state, no identifier occurs twice, and every
    /// state is well-formed.
    pub open spec fn wf(self) -> bool {
        &&& self.ids.len() == self.pads.len()
        &&& forall|i: int, j: int|
            0 <= i < j < self.ids.len() ==> self.ids[i] != self.ids[j]
        &&& forall|i: int| 0 <= i < self.pads.len() ==> (#[trigger] self.pads[i]).wf()
    }

    /// Whether the device is registered.
    pub open spec fn has(self, id: u64) -> bool {
        exists|i: int| 0 <= i < self.ids.len() && self.ids[i] == id
    }

    /// The position of a registered device.
    pub open spec fn slot(self, id: u64) -> int {
        choose|i: int| 0 <= i < self.ids.len() && self.ids[i] == id
    }

    /// The state of a registered device.
    pub open spec fn pad(self, id: u64) -> PadModel {
        self.pads[self.slot(id)]
    }

    /// The registry with the device registered: unchanged if it was already,
    /// else with a fresh state under `label` added at the end.
    pub open spec fn ensured(self, id: u64, label: Seq<char>) -> RegistryModel {
        if self.has(id) {
            self
        } else {
            RegistryModel { ids: self.ids.push(id), pads: self.pads.push(PadModel::fresh(label)) }
        }
    }

    /// The registry with the state of a registered device replaced.
    pub open spec fn with_pad(self, id: u64, pad: PadModel) -> RegistryModel {
        RegistryModel { ids: self.ids, pads: self.pads.update(self.slot(id), pad) }
    }

    /// The state that an event of a device finds: the device's own if it is
    /// registered, else a fresh one under `label`.
    pub open spec fn found(self, id: u64, label: Seq<char>) -> PadModel {
        if self.has(id) {
            self.pad(id)
        } else {
            PadModel::fresh(label)
        }
    }

    /// What an input event of a device does to the state it finds.
    pub open spec fn reaction(self, id: u64, label: Seq<char>, input: InputEvent, cfg: Config, now: u64) -> Reaction {
        react(self.found(id, label), label, input, cfg, now)
    }

    /// The registry after an input event of a device.
    pub open spec fn applied(self, id: u64, label: Seq<char>, input: InputEvent, cfg: Config, now: u64) -> RegistryModel {
        self.ensured(id, label).with_pad(id, self.reaction(id, label, input, cfg, now).pad)
    }

    /// A registered device sits at one position only.
    pub proof fn lemma_slot_unique(self, id: u64, i: int)
        requires
            self.wf(),
            0 <= i < self.ids.len(),
            self.ids[i] == id,
        ensures
            self.has(id),
            self.slot(id) == i,
    {
        let s = self.slot(id);
        assert(0 <= s < self.ids.len() && self.ids[s] == id);
        if s < i {
            assert(self.ids[s] != self.ids[i]);
        } else if i < s {
            assert(self.ids[i] != self.ids[s]);
        }
    }

    /// Registering a device keeps every device that was registered, at its
    /// position and with its state, and the registry stays well-formed.
    pub proof fn lemma_ensured_keeps_devices(self, id: u64, label: Seq<char>, other: u64)
        requires
            self.wf(),
            self.has(other),
        ensures
            self.ensured(id, label).wf(),
            self.ensured(id, label).has(id),
            self.ensured(id, label).pad(id) == self.found(id, label),
            self.ensured(id, label).has(other),
            self.ensured(id, label).slot(other) == self.slot(other),
            self.ensured(id, label).pad(other) == self.pad(other),
    {
        let after = self.ensured(id, label);
        let i = self.slot(other);
        if !self.has(id) {
            assert(after.ids[self.ids.len() as int] == id);
            after.lemma_slot_unique(id, self.ids.len() as int);
            assert forall|a: int, b: int| 0 <= a < b < after.ids.len() implies after.ids[a] != after.ids[b] by {
                if b == self.ids.len() {
                    assert(after.ids[a] == self.ids[a]);
                }
            }
            assert forall|a: int| 0 <= a < after.pads.len() implies (#[trigger] after.pads[a]).wf() by {
                if a < self.pads.len() {
                    assert(after.pads[a] == self.pads[a]);
                }
            }
        }
        assert(after.ids[i] == other);
        after.lemma_slot_unique(other, i);
    }

    /// No input event removes a device: whoever was registered before an
    /// event is registered after it, and the device of the event is too.
    pub proof fn lemma_devices_are_never_removed(
        self,
        id: u64,
        label: Seq<char>,
        input: InputEvent,
        cfg: Config,
        now: u64,
        other: u64,
    )
        requires
            self.wf(),
            self.has(other),
        ensures
            self.applied(id, label, input, cfg, now).has(other),
            self.applied(id, label, input, cfg, now).has(id),
            self.applied(id, label, input, cfg, now).ids.len() >= self.ids.len(),
    {
        self.lemma_ensured_keeps_devices(id, label, other);
        let mid = self.ensured(id, label);
        let after = self.applied(id, label, input, cfg, now);
        assert(after.ids == mid.ids);
        assert(after.ids[mid.slot(other)] == other);
        assert(after.ids[mid.slot(id)] == id);
    }

    /// An input event of one device leaves the state of every other device
    /// as it was.
    pub proof fn lemma_other_devices_untouched(
        self,
        id: u64,
        label: Seq<char>,
        input: InputEvent,
        cfg: Config,
        now: u64,
        other: u64,
    )
        requires
            self.wf(),
            self.has(other),
            other != id,
        ensures
            self.applied(id, label, input, cfg, now).pad(other) == self.pad(other),
    {
        self.lemma_ensured_keeps_devices(id, label, other);
        let mid = self.ensured(id, label);
        let after = self.applied(id, label, input, cfg, now);
        let i = mid.slot(other);
        let j = mid.slot(id);
        assert(mid.ids[i] == other && mid.ids[j] == id);
        assert(i != j);
        assert(after.ids == mid.ids);
        assert(after.ids[i] == other);
        assert(0 <= j < mid.pads.len());
        assert(after.pads.len() == mid.pads.len());
        assert(after.ids.len() == after.pads.len());
        assert forall|a: int, b: int| 0 <= a < b < after.ids.len() implies after.ids[a] != after.ids[b] by {
            assert(mid.ids[a] != mid.ids[b]);
        }
        let s = after.slot(other);
        assert(0 <= s < after.ids.len() && after.ids[s] == other);
        if s < i {
            assert(after.ids[s] != after.ids[i]);
        } else if i < s {
            assert(after.ids[i] != after.ids[s]);
        }
        assert(after.pads[i] == mid.pads[i]);
    }

    /// What a snapshot of the registry shows: every device, in order.
    pub open spec fn snapshot(self) -> Seq<SnapshotModel> {
        Seq::new(self.pads.len(), |i: int| snapshot_of(self.pads[i]))
    }
}

impl View for DeviceRegistry {
    type V = RegistryModel;

    open spec fn view(&self) -> RegistryModel {
        RegistryModel {
            ids: Seq::new(self.entries@.len(), |i: int| self.entries@[i].id),
            pads: Seq::new(self.entries@.len(), |i: int| self.entries@[i].state@),
        }
    }
}

/// The contents of a list of snapshots.
pub open spec fn snapshot_models(list: Seq<PadSnapshot>) -> Seq<SnapshotModel> {
    Seq::new(list.len(), |i: int| list[i]@)
}

/// Puts each event under the device's label.
pub fn label_events(label: &str, events: &Vec<PadEvent>) -> (out: Vec<Broadcast>)
    ensures
        broadcast_models(out@) == labelled(label@, events@),
        out@.len() == events@.len(),
        forall|i: int|
            0 <= i < out@.len() ==> (#[trigger] out@[i])@ == (BroadcastModel { device: label@, event: events@[i] }),
{
    let mut out: Vec<Broadcast> = Vec::new();
    let mut k: usize = 0;
    while k < events.len()
        invariant
            k <= events.len(),
            out@.len() == k,
            forall|j: int| 0 <= j < k ==> (#[trigger] out@[j])@ == (BroadcastModel { device: label@, event: events@[j] }),
        decreases events.len() - k,
    {
        out.push(Broadcast { device: String::from_str(label), event: events[k] });
        k = k + 1;
    }
    out
}

impl DeviceRegistry {
    /// Well-formedness: no identifier occurs twice and every state is
    /// well-formed.
    pub open spec fn wf(&self) -> bool {
        self@.wf()
    }

    /// Creates a registry without devices.
    pub fn new() -> (r: DeviceRegistry)
        ensures
            r.wf(),
            r@.ids.len() == 0,
            forall|id: u64| !r@.has(id),
    {
        DeviceRegistry { entries: Vec::new() }
    }

    /// Tells whether the registry is well-formed.
    pub fn is_well_formed(&self) -> (r: bool)
        ensures
            r == self.wf(),
    {
        let n: usize = self.entries.len();
        let mut j: usize = 0;
        while j < n
            invariant
                n == self.entries@.len(),
                j <= n,
                forall|a: int, b: int| 0 <= a < b < j ==> self@.ids[a] != self@.ids[b],
                forall|a: int| 0 <= a < j ==> (#[trigger] self@.pads[a]).wf(),
            decreases n - j,
        {
            if !self.entries[j].state.is_well_formed() {
                assert(!self@.pads[j as int].wf());
                return false;
            }
            let mut i: usize = 0;
            while i < j
                invariant
                    n == self.entries@.len(),
                    i <= j < n,
                    forall|a: int| 0 <= a < i ==> self@.ids[a] != self@.ids[j as int],
                decreases j - i,
            {
                if self.entries[i].id == self.entries[j].id {
                    assert(self@.ids[i as int] == self@.ids[j as int]);
                    return false;
                }
                i = i + 1;
            }
            j = j + 1;
        }
        true
    }

    /// Returns the number of registered devices.
    pub fn len(&self) -> (n: usize)
        ensures
            n == self@.ids.len(),
    {
        self.entries.len()
    }

    /// Returns the position of a device, if it is registered.
    pub fn find(&self, id: u64) -> (r: Option<usize>)
        requires
            self.wf(),
        ensures
            r is Some <==> self@.has(id),
            r matches Some(i) ==> i as int == self@.slot(id) && i < self@.ids.len(),
    {
        let mut k: usize = 0;
        while k < self.entries.len()
            invariant
                self.wf(),
                k <= self.entries.len(),
                forall|j: int| 0 <= j < k ==> self@.ids[j] != id,
            decreases self.entries.len() - k,
        {
            if self.entries[k].id == id {
                proof {
                    self@.lemma_slot_unique(id, k as int);
                }
                return Some(k);
            }
            k = k + 1;
        }
        None
    }

    /// Returns the state of a device, if it is registered.
    pub fn get(&self, id: u64) -> (r: Option<&GamepadState>)
        requires
            self.wf(),
        ensures
            r is Some <==> self@.has(id),
            r matches Some(st) ==> st@ == self@.pad(id) && st.wf(),
    {
        match self.find(id) {
            Some(i) => {
                assert(self@.pads[i as int].wf());
                Some(&self.entries[i].state)
            },
            None => None,
        }
    }

    /// Returns the position of a device's state, registering the device under
    /// `default_label` first if it was not registered yet.
    pub fn get_or_create(&mut self, id: u64, default_label: &str) -> (i: usize)
        requires
            old(self).wf(),
        ensures
            final(self).wf(),
            final(self)@ == old(self)@.ensured(id, default_label@),
            final(self)@.has(id),
            final(self)@.pad(id) == old(self)@.found(id, default_label@),
            i as int == final(self)@.slot(id),
            i < final(self)@.ids.len(),
    {
        match self.find(id) {
            Some(i) => i,
            None => {
                let i: usize = self.entries.len();
                self.entries.push(DeviceEntry { id, state: GamepadState::new(String::from_str(default_label)) });
                assert(self@.ids =~= old(self)@.ids.push(id));
                assert(self@.pads =~= old(self)@.pads.push(PadModel::fresh(default_label@)));
                proof {
                    self@.lemma_slot_unique(id, i as int);
                }
                i
            },
        }
    }

    /// Registers a device that was found connected at startup. If it was not
    /// registered yet, it gets a fresh state and a `Connected` event goes out;
    /// otherwise nothing happens.
    pub fn register_startup(&mut self, id: u64, name: &str) -> (r: Option<Broadcast>)
        requires
            old(self).wf(),
        ensures
            final(self).wf(),
            final(self)@ == old(self)@.ensured(id, name@),
            final(self)@.has(id),
            final(self)@.pad(id) == old(self)@.found(id, name@),
            r is Some <==> !old(self)@.has(id),
            r matches Some(b) ==> b@ == (BroadcastModel { device: name@, event: PadEvent::Connected }),
    {
        match self.find(id) {
            Some(i) => {
                assert(self@.pad(id) == self@.pads[i as int]);
                None
            },
            None => {
                let _ = self.get_or_create(id, name);
                Some(Broadcast { device: String::from_str(name), event: PadEvent::Connected })
            },
        }
    }

    /// Takes a snapshot of every device, connected or not, in order.
    pub fn snapshot(&self) -> (r: Vec<PadSnapshot>)
        ensures
            snapshot_models(r@) == self@.snapshot(),
            r@.len() == self@.pads.len(),
            forall|i: int| 0 <= i < r@.len() ==> (#[trigger] r@[i])@ == snapshot_of(self@.pads[i]),
    {
        let mut out: Vec<PadSnapshot> = Vec::new();
        let mut k: usize = 0;
        while k < self.entries.len()
            invariant
                k <= self.entries.len(),
                out@.len() == k,
                forall|j: int| 0 <= j < k ==> (#[trigger] out@[j])@ == snapshot_of(self@.pads[j]),
            decreases self.entries.len() - k,
        {
            let st = &self.entries[k].state;
            out.push(PadSnapshot { device: st.device_name.clone(), buttons: st.buttons, axes: st.axes });
            k = k + 1;
        }
        out
    }

    /// Applies one input event of a device that is known under `label` at the
    /// time of the event. The device is registered first if this is its first
    /// event. Returns the events to broadcast, in order, each under `label`.
    pub fn apply_event(&mut self, id: u64, label: &str, input: InputEvent, cfg: &Config, now: u64) -> (out: Vec<Broadcast>)
        requires
            old(self).wf(),
        ensures
            final(self).wf(),
            final(self)@ == old(self)@.applied(id, label@, input, *cfg, now),
            final(self)@.has(id),
            final(self)@.pad(id) == old(self)@.reaction(id, label@, input, *cfg, now).pad,
            broadcast_models(out@) == labelled(label@, old(self)@.reaction(id, label@, input, *cfg, now).events),
            out@.len() == old(self)@.reaction(id, label@, input, *cfg, now).events.len(),
            forall|i: int|
                0 <= i < out@.len() ==> (#[trigger] out@[i])@ == (BroadcastModel {
                    device: label@,
                    event: old(self)@.reaction(id, label@, input, *cfg, now).events[i],
                }),
    {
        let i: usize = self.get_or_create(id, label);
        let ghost mid = self@;
        assert(mid.pads[i as int].wf());
        let events = self.entries[i].state.apply(label, input, cfg, now);
        proof {
            let after = react(mid.pad(id), label@, input, *cfg, now).pad;
            assert(self@.ids =~= mid.ids);
            assert(self@.pads =~= mid.pads.update(i as int, after));
            self@.lemma_slot_unique(id, i as int);
        }
        label_events(label, &events)
    }
}

} // verus!
