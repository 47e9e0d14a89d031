use std::marker::PhantomData;
use vstd::prelude::*;

use crate::device::{device_node, hidg_path};
use crate::error::GadgetError;
use crate::gamepad::{HIDGamepad, PadInput, ReportDescriptorView};
use crate::plan::{
    activation_action, creation_actions, creation_len, creation_plan, function_name,
    function_name_string, gadget_root, lemma_creation_plan_reads, lemma_creation_plan_shape,
    lemma_teardown_plan_len, lemma_views_push, reads_before, root_path, teardown_actions,
    teardown_len, teardown_plan, views, FsOp, FsOpView, Outcome, OutcomeView,
};

verus! {

/// Where a gadget stands in its life.
#[derive(Clone, Copy, Debug, PartialEq, Eq, Structural)]
pub enum GadgetState {
    /// Nothing has been asked of the file system yet.
    Uninitialized,
    /// The gadget is being laid out, action by action.
    Creating,
    /// The gadget is bound to a controller and its devices can be taken.
    Active,
    /// The gadget is being taken apart, action by action.
    Destroying,
    /// Every teardown action has been attempted.
    Destroyed,
}

/// Whether a device of the pool is free or in someone's hands.
#[derive(Clone, Copy, Debug, PartialEq, Eq, Structural)]
pub enum SlotState {
    Available,
    Taken,
}

/// One function of the gadget as plain values: its name, its device node
/// and whether it is taken.
pub struct SlotView {
    pub name: Seq<char>,
    pub node: Seq<char>,
    pub taken: bool,
}

/// A gadget as plain values.
pub struct GadgetView {
    /// Where the gadget stands in its life.
    pub state: GadgetState,
    /// The number of functions that were asked for.
    pub count: nat,
    /// The number of creation actions that were carried out.
    pub built: nat,
    /// The number of teardown actions that were attempted.
    pub removed: nat,
    /// The controller that was found, once it was.
    pub controller: Option<Seq<u8>>,
    /// The functions whose device node is known, in the order of creation.
    pub slots: Seq<SlotView>,
    /// The first error that was met.
    pub error: Option<GadgetError>,
}

/// The creation action that made what the teardown action number `t` of
/// a gadget of `count` functions works on. Unbinding works on the gadget's
/// directory, which holds the binding attribute from the moment it exists.
pub open spec fn maker(count: nat, t: nat) -> nat {
    if t == 0 {
        0
    } else if t <= 2 * count {
        if (t - 1) % 2 == 0 {
            (13 + 7 * ((t - 1) / 2) + 5) as nat
        } else {
            (13 + 7 * ((t - 1) / 2)) as nat
        }
    } else if t == 2 * count + 1 {
        11
    } else if t == 2 * count + 2 {
        9
    } else if t == 2 * count + 3 {
        5
    } else {
        0
    }
}

/// Whether any device of `slots` is taken.
pub open spec fn any_taken(slots: Seq<SlotView>) -> bool {
    exists|i: int| 0 <= i < slots.len() && #[trigger] slots[i].taken
}

/// `first` if it holds an error, else `second`.
pub open spec fn first_error(first: Option<GadgetError>, second: Option<GadgetError>) -> Option<
    GadgetError,
> {
    if first is Some {
        first
    } else {
        second
    }
}

impl GadgetView {
    /// The gadget before anything was asked of the file system.
    pub open spec fn fresh(count: nat) -> GadgetView {
        GadgetView {
            state: GadgetState::Uninitialized,
            count,
            built: 0,
            removed: 0,
            controller: None,
            slots: Seq::empty(),
            error: None,
        }
    }

    /// The creation actions of this gadget, as far as they are known.
    pub open spec fn creation(self, profile: ReportDescriptorView) -> Seq<FsOpView> {
        creation_plan(profile, self.count, self.controller)
    }

    /// The action that the gadget waits for, if it waits for one.
    pub open spec fn pending(self, profile: ReportDescriptorView) -> Option<FsOpView> {
        match self.state {
            GadgetState::Creating => Some(self.creation(profile)[self.built as int]),
            GadgetState::Destroying => Some(teardown_plan(self.count)[self.removed as int]),
            _ => None,
        }
    }

    /// What holds of every gadget, whatever was recorded for it.
    pub open spec fn wf(self, profile: ReportDescriptorView) -> bool {
        &&& self.slots.len() <= self.count
        &&& forall|i: int|
            0 <= i < self.slots.len() ==> (#[trigger] self.slots[i]).name == function_name(
                i as nat,
            )
        &&& self.built <= creation_len(self.count)
        &&& self.removed <= teardown_len(self.count)
        &&& self.controller is Some ==> self.built >= 14 + 7 * self.count
        &&& self.built >= 14 + 7 * self.count ==> self.slots.len() == self.count
        &&& match self.state {
            GadgetState::Uninitialized => self == GadgetView::fresh(self.count),
            GadgetState::Creating => {
                &&& self.built < self.creation(profile).len()
                &&& self.slots.len() == reads_before(self.creation(profile), self.built)
                &&& self.removed == 0
                &&& self.error is None
                &&& !any_taken(self.slots)
            },
            GadgetState::Active => {
                &&& self.built == creation_len(self.count)
                &&& self.controller is Some
                &&& self.removed == 0
                &&& self.error is None
            },
            GadgetState::Destroying => self.removed < teardown_len(self.count),
            GadgetState::Destroyed => self.removed == teardown_len(self.count),
        }
    }

    /// The gadget once creation has begun. Only a fresh gadget begins.
    pub open spec fn begun(self) -> GadgetView {
        if self.state == GadgetState::Uninitialized {
            GadgetView { state: GadgetState::Creating, ..self }
        } else {
            self
        }
    }

    /// The gadget once one more creation action is done.
    pub open spec fn advanced(self) -> GadgetView {
        GadgetView {
            built: self.built + 1,
            state: if self.built + 1 == creation_len(self.count) {
                GadgetState::Active
            } else {
                GadgetState::Creating
            },
            ..self
        }
    }

    /// The gadget once teardown is asked for. A gadget that is being made
    /// or is active starts to be taken apart; a device still taken then is
    /// an error, unless an earlier error stands. Any other gadget stays as
    /// it is.
    pub open spec fn doomed(self, cause: Option<GadgetError>) -> GadgetView {
        if self.state == GadgetState::Creating || self.state == GadgetState::Active {
            GadgetView {
                state: GadgetState::Destroying,
                error: first_error(
                    first_error(self.error, cause),
                    if any_taken(self.slots) {
                        Some(GadgetError::PoolConsistencyViolation)
                    } else {
                        None
                    },
                ),
                ..self
            }
        } else {
            self
        }
    }

    /// The error, if any, that `outcome` means for the pending teardown
    /// action. An entry that is missing is an error only where a creation
    /// action that was carried out had made it.
    pub open spec fn removal_fault(self, outcome: OutcomeView) -> Option<GadgetError> {
        match outcome {
            OutcomeView::Done => None,
            OutcomeView::Missing => if maker(self.count, self.removed) < self.built {
                Some(GadgetError::FilesystemIO)
            } else {
                None
            },
            _ => Some(GadgetError::FilesystemIO),
        }
    }

    /// The gadget once `outcome` is recorded for the pending action.
    ///
    /// While the gadget is made: a device number that was read adds a
    /// device to the pool, or ends creation where it names no HID gadget
    /// device; the controller that was found is kept, and its absence ends
    /// creation; any other action must be done. Whatever ends creation
    /// starts teardown. While the gadget is taken apart, every outcome
    /// leads to the next action, and only the first error is kept.
    pub open spec fn step(self, profile: ReportDescriptorView, outcome: OutcomeView) -> GadgetView {
        match self.state {
            GadgetState::Creating => {
                match (self.creation(profile)[self.built as int], outcome) {
                    (FsOpView::ReadDeviceNumber { .. }, OutcomeView::DeviceNumber(text)) => {
                        match device_node(text) {
                            Ok(node) => GadgetView {
                                slots: self.slots.push(
                                    SlotView {
                                        name: function_name(self.slots.len()),
                                        node,
                                        taken: false,
                                    },
                                ),
                                ..self
                            }.advanced(),
                            Err(e) => self.doomed(Some(e)),
                        }
                    },
                    (FsOpView::ReadDeviceNumber { .. }, _) => self.doomed(
                        Some(GadgetError::FilesystemIO),
                    ),
                    (FsOpView::FindController { .. }, OutcomeView::Controller(name)) => GadgetView {
                        controller: Some(name),
                        ..self
                    }.advanced(),
                    (FsOpView::FindController { .. }, OutcomeView::NoController) => self.doomed(
                        Some(GadgetError::NoHardwareController),
                    ),
                    (FsOpView::FindController { .. }, _) => self.doomed(
                        Some(GadgetError::FilesystemIO),
                    ),
                    (_, OutcomeView::Done) => self.advanced(),
                    (_, _) => self.doomed(Some(GadgetError::FilesystemIO)),
                }
            },
            GadgetState::Destroying => GadgetView {
                removed: self.removed + 1,
                error: first_error(self.error, self.removal_fault(outcome)),
                state: if self.removed + 1 == teardown_len(self.count) {
                    GadgetState::Destroyed
                } else {
                    GadgetState::Destroying
                },
                ..self
            },
            _ => self,
        }
    }
}

/// A claimed device as plain values: the place it was taken from, the
/// function's name, its device node, and the report buffer.
pub struct HandleView {
    pub index: nat,
    pub name: Seq<char>,
    pub node: Seq<char>,
    pub buffer: Seq<u8>,
}

impl HandleView {
    /// The same device with `bytes` in its buffer.
    pub open spec fn showing(self, bytes: Seq<u8>) -> HandleView {
        HandleView { buffer: bytes, ..self }
    }
}

/// Whether `index` is the first free place of `slots` at or after `from`.
pub open spec fn first_free_at(slots: Seq<SlotView>, from: nat, index: nat) -> bool {
    &&& from <= index < slots.len()
    &&& !slots[index as int].taken
    &&& forall|j: int| from <= j < index ==> (#[trigger] slots[j]).taken
}

/// Whether no place of `slots` at or after `from` is free.
pub open spec fn none_free(slots: Seq<SlotView>, from: nat) -> bool {
    forall|j: int| from <= j < slots.len() ==> (#[trigger] slots[j]).taken
}

/// The number of taken places among the first `n` of `slots`.
pub open spec fn taken_before(slots: Seq<SlotView>, n: nat) -> nat
    decreases n,
{
    if n == 0 {
        0
    } else {
        taken_before(slots, (n - 1) as nat) + if slots[n - 1].taken {
            1nat
        } else {
            0nat
        }
    }
}

/// The number of taken places of `slots`.
pub open spec fn taken_count(slots: Seq<SlotView>) -> nat {
    taken_before(slots, slots.len())
}

/// `slots` with the place `index` marked as taken or as free.
pub open spec fn with_slot(slots: Seq<SlotView>, index: nat, taken: bool) -> Seq<SlotView> {
    slots.update(index as int, SlotView { taken, ..slots[index as int] })
}

/// `size` bytes of zero.
pub open spec fn zeroes(size: nat) -> Seq<u8> {
    Seq::new(size, |i: int| 0u8)
}

impl GadgetView {
    /// The gadget with the device `index` handed out.
    pub open spec fn taking(self, index: nat) -> GadgetView {
        GadgetView { slots: with_slot(self.slots, index, true), ..self }
    }

    /// The gadget with the device `index` back in the pool.
    pub open spec fn releasing(self, index: nat) -> GadgetView {
        GadgetView { slots: with_slot(self.slots, index, false), ..self }
    }

    /// Whether a device can be taken at or after the place `from`: the
    /// gadget is active and one of those places is free.
    pub open spec fn can_take(self, from: nat) -> bool {
        self.state == GadgetState::Active && !none_free(self.slots, from)
    }

    /// Whether the device `index` can be given back: it is a place of the
    /// pool, and it is taken.
    pub open spec fn can_release(self, index: nat) -> bool {
        index < self.slots.len() && self.slots[index as int].taken
    }
}

/// One function of the gadget: its name and its device node.
#[derive(Debug)]
struct HIDGadgetDevice {
    function_name: String,
    hidg_path: String,
}

/// One place of the pool: a device and whether it is taken.
#[derive(Debug)]
struct FunctionSlot {
    device: HIDGadgetDevice,
    state: SlotState,
}

impl View for FunctionSlot {
    type V = SlotView;

    closed spec fn view(&self) -> SlotView {
        SlotView {
            name: self.device.function_name@,
            node: self.device.hidg_path@,
            taken: self.state == SlotState::Taken,
        }
    }
}

/// A gadget of HID functions for the controller profile `G`: the tree of
/// kernel objects, as far as it exists, and the pool of its devices.
///
/// The gadget decides and keeps the books; its owner acts. The owner asks
/// for the next action, performs it on the file system, and records what
/// came of it, until no action is left.
pub struct HIDGadget<G: HIDGamepad> {
    path: String,
    count: usize,
    state: GadgetState,
    creation: Vec<FsOp>,
    built: usize,
    teardown: Vec<FsOp>,
    removed: usize,
    controller: Option<Vec<u8>>,
    devices: Vec<FunctionSlot>,
    error: Option<GadgetError>,
    _gamepad: PhantomData<G>,
}

/// What kind of answer a creation action waits for.
#[derive(Clone, Copy, PartialEq, Eq, Structural)]
enum Awaited {
    DeviceNumber,
    Controller,
    Completion,
}

fn awaited(op: &FsOp) -> (kind: Awaited)
    ensures
        kind == Awaited::DeviceNumber <==> op@ is ReadDeviceNumber,
        kind == Awaited::Controller <==> op@ is FindController,
{
    match op {
        FsOp::ReadDeviceNumber { .. } => Awaited::DeviceNumber,
        FsOp::FindController { .. } => Awaited::Controller,
        _ => Awaited::Completion,
    }
}

impl<G: HIDGamepad> View for HIDGadget<G> {
    type V = GadgetView;

    closed spec fn view(&self) -> GadgetView {
        GadgetView {
            state: self.state,
            count: self.count as nat,
            built: self.built as nat,
            removed: self.removed as nat,
            controller: match self.controller {
                Some(name) => Some(name@),
                None => None,
            },
            slots: self.devices@.map_values(|slot: FunctionSlot| slot@),
            error: self.error,
        }
    }
}

impl<G: HIDGamepad> HIDGadget<G> {
    /// Whether the gadget's books are in order. Every function of this
    /// type keeps it so.
    pub closed spec fn wf(&self) -> bool {
        &&& self@.wf(G::profile_view())
        &&& self.path@ == gadget_root()
        &&& views(self.creation@) == self@.creation(G::profile_view())
        &&& views(self.teardown@) == teardown_plan(self.count as nat)
    }

    /// A gadget of `count` functions of which nothing exists yet.
    pub fn new(count: usize) -> (gadget: Self)
        ensures
            gadget.wf(),
            gadget@ == GadgetView::fresh(count as nat),
    {
        let profile = G::profile();
        let gadget = HIDGadget {
            path: root_path(),
            count,
            state: GadgetState::Uninitialized,
            creation: creation_actions(&profile, count),
            built: 0,
            teardown: teardown_actions(count),
            removed: 0,
            controller: None,
            devices: Vec::new(),
            error: None,
            _gamepad: PhantomData,
        };
        assert(gadget@.slots =~= Seq::<SlotView>::empty());
        gadget
    }

    /// A gadget of `count` functions whose creation has begun: its first
    /// action is pending.
    pub fn create(count: usize) -> (gadget: Self)
        ensures
            gadget.wf(),
            gadget@ == GadgetView::fresh(count as nat).begun(),
    {
        let mut gadget = Self::new(count);
        gadget.begin();
        gadget
    }

    /// Begins the creation of a gadget of which nothing exists yet; any
    /// other gadget is left as it is.
    pub fn begin(&mut self)
        requires
            old(self).wf(),
        ensures
            final(self).wf(),
            final(self)@ == old(self)@.begun(),
    {
        if self.state == GadgetState::Uninitialized {
            proof {
                lemma_creation_plan_shape(G::profile_view(), self.count as nat, None);
            }
            self.state = GadgetState::Creating;
        }
    }

    /// Where the gadget stands in its life.
    pub fn state(&self) -> (state: GadgetState)
        ensures
            state == self@.state,
    {
        self.state
    }

    /// The first error that was met, if any.
    pub fn error(&self) -> (error: Option<GadgetError>)
        ensures
            error == self@.error,
    {
        self.error
    }

    /// The directory that holds the gadget.
    pub fn path(&self) -> (path: &str)
        requires
            self.wf(),
        ensures
            path@ == gadget_root(),
    {
        self.path.as_str()
    }

    /// The number of devices in the pool.
    pub fn device_count(&self) -> (count: usize)
        ensures
            count == self@.slots.len(),
    {
        self.devices.len()
    }

    /// The action that the owner is to perform next, if any.
    pub fn next_action(&self) -> (action: Option<&FsOp>)
        requires
            self.wf(),
        ensures
            match action {
                Some(op) => self@.pending(G::profile_view()) == Some(op@),
                None => self@.pending(G::profile_view()) is None,
            },
    {
        proof {
            lemma_teardown_plan_len(self.count as nat);
        }
        match self.state {
            GadgetState::Creating => Some(&self.creation[self.built]),
            GadgetState::Destroying => Some(&self.teardown[self.removed]),
            _ => None,
        }
    }
}

impl<G: HIDGamepad> HIDGadget<G> {
    fn any_device_taken(&self) -> (taken: bool)
        ensures
            taken == any_taken(self@.slots),
    {
        let mut i: usize = 0;
        while i < self.devices.len()
            invariant
                i <= self.devices.len(),
                forall|j: int| 0 <= j < i ==> !(#[trigger] self@.slots[j]).taken,
            decreases self.devices.len() - i,
        {
            if self.devices[i].state == SlotState::Taken {
                assert(self@.slots[i as int].taken);
                return true;
            }
            i = i + 1;
        }
        false
    }

    fn doom(&mut self, cause: Option<GadgetError>)
        requires
            old(self).wf(),
        ensures
            final(self).wf(),
            final(self)@ == old(self)@.doomed(cause),
    {
        if self.state == GadgetState::Creating || self.state == GadgetState::Active {
            let taken = self.any_device_taken();
            if self.error.is_none() {
                self.error = if cause.is_some() {
                    cause
                } else if taken {
                    Some(GadgetError::PoolConsistencyViolation)
                } else {
                    None
                };
            }
            self.state = GadgetState::Destroying;
        }
    }

    fn advance(&mut self)
        requires
            old(self).state == GadgetState::Creating,
            old(self).built < old(self).creation@.len(),
            views(old(self).creation@) == old(self)@.creation(G::profile_view()),
            old(self)@.advanced().wf(G::profile_view()),
            old(self).path@ == gadget_root(),
            views(old(self).teardown@) == teardown_plan(old(self).count as nat),
        ensures
            final(self).wf(),
            final(self)@ == old(self)@.advanced(),
    {
        proof {
            lemma_creation_plan_shape(G::profile_view(), self.count as nat, self@.controller);
        }
        let planned = self.creation.len();
        self.built = self.built + 1;
        if self.built == planned && self.controller.is_some() {
            self.state = GadgetState::Active;
        }
    }

    /// Asks for the gadget to be taken apart. A gadget that is being made
    /// or is active starts its teardown; a device that is still taken then
    /// is a `PoolConsistencyViolation`, which does not hold the teardown
    /// up. Any other gadget is left as it is.
    pub fn destroy(&mut self)
        requires
            old(self).wf(),
        ensures
            final(self).wf(),
            final(self)@ == old(self)@.doomed(None),
    {
        self.doom(None);
    }

    fn made_by(&self) -> (step: usize)
        requires
            self.wf(),
            self.state == GadgetState::Destroying,
        ensures
            step == maker(self@.count, self@.removed),
    {
        proof {
            lemma_teardown_plan_len(self.count as nat);
            lemma_creation_plan_shape(G::profile_view(), self.count as nat, self@.controller);
        }
        let t = self.removed;
        let n = self.count;
        // Both plans are held in memory, which bounds the arithmetic below.
        let removals = self.teardown.len();
        let makings = self.creation.len();
        assert(removals == 5 + 2 * n);
        assert(makings >= 14 + 7 * n);
        if t == 0 {
            0
        } else if t <= 2 * n {
            let i = (t - 1) / 2;
            if (t - 1) % 2 == 0 {
                13 + 7 * i + 5
            } else {
                13 + 7 * i
            }
        } else if t == 2 * n + 1 {
            11
        } else if t == 2 * n + 2 {
            9
        } else if t == 2 * n + 3 {
            5
        } else {
            0
        }
    }

    /// Records what came of the pending action and moves on: to the next
    /// action of the creation, into the active state, into teardown where
    /// the creation cannot go on, to the next action of the teardown, or
    /// to the end. Without a pending action nothing changes.
    pub fn record(&mut self, outcome: Outcome)
        requires
            old(self).wf(),
        ensures
            final(self).wf(),
            final(self)@ == old(self)@.step(G::profile_view(), outcome@),
    {
        match self.state {
            GadgetState::Creating => self.record_creation(outcome),
            GadgetState::Destroying => self.record_removal(outcome),
            _ => {},
        }
    }

    fn record_removal(&mut self, outcome: Outcome)
        requires
            old(self).wf(),
            old(self).state == GadgetState::Destroying,
        ensures
            final(self).wf(),
            final(self)@ == old(self)@.step(G::profile_view(), outcome@),
    {
        proof {
            lemma_teardown_plan_len(self.count as nat);
        }
        let fault = match outcome {
            Outcome::Done => None,
            Outcome::Missing => {
                if self.made_by() < self.built {
                    Some(GadgetError::FilesystemIO)
                } else {
                    None
                }
            },
            _ => Some(GadgetError::FilesystemIO),
        };
        if self.error.is_none() {
            self.error = fault;
        }
        let removals = self.teardown.len();
        self.removed = self.removed + 1;
        if self.removed == removals {
            self.state = GadgetState::Destroyed;
        }
    }

    fn record_creation(&mut self, outcome: Outcome)
        requires
            old(self).wf(),
            old(self).state == GadgetState::Creating,
        ensures
            final(self).wf(),
            final(self)@ == old(self)@.step(G::profile_view(), outcome@),
    {
        let ghost profile = G::profile_view();
        let ghost before = self@;
        proof {
            lemma_creation_plan_shape(profile, before.count, before.controller);
            lemma_creation_plan_reads(profile, before.count, before.controller, before.built);
            lemma_creation_plan_reads(
                profile,
                before.count,
                before.controller,
                (before.built + 1) as nat,
            );
        }
        let kind = awaited(&self.creation[self.built]);
        match (kind, outcome) {
            (Awaited::DeviceNumber, Outcome::DeviceNumber(text)) => {
                match hidg_path(text.as_str()) {
                    Ok(node) => {
                        let slot = FunctionSlot {
                            device: HIDGadgetDevice {
                                function_name: function_name_string(self.devices.len()),
                                hidg_path: node,
                            },
                            state: SlotState::Available,
                        };
                        self.devices.push(slot);
                        assert(self@.slots =~= before.slots.push(
                            SlotView {
                                name: function_name(before.slots.len()),
                                node: node@,
                                taken: false,
                            },
                        ));
                        self.advance();
                    },
                    Err(e) => self.doom(Some(e)),
                }
            },
            (Awaited::DeviceNumber, _) => self.doom(Some(GadgetError::FilesystemIO)),
            (Awaited::Controller, Outcome::Controller(name)) => {
                let ghost found = Some(name@);
                proof {
                    lemma_creation_plan_shape(profile, before.count, found);
                    lemma_creation_plan_reads(
                        profile,
                        before.count,
                        found,
                        (before.built + 1) as nat,
                    );
                }
                let op = activation_action(name.clone());
                proof {
                    lemma_views_push(self.creation@, op);
                }
                self.creation.push(op);
                self.controller = Some(name);
                self.advance();
            },
            (Awaited::Controller, Outcome::NoController) => self.doom(
                Some(GadgetError::NoHardwareController),
            ),
            (Awaited::Controller, _) => self.doom(Some(GadgetError::FilesystemIO)),
            (Awaited::Completion, Outcome::Done) => self.advance(),
            (Awaited::Completion, _) => self.doom(Some(GadgetError::FilesystemIO)),
        }
    }
}

/// A device taken from the pool: the place it came from, its device node,
/// and a buffer of exactly one report. Whoever holds it opens the node and
/// writes the buffer to it.
pub struct HIDGadgetDeviceFile<G: HIDGamepad> {
    index: usize,
    buf: Vec<u8>,
    dev: HIDGadgetDevice,
    _gamepad: PhantomData<G>,
}

impl<G: HIDGamepad> View for HIDGadgetDeviceFile<G> {
    type V = HandleView;

    closed spec fn view(&self) -> HandleView {
        HandleView {
            index: self.index as nat,
            name: self.dev.function_name@,
            node: self.dev.hidg_path@,
            buffer: self.buf@,
        }
    }
}

impl<G: HIDGamepad> HIDGadget<G> {
    /// Takes the first free device at or after the place `from` out of the
    /// pool, places before `from` having been tried in vain.
    ///
    /// The caller opens the device's node. Where that fails, the caller
    /// gives the device back and asks again from the place behind it, so
    /// that no place is tried twice. `NoUsableDevice` says that no place
    /// is left to try, or that the gadget is not active.
    pub fn take_device(&mut self, from: usize) -> (r: Result<HIDGadgetDeviceFile<G>, GadgetError>)
        requires
            old(self).wf(),
        ensures
            final(self).wf(),
            r is Ok <==> old(self)@.can_take(from as nat),
            match r {
                Ok(file) => {
                    &&& file.wf()
                    &&& first_free_at(old(self)@.slots, from as nat, file@.index)
                    &&& file@.name == old(self)@.slots[file@.index as int].name
                    &&& file@.node == old(self)@.slots[file@.index as int].node
                    &&& file@.buffer == zeroes(G::profile_view().report_size)
                    &&& final(self)@ == old(self)@.taking(file@.index)
                },
                Err(e) => e == GadgetError::NoUsableDevice && final(self)@ == old(self)@,
            },
    {
        if self.state != GadgetState::Active {
            return Err(GadgetError::NoUsableDevice);
        }
        let ghost before = self@;
        let mut index = from;
        while index < self.devices.len()
            invariant
                from <= index,
                self@ == before,
                before == old(self)@,
                self.wf(),
                self.state == GadgetState::Active,
                forall|j: int| from <= j < index && j < before.slots.len() ==> (
                #[trigger] before.slots[j]).taken,
            decreases self.devices.len() - index,
        {
            if self.devices[index].state == SlotState::Available {
                let dev = HIDGadgetDevice {
                    function_name: self.devices[index].device.function_name.clone(),
                    hidg_path: self.devices[index].device.hidg_path.clone(),
                };
                let slot = FunctionSlot {
                    device: HIDGadgetDevice {
                        function_name: self.devices[index].device.function_name.clone(),
                        hidg_path: self.devices[index].device.hidg_path.clone(),
                    },
                    state: SlotState::Taken,
                };
                self.devices.set(index, slot);
                let size = G::report_size();
                let file = HIDGadgetDeviceFile {
                    index,
                    buf: vec![0u8; size],
                    dev,
                    _gamepad: PhantomData,
                };
                assert(self@.slots =~= with_slot(before.slots, index as nat, true));
                return Ok(file);
            }
            index = index + 1;
        }
        Err(GadgetError::NoUsableDevice)
    }

    /// Gives a device back to the pool, from any state of the gadget.
    ///
    /// A device whose place lies outside the pool, or whose place is
    /// free already, is a `PoolConsistencyViolation`, and the pool stays as
    /// it is.
    pub fn release_device(&mut self, device: HIDGadgetDeviceFile<G>) -> (r: Result<(), GadgetError>)
        requires
            old(self).wf(),
        ensures
            final(self).wf(),
            r is Ok <==> old(self)@.can_release(device@.index),
            match r {
                Ok(_) => final(self)@ == old(self)@.releasing(device@.index),
                Err(e) => e == GadgetError::PoolConsistencyViolation && final(self)@ == old(self)@,
            },
    {
        let ghost before = self@;
        let index = device.index;
        if index >= self.devices.len() {
            return Err(GadgetError::PoolConsistencyViolation);
        }
        if self.devices[index].state == SlotState::Available {
            return Err(GadgetError::PoolConsistencyViolation);
        }
        let slot = FunctionSlot {
            device: HIDGadgetDevice {
                function_name: self.devices[index].device.function_name.clone(),
                hidg_path: self.devices[index].device.hidg_path.clone(),
            },
            state: SlotState::Available,
        };
        self.devices.set(index, slot);
        assert(self@.slots =~= with_slot(before.slots, index as nat, false));
        Ok(())
    }
}

impl<G: HIDGamepad> HIDGadgetDeviceFile<G> {
    /// Whether the buffer has the size of one report. Every function of
    /// this type keeps it so.
    pub closed spec fn wf(&self) -> bool {
        self.buf@.len() == G::profile_view().report_size
    }

    /// The path of the device node to open and write to.
    pub fn path(&self) -> (path: &str)
        ensures
            path@ == self@.node,
    {
        self.dev.hidg_path.as_str()
    }

    /// The place of the pool that the device was taken from.
    pub fn index(&self) -> (index: usize)
        ensures
            index == self@.index,
    {
        self.index
    }

    /// Lays `report` out in the buffer, ready to be written to the device
    /// node in one piece. The buffer has the size of a report, so this
    /// cannot fail.
    pub fn write_report(&mut self, report: G::Report) -> (r: Result<(), GadgetError>)
        requires
            old(self).wf(),
        ensures
            final(self).wf(),
            r is Ok,
            final(self)@ == old(self)@.showing(G::encoding(&report)),
    {
        proof {
            G::lemma_encoding_len(&report);
        }
        match G::encode(&report, &mut self.buf) {
            Ok(_) => {
                Ok(())
            },
            Err(e) => Err(e),
        }
    }

    /// Lays out the report that shows `input`, ready to be written.
    pub fn update(&mut self, input: &PadInput) -> (r: Result<(), GadgetError>)
        requires
            old(self).wf(),
        ensures
            final(self).wf(),
            r is Ok,
            final(self)@ == old(self)@.showing(G::encoding(&G::report_of(*input))),
    {
        let report = G::fill_report(input);
        self.write_report(report)
    }

    /// The bytes of the report that was laid out last: always as many as
    /// a report of the profile has.
    pub fn report_bytes(&self) -> (bytes: &Vec<u8>)
        requires
            self.wf(),
        ensures
            bytes@ == self@.buffer,
            bytes@.len() == G::profile_view().report_size,
    {
        &self.buf
    }

    /// Judges a write of the buffer by the number of bytes that went out:
    /// anything but a whole report is a `ShortWrite`.
    pub fn check_written(&self, written: usize) -> (r: Result<(), GadgetError>)
        requires
            self.wf(),
        ensures
            r is Ok <==> written == G::profile_view().report_size,
            r is Err ==> r == Err::<(), GadgetError>(GadgetError::ShortWrite),
    {
        if written != self.buf.len() {
            Err(GadgetError::ShortWrite)
        } else {
            Ok(())
        }
    }

    /// Looks for a report from the host. Reading reports from the host is
    /// not supported: nothing is read, nothing changes, and the answer is
    /// always that all is well.
    pub fn check_read_report(&mut self) -> (r: Result<(), GadgetError>)
        ensures
            r is Ok,
            *final(self) == *old(self),
    {
        Ok(())
    }
}

} // verus!
