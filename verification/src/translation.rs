use vstd::prelude::*;

use crate::error::GadgetError;
use crate::gamepad::{HIDGamepad, PadInput};
use crate::hid_gadget::{GadgetView, HIDGadget, HIDGadgetDeviceFile, HandleView};

verus! {

/// What a physical controller did, as far as the translation tells its
/// events apart.
#[derive(Clone, Copy, Debug, PartialEq, Eq, Structural)]
pub enum PadEvent {
    /// The controller was plugged in.
    Connected,
    /// The controller was unplugged.
    Disconnected,
    /// An event that the input layer asks to be passed over.
    Dropped,
    /// A button moved to a new depth.
    ButtonChanged,
    /// Anything else: a button pressed or released, a stick moved.
    Input,
}

/// What the translation does about an event.
#[derive(Clone, Copy, Debug, PartialEq, Eq, Structural)]
pub enum Reaction {
    /// Take a device for the controller and remember the pair.
    Attach,
    /// Forget the controller and give its device back.
    Detach,
    /// Do nothing.
    Ignore,
    /// Write a report of the controller's state to its device.
    Report,
}

/// The reaction to `event` for a profile with or without analog buttons.
///
/// The input layer sends a change of depth along with every press and
/// release. A profile without analog buttons passes it over, since the
/// press or release itself already gives rise to a report.
pub open spec fn reaction_to(event: PadEvent, analog_buttons: bool) -> Reaction {
    match event {
        PadEvent::Connected => Reaction::Attach,
        PadEvent::Disconnected => Reaction::Detach,
        PadEvent::Dropped => Reaction::Ignore,
        PadEvent::ButtonChanged => if analog_buttons {
            Reaction::Report
        } else {
            Reaction::Ignore
        },
        PadEvent::Input => Reaction::Report,
    }
}

/// The reaction of the profile `G` to `event`.
pub fn react<G: HIDGamepad>(event: PadEvent) -> (reaction: Reaction)
    ensures
        reaction == reaction_to(event, G::profile_view().analog_buttons),
{
    match event {
        PadEvent::Connected => Reaction::Attach,
        PadEvent::Disconnected => Reaction::Detach,
        PadEvent::Dropped => Reaction::Ignore,
        PadEvent::ButtonChanged => {
            if G::analog_buttons() {
                Reaction::Report
            } else {
                Reaction::Ignore
            }
        },
        PadEvent::Input => Reaction::Report,
    }
}

/// A controller and the device that shows it, as plain values.
pub struct RouteView {
    pub pad: usize,
    pub handle: HandleView,
}

/// Whether the entry `i` of `routes` is that of the controller `pad`.
pub open spec fn routed_at(routes: Seq<RouteView>, pad: usize, i: int) -> bool {
    0 <= i < routes.len() && routes[i].pad == pad
}

/// Whether `routes` has no entry for the controller `pad`.
pub open spec fn unrouted(routes: Seq<RouteView>, pad: usize) -> bool {
    forall|i: int| 0 <= i < routes.len() ==> (#[trigger] routes[i]).pad != pad
}

/// Whether no controller has two entries in `routes`.
pub open spec fn distinct_pads(routes: Seq<RouteView>) -> bool {
    forall|i: int, j: int|
        0 <= i < j < routes.len() ==> (#[trigger] routes[i]).pad != (#[trigger] routes[j]).pad
}

/// The gadget once the devices of `routes` were given back, the last
/// entry first. A device that cannot be given back is passed over.
pub open spec fn release_each(gadget: GadgetView, routes: Seq<RouteView>) -> GadgetView
    decreases routes.len(),
{
    if routes.len() == 0 {
        gadget
    } else {
        let index = routes.last().handle.index;
        release_each(
            if gadget.can_release(index) {
                gadget.releasing(index)
            } else {
                gadget
            },
            routes.drop_last(),
        )
    }
}

/// Whether every device of `routes` can be given back to `gadget`, one
/// after another, the last entry first.
pub open spec fn all_releasable(gadget: GadgetView, routes: Seq<RouteView>) -> bool
    decreases routes.len(),
{
    routes.len() == 0 || (gadget.can_release(routes.last().handle.index) && all_releasable(
        gadget.releasing(routes.last().handle.index),
        routes.drop_last(),
    ))
}

struct Route<G: HIDGamepad> {
    pad: usize,
    file: HIDGadgetDeviceFile<G>,
}

/// The controllers whose input is shown to the host, each with the device
/// that shows it, in the order in which they were connected.
pub struct Routes<G: HIDGamepad> {
    entries: Vec<Route<G>>,
}

impl<G: HIDGamepad> View for Routes<G> {
    type V = Seq<RouteView>;

    closed spec fn view(&self) -> Seq<RouteView> {
        self.entries@.map_values(|route: Route<G>| RouteView { pad: route.pad, handle: route.file@ })
    }
}

impl<G: HIDGamepad> Routes<G> {
    /// Whether the table is in order: no controller has two entries, and
    /// every device is sound. Every function of this type keeps it so.
    pub closed spec fn wf(&self) -> bool {
        &&& distinct_pads(self@)
        &&& forall|i: int| 0 <= i < self.entries@.len() ==> (#[trigger] self.entries@[i]).file.wf()
    }

    /// A table without entries.
    pub fn new() -> (routes: Self)
        ensures
            routes.wf(),
            routes@ == Seq::<RouteView>::empty(),
    {
        let routes = Routes { entries: Vec::new() };
        routes
    }

    /// The number of controllers that have a device.
    pub fn len(&self) -> (n: usize)
        ensures
            n == self@.len(),
    {
        self.entries.len()
    }

    fn position(&self, pad: usize) -> (found: Option<usize>)
        ensures
            match found {
                Some(i) => routed_at(self@, pad, i as int),
                None => unrouted(self@, pad),
            },
    {
        let mut i: usize = 0;
        while i < self.entries.len()
            invariant
                i <= self.entries.len(),
                forall|j: int| 0 <= j < i ==> (#[trigger] self@[j]).pad != pad,
            decreases self.entries.len() - i,
        {
            if self.entries[i].pad == pad {
                return Some(i);
            }
            i = i + 1;
        }
        None
    }

    /// The device that shows the controller `pad`, if it has one.
    pub fn get(&self, pad: usize) -> (found: Option<&HIDGadgetDeviceFile<G>>)
        requires
            self.wf(),
        ensures
            match found {
                Some(file) => file.wf() && exists|i: int|
                    routed_at(self@, pad, i) && self@[i].handle == file@,
                None => unrouted(self@, pad),
            },
    {
        match self.position(pad) {
            Some(i) => {
                Some(&self.entries[i].file)
            },
            None => None,
        }
    }

    /// Lets `file` show the controller `pad`. Where the controller had a
    /// device already, that device leaves the table and is handed to the
    /// caller, who still has to give it back to the pool; else the pair
    /// is added at the end.
    pub fn insert(&mut self, pad: usize, file: HIDGadgetDeviceFile<G>) -> (replaced: Option<
        HIDGadgetDeviceFile<G>,
    >)
        requires
            old(self).wf(),
            file.wf(),
        ensures
            final(self).wf(),
            match replaced {
                Some(former) => former.wf() && exists|i: int|
                    {
                        &&& routed_at(old(self)@, pad, i)
                        &&& former@ == old(self)@[i].handle
                        &&& final(self)@ == old(self)@.update(
                            i,
                            RouteView { pad, handle: file@ },
                        )
                    },
                None => unrouted(old(self)@, pad) && final(self)@ == old(self)@.push(
                    RouteView { pad, handle: file@ },
                ),
            },
    {
        let ghost before = self@;
        let ghost added = RouteView { pad, handle: file@ };
        match self.position(pad) {
            Some(i) => {
                let former = self.entries.remove(i);
                self.entries.insert(i, Route { pad, file });
                assert(self@ =~= before.update(i as int, added));
                Some(former.file)
            },
            None => {
                self.entries.push(Route { pad, file });
                assert(self@ =~= before.push(added));
                None
            },
        }
    }

    /// Forgets the controller `pad` and hands its device to the caller,
    /// who gives it back to the pool. Without an entry for the controller
    /// nothing changes.
    pub fn remove(&mut self, pad: usize) -> (removed: Option<HIDGadgetDeviceFile<G>>)
        requires
            old(self).wf(),
        ensures
            final(self).wf(),
            match removed {
                Some(file) => file.wf() && exists|i: int|
                    {
                        &&& routed_at(old(self)@, pad, i)
                        &&& file@ == old(self)@[i].handle
                        &&& final(self)@ == old(self)@.remove(i)
                    },
                None => unrouted(old(self)@, pad) && final(self)@ == old(self)@,
            },
    {
        let ghost before = self@;
        match self.position(pad) {
            Some(i) => {
                let route = self.entries.remove(i);
                assert(self@ =~= before.remove(i as int));
                Some(route.file)
            },
            None => None,
        }
    }

    /// Lays out the report that shows `input` in the buffer of the
    /// device of the controller `pad`, and says whether the controller
    /// has a device at all. Without one nothing changes.
    pub fn update(&mut self, pad: usize, input: &PadInput) -> (mapped: bool)
        requires
            old(self).wf(),
        ensures
            final(self).wf(),
            mapped <==> !unrouted(old(self)@, pad),
            mapped ==> exists|i: int|
                {
                    &&& routed_at(old(self)@, pad, i)
                    &&& final(self)@ == old(self)@.update(
                        i,
                        RouteView {
                            pad,
                            handle: old(self)@[i].handle.showing(
                                G::encoding(&G::report_of(*input)),
                            ),
                        },
                    )
                },
            !mapped ==> final(self)@ == old(self)@,
    {
        let ghost before = self@;
        match self.position(pad) {
            Some(i) => {
                let mut route = self.entries.remove(i);
                let _ = route.file.update(input);
                let ghost after = RouteView { pad, handle: route.file@ };
                self.entries.insert(i, route);
                assert(self@ =~= before.update(i as int, after));
                true
            },
            None => false,
        }
    }

    /// Gives every device of the table back to the pool of `gadget`, the
    /// last entry first, and empties the table. A device that the pool
    /// refuses is passed over, and the refusal is reported at the end.
    pub fn release_all(&mut self, gadget: &mut HIDGadget<G>) -> (r: Result<(), GadgetError>)
        requires
            old(self).wf(),
            old(gadget).wf(),
        ensures
            final(self).wf(),
            final(gadget).wf(),
            final(self)@ == Seq::<RouteView>::empty(),
            final(gadget)@ == release_each(old(gadget)@, old(self)@),
            r is Ok <==> all_releasable(old(gadget)@, old(self)@),
            r is Err ==> r == Err::<(), GadgetError>(GadgetError::PoolConsistencyViolation),
    {
        let mut refused = false;
        while self.entries.len() > 0
            invariant
                self.wf(),
                gadget.wf(),
                release_each(gadget@, self@) == release_each(old(gadget)@, old(self)@),
                all_releasable(old(gadget)@, old(self)@) <==> (!refused && all_releasable(
                    gadget@,
                    self@,
                )),
            decreases self.entries.len(),
        {
            let ghost routes = self@;
            let route = self.entries.pop().unwrap();
            assert(self@ =~= routes.drop_last());
            match gadget.release_device(route.file) {
                Ok(_) => {},
                Err(_) => {
                    refused = true;
                },
            }
        }
        if refused {
            Err(GadgetError::PoolConsistencyViolation)
        } else {
            Ok(())
        }
    }
}

/// Giving devices back takes no device and leaves the pool as large as
/// it was.
pub proof fn lemma_release_each_keeps(gadget: GadgetView, routes: Seq<RouteView>, place: int)
    requires
        0 <= place < gadget.slots.len(),
    ensures
        release_each(gadget, routes).slots.len() == gadget.slots.len(),
        release_each(gadget, routes).slots[place].taken ==> gadget.slots[place].taken,
        release_each(gadget, routes).state == gadget.state,
    decreases routes.len(),
{
    if routes.len() > 0 {
        let index = routes.last().handle.index;
        let next = if gadget.can_release(index) {
            gadget.releasing(index)
        } else {
            gadget
        };
        lemma_release_each_keeps(next, routes.drop_last(), place);
    }
}

/// Once the devices of `routes` were given back, none of them is taken
/// any more: the place of every entry that lies in the pool is free.
pub proof fn lemma_release_each_frees(gadget: GadgetView, routes: Seq<RouteView>, k: int)
    requires
        0 <= k < routes.len(),
        routes[k].handle.index < gadget.slots.len(),
    ensures
        !release_each(gadget, routes).slots[routes[k].handle.index as int].taken,
    decreases routes.len(),
{
    let index = routes.last().handle.index;
    let next = if gadget.can_release(index) {
        gadget.releasing(index)
    } else {
        gadget
    };
    if k == routes.len() - 1 {
        lemma_release_each_keeps(next, routes.drop_last(), index as int);
    } else {
        lemma_release_each_frees(next, routes.drop_last(), k);
    }
}

} // verus!
