use vstd::prelude::*;

use crate::hid_gadget::{
    none_free, taken_before, taken_count, with_slot, GadgetView, SlotView,
};

verus! {

/// Among the first `n` places no more than `n` are taken, and where all
/// `n` are counted as taken each of them is.
pub proof fn lemma_taken_bounded(slots: Seq<SlotView>, n: nat)
    requires
        n <= slots.len(),
    ensures
        taken_before(slots, n) <= n,
        taken_before(slots, n) == n ==> forall|j: int| 0 <= j < n ==> (#[trigger] slots[j]).taken,
    decreases n,
{
    if n > 0 {
        lemma_taken_bounded(slots, (n - 1) as nat);
    }
}

/// Marking the free place `index` as taken raises the count of taken
/// places among the first `n` by one where `index` is among them, and
/// leaves it alone where it is not.
pub proof fn lemma_taking_counts(slots: Seq<SlotView>, index: nat, n: nat)
    requires
        index < slots.len(),
        n <= slots.len(),
        !slots[index as int].taken,
    ensures
        taken_before(with_slot(slots, index, true), n) == taken_before(slots, n) + if index < n {
            1nat
        } else {
            0nat
        },
    decreases n,
{
    if n > 0 {
        lemma_taking_counts(slots, index, (n - 1) as nat);
    }
}

/// A pool of `N` devices is exhausted by `N` takes: where `history` holds
/// the gadget before and after each of `N` successful takes in a row, with
/// no release between them, no device can be taken from the last of
/// them, from whatever place the search starts.
pub proof fn lemma_pool_exhausts(history: Seq<GadgetView>, places: Seq<nat>, from: nat)
    requires
        history.len() == places.len() + 1,
        places.len() == history[0].slots.len(),
        forall|k: int|
            0 <= k < places.len() ==> {
                &&& places[k] < (#[trigger] history[k]).slots.len()
                &&& !history[k].slots[places[k] as int].taken
                &&& history[k + 1] == history[k].taking(places[k])
            },
    ensures
        !history.last().can_take(from),
{
    let size = history[0].slots.len();
    lemma_takes_add_up(history, places, places.len());
    lemma_taken_bounded(history.last().slots, size);
    assert(none_free(history.last().slots, from));
}

/// After `k` takes in a row the pool is as large as before and holds at
/// least `k` taken devices.
proof fn lemma_takes_add_up(history: Seq<GadgetView>, places: Seq<nat>, k: nat)
    requires
        history.len() == places.len() + 1,
        k <= places.len(),
        forall|k: int|
            0 <= k < places.len() ==> {
                &&& places[k] < (#[trigger] history[k]).slots.len()
                &&& !history[k].slots[places[k] as int].taken
                &&& history[k + 1] == history[k].taking(places[k])
            },
    ensures
        history[k as int].slots.len() == history[0].slots.len(),
        taken_count(history[k as int].slots) >= k,
    decreases k,
{
    if k > 0 {
        lemma_takes_add_up(history, places, (k - 1) as nat);
        let before = history[k - 1];
        assert(history[k as int] == before.taking(places[k - 1]));
        lemma_taking_counts(before.slots, places[k - 1], before.slots.len());
    }
}

/// A device cannot be given back twice: once the device `index` is back
/// in the pool, giving it back again is refused.
pub proof fn lemma_double_release(gadget: GadgetView, index: nat)
    requires
        gadget.can_release(index),
    ensures
        !gadget.releasing(index).can_release(index),
{
}

/// Taking a device and giving it back leaves the pool as it was.
pub proof fn lemma_take_then_release(gadget: GadgetView, index: nat)
    requires
        index < gadget.slots.len(),
        !gadget.slots[index as int].taken,
    ensures
        gadget.taking(index).can_release(index),
        gadget.taking(index).releasing(index) == gadget,
{
    assert(gadget.taking(index).releasing(index).slots =~= gadget.slots);
}

} // verus!
