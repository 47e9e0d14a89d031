use vstd::prelude::*;

use crate::gamepad::ReportDescriptorView;
use crate::error::GadgetError;
use crate::hid_gadget::{any_taken, maker, GadgetState, GadgetView};
use crate::plan::{
    base_plan, config_dir, config_strings_dir, creation_len, creation_plan, function_dir,
    function_link, function_plan, functions_plan, functions_removal,
    gadget_root, lemma_creation_plan_reads, lemma_creation_plan_shape, lemma_functions_plan_at,
    lemma_functions_plan_len, lemma_reads_agree,
    lemma_functions_removal_at, lemma_functions_removal_len, strings_dir, teardown_len,
    teardown_plan, udc_file, FsOpView, OutcomeView,
};

verus! {

/// The directory or link that an action makes, if it makes one.
pub open spec fn made_entry(op: FsOpView) -> Option<Seq<char>> {
    match op {
        FsOpView::CreateDir { path } => Some(path),
        FsOpView::CreateDirAll { path } => Some(path),
        FsOpView::Symlink { link, .. } => Some(link),
        _ => None,
    }
}

/// The directory or link that an action removes, if it removes one.
pub open spec fn removed_entry(op: FsOpView) -> Option<Seq<char>> {
    match op {
        FsOpView::RemoveFile { path } => Some(path),
        FsOpView::RemoveDir { path } => Some(path),
        _ => None,
    }
}

/// The teardown action that takes back what the creation action number
/// `k` of a gadget of `count` functions made.
pub open spec fn remover(count: nat, k: nat) -> nat {
    if k == 0 {
        2 * count + 4
    } else if k == 5 {
        2 * count + 3
    } else if k == 9 {
        2 * count + 2
    } else if k == 11 {
        2 * count + 1
    } else if (k - 13) % 7 == 0 {
        (2 + 2 * ((k - 13) / 7)) as nat
    } else {
        (1 + 2 * ((k - 13) / 7)) as nat
    }
}

/// Where a gadget stands in its life, as a number that only grows.
pub open spec fn rank(state: GadgetState) -> nat {
    match state {
        GadgetState::Uninitialized => 0,
        GadgetState::Creating => 1,
        GadgetState::Active => 2,
        GadgetState::Destroying => 3,
        GadgetState::Destroyed => 4,
    }
}

/// The gadget after the outcomes of `outcomes` were recorded, one after
/// another.
pub open spec fn run(
    gadget: GadgetView,
    profile: ReportDescriptorView,
    outcomes: Seq<OutcomeView>,
) -> GadgetView
    decreases outcomes.len(),
{
    if outcomes.len() == 0 {
        gadget
    } else {
        run(gadget, profile, outcomes.drop_last()).step(profile, outcomes.last())
    }
}

/// The order of the teardown: first the gadget is unbound; then each
/// function, in the order of creation, loses its link and after that its
/// directory; then go the configuration's strings, the configuration, the
/// gadget's strings, and last of all the gadget's directory.
pub proof fn lemma_teardown_plan_shape(count: nat, i: nat)
    ensures
        teardown_plan(count).len() == teardown_len(count),
        teardown_plan(count)[0] == (FsOpView::WriteFile {
            path: udc_file(),
            contents: Seq::empty(),
        }),
        i < count ==> teardown_plan(count)[1 + 2 * (i as int)] == (FsOpView::RemoveFile {
            path: function_link(i),
        }),
        i < count ==> teardown_plan(count)[2 + 2 * (i as int)] == (FsOpView::RemoveDir {
            path: function_dir(i),
        }),
        teardown_plan(count)[2 * (count as int) + 1] == (FsOpView::RemoveDir {
            path: config_strings_dir(),
        }),
        teardown_plan(count)[2 * (count as int) + 2] == (FsOpView::RemoveDir {
            path: config_dir(),
        }),
        teardown_plan(count)[2 * (count as int) + 3] == (FsOpView::RemoveDir {
            path: strings_dir(),
        }),
        teardown_plan(count)[2 * (count as int) + 4] == (FsOpView::RemoveDir {
            path: gadget_root(),
        }),
{
    lemma_functions_removal_len(count);
    if i < count {
        lemma_functions_removal_at(count, i, 0);
        lemma_functions_removal_at(count, i, 1);
    }
}

/// The action number `j` of the function `i` stands at `13 + 7 * i + j` of
/// the creation plan.
pub proof fn lemma_creation_plan_at(
    profile: ReportDescriptorView,
    count: nat,
    controller: Option<Seq<u8>>,
    i: nat,
    j: int,
)
    requires
        i < count,
        0 <= j < 7,
    ensures
        creation_plan(profile, count, controller)[13 + 7 * (i as int) + j] == function_plan(
            profile,
            i,
        )[j],
{
    lemma_functions_plan_at(profile, count, i, j);
}

/// Every removal of the teardown takes back what one action of the
/// creation made: the teardown action number `t`, from the first removal
/// on, removes the very directory or link that the creation action
/// `maker(count, t)` made.
pub proof fn lemma_removal_undoes_making(
    profile: ReportDescriptorView,
    count: nat,
    controller: Option<Seq<u8>>,
    t: nat,
)
    requires
        1 <= t < teardown_len(count),
    ensures
        maker(count, t) < 13 + 7 * count,
        removed_entry(teardown_plan(count)[t as int]) is Some,
        removed_entry(teardown_plan(count)[t as int]) == made_entry(
            creation_plan(profile, count, controller)[maker(count, t) as int],
        ),
{
    lemma_functions_plan_len(profile, count);
    if t <= 2 * count {
        let i = ((t - 1) / 2) as nat;
        lemma_teardown_plan_shape(count, i);
        if (t - 1) % 2 == 0 {
            lemma_creation_plan_at(profile, count, controller, i, 5);
        } else {
            lemma_creation_plan_at(profile, count, controller, i, 0);
        }
    } else {
        lemma_teardown_plan_shape(count, 0);
    }
}

/// Nothing that the creation makes is left out of the teardown: whatever
/// directory or link the creation action number `k` made, the teardown
/// action `remover(count, k)` removes, and that is the action whose
/// missing entry the gadget holds against the action `k`.
pub proof fn lemma_every_entry_is_removed(
    profile: ReportDescriptorView,
    count: nat,
    controller: Option<Seq<u8>>,
    k: nat,
)
    requires
        k < creation_plan(profile, count, controller).len(),
        made_entry(creation_plan(profile, count, controller)[k as int]) is Some,
    ensures
        1 <= remover(count, k) < teardown_len(count),
        maker(count, remover(count, k)) == k,
        removed_entry(teardown_plan(count)[remover(count, k) as int]) == made_entry(
            creation_plan(profile, count, controller)[k as int],
        ),
{
    lemma_creation_plan_shape(profile, count, controller);
    lemma_functions_plan_len(profile, count);
    if 13 <= k < 13 + 7 * count {
        lemma_creation_plan_at(profile, count, controller, ((k - 13) / 7) as nat, (k - 13) % 7);
    }
    lemma_removal_undoes_making(profile, count, controller, remover(count, k));
}

/// What was made later is removed earlier, within the gadget's own
/// directories, within each function, and between the two: of two
/// creation actions that make something, the second of which belongs to
/// the gadget itself or to the same function as the first, or the first of
/// which belongs to the gadget itself, the second's work is removed first.
pub proof fn lemma_teardown_reverses(
    profile: ReportDescriptorView,
    count: nat,
    controller: Option<Seq<u8>>,
    first: nat,
    second: nat,
)
    requires
        first < second < creation_plan(profile, count, controller).len(),
        made_entry(creation_plan(profile, count, controller)[first as int]) is Some,
        made_entry(creation_plan(profile, count, controller)[second as int]) is Some,
        first < 13 || (first - 13) / 7 == (second - 13) / 7,
    ensures
        remover(count, second) < remover(count, first),
{
    lemma_every_entry_is_removed(profile, count, controller, first);
    lemma_every_entry_is_removed(profile, count, controller, second);
    lemma_creation_plan_shape(profile, count, controller);
    lemma_functions_plan_len(profile, count);
    if 13 <= second < 13 + 7 * count {
        let i = ((second - 13) / 7) as nat;
        lemma_creation_plan_at(profile, count, controller, i, (second - 13) % 7);
        if first >= 13 {
            lemma_creation_plan_at(profile, count, controller, i, (first - 13) % 7);
        }
    }
}

/// A gadget only moves forward in its life. Recording an outcome keeps
/// it where it is or moves it on: from being made into the active state
/// or, where the creation cannot go on, into teardown; and from teardown
/// to the end. It is active only once every creation action was carried
/// out, and at its end only once every teardown action was attempted.
pub proof fn lemma_life_cycle(
    gadget: GadgetView,
    profile: ReportDescriptorView,
    outcome: OutcomeView,
)
    requires
        gadget.wf(profile),
    ensures
        rank(gadget.step(profile, outcome).state) >= rank(gadget.state),
        gadget.state == GadgetState::Creating || gadget.state == GadgetState::Destroying
            || gadget.step(profile, outcome) == gadget,
        gadget.state == GadgetState::Creating ==> gadget.step(profile, outcome).state
            != GadgetState::Destroyed,
        gadget.step(profile, outcome).state == GadgetState::Active ==> gadget.step(
            profile,
            outcome,
        ).built == creation_len(gadget.count),
        gadget.step(profile, outcome).state == GadgetState::Destroyed ==> gadget.step(
            profile,
            outcome,
        ).removed == teardown_len(gadget.count),
        rank(gadget.begun().state) <= rank(gadget.state) + 1,
        rank(gadget.doomed(None).state) >= rank(gadget.state),
{
}

/// A teardown runs to its end whatever comes of its actions, and keeps
/// the first error. Where every entry that was made is removed, and
/// every entry that was never made is found missing or removed, the
/// teardown adds no error of its own: a gadget whose creation failed half
/// way is taken apart without complaint about what was never there.
pub proof fn lemma_teardown_completes(
    gadget: GadgetView,
    profile: ReportDescriptorView,
    outcomes: Seq<OutcomeView>,
)
    requires
        gadget.wf(profile),
        gadget.state == GadgetState::Destroying,
        gadget.removed + outcomes.len() == teardown_len(gadget.count),
    ensures
        run(gadget, profile, outcomes).state == GadgetState::Destroyed,
        gadget.error is Some ==> run(gadget, profile, outcomes).error == gadget.error,
        (forall|t: int|
            0 <= t < outcomes.len() ==> #[trigger] outcomes[t] == OutcomeView::Done || (outcomes[t]
                == OutcomeView::Missing && maker(gadget.count, (gadget.removed + t) as nat)
                >= gadget.built)) ==> run(gadget, profile, outcomes).error == gadget.error,
{
    lemma_teardown_progress(gadget, profile, outcomes, outcomes.len());
    assert(outcomes.take(outcomes.len() as int) =~= outcomes);
}

/// How far a teardown is after the first `m` of its outcomes.
proof fn lemma_teardown_progress(
    gadget: GadgetView,
    profile: ReportDescriptorView,
    outcomes: Seq<OutcomeView>,
    m: nat,
)
    requires
        gadget.wf(profile),
        gadget.state == GadgetState::Destroying,
        gadget.removed + outcomes.len() == teardown_len(gadget.count),
        m <= outcomes.len(),
    ensures
        ({
            let after = run(gadget, profile, outcomes.take(m as int));
            &&& after.removed == gadget.removed + m
            &&& after.built == gadget.built
            &&& after.count == gadget.count
            &&& after.slots == gadget.slots
            &&& after.state == if m == outcomes.len() {
                GadgetState::Destroyed
            } else {
                GadgetState::Destroying
            }
            &&& gadget.error is Some ==> after.error == gadget.error
            &&& (forall|t: int|
                0 <= t < m ==> #[trigger] outcomes[t] == OutcomeView::Done || (outcomes[t]
                    == OutcomeView::Missing && maker(gadget.count, (gadget.removed + t) as nat)
                    >= gadget.built)) ==> after.error == gadget.error
        }),
    decreases m,
{
    if m > 0 {
        lemma_teardown_progress(gadget, profile, outcomes, (m - 1) as nat);
        assert(outcomes.take(m as int).drop_last() =~= outcomes.take(m - 1));
    }
}

/// A gadget's books stay in order whatever is recorded for it: if they
/// are in order before an outcome is recorded, before creation begins or
/// before teardown is asked for, they are in order after it.
pub proof fn lemma_books_stay_in_order(
    gadget: GadgetView,
    profile: ReportDescriptorView,
    outcome: OutcomeView,
    cause: Option<GadgetError>,
)
    requires
        gadget.wf(profile),
    ensures
        gadget.begun().wf(profile),
        gadget.doomed(cause).wf(profile),
        gadget.step(profile, outcome).wf(profile),
{
    let count = gadget.count;
    lemma_creation_plan_shape(profile, count, None);
    lemma_creation_plan_shape(profile, count, gadget.controller);
    assert(gadget.begun().wf(profile)) by {
        if gadget.state == GadgetState::Uninitialized {
        }
    }
    if gadget.state == GadgetState::Creating {
        let after = gadget.step(profile, outcome);
        let plan = gadget.creation(profile);
        lemma_creation_plan_reads(profile, count, gadget.controller, gadget.built);
        lemma_creation_plan_reads(profile, count, gadget.controller, gadget.built + 1);
        if after.state != GadgetState::Destroying {
            lemma_creation_plan_shape(profile, count, after.controller);
            lemma_creation_plan_reads(profile, count, after.controller, after.built);
            assert forall|i: int| 0 <= i < after.built implies after.creation(profile)[i]
                == plan[i] by {}
            lemma_reads_agree(after.creation(profile), plan, after.built);
        }
    }
}

/// Taking a free device out of the pool of an active gadget, and giving
/// a taken device back to any gadget, keep the gadget's books in order.
pub proof fn lemma_pool_stays_in_order(
    gadget: GadgetView,
    profile: ReportDescriptorView,
    index: nat,
)
    requires
        gadget.wf(profile),
        index < gadget.slots.len(),
    ensures
        gadget.state == GadgetState::Active && !gadget.slots[index as int].taken
            ==> gadget.taking(index).wf(profile),
        gadget.can_release(index) ==> gadget.releasing(index).wf(profile),
{
    if gadget.can_release(index) {
    }
}

} // verus!
