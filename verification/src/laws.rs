//! What holds of the operations taken together.
use vstd::prelude::*;
use crate::events::{ChildEventModel, EventModel, event_id};
use crate::forward::{ForwarderModel, advanced, table_after, told};
use crate::registry::{registered, taken};

verus! {

/// The identifiers of a sequence of started runs.
pub open spec fn run_ids<H>(runs: Seq<(Seq<char>, H)>) -> Seq<Seq<char>> {
    runs.map_values(|run: (Seq<char>, H)| run.0)
}

/// The table after the runs of `runs` have been registered one after the
/// other, starting from `table`.
pub open spec fn after_spawns<H>(table: Map<Seq<char>, H>, runs: Seq<(Seq<char>, H)>) -> Map<
    Seq<char>,
    H,
>
    decreases runs.len(),
{
    if runs.len() == 0 {
        table
    } else {
        registered(after_spawns(table, runs.drop_last()), runs.last().0, runs.last().1)
    }
}

/// Spawns under distinct identifiers all succeed, and afterwards the live
/// runs are exactly the spawned ones, each with its own handle.
pub proof fn lemma_distinct_spawns_are_listed<H>(runs: Seq<(Seq<char>, H)>)
    requires
        run_ids(runs).no_duplicates(),
    ensures
        after_spawns(Map::<Seq<char>, H>::empty(), runs).dom() == run_ids(runs).to_set(),
        forall|i: int|
            0 <= i < runs.len() ==> !(#[trigger] after_spawns(
                Map::<Seq<char>, H>::empty(),
                runs.take(i),
            )).contains_key(runs[i].0),
        forall|i: int|
            0 <= i < runs.len() ==> after_spawns(Map::<Seq<char>, H>::empty(), runs)[(
                #[trigger] runs[i]).0] == runs[i].1,
    decreases runs.len(),
{
    let empty = Map::<Seq<char>, H>::empty();
    if runs.len() == 0 {
        assert(after_spawns(empty, runs).dom() =~= run_ids(runs).to_set());
    } else {
        let front = runs.drop_last();
        let last = runs.last();
        assert forall|i: int, j: int| 0 <= i < j < front.len() implies run_ids(front)[i]
            != run_ids(front)[j] by {
            assert(run_ids(runs)[i] != run_ids(runs)[j]);
        }
        lemma_distinct_spawns_are_listed(front);
        let before = after_spawns(empty, front);
        assert(!before.contains_key(last.0)) by {
            if before.dom().contains(last.0) {
                assert(run_ids(front).to_set().contains(last.0));
                let j = choose|j: int| 0 <= j < front.len() && run_ids(front)[j] == last.0;
                assert(run_ids(runs)[j] == run_ids(runs)[runs.len() - 1]);
            }
        }
        assert forall|id: Seq<char>| after_spawns(empty, runs).dom().contains(id) <==> run_ids(
            runs,
        ).to_set().contains(id) by {
            if run_ids(runs).to_set().contains(id) {
                let j = choose|j: int| 0 <= j < runs.len() && run_ids(runs)[j] == id;
                if j < front.len() {
                    assert(run_ids(front)[j] == id);
                    assert(run_ids(front).to_set().contains(id));
                }
            }
            if before.dom().contains(id) {
                assert(run_ids(front).to_set().contains(id));
                let j = choose|j: int| 0 <= j < front.len() && run_ids(front)[j] == id;
                assert(run_ids(runs)[j] == id);
            }
            if id == last.0 {
                assert(run_ids(runs)[runs.len() - 1] == id);
            }
        }
        assert(after_spawns(empty, runs).dom() =~= run_ids(runs).to_set());
        assert forall|i: int| 0 <= i < runs.len() implies !(#[trigger] after_spawns(
            empty,
            runs.take(i),
        )).contains_key(runs[i].0) by {
            if i < front.len() {
                assert(front.take(i) =~= runs.take(i));
                assert(front[i] == runs[i]);
            } else {
                assert(runs.take(i) =~= front);
            }
        }
        assert forall|i: int| 0 <= i < runs.len() implies after_spawns(empty, runs)[(
            #[trigger] runs[i]).0] == runs[i].1 by {
            if i < front.len() {
                assert(front[i] == runs[i]);
                assert(run_ids(runs)[i] != run_ids(runs)[runs.len() - 1]);
            }
        }
    }
}

/// The state of a forwarding loop that started in `state` and has handled
/// `reports` in order.
pub open spec fn loop_state(state: ForwarderModel, reports: Seq<ChildEventModel>) -> ForwarderModel
    decreases reports.len(),
{
    if reports.len() == 0 {
        state
    } else {
        advanced(loop_state(state, reports.drop_last()), reports.last())
    }
}

/// The notifications that the loop has told while it handled `reports`, in
/// the order in which it told them.
pub open spec fn loop_told(state: ForwarderModel, reports: Seq<ChildEventModel>) -> Seq<EventModel>
    decreases reports.len(),
{
    if reports.len() == 0 {
        Seq::empty()
    } else {
        let earlier = loop_told(state, reports.drop_last());
        match told(loop_state(state, reports.drop_last()), reports.last()) {
            Some(event) => earlier.push(event),
            None => earlier,
        }
    }
}

/// The table of live runs after the loop has handled `reports`.
pub open spec fn loop_table<H>(
    table: Map<Seq<char>, H>,
    state: ForwarderModel,
    reports: Seq<ChildEventModel>,
) -> Map<Seq<char>, H>
    decreases reports.len(),
{
    if reports.len() == 0 {
        table
    } else {
        table_after(
            loop_table(table, state, reports.drop_last()),
            loop_state(state, reports.drop_last()),
            reports.last(),
        )
    }
}

/// A loop that has forwarded the end of its run tells nothing more and
/// leaves the table alone, whatever is reported to it.
pub proof fn lemma_finished_loop_is_silent<H>(
    table: Map<Seq<char>, H>,
    state: ForwarderModel,
    reports: Seq<ChildEventModel>,
)
    requires
        state.finished,
    ensures
        loop_state(state, reports) == state,
        loop_told(state, reports) == Seq::<EventModel>::empty(),
        loop_table(table, state, reports) == table,
    decreases reports.len(),
{
    if reports.len() > 0 {
        lemma_finished_loop_is_silent(table, state, reports.drop_last());
    }
}

/// Every notification of a loop is about the loop's own run. An exit is
/// told at most once, as the last notification, and exactly when the end of
/// the child was among the reports; from then on the loop has finished and
/// the run is no longer in the table.
pub proof fn lemma_exit_is_told_last<H>(
    table: Map<Seq<char>, H>,
    state: ForwarderModel,
    reports: Seq<ChildEventModel>,
)
    requires
        !state.finished,
    ensures
        loop_state(state, reports).id == state.id,
        forall|i: int|
            0 <= i < loop_told(state, reports).len() ==> event_id(
                #[trigger] loop_told(state, reports)[i],
            ) == state.id,
        forall|i: int|
            0 <= i < loop_told(state, reports).len() && (#[trigger] loop_told(
                state,
                reports,
            )[i]) is Exit ==> i == loop_told(state, reports).len() - 1,
        loop_state(state, reports).finished <==> exists|k: int|
            0 <= k < reports.len() && (#[trigger] reports[k]) is Terminated,
        loop_state(state, reports).finished <==> loop_told(state, reports).len() > 0 && loop_told(
            state,
            reports,
        ).last() is Exit,
        loop_state(state, reports).finished ==> !loop_table(table, state, reports).contains_key(
            state.id,
        ),
        !loop_state(state, reports).finished ==> loop_table(table, state, reports) == table,
    decreases reports.len(),
{
    if reports.len() > 0 {
        let front = reports.drop_last();
        let last = reports.last();
        lemma_exit_is_told_last(table, state, front);
        let before = loop_state(state, front);
        let earlier = loop_told(state, front);
        if before.finished {
            let k = choose|k: int| 0 <= k < front.len() && (#[trigger] front[k]) is Terminated;
            assert(reports[k] is Terminated);
        } else {
            if last is Terminated {
                assert(reports[reports.len() - 1] is Terminated);
            } else {
                if exists|k: int| 0 <= k < reports.len() && (#[trigger] reports[k]) is Terminated {
                    let k = choose|k: int|
                        0 <= k < reports.len() && (#[trigger] reports[k]) is Terminated;
                    assert(front[k] is Terminated);
                }
            }
            assert(earlier.len() > 0 ==> !(earlier.last() is Exit));
            assert forall|i: int| 0 <= i < earlier.len() implies !((#[trigger] earlier[i]) is Exit) by {
                if earlier[i] is Exit {
                    assert(i == earlier.len() - 1);
                }
            }
        }
    }
}

/// Kill and natural exit may come in either order. Whichever removal comes
/// first takes the run's handle and the other finds nothing to take; the
/// table ends without the run either way, and the loop tells one exit and
/// nothing after it.
pub proof fn lemma_kill_and_exit_race<H>(
    table: Map<Seq<char>, H>,
    state: ForwarderModel,
    code: Option<i32>,
    later: ChildEventModel,
)
    requires
        !state.finished,
        table.contains_key(state.id),
    ensures
        taken(table, state.id) == Some(table[state.id]),
        taken(table.remove(state.id), state.id) == None::<H>,
        table_after(table.remove(state.id), state, ChildEventModel::Terminated(code))
            == table.remove(state.id),
        table_after(table, state, ChildEventModel::Terminated(code)).remove(state.id)
            == table.remove(state.id),
        taken(table_after(table, state, ChildEventModel::Terminated(code)), state.id) == None::<H>,
        told(state, ChildEventModel::Terminated(code)) == Some(
            EventModel::Exit { id: state.id, code },
        ),
        told(advanced(state, ChildEventModel::Terminated(code)), later) == None::<EventModel>,
{
    assert(table.remove(state.id).remove(state.id) =~= table.remove(state.id));
}

} // verus!
