//! The runs of a scan: what a scan has asked for and accepted after a
//! sequence of events, and the rules that every exchange in a run keeps.

use crate::config::ConfigView;
use crate::machine::{
    awaits, exchange, initial, lemma_initial_inv, lemma_next_exchange, lemma_next_inv, ScanState,
};
use crate::protocol::{ActionView, EntryView, EventView};
use vstd::prelude::*;

verus! {

/// A scan after a sequence of events: the state reached, every action asked
/// for so far, the events that were accepted, and the entries that were
/// taken up from among the pending. The first action is the one that the
/// scan starts with; after it, `actions[k + 1]` is what the scan asked for
/// on `accepted[k]`.
pub struct Run {
    pub state: ScanState,
    pub actions: Seq<ActionView>,
    pub accepted: Seq<EventView>,
    pub taken: Seq<EntryView>,
}

/// The run of a scan of `config` that is handed `events` one by one. An
/// event that the scan does not accept leaves the run as it is.
pub open spec fn run(config: ConfigView, events: Seq<EventView>) -> Run
    decreases events.len(),
{
    if events.len() == 0 {
        Run {
            state: initial(config).0,
            actions: seq![initial(config).1.action],
            accepted: Seq::empty(),
            taken: Seq::empty(),
        }
    } else {
        let before = run(config, events.drop_last());
        match before.state.step(events.last()) {
            Some((state, output)) => Run {
                state,
                actions: before.actions.push(output.action),
                accepted: before.accepted.push(events.last()),
                taken: if before.state.phase is Advance && before.state.pending.len() > 0 {
                    before.taken.push(before.state.pending.last())
                } else {
                    before.taken
                },
            },
            None => before,
        }
    }
}

/// The entries that the event at place `m` of `accepted` lists; none if it
/// is no listing.
pub open spec fn listing_at(accepted: Seq<EventView>, m: int) -> Seq<EntryView> {
    match accepted[m] {
        EventView::Listed(Some(entries)) => entries,
        _ => Seq::empty(),
    }
}

/// All the entries that the listings in `accepted` hold, in the order in
/// which they were handed over.
pub open spec fn all_listed(accepted: Seq<EventView>) -> Seq<EntryView>
    decreases accepted.len(),
{
    if accepted.len() == 0 {
        Seq::empty()
    } else {
        all_listed(accepted.drop_last()) + listing_at(accepted, accepted.len() - 1)
    }
}

/// Every run keeps the scan's invariant and configuration, and holds one
/// action for the start and one for each accepted event. What a run asked
/// for, accepted and recorded, the run of one more event holds in the same
/// places.
pub proof fn lemma_run_shape(config: ConfigView, events: Seq<EventView>)
    ensures
        run(config, events).state.inv(),
        run(config, events).state.config == config,
        run(config, events).actions.len() == run(config, events).accepted.len() + 1,
        run(config, events).actions[0] == initial(config).1.action,
        events.len() > 0 ==> {
            let before = run(config, events.drop_last());
            let now = run(config, events);
            &&& before.actions.is_prefix_of(now.actions)
            &&& before.accepted.is_prefix_of(now.accepted)
            &&& before.state.visited.is_prefix_of(now.state.visited)
        },
    decreases events.len(),
{
    if events.len() == 0 {
        lemma_initial_inv(config);
    } else {
        lemma_run_shape(config, events.drop_last());
        let before = run(config, events.drop_last());
        if before.state.accepts(events.last()) {
            lemma_next_inv(before.state, events.last());
        }
    }
}

spec fn conversing(r: Run) -> bool {
    &&& awaits(r.state.phase, r.actions.last())
    &&& forall|k: int|
        0 <= k < r.accepted.len() ==> exchange(
            r.state.config,
            r.actions[k],
            #[trigger] r.accepted[k],
            r.actions[k + 1],
        )
}

proof fn lemma_conversing(config: ConfigView, events: Seq<EventView>)
    ensures
        conversing(run(config, events)),
    decreases events.len(),
{
    lemma_run_shape(config, events);
    if events.len() == 0 {
        lemma_initial_inv(config);
    } else {
        lemma_conversing(config, events.drop_last());
        lemma_run_shape(config, events.drop_last());
        let before = run(config, events.drop_last());
        if before.state.accepts(events.last()) {
            lemma_next_exchange(before.state, before.actions.last(), events.last());
        }
    }
}

/// Every exchange of a run keeps the rules: what the scan asked for after
/// an event is a fit reply to that event and to what it had asked before.
pub proof fn lemma_run_keeps_exchange(config: ConfigView, events: Seq<EventView>, k: int)
    requires
        0 <= k < run(config, events).accepted.len(),
    ensures
        exchange(
            config,
            run(config, events).actions[k],
            run(config, events).accepted[k],
            run(config, events).actions[k + 1],
        ),
{
    lemma_conversing(config, events);
    lemma_run_shape(config, events);
}

/// A scan waits for the answer to the last thing that it asked for.
pub proof fn lemma_run_awaits_last(config: ConfigView, events: Seq<EventView>)
    ensures
        awaits(run(config, events).state.phase, run(config, events).actions.last()),
{
    lemma_conversing(config, events);
}

/// A scan that has ended with a count has no entry pending, and the count
/// that it ended with is the count of its state.
pub proof fn lemma_finished_scan_has_nothing_pending(config: ConfigView, events: Seq<EventView>)
    requires
        run(config, events).actions.last() matches ActionView::Finish(Ok(_)),
    ensures
        run(config, events).state.pending.len() == 0,
        run(config, events).state.phase is Done,
        run(config, events).actions.last() == ActionView::Finish(
            Ok(run(config, events).state.count),
        ),
    decreases events.len(),
{
    lemma_run_shape(config, events);
    if events.len() > 0 {
        lemma_run_shape(config, events.drop_last());
        lemma_conversing(config, events.drop_last());
        let before = run(config, events.drop_last());
        if !before.state.accepts(events.last()) {
            lemma_finished_scan_has_nothing_pending(config, events.drop_last());
        }
    }
}

} // verus!
