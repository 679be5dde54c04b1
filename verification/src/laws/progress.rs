//! A scan loses no entry and comes to an end.

use crate::config::ConfigView;
use crate::laws::run::{all_listed, lemma_finished_scan_has_nothing_pending, listing_at, run};
use crate::machine::{lemma_next_progress, listed_by, remaining_work, PhaseView};
use crate::protocol::{ActionView, EntryView, EventView};
use vstd::multiset::Multiset;
use vstd::prelude::*;
use vstd::seq_lib::{group_to_multiset_ensures, lemma_multiset_commutative};

verus! {

/// No listed entry is lost and none is taken up twice: at every moment the
/// entries listed so far are those taken up so far together with those that
/// are pending, each as often as it was listed. A scan that ends with a
/// count has nothing pending, so it has taken up every entry that was
/// listed to it.
pub proof fn lemma_listed_entries_are_conserved(config: ConfigView, events: Seq<EventView>)
    ensures
        run(config, events).taken.to_multiset().add(run(config, events).state.pending.to_multiset())
            == all_listed(run(config, events).accepted).to_multiset(),
        run(config, events).actions.last() matches ActionView::Finish(Ok(_)) ==> run(
            config,
            events,
        ).taken.to_multiset() == all_listed(run(config, events).accepted).to_multiset(),
    decreases events.len(),
{
    broadcast use group_to_multiset_ensures;

    let now = run(config, events);
    if events.len() > 0 {
        lemma_listed_entries_are_conserved(config, events.drop_last());
        let before = run(config, events.drop_last());
        let event = events.last();
        if before.state.accepts(event) {
            let waiting = before.state.pending;
            let new = listing_at(now.accepted, before.accepted.len() as int);
            assert(now.accepted.drop_last() =~= before.accepted);
            lemma_multiset_commutative(all_listed(before.accepted), new);
            if let EventView::Listed(Some(entries)) = event {
                entries.lemma_reverse_to_multiset();
                lemma_multiset_commutative(waiting, entries.reverse());
            }
            if before.state.phase is Advance && waiting.len() > 0 {
                assert(waiting =~= waiting.drop_last().push(waiting.last()));
            }
        }
    }
    if now.actions.last() matches ActionView::Finish(Ok(_)) {
        lemma_finished_scan_has_nothing_pending(config, events);
        assert(now.taken.to_multiset().add(now.state.pending.to_multiset())
            =~= now.taken.to_multiset());
    }
}

/// A scan takes at most eight steps for each entry that is listed to it,
/// and two more. No loop among the links can keep it going: it goes on only
/// as long as it is handed entries, and it asks for the entries of an
/// identity once at most.
pub proof fn lemma_steps_are_bounded(config: ConfigView, events: Seq<EventView>)
    ensures
        run(config, events).accepted.len() + remaining_work(run(config, events).state) <= 8
            * all_listed(run(config, events).accepted).len() + 2,
    decreases events.len(),
{
    if events.len() > 0 {
        lemma_steps_are_bounded(config, events.drop_last());
        let before = run(config, events.drop_last());
        let now = run(config, events);
        let event = events.last();
        if before.state.accepts(event) {
            lemma_next_progress(before.state, event);
            assert(now.accepted.drop_last() =~= before.accepted);
        }
    }
}

} // verus!
