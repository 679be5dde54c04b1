//! No identity is handled twice.

use crate::config::ConfigView;
use crate::laws::run::{lemma_run_shape, run, Run};
use crate::machine::PhaseView;
use crate::protocol::{ActionView, EventView};
use vstd::prelude::*;

verus! {

/// The identity that an action has hashed or descended into, if it is such
/// an action.
pub open spec fn handled_identity(action: ActionView) -> Option<Seq<char>> {
    match action {
        ActionView::List { identity, .. } => Some(identity),
        ActionView::Read { identity, .. } => Some(identity),
        _ => None,
    }
}

spec fn handled_once(r: Run) -> bool {
    &&& forall|i: int|
        0 <= i < r.actions.len() ==> (#[trigger] handled_identity(r.actions[i]) matches Some(x)
            ==> r.state.visited.contains(x))
    &&& forall|i: int, j: int|
        0 <= i < j < r.actions.len() && #[trigger] handled_identity(r.actions[i]) is Some
            && #[trigger] handled_identity(r.actions[j]) is Some ==> handled_identity(r.actions[i])
            != handled_identity(r.actions[j])
    &&& r.state.phase matches PhaseView::Classifying { identity, .. } ==> forall|i: int|
        0 <= i < r.actions.len() ==> #[trigger] handled_identity(r.actions[i]) != Some(identity)
}

proof fn lemma_handled_once(config: ConfigView, events: Seq<EventView>)
    ensures
        handled_once(run(config, events)),
    decreases events.len(),
{
    let now = run(config, events);
    if events.len() == 0 {
        assert(now.state.visited[0] == config.root);
    } else {
        lemma_handled_once(config, events.drop_last());
        lemma_run_shape(config, events.drop_last());
        lemma_run_shape(config, events);
        let before = run(config, events.drop_last());
        if before.state.accepts(events.last()) {
            let seen = before.state.visited;
            assert forall|x: Seq<char>| seen.contains(x) implies now.state.visited.contains(x) by {
                let k = choose|k: int| 0 <= k < seen.len() && seen[k] == x;
                assert(now.state.visited[k] == x);
            }
        }
    }
}

/// No identity is handled twice: among all that a scan ever asks to be
/// read or listed, no two actions are for the same identity, however many
/// entries resolve to it.
pub proof fn lemma_identity_handled_at_most_once(
    config: ConfigView,
    events: Seq<EventView>,
    i: int,
    j: int,
)
    requires
        0 <= i < j < run(config, events).actions.len(),
        handled_identity(run(config, events).actions[i]) is Some,
    ensures
        handled_identity(run(config, events).actions[j]) != handled_identity(
            run(config, events).actions[i],
        ),
{
    lemma_handled_once(config, events);
}

/// Every identity that a scan has had read or listed is among the visited,
/// and stays there.
pub proof fn lemma_handled_identity_is_visited(config: ConfigView, events: Seq<EventView>, i: int)
    requires
        0 <= i < run(config, events).actions.len(),
        handled_identity(run(config, events).actions[i]) is Some,
    ensures
        run(config, events).state.visited.contains(
            handled_identity(run(config, events).actions[i])->0,
        ),
{
    lemma_handled_once(config, events);
}

} // verus!
