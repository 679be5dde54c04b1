//! What a scan leaves alone: subdirectories when it is not recursive,
//! symbolic links when it ignores them, and everything that was not listed
//! to it.

use crate::config::ConfigView;
use crate::laws::run::{lemma_run_keeps_exchange, lemma_run_shape, listing_at, run, Run};
use crate::machine::PhaseView;
use crate::protocol::{ActionView, EntryView, EventView};
use vstd::prelude::*;

verus! {

/// In a scan that is not recursive, the root is the only directory that is
/// ever listed.
pub proof fn lemma_flat_scan_lists_root_only(config: ConfigView, events: Seq<EventView>, k: int)
    requires
        !config.recursive,
        1 <= k < run(config, events).actions.len(),
    ensures
        !(run(config, events).actions[k] is List),
{
    lemma_run_shape(config, events);
    lemma_run_keeps_exchange(config, events, k - 1);
}

/// In a scan that ignores symbolic links, no link is ever resolved.
pub proof fn lemma_ignored_links_are_not_resolved(
    config: ConfigView,
    events: Seq<EventView>,
    k: int,
)
    requires
        config.ignore_symlinks,
        0 <= k < run(config, events).actions.len(),
    ensures
        !(run(config, events).actions[k] is ReadLink),
{
    lemma_run_shape(config, events);
    if k > 0 {
        lemma_run_keeps_exchange(config, events, k - 1);
    }
}

/// Whether `entry` is entry number `i` of the listing at place `m` of
/// `accepted`, and that listing is one that the scan may take entries from:
/// in a scan that is not recursive, only the first event, the listing of
/// the root.
pub open spec fn stems_from(
    config: ConfigView,
    accepted: Seq<EventView>,
    m: int,
    i: int,
    entry: EntryView,
) -> bool {
    &&& 0 <= m < accepted.len()
    &&& 0 <= i < listing_at(accepted, m).len()
    &&& listing_at(accepted, m)[i] == entry
    &&& !config.recursive ==> m == 0
}

/// Whether `path` is the path of a listed entry that the scan may work on:
/// one that stems from a listing and, in a scan that ignores symbolic
/// links, is no link.
pub open spec fn is_workable(
    config: ConfigView,
    accepted: Seq<EventView>,
    path: Seq<char>,
) -> bool {
    exists|m: int, i: int, entry: EntryView| #[trigger]
        stems_from(config, accepted, m, i, entry) && entry.path == path && (config.ignore_symlinks
            ==> !entry.is_symlink)
}

/// The path of the entry that an action works on. A classification works on
/// no entry: it looks at an identity.
pub open spec fn entry_path(action: ActionView) -> Option<Seq<char>> {
    match action {
        ActionView::List { path, .. } => Some(path),
        ActionView::ReadLink { path } => Some(path),
        ActionView::Read { path, .. } => Some(path),
        ActionView::Confirm { path } => Some(path),
        ActionView::Delete { path } => Some(path),
        _ => None,
    }
}

spec fn path_in_hand(phase: PhaseView) -> Option<Seq<char>> {
    match phase {
        PhaseView::Resolving { path } => Some(path),
        PhaseView::Resolved { path, .. } => Some(path),
        PhaseView::Classifying { path, .. } => Some(path),
        PhaseView::Reading { path } => Some(path),
        PhaseView::Confirming { path } => Some(path),
        PhaseView::Deleting { path } => Some(path),
        _ => None,
    }
}

spec fn has_origin(config: ConfigView, accepted: Seq<EventView>, entry: EntryView) -> bool {
    exists|m: int, i: int| #[trigger] stems_from(config, accepted, m, i, entry)
}

spec fn grounded(r: Run) -> bool {
    let config = r.state.config;
    &&& forall|q: int|
        0 <= q < r.state.pending.len() ==> has_origin(
            config,
            r.accepted,
            #[trigger] r.state.pending[q],
        )
    &&& path_in_hand(r.state.phase) matches Some(path) ==> is_workable(config, r.accepted, path)
    &&& forall|k: int|
        1 <= k < r.actions.len() ==> (#[trigger] entry_path(r.actions[k]) matches Some(path)
            ==> is_workable(config, r.accepted, path))
    &&& forall|k: int|
        0 <= k < r.actions.len() && config.ignore_symlinks ==> (
        #[trigger] r.actions[k] matches ActionView::Classify { identity } ==> is_workable(
            config,
            r.accepted,
            identity,
        ))
    &&& config.ignore_symlinks ==> (r.state.phase matches PhaseView::Classifying {
        path,
        identity,
    } ==> identity == path)
    &&& config.ignore_symlinks ==> !(r.state.phase is Resolving) && !(r.state.phase is Resolved)
    &&& !config.recursive && r.state.phase is Listing ==> r.accepted.len() == 0
}

proof fn lemma_stems_after_push(
    config: ConfigView,
    accepted: Seq<EventView>,
    event: EventView,
    m: int,
    i: int,
    entry: EntryView,
)
    requires
        stems_from(config, accepted, m, i, entry),
    ensures
        stems_from(config, accepted.push(event), m, i, entry),
{
    assert(accepted.push(event)[m] == accepted[m]);
}

proof fn lemma_workable_after_push(
    config: ConfigView,
    accepted: Seq<EventView>,
    event: EventView,
    path: Seq<char>,
)
    requires
        is_workable(config, accepted, path),
    ensures
        is_workable(config, accepted.push(event), path),
{
    let (m, i, entry) = choose|m: int, i: int, entry: EntryView| #[trigger]
        stems_from(config, accepted, m, i, entry) && entry.path == path && (config.ignore_symlinks
            ==> !entry.is_symlink);
    lemma_stems_after_push(config, accepted, event, m, i, entry);
}

proof fn lemma_grounded(config: ConfigView, events: Seq<EventView>)
    ensures
        grounded(run(config, events)),
    decreases events.len(),
{
    lemma_run_shape(config, events);
    if events.len() > 0 {
        lemma_grounded(config, events.drop_last());
        lemma_run_shape(config, events.drop_last());
        let before = run(config, events.drop_last());
        let now = run(config, events);
        let event = events.last();
        if before.state.accepts(event) {
            let n = before.accepted.len() as int;
            let waiting = before.state.pending;
            assert forall|path: Seq<char>|
                is_workable(config, before.accepted, path) implies is_workable(
                config,
                now.accepted,
                path,
            ) by {
                lemma_workable_after_push(config, before.accepted, event, path);
            }
            assert forall|q: int| 0 <= q < waiting.len() implies has_origin(
                config,
                now.accepted,
                #[trigger] waiting[q],
            ) by {
                let (m, i) = choose|m: int, i: int| #[trigger]
                    stems_from(config, before.accepted, m, i, waiting[q]);
                lemma_stems_after_push(config, before.accepted, event, m, i, waiting[q]);
            }
            if before.state.phase is Advance && waiting.len() > 0 {
                // The entry that is taken up stems from a listing.
                let (m, i) = choose|m: int, i: int| #[trigger]
                    stems_from(config, now.accepted, m, i, waiting.last());
                assert(stems_from(config, now.accepted, m, i, waiting.last()));
            }
            if let EventView::Listed(Some(entries)) = event {
                // The entries of a new listing stem from it.
                assert forall|q: int| waiting.len() <= q < now.state.pending.len() implies has_origin(
                    config,
                    now.accepted,
                    #[trigger] now.state.pending[q],
                ) by {
                    let i = entries.len() - 1 - (q - waiting.len());
                    assert(stems_from(config, now.accepted, n, i, now.state.pending[q]));
                }
            }
        }
    }
}

/// A scan works only on entries that were listed to it. Every path that it
/// asks to have listed, resolved, read, confirmed or deleted, the root's
/// first listing apart, is the path of an entry of a listing that it was
/// handed: in a scan that is not recursive, of the listing of the root; and
/// in a scan that ignores symbolic links, of an entry that is no link.
pub proof fn lemma_works_on_listed_entries(config: ConfigView, events: Seq<EventView>, k: int)
    requires
        1 <= k < run(config, events).actions.len(),
        entry_path(run(config, events).actions[k]) is Some,
    ensures
        is_workable(
            config,
            run(config, events).accepted,
            entry_path(run(config, events).actions[k])->0,
        ),
{
    lemma_grounded(config, events);
    lemma_run_shape(config, events);
}

/// In a scan that ignores symbolic links, every identity that is looked at
/// is the path of a listed entry that is no link: no link's target is ever
/// an identity.
pub proof fn lemma_ignored_links_give_no_identity(
    config: ConfigView,
    events: Seq<EventView>,
    k: int,
)
    requires
        config.ignore_symlinks,
        0 <= k < run(config, events).actions.len(),
        run(config, events).actions[k] is Classify,
    ensures
        is_workable(
            config,
            run(config, events).accepted,
            run(config, events).actions[k]->Classify_identity,
        ),
{
    lemma_grounded(config, events);
    lemma_run_shape(config, events);
}

} // verus!
