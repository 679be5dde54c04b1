//! Which files are deleted, and what the count counts.

use crate::config::ConfigView;
use crate::confirm::says_yes;
use crate::digest::digest_text;
use crate::laws::run::{
    lemma_finished_scan_has_nothing_pending, lemma_run_awaits_last, lemma_run_keeps_exchange,
    lemma_run_shape, run,
};
use crate::protocol::{ActionView, EventView};
use vstd::prelude::*;

verus! {

/// The operator is asked only in an interactive scan.
pub proof fn lemma_asks_only_if_interactive(config: ConfigView, events: Seq<EventView>, k: int)
    requires
        0 <= k < run(config, events).actions.len(),
        run(config, events).actions[k] is Confirm,
    ensures
        config.interactive,
{
    lemma_run_shape(config, events);
    lemma_run_keeps_exchange(config, events, k - 1);
}

/// In a scan that is not interactive, what is done with a file that was
/// read depends on its digest alone: it is deleted if the digest is wanted,
/// and left alone if it is not or if the file could not be read.
pub proof fn lemma_wanted_file_is_deleted(config: ConfigView, events: Seq<EventView>, k: int)
    requires
        !config.interactive,
        0 <= k < run(config, events).accepted.len(),
        run(config, events).actions[k] is Read,
    ensures
        run(config, events).accepted[k] is Content,
        match run(config, events).accepted[k]->Content_0 {
            Some(bytes) => if config.wants(digest_text(config.algorithm, bytes)) {
                run(config, events).actions[k + 1] == (ActionView::Delete {
                    path: run(config, events).actions[k]->Read_path,
                })
            } else {
                run(config, events).actions[k + 1] == ActionView::Continue
            },
            None => run(config, events).actions[k + 1] == ActionView::Continue,
        },
{
    lemma_run_shape(config, events);
    lemma_run_keeps_exchange(config, events, k);
}

/// In a scan that is not interactive, a file is deleted only right after it
/// was read and its digest found to be wanted.
pub proof fn lemma_deleted_file_was_wanted(config: ConfigView, events: Seq<EventView>, k: int)
    requires
        !config.interactive,
        0 <= k < run(config, events).accepted.len(),
        run(config, events).actions[k + 1] is Delete,
    ensures
        run(config, events).actions[k] is Read,
        run(config, events).actions[k]->Read_path == run(config, events).actions[k
            + 1]->Delete_path,
        run(config, events).accepted[k] matches EventView::Content(Some(bytes)) && config.wants(
            digest_text(config.algorithm, bytes),
        ),
{
    lemma_run_shape(config, events);
    lemma_run_keeps_exchange(config, events, k);
    if run(config, events).actions[k] is Confirm {
        lemma_asks_only_if_interactive(config, events, k);
    }
}

/// In an interactive scan the operator is asked about a file exactly when
/// it was read and its digest found to be wanted; and a file is deleted
/// exactly when the operator said yes to the question about it.
pub proof fn lemma_deletion_follows_consent(config: ConfigView, events: Seq<EventView>, k: int)
    requires
        config.interactive,
        0 <= k < run(config, events).accepted.len(),
    ensures
        run(config, events).actions[k + 1] is Confirm <==> (run(
            config,
            events,
        ).accepted[k] matches EventView::Content(Some(bytes)) && config.wants(
            digest_text(config.algorithm, bytes),
        )),
        run(config, events).actions[k + 1] is Confirm ==> run(config, events).actions[k] is Read
            && run(config, events).actions[k]->Read_path == run(config, events).actions[k
            + 1]->Confirm_path,
        run(config, events).actions[k + 1] is Delete <==> (run(
            config,
            events,
        ).accepted[k] matches EventView::Answer(answer) && says_yes(answer)),
        run(config, events).actions[k + 1] is Delete ==> run(config, events).actions[k]
            == (ActionView::Confirm { path: run(config, events).actions[k + 1]->Delete_path }),
{
    lemma_run_shape(config, events);
    lemma_run_keeps_exchange(config, events, k);
}

/// The number of events in `accepted` that report a successful deletion.
pub open spec fn deletions(accepted: Seq<EventView>) -> nat
    decreases accepted.len(),
{
    if accepted.len() == 0 {
        0
    } else {
        deletions(accepted.drop_last()) + if accepted.last() == EventView::Deleted(true) {
            1nat
        } else {
            0nat
        }
    }
}

/// The number of events in `accepted` that hand over the content of a file
/// whose digest is wanted.
pub open spec fn wanted_contents(config: ConfigView, accepted: Seq<EventView>) -> nat
    decreases accepted.len(),
{
    if accepted.len() == 0 {
        0
    } else {
        let wanted = accepted.last() matches EventView::Content(Some(bytes)) && config.wants(
            digest_text(config.algorithm, bytes),
        );
        wanted_contents(config, accepted.drop_last()) + if wanted {
            1nat
        } else {
            0nat
        }
    }
}

/// Whether no event in `accepted` reports a deletion that failed.
pub open spec fn no_deletion_failed(accepted: Seq<EventView>) -> bool {
    forall|k: int| 0 <= k < accepted.len() ==> #[trigger] accepted[k] != EventView::Deleted(false)
}

/// The count of a scan is the number of deletions that succeeded: nothing
/// else raises it, and nothing lowers it.
pub proof fn lemma_count_is_deletions(config: ConfigView, events: Seq<EventView>)
    ensures
        run(config, events).state.count == deletions(run(config, events).accepted),
    decreases events.len(),
{
    if events.len() > 0 {
        lemma_count_is_deletions(config, events.drop_last());
        let before = run(config, events.drop_last());
        if before.state.accepts(events.last()) {
            assert(run(config, events).accepted.drop_last() =~= before.accepted);
        }
    }
}

/// In a scan that is not interactive and in which no deletion fails, the
/// count is the number of files read whose digest was wanted, less the one
/// whose deletion is still awaited. The count that such a scan ends with is
/// exactly that number.
pub proof fn lemma_count_is_wanted_files(config: ConfigView, events: Seq<EventView>)
    requires
        !config.interactive,
        no_deletion_failed(run(config, events).accepted),
    ensures
        run(config, events).state.count + (if run(config, events).state.phase is Deleting {
            1nat
        } else {
            0nat
        }) == wanted_contents(config, run(config, events).accepted),
        run(config, events).actions.last() matches ActionView::Finish(Ok(count)) ==> count
            == wanted_contents(config, run(config, events).accepted),
    decreases events.len(),
{
    lemma_run_shape(config, events);
    if run(config, events).actions.last() matches ActionView::Finish(Ok(_)) {
        lemma_finished_scan_has_nothing_pending(config, events);
    }
    if events.len() > 0 {
        lemma_run_shape(config, events.drop_last());
        lemma_run_awaits_last(config, events.drop_last());
        let before = run(config, events.drop_last());
        assert(no_deletion_failed(before.accepted));
        lemma_count_is_wanted_files(config, events.drop_last());
        if before.state.phase is Confirming {
            lemma_asks_only_if_interactive(config, events.drop_last(), before.actions.len() - 1);
        }
    }
}

} // verus!
