//! The scan as a transition system over mathematical values: its states, and
//! the state and output that follow from a state and an event.
//!
//! A scan walks a directory tree depth first. For each entry it settles the
//! entry's identity (the entry's own path, or the target of a symbolic
//! link), skips an identity that it has met before, descends into
//! directories, and has every other entry hashed, compared with the wanted
//! digests and, on a match, deleted.

use crate::config::ConfigView;
use crate::confirm::says_yes;
use crate::digest::digest_text;
use crate::protocol::{ActionView, EntryView, EventView, NoteKind, NoteView, OutputView, ScanError};
use crate::visited::{distinct, lemma_recorded_grows, recorded};
use vstd::prelude::*;

verus! {

/// What a scan is waiting for.
pub enum PhaseView {
    /// The listing of the directory at `path`; `root` tells whether it is
    /// the directory that the scan started at.
    Listing { path: Seq<char>, root: bool },
    /// The go-ahead to take up the next pending entry.
    Advance,
    /// The target of the symbolic link at `path`.
    Resolving { path: Seq<char> },
    /// The go-ahead to screen the resolved link at `path`.
    Resolved { path: Seq<char>, identity: Seq<char> },
    /// Whether `identity`, newly recorded for the entry at `path`, is a
    /// directory.
    Classifying { path: Seq<char>, identity: Seq<char> },
    /// The content of the file at `path`.
    Reading { path: Seq<char> },
    /// The operator's answer about the file at `path`.
    Confirming { path: Seq<char> },
    /// The outcome of deleting the file at `path`.
    Deleting { path: Seq<char> },
    /// Nothing: the scan is over.
    Done,
}

/// The state of a scan.
pub struct ScanState {
    /// What the scan was asked to do.
    pub config: ConfigView,
    /// The identities handled so far, the root first.
    pub visited: Seq<Seq<char>>,
    /// The entries that wait to be taken up; the last one is next.
    pub pending: Seq<EntryView>,
    /// The number of files deleted so far.
    pub count: nat,
    /// What the scan is waiting for.
    pub phase: PhaseView,
}

/// A note that is made only when the scan is verbose.
pub open spec fn remark(
    config: ConfigView,
    kind: NoteKind,
    path: Seq<char>,
    detail: Seq<char>,
) -> Option<NoteView> {
    if config.verbose {
        Some(NoteView { kind, path, detail })
    } else {
        None
    }
}

/// A note that is made whether or not the scan is verbose.
pub open spec fn warning(kind: NoteKind, path: Seq<char>) -> Option<NoteView> {
    Some(NoteView { kind, path, detail: Seq::empty() })
}

/// Whether a phase has an identity in hand that was recorded for an entry
/// whose handling has not ended.
pub open spec fn in_flight(phase: PhaseView) -> bool {
    match phase {
        PhaseView::Classifying { .. } => true,
        PhaseView::Reading { .. } => true,
        PhaseView::Confirming { .. } => true,
        PhaseView::Deleting { .. } => true,
        _ => false,
    }
}

/// The state in which a scan starts and the first thing it asks for: the
/// root is recorded as visited and is to be listed.
pub open spec fn initial(config: ConfigView) -> (ScanState, OutputView) {
    (
        ScanState {
            config,
            visited: seq![config.root],
            pending: Seq::empty(),
            count: 0,
            phase: PhaseView::Listing { path: config.root, root: true },
        },
        OutputView {
            note: remark(config, NoteKind::Scanning, config.root, Seq::empty()),
            action: ActionView::List { path: config.root, identity: config.root },
        },
    )
}

impl ScanState {
    /// The entry in hand is done with: the next step takes up another.
    pub open spec fn proceed(self, note: Option<NoteView>) -> (ScanState, OutputView) {
        (
            ScanState { phase: PhaseView::Advance, ..self },
            OutputView { note, action: ActionView::Continue },
        )
    }

    /// The guard against handling one identity twice. An identity that was
    /// met before ends the entry's handling. A new one is recorded, and the
    /// scan asks whether it is a directory.
    pub open spec fn screen(self, path: Seq<char>, identity: Seq<char>) -> (ScanState, OutputView) {
        if self.visited.contains(identity) {
            self.proceed(remark(self.config, NoteKind::IgnoringDuplicate, identity, Seq::empty()))
        } else {
            (
                ScanState {
                    visited: self.visited.push(identity),
                    phase: PhaseView::Classifying { path, identity },
                    ..self
                },
                OutputView { note: None, action: ActionView::Classify { identity } },
            )
        }
    }

    /// A directory was listed, or could not be. Its entries wait in front of
    /// all that waited before, in the order of the listing. A listing that
    /// failed ends the scan if it was the root's, and else only the handling
    /// of that directory.
    pub open spec fn on_listed(
        self,
        path: Seq<char>,
        root: bool,
        listing: Option<Seq<EntryView>>,
    ) -> (ScanState, OutputView) {
        match listing {
            Some(entries) => ScanState {
                pending: self.pending + entries.reverse(),
                ..self
            }.proceed(None),
            None => if root {
                (
                    ScanState { phase: PhaseView::Done, ..self },
                    OutputView {
                        note: warning(NoteKind::ListingFailed, path),
                        action: ActionView::Finish(Err(ScanError::RootUnreadable)),
                    },
                )
            } else {
                self.proceed(warning(NoteKind::ListingFailed, path))
            },
        }
    }

    /// The next pending entry is taken up; with none left the scan ends with
    /// its count. A symbolic link is skipped if links are ignored and else
    /// is to be resolved. Any other entry is its own identity.
    pub open spec fn on_advance(self) -> (ScanState, OutputView) {
        if self.pending.len() == 0 {
            (
                ScanState { phase: PhaseView::Done, ..self },
                OutputView { note: None, action: ActionView::Finish(Ok(self.count)) },
            )
        } else {
            let entry = self.pending.last();
            let rest = ScanState { pending: self.pending.drop_last(), ..self };
            if entry.is_symlink && self.config.ignore_symlinks {
                rest.proceed(
                    remark(self.config, NoteKind::IgnoringSymlink, entry.path, Seq::empty()),
                )
            } else if entry.is_symlink {
                (
                    ScanState { phase: PhaseView::Resolving { path: entry.path }, ..rest },
                    OutputView { note: None, action: ActionView::ReadLink { path: entry.path } },
                )
            } else {
                rest.screen(entry.path, entry.path)
            }
        }
    }

    /// The target of the link at `path` was read, or could not be. The
    /// target is the entry's identity; without one the entry's handling
    /// ends.
    pub open spec fn on_link_target(self, path: Seq<char>, target: Option<Seq<char>>) -> (
        ScanState,
        OutputView,
    ) {
        match target {
            Some(identity) => (
                ScanState { phase: PhaseView::Resolved { path, identity }, ..self },
                OutputView {
                    note: remark(self.config, NoteKind::ResolvingSymlink, path, identity),
                    action: ActionView::Continue,
                },
            ),
            None => self.proceed(warning(NoteKind::BrokenLink, path)),
        }
    }

    /// The kind of a new identity is known. A directory is recorded under
    /// the entry's own path too and listed, if the scan is recursive, and
    /// else left alone. Anything else is to be read.
    pub open spec fn on_classified(
        self,
        path: Seq<char>,
        identity: Seq<char>,
        is_directory: bool,
    ) -> (ScanState, OutputView) {
        if is_directory {
            if self.config.recursive {
                (
                    ScanState {
                        visited: recorded(self.visited, path),
                        phase: PhaseView::Listing { path, root: false },
                        ..self
                    },
                    OutputView {
                        note: remark(self.config, NoteKind::Scanning, path, Seq::empty()),
                        action: ActionView::List { path, identity },
                    },
                )
            } else {
                self.proceed(None)
            }
        } else {
            (
                ScanState { phase: PhaseView::Reading { path }, ..self },
                OutputView { note: None, action: ActionView::Read { path, identity } },
            )
        }
    }

    /// The content of the file at `path` was read, or could not be. A file
    /// whose digest is wanted is to be deleted, after the operator's yes if
    /// the scan is interactive. Any other file is left alone.
    pub open spec fn on_content(self, path: Seq<char>, content: Option<Seq<u8>>) -> (
        ScanState,
        OutputView,
    ) {
        match content {
            Some(bytes) => {
                let digest = digest_text(self.config.algorithm, bytes);
                let note = remark(self.config, NoteKind::Digest, path, digest);
                if !self.config.wants(digest) {
                    self.proceed(note)
                } else if self.config.interactive {
                    (
                        ScanState { phase: PhaseView::Confirming { path }, ..self },
                        OutputView { note, action: ActionView::Confirm { path } },
                    )
                } else {
                    (
                        ScanState { phase: PhaseView::Deleting { path }, ..self },
                        OutputView { note, action: ActionView::Delete { path } },
                    )
                }
            },
            None => self.proceed(warning(NoteKind::Unreadable, path)),
        }
    }

    /// The operator answered. Only a yes has the file deleted.
    pub open spec fn on_answer(self, path: Seq<char>, answer: Seq<char>) -> (
        ScanState,
        OutputView,
    ) {
        if says_yes(answer) {
            (
                ScanState { phase: PhaseView::Deleting { path }, ..self },
                OutputView { note: None, action: ActionView::Delete { path } },
            )
        } else {
            self.proceed(None)
        }
    }

    /// The deletion of the file at `path` succeeded, and counts, or failed.
    pub open spec fn on_deleted(self, path: Seq<char>, deleted: bool) -> (ScanState, OutputView) {
        if deleted {
            ScanState { count: self.count + 1, ..self }.proceed(
                remark(self.config, NoteKind::Deleted, path, Seq::empty()),
            )
        } else {
            self.proceed(warning(NoteKind::DeleteFailed, path))
        }
    }

    /// The state and output that follow from `event`, or `None` if the scan
    /// is not waiting for such an event.
    pub open spec fn step(self, event: EventView) -> Option<(ScanState, OutputView)> {
        match (self.phase, event) {
            (PhaseView::Listing { path, root }, EventView::Listed(listing)) => Some(
                self.on_listed(path, root, listing),
            ),
            (PhaseView::Advance, EventView::Continue) => Some(self.on_advance()),
            (PhaseView::Resolving { path }, EventView::LinkTarget(target)) => Some(
                self.on_link_target(path, target),
            ),
            (PhaseView::Resolved { path, identity }, EventView::Continue) => Some(
                self.screen(path, identity),
            ),
            (
                PhaseView::Classifying { path, identity },
                EventView::IsDirectory(is_directory),
            ) => Some(self.on_classified(path, identity, is_directory)),
            (PhaseView::Reading { path }, EventView::Content(content)) => Some(
                self.on_content(path, content),
            ),
            (PhaseView::Confirming { path }, EventView::Answer(answer)) => Some(
                self.on_answer(path, answer),
            ),
            (PhaseView::Deleting { path }, EventView::Deleted(deleted)) => Some(
                self.on_deleted(path, deleted),
            ),
            _ => None,
        }
    }

    /// Whether `event` answers what the scan is waiting for.
    pub open spec fn accepts(self, event: EventView) -> bool {
        self.step(event) is Some
    }

    /// The state and output that follow from an event that the scan
    /// accepts.
    pub open spec fn next(self, event: EventView) -> (ScanState, OutputView)
        recommends
            self.accepts(event),
    {
        self.step(event)->0
    }

    /// What holds of every state that a scan can be in: the root was
    /// recorded first, nothing is recorded twice, an identity in hand is
    /// recorded, and there are more recorded identities than deleted files,
    /// the file in hand counted in.
    pub open spec fn inv(self) -> bool {
        &&& self.visited.len() > 0
        &&& self.visited[0] == self.config.root
        &&& distinct(self.visited)
        &&& self.count + (if in_flight(self.phase) {
            1nat
        } else {
            0nat
        }) < self.visited.len()
        &&& (self.phase matches PhaseView::Classifying { identity, .. } ==> self.visited.contains(
            identity,
        ))
    }
}

/// Whether `action` is what a scan in `phase` has asked for.
pub open spec fn awaits(phase: PhaseView, action: ActionView) -> bool {
    match phase {
        PhaseView::Listing { path, .. } => action matches ActionView::List { path: listed, .. }
            && listed == path,
        PhaseView::Advance => action == ActionView::Continue,
        PhaseView::Resolving { path } => action == ActionView::ReadLink { path },
        PhaseView::Resolved { .. } => action == ActionView::Continue,
        PhaseView::Classifying { identity, .. } => action == ActionView::Classify { identity },
        PhaseView::Reading { path } => action matches ActionView::Read { path: read, .. } && read
            == path,
        PhaseView::Confirming { path } => action == ActionView::Confirm { path },
        PhaseView::Deleting { path } => action == ActionView::Delete { path },
        PhaseView::Done => action is Finish,
    }
}

/// Whether `then` is a fit reply to `event`, given that the scan had asked
/// for `asked`: the rules of the exchange between a scan and its driver, as
/// far as they show in what is asked and answered.
pub open spec fn exchange(
    config: ConfigView,
    asked: ActionView,
    event: EventView,
    then: ActionView,
) -> bool {
    match asked {
        ActionView::Continue => event == EventView::Continue && (match then {
            ActionView::Continue => true,
            ActionView::ReadLink { .. } => !config.ignore_symlinks,
            ActionView::Classify { .. } => true,
            ActionView::Finish(done) => done is Ok,
            _ => false,
        }),
        ActionView::List { .. } => event matches EventView::Listed(listing) && (match listing {
            Some(_) => then == ActionView::Continue,
            None => then == ActionView::Continue || then == ActionView::Finish(
                Err(ScanError::RootUnreadable),
            ),
        }),
        ActionView::ReadLink { .. } => event is LinkTarget && then == ActionView::Continue,
        ActionView::Classify { identity } => event matches EventView::IsDirectory(is_directory) && (
        if !is_directory {
            then matches ActionView::Read { identity: read, .. } && read == identity
        } else if config.recursive {
            then matches ActionView::List { identity: listed, .. } && listed == identity
        } else {
            then == ActionView::Continue
        }),
        ActionView::Read { path, .. } => event matches EventView::Content(content) && (
        match content {
            Some(bytes) => if !config.wants(digest_text(config.algorithm, bytes)) {
                then == ActionView::Continue
            } else if config.interactive {
                then == ActionView::Confirm { path }
            } else {
                then == ActionView::Delete { path }
            },
            None => then == ActionView::Continue,
        }),
        ActionView::Confirm { path } => event matches EventView::Answer(answer) && (if says_yes(
            answer,
        ) {
            then == ActionView::Delete { path }
        } else {
            then == ActionView::Continue
        }),
        ActionView::Delete { .. } => event is Deleted && then == ActionView::Continue,
        ActionView::Finish(_) => false,
    }
}

/// A bound on the steps that a scan has yet to take if no further entry is
/// listed to it: eight for each pending entry, and what is left of the
/// handling of the entry or the listing in hand.
pub open spec fn remaining_work(state: ScanState) -> nat {
    8 * state.pending.len() + match state.phase {
        PhaseView::Done => 0nat,
        PhaseView::Advance => 1nat,
        PhaseView::Listing { .. } => 2nat,
        PhaseView::Deleting { .. } => 2nat,
        PhaseView::Confirming { .. } => 3nat,
        PhaseView::Reading { .. } => 4nat,
        PhaseView::Classifying { .. } => 5nat,
        PhaseView::Resolved { .. } => 6nat,
        PhaseView::Resolving { .. } => 7nat,
    }
}

/// The number of entries that an event lists.
pub open spec fn listed_by(event: EventView) -> nat {
    match event {
        EventView::Listed(Some(entries)) => entries.len(),
        _ => 0,
    }
}

/// A scan starts in a state of which the invariant holds.
pub proof fn lemma_initial_inv(config: ConfigView)
    ensures
        initial(config).0.inv(),
        awaits(initial(config).0.phase, initial(config).1.action),
{
}

/// After a step the scan waits for the answer to what the step asked for,
/// and what it asked for is a fit reply to the event.
pub proof fn lemma_next_exchange(state: ScanState, asked: ActionView, event: EventView)
    requires
        awaits(state.phase, asked),
        state.accepts(event),
    ensures
        awaits(state.next(event).0.phase, state.next(event).1.action),
        exchange(state.config, asked, event, state.next(event).1.action),
{
}

/// A step keeps the invariant, never forgets an identity and never lowers
/// the count.
pub proof fn lemma_next_inv(state: ScanState, event: EventView)
    requires
        state.inv(),
        state.accepts(event),
    ensures
        state.next(event).0.inv(),
        state.next(event).0.config == state.config,
        state.visited.is_prefix_of(state.next(event).0.visited),
        state.count <= state.next(event).0.count <= state.count + 1,
{
    let after = state.next(event).0;
    match (state.phase, event) {
        (PhaseView::Classifying { path, identity }, EventView::IsDirectory(_)) => {
            lemma_recorded_grows(state.visited, path);
        },
        (PhaseView::Resolved { path, identity }, EventView::Continue) => {
            if !state.visited.contains(identity) {
                assert(after.visited[state.visited.len() as int] == identity);
            }
        },
        (PhaseView::Advance, EventView::Continue) => {
            if state.pending.len() > 0 {
                let entry = state.pending.last();
                if !entry.is_symlink && !state.visited.contains(entry.path) {
                    assert(after.visited[state.visited.len() as int] == entry.path);
                }
            }
        },
        _ => {},
    }
}

/// Every step uses up some of the remaining work, and only a listing adds
/// to it: eight steps for each entry listed. A scan that is over accepts no
/// event.
pub proof fn lemma_next_progress(state: ScanState, event: EventView)
    requires
        state.accepts(event),
    ensures
        !(state.phase is Done),
        remaining_work(state.next(event).0) < remaining_work(state) + 8 * listed_by(event),
{
}

} // verus!
