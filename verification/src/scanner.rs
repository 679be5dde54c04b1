//! The scan as a value that a driver steps: it holds the state of the
//! transition system and computes each transition. Every state that it can
//! be in is the state of a run, so what holds of all runs holds of it.

use crate::config::ScanConfig;
use crate::confirm::is_affirmative;
use crate::digest::get_hash;
use crate::laws::run::{lemma_run_shape, run};
use crate::machine::{initial, lemma_next_inv, remark, PhaseView, ScanState};
use crate::protocol::{
    content_of, entries_of, listing_of, note_of, text_of, Action, Entry, Event, Note, NoteKind,
    EventView, Output, ScanError, StepError,
};
use crate::visited::VisitedSet;
use vstd::prelude::*;

verus! {

enum Phase {
    Listing { path: String, root: bool },
    Advance,
    Resolving { path: String },
    Resolved { path: String, identity: String },
    Classifying { path: String, identity: String },
    Reading { path: String },
    Confirming { path: String },
    Deleting { path: String },
    Done,
}

impl View for Phase {
    type V = PhaseView;

    closed spec fn view(&self) -> PhaseView {
        match *self {
            Phase::Listing { path, root } => PhaseView::Listing { path: path@, root },
            Phase::Advance => PhaseView::Advance,
            Phase::Resolving { path } => PhaseView::Resolving { path: path@ },
            Phase::Resolved { path, identity } => PhaseView::Resolved {
                path: path@,
                identity: identity@,
            },
            Phase::Classifying { path, identity } => PhaseView::Classifying {
                path: path@,
                identity: identity@,
            },
            Phase::Reading { path } => PhaseView::Reading { path: path@ },
            Phase::Confirming { path } => PhaseView::Confirming { path: path@ },
            Phase::Deleting { path } => PhaseView::Deleting { path: path@ },
            Phase::Done => PhaseView::Done,
        }
    }
}

/// A scan in progress.
pub struct Scanner {
    config: ScanConfig,
    visited: VisitedSet,
    pending: Vec<Entry>,
    count: usize,
    phase: Phase,
    history: Ghost<Seq<EventView>>,
}

impl View for Scanner {
    type V = ScanState;

    closed spec fn view(&self) -> ScanState {
        ScanState {
            config: self.config@,
            visited: self.visited@,
            pending: entries_of(self.pending@),
            count: self.count as nat,
            phase: self.phase@,
        }
    }
}

fn note(kind: NoteKind, path: &String, detail: String) -> (made: Note)
    ensures
        made@.kind == kind,
        made@.path == path@,
        made@.detail == detail@,
{
    Note { kind, path: path.clone(), detail }
}

impl Scanner {
    /// The events that the scan has been handed since it started, refused
    /// ones too.
    pub closed spec fn history(&self) -> Seq<EventView> {
        self.history@
    }

    /// The invariant of a scan: its state is the state of the run of its
    /// configuration over the events that it has been handed.
    pub closed spec fn wf(&self) -> bool {
        self@ == run(self.config@, self.history@).state
    }

    /// A scan is in the state of the run over its history, and that state
    /// keeps the invariant of the transition system.
    pub proof fn lemma_wf(&self)
        requires
            self.wf(),
        ensures
            self@ == run(self@.config, self.history()).state,
            self@.inv(),
    {
        lemma_run_shape(self.config@, self.history@);
    }

    /// Starts a scan of the configuration's root: the root is recorded as
    /// visited and its listing is asked for.
    pub fn start(config: ScanConfig) -> (started: (Scanner, Output))
        ensures
            (started.0@, started.1@) == initial(config@),
            started.0.history() == Seq::<EventView>::empty(),
            started.0.wf(),
    {
        let root = config.root().clone();
        let mut visited = VisitedSet::new();
        visited.insert(root.clone());
        let note = if config.verbose() {
            Some(note(NoteKind::Scanning, &root, String::new()))
        } else {
            None
        };
        let action = Action::List { path: root.clone(), identity: root.clone() };
        let scanner = Scanner {
            config,
            visited,
            pending: Vec::new(),
            count: 0,
            phase: Phase::Listing { path: root, root: true },
            history: Ghost(Seq::empty()),
        };
        assert(scanner@.pending =~= Seq::empty());
        (scanner, Output { note, action })
    }

    /// The configuration that the scan runs on.
    pub fn config(&self) -> (config: &ScanConfig)
        ensures
            config@ == self@.config,
    {
        &self.config
    }

    /// The number of files deleted so far.
    pub fn count(&self) -> (count: usize)
        ensures
            count == self@.count,
    {
        self.count
    }

    /// The identities handled so far.
    pub fn visited(&self) -> (visited: &VisitedSet)
        ensures
            visited@ == self@.visited,
    {
        &self.visited
    }

    /// Whether the scan is over.
    pub fn is_done(&self) -> (done: bool)
        ensures
            done == (self@.phase is Done),
    {
        match self.phase {
            Phase::Done => true,
            _ => false,
        }
    }

    fn remark(&self, kind: NoteKind, path: &String, detail: String) -> (made: Option<Note>)
        ensures
            note_of(made) == remark(self@.config, kind, path@, detail@),
    {
        if self.config.verbose() {
            Some(note(kind, path, detail))
        } else {
            None
        }
    }

    fn proceed(&mut self, note: Option<Note>) -> (output: Output)
        ensures
            (final(self)@, output@) == old(self)@.proceed(note_of(note)),
            final(self).history == old(self).history,
    {
        self.phase = Phase::Advance;
        Output { note, action: Action::Continue }
    }

    fn screen(&mut self, path: String, identity: String) -> (output: Output)
        requires
            old(self).visited.wf(),
        ensures
            (final(self)@, output@) == old(self)@.screen(path@, identity@),
            final(self).history == old(self).history,
    {
        if self.visited.contains(&identity) {
            let note = self.remark(NoteKind::IgnoringDuplicate, &identity, String::new());
            self.proceed(note)
        } else {
            let action = Action::Classify { identity: identity.clone() };
            self.visited.insert(identity.clone());
            self.phase = Phase::Classifying { path, identity };
            Output { note: None, action }
        }
    }

    fn on_listed(&mut self, path: String, root: bool, listing: Option<Vec<Entry>>) -> (output:
        Output)
        ensures
            (final(self)@, output@) == old(self)@.on_listed(path@, root, listing_of(listing)),
            final(self).history == old(self).history,
    {
        match listing {
            Some(entries) => {
                let ghost listed = entries_of(entries@);
                let ghost waiting = entries_of(self.pending@);
                let mut entries = entries;
                while entries.len() > 0
                    invariant
                        entries@.len() <= listed.len(),
                        entries_of(entries@) == listed.subrange(0, entries@.len() as int),
                        entries_of(self.pending@) == waiting + listed.reverse().subrange(
                            0,
                            listed.len() - entries@.len(),
                        ),
                        self.config == old(self).config,
                        self.visited == old(self).visited,
                        self.count == old(self).count,
                        self.history == old(self).history,
                    decreases entries@.len(),
                {
                    let ghost before = entries@;
                    let ghost stacked = self.pending@;
                    let entry = entries.pop().unwrap();
                    self.pending.push(entry);
                    assert(entry@ == entries_of(before)[before.len() - 1]);
                    assert(entries_of(self.pending@) =~= entries_of(stacked).push(entry@));
                    assert(entries_of(self.pending@) =~= waiting + listed.reverse().subrange(
                        0,
                        listed.len() - entries@.len(),
                    ));
                }
                assert(listed.reverse().subrange(0, listed.len() as int) =~= listed.reverse());
                self.proceed(None)
            },
            None => {
                let warned = Some(note(NoteKind::ListingFailed, &path, String::new()));
                if root {
                    self.phase = Phase::Done;
                    Output {
                        note: warned,
                        action: Action::Finish(Err(ScanError::RootUnreadable)),
                    }
                } else {
                    self.proceed(warned)
                }
            },
        }
    }

    fn on_advance(&mut self) -> (output: Output)
        requires
            old(self).visited.wf(),
        ensures
            (final(self)@, output@) == old(self)@.on_advance(),
            final(self).history == old(self).history,
    {
        let ghost waiting = self.pending@;
        match self.pending.pop() {
            None => {
                self.phase = Phase::Done;
                Output { note: None, action: Action::Finish(Ok(self.count)) }
            },
            Some(entry) => {
                assert(entries_of(self.pending@) =~= entries_of(waiting).drop_last());
                if entry.is_symlink && self.config.ignore_symlinks() {
                    let note = self.remark(NoteKind::IgnoringSymlink, &entry.path, String::new());
                    self.proceed(note)
                } else if entry.is_symlink {
                    let action = Action::ReadLink { path: entry.path.clone() };
                    self.phase = Phase::Resolving { path: entry.path };
                    Output { note: None, action }
                } else {
                    let identity = entry.path.clone();
                    self.screen(entry.path, identity)
                }
            },
        }
    }

    fn on_link_target(&mut self, path: String, target: Option<String>) -> (output: Output)
        ensures
            (final(self)@, output@) == old(self)@.on_link_target(path@, text_of(target)),
            final(self).history == old(self).history,
    {
        match target {
            Some(identity) => {
                let note = self.remark(NoteKind::ResolvingSymlink, &path, identity.clone());
                self.phase = Phase::Resolved { path, identity };
                Output { note, action: Action::Continue }
            },
            None => {
                let warned = Some(note(NoteKind::BrokenLink, &path, String::new()));
                self.proceed(warned)
            },
        }
    }

    fn on_classified(&mut self, path: String, identity: String, is_directory: bool) -> (output:
        Output)
        requires
            old(self).visited.wf(),
        ensures
            (final(self)@, output@) == old(self)@.on_classified(path@, identity@, is_directory),
            final(self).history == old(self).history,
    {
        if is_directory {
            if self.config.recursive() {
                let note = self.remark(NoteKind::Scanning, &path, String::new());
                let action = Action::List { path: path.clone(), identity };
                self.visited.insert(path.clone());
                self.phase = Phase::Listing { path, root: false };
                Output { note, action }
            } else {
                self.proceed(None)
            }
        } else {
            let action = Action::Read { path: path.clone(), identity };
            self.phase = Phase::Reading { path };
            Output { note: None, action }
        }
    }

    fn on_content(&mut self, path: String, content: Option<Vec<u8>>) -> (output: Output)
        ensures
            (final(self)@, output@) == old(self)@.on_content(path@, content_of(content)),
            final(self).history == old(self).history,
    {
        match content {
            Some(bytes) => {
                let algorithm = self.config.algorithm();
                let digest = get_hash(bytes.as_slice(), &algorithm);
                let wanted = self.config.is_target(&digest);
                let note = self.remark(NoteKind::Digest, &path, digest);
                if !wanted {
                    self.proceed(note)
                } else if self.config.interactive() {
                    let action = Action::Confirm { path: path.clone() };
                    self.phase = Phase::Confirming { path };
                    Output { note, action }
                } else {
                    let action = Action::Delete { path: path.clone() };
                    self.phase = Phase::Deleting { path };
                    Output { note, action }
                }
            },
            None => {
                let warned = Some(note(NoteKind::Unreadable, &path, String::new()));
                self.proceed(warned)
            },
        }
    }

    fn on_answer(&mut self, path: String, answer: String) -> (output: Output)
        ensures
            (final(self)@, output@) == old(self)@.on_answer(path@, answer@),
            final(self).history == old(self).history,
    {
        if is_affirmative(answer.as_str()) {
            let action = Action::Delete { path: path.clone() };
            self.phase = Phase::Deleting { path };
            Output { note: None, action }
        } else {
            self.proceed(None)
        }
    }

    fn on_deleted(&mut self, path: String, deleted: bool) -> (output: Output)
        requires
            old(self).count + 1 < old(self).visited@.len(),
        ensures
            (final(self)@, output@) == old(self)@.on_deleted(path@, deleted),
            final(self).history == old(self).history,
    {
        if deleted {
            proof {
                self.visited.lemma_len_fits();
            }
            self.count = self.count + 1;
            let note = self.remark(NoteKind::Deleted, &path, String::new());
            self.proceed(note)
        } else {
            let warned = Some(note(NoteKind::DeleteFailed, &path, String::new()));
            self.proceed(warned)
        }
    }

    /// Takes the result of the operation that the scan asked for, and tells
    /// what to report and what to perform next: the scan moves as the
    /// transition system does. An event that does not answer that operation
    /// is refused and changes nothing. Whatever the event, the configuration
    /// stays, no visited identity is forgotten, and the count does not fall.
    pub fn step(&mut self, event: Event) -> (result: Result<Output, StepError>)
        requires
            old(self).wf(),
        ensures
            final(self).wf(),
            final(self).history() == old(self).history().push(event@),
            match result {
                Ok(output) => old(self)@.step(event@) == Some((final(self)@, output@)),
                Err(e) => e == StepError::UnexpectedEvent && old(self)@.step(event@) is None
                    && final(self)@ == old(self)@,
            },
            final(self)@.config == old(self)@.config,
            old(self)@.visited.is_prefix_of(final(self)@.visited),
            old(self)@.count <= final(self)@.count <= old(self)@.count + 1,
    {
        let ghost before = self.history@;
        let ghost handed = event@;
        proof {
            lemma_run_shape(self.config@, before);
            if self@.accepts(handed) {
                lemma_next_inv(self@, handed);
            }
            assert(before.push(handed).drop_last() =~= before);
        }
        self.history = Ghost(before.push(handed));
        let mut phase = Phase::Done;
        core::mem::swap(&mut self.phase, &mut phase);
        match (phase, event) {
            (Phase::Listing { path, root }, Event::Listed(listing)) => Ok(
                self.on_listed(path, root, listing),
            ),
            (Phase::Advance, Event::Continue) => Ok(self.on_advance()),
            (Phase::Resolving { path }, Event::LinkTarget(target)) => Ok(
                self.on_link_target(path, target),
            ),
            (Phase::Resolved { path, identity }, Event::Continue) => Ok(
                self.screen(path, identity),
            ),
            (Phase::Classifying { path, identity }, Event::IsDirectory(is_directory)) => Ok(
                self.on_classified(path, identity, is_directory),
            ),
            (Phase::Reading { path }, Event::Content(content)) => Ok(
                self.on_content(path, content),
            ),
            (Phase::Confirming { path }, Event::Answer(answer)) => Ok(
                self.on_answer(path, answer),
            ),
            (Phase::Deleting { path }, Event::Deleted(deleted)) => Ok(
                self.on_deleted(path, deleted),
            ),
            (phase, _) => {
                self.phase = phase;
                Err(StepError::UnexpectedEvent)
            },
        }
    }
}

} // verus!
