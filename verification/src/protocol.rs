//! What passes between a scan and the program that drives it: the operation
//! that the scan asks for, the result that it is handed, and what it has to
//! report.
//!
//! The scan itself touches no file. It names one operation at a time; the
//! driver performs it and hands back the matching event.

use vstd::prelude::*;

verus! {

/// One entry of a directory listing.
#[derive(Debug, PartialEq, Eq)]
pub struct Entry {
    /// The entry's own path.
    pub path: String,
    /// Whether the entry is a symbolic link.
    pub is_symlink: bool,
}

/// An entry as a mathematical value.
pub struct EntryView {
    pub path: Seq<char>,
    pub is_symlink: bool,
}

impl View for Entry {
    type V = EntryView;

    open spec fn view(&self) -> EntryView {
        EntryView { path: self.path@, is_symlink: self.is_symlink }
    }
}

/// The values of a sequence of entries.
pub open spec fn entries_of(entries: Seq<Entry>) -> Seq<EntryView> {
    Seq::new(entries.len(), |i: int| entries[i]@)
}

/// The value of a listing that may have failed.
pub open spec fn listing_of(listing: Option<Vec<Entry>>) -> Option<Seq<EntryView>> {
    match listing {
        Some(entries) => Some(entries_of(entries@)),
        None => None,
    }
}

/// The value of a text that may be missing.
pub open spec fn text_of(text: Option<String>) -> Option<Seq<char>> {
    match text {
        Some(text) => Some(text@),
        None => None,
    }
}

/// The value of a content that may be missing.
pub open spec fn content_of(content: Option<Vec<u8>>) -> Option<Seq<u8>> {
    match content {
        Some(bytes) => Some(bytes@),
        None => None,
    }
}

/// Why a scan as a whole failed.
#[derive(Clone, Copy, Debug, PartialEq, Eq, Structural)]
pub enum ScanError {
    /// The root directory could not be listed.
    RootUnreadable,
}

/// Why a step was refused.
#[derive(Clone, Copy, Debug, PartialEq, Eq, Structural)]
pub enum StepError {
    /// The event does not answer the operation that the scan asked for.
    UnexpectedEvent,
}

/// The result of the operation that the scan asked for.
#[derive(Debug, PartialEq, Eq)]
pub enum Event {
    /// Nothing was asked for; the scan may go on.
    Continue,
    /// The entries of the directory, or `None` if it could not be listed.
    Listed(Option<Vec<Entry>>),
    /// The path that the link names, or `None` if it could not be read.
    LinkTarget(Option<String>),
    /// Whether the identity is a directory.
    IsDirectory(bool),
    /// The content of the file, or `None` if it could not be read.
    Content(Option<Vec<u8>>),
    /// The operator's answer to the confirmation prompt, as typed.
    Answer(String),
    /// Whether the file was deleted.
    Deleted(bool),
}

/// An event as a mathematical value.
pub enum EventView {
    Continue,
    Listed(Option<Seq<EntryView>>),
    LinkTarget(Option<Seq<char>>),
    IsDirectory(bool),
    Content(Option<Seq<u8>>),
    Answer(Seq<char>),
    Deleted(bool),
}

impl View for Event {
    type V = EventView;

    open spec fn view(&self) -> EventView {
        match *self {
            Event::Continue => EventView::Continue,
            Event::Listed(listing) => EventView::Listed(listing_of(listing)),
            Event::LinkTarget(target) => EventView::LinkTarget(text_of(target)),
            Event::IsDirectory(is_directory) => EventView::IsDirectory(is_directory),
            Event::Content(content) => EventView::Content(content_of(content)),
            Event::Answer(answer) => EventView::Answer(answer@),
            Event::Deleted(deleted) => EventView::Deleted(deleted),
        }
    }
}

/// The operation that the scan asks its driver to perform next.
#[derive(Debug, PartialEq, Eq)]
pub enum Action {
    /// Nothing to perform: hand back `Event::Continue`.
    Continue,
    /// List the directory at `path`. `identity` is the path under which the
    /// directory was recorded as visited.
    List { path: String, identity: String },
    /// Read the target of the symbolic link at `path`, one level deep.
    ReadLink { path: String },
    /// Tell whether `identity` is a directory.
    Classify { identity: String },
    /// Read the whole content of the file at `path`. `identity` is the path
    /// under which the file was recorded as visited.
    Read { path: String, identity: String },
    /// Ask the operator whether the file at `path` is to be deleted.
    Confirm { path: String },
    /// Delete the file at `path`.
    Delete { path: String },
    /// The scan is over: the number of files deleted, or the failure.
    Finish(Result<usize, ScanError>),
}

/// An action as a mathematical value.
pub enum ActionView {
    Continue,
    List { path: Seq<char>, identity: Seq<char> },
    ReadLink { path: Seq<char> },
    Classify { identity: Seq<char> },
    Read { path: Seq<char>, identity: Seq<char> },
    Confirm { path: Seq<char> },
    Delete { path: Seq<char> },
    Finish(Result<nat, ScanError>),
}

impl View for Action {
    type V = ActionView;

    open spec fn view(&self) -> ActionView {
        match *self {
            Action::Continue => ActionView::Continue,
            Action::List { path, identity } => ActionView::List {
                path: path@,
                identity: identity@,
            },
            Action::ReadLink { path } => ActionView::ReadLink { path: path@ },
            Action::Classify { identity } => ActionView::Classify { identity: identity@ },
            Action::Read { path, identity } => ActionView::Read {
                path: path@,
                identity: identity@,
            },
            Action::Confirm { path } => ActionView::Confirm { path: path@ },
            Action::Delete { path } => ActionView::Delete { path: path@ },
            Action::Finish(Ok(count)) => ActionView::Finish(Ok(count as nat)),
            Action::Finish(Err(e)) => ActionView::Finish(Err(e)),
        }
    }
}

/// What a note is about.
#[derive(Clone, Copy, Debug, PartialEq, Eq, Structural)]
pub enum NoteKind {
    /// A directory is about to be listed.
    Scanning,
    /// A symbolic link was skipped because links are ignored.
    IgnoringSymlink,
    /// A symbolic link was resolved; the detail is its target.
    ResolvingSymlink,
    /// An identity was met again and skipped.
    IgnoringDuplicate,
    /// A file was hashed; the detail is its digest.
    Digest,
    /// A file was deleted.
    Deleted,
    /// A file could not be deleted.
    DeleteFailed,
    /// A file could not be read.
    Unreadable,
    /// The target of a symbolic link could not be read.
    BrokenLink,
    /// A directory could not be listed.
    ListingFailed,
}

/// Something for the driver to report to the operator.
#[derive(Debug, PartialEq, Eq)]
pub struct Note {
    /// What happened.
    pub kind: NoteKind,
    /// The path that it happened to.
    pub path: String,
    /// The link's target or the file's digest; empty for the other kinds.
    pub detail: String,
}

/// A note as a mathematical value.
pub struct NoteView {
    pub kind: NoteKind,
    pub path: Seq<char>,
    pub detail: Seq<char>,
}

impl View for Note {
    type V = NoteView;

    open spec fn view(&self) -> NoteView {
        NoteView { kind: self.kind, path: self.path@, detail: self.detail@ }
    }
}

/// The value of a note that may be missing.
pub open spec fn note_of(note: Option<Note>) -> Option<NoteView> {
    match note {
        Some(note) => Some(note@),
        None => None,
    }
}

/// What one step of a scan hands to its driver.
#[derive(Debug, PartialEq, Eq)]
pub struct Output {
    /// What to report, if anything.
    pub note: Option<Note>,
    /// What to perform next.
    pub action: Action,
}

/// An output as a mathematical value.
pub struct OutputView {
    pub note: Option<NoteView>,
    pub action: ActionView,
}

impl View for Output {
    type V = OutputView;

    open spec fn view(&self) -> OutputView {
        OutputView { note: note_of(self.note), action: self.action@ }
    }
}

} // verus!
