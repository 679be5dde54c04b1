use hashrm::cli::Cli;
use hashrm::config::ScanConfig;
use hashrm::digest::{get_hash, HashType};
use hashrm::protocol::{Action, Entry, Event, NoteKind, Output, ScanError, StepError};
use hashrm::scanner::Scanner;
use std::collections::BTreeMap;

/// What a path of the made-up filesystem holds.
enum Node {
    File(Vec<u8>),
    Dir(Vec<String>),
    Link(String),
}

/// A filesystem in memory, an operator with scripted answers, and a record
/// of what a scan had done to them.
struct World {
    nodes: BTreeMap<String, Node>,
    answers: Vec<String>,
    undeletable: Vec<String>,
    unlistable: Vec<String>,
    listed: Vec<String>,
    classified: Vec<String>,
    read: Vec<String>,
    links_read: Vec<String>,
    asked: Vec<String>,
    deleted: Vec<String>,
    notes: Vec<(NoteKind, String, String)>,
    steps: usize,
}

fn parent_of(path: &str) -> Option<(String, String)> {
    path.rfind('/').map(|at| (String::from(&path[..at]), String::from(&path[at + 1..])))
}

impl World {
    fn new(root: &str) -> World {
        let mut nodes: BTreeMap<String, Node> = BTreeMap::new();
        nodes.insert(String::from(root), Node::Dir(vec![]));
        World {
            nodes,
            answers: vec![],
            undeletable: vec![],
            unlistable: vec![],
            listed: vec![],
            classified: vec![],
            read: vec![],
            links_read: vec![],
            asked: vec![],
            deleted: vec![],
            notes: vec![],
            steps: 0,
        }
    }

    fn add(&mut self, path: &str, node: Node) {
        let (parent, name) = parent_of(path).unwrap();
        match self.nodes.get_mut(&parent) {
            Some(Node::Dir(children)) => children.push(name),
            _ => panic!("no directory {}", parent),
        }
        self.nodes.insert(String::from(path), node);
    }

    fn file(&mut self, path: &str, content: &[u8]) {
        self.add(path, Node::File(content.to_vec()));
    }

    fn dir(&mut self, path: &str) {
        self.add(path, Node::Dir(vec![]));
    }

    fn link(&mut self, path: &str, target: &str) {
        self.add(path, Node::Link(String::from(target)));
    }

    fn holds(&self, path: &str) -> bool {
        self.nodes.contains_key(path)
    }

    /// The place that `path` names, with the links on the way followed, and
    /// the last one too if `follow` is set.
    fn locate(&self, path: &str, follow: bool) -> Option<String> {
        let parts: Vec<&str> = path.split('/').collect();
        let mut at = String::new();
        let mut hops: u32 = 0;
        for (i, part) in parts.iter().enumerate() {
            let mut next = if i == 0 { String::from(*part) } else { format!("{}/{}", at, part) };
            if i + 1 < parts.len() || follow {
                while let Some(Node::Link(target)) = self.nodes.get(&next) {
                    hops += 1;
                    if hops > 40 {
                        return None;
                    }
                    next = self.locate(target, false)?;
                }
            }
            at = next;
        }
        if self.nodes.contains_key(&at) {
            Some(at)
        } else {
            None
        }
    }

    fn perform(&mut self, action: &Action) -> Option<Event> {
        match action {
            Action::Continue => Some(Event::Continue),
            Action::List { path, .. } => {
                self.listed.push(path.clone());
                if self.unlistable.contains(path) {
                    return Some(Event::Listed(None));
                }
                let names = match self.locate(path, true).and_then(|at| self.nodes.get(&at)) {
                    Some(Node::Dir(names)) => names,
                    _ => return Some(Event::Listed(None)),
                };
                let mut entries: Vec<Entry> = vec![];
                for name in names {
                    let entry_path = format!("{}/{}", path, name);
                    let is_symlink = match self.locate(&entry_path, false) {
                        Some(at) => matches!(self.nodes.get(&at), Some(Node::Link(_))),
                        None => false,
                    };
                    entries.push(Entry { path: entry_path, is_symlink });
                }
                Some(Event::Listed(Some(entries)))
            }
            Action::ReadLink { path } => {
                self.links_read.push(path.clone());
                let target = match self.locate(path, false).and_then(|at| self.nodes.get(&at)) {
                    Some(Node::Link(target)) => Some(target.clone()),
                    _ => None,
                };
                Some(Event::LinkTarget(target))
            }
            Action::Classify { identity } => {
                self.classified.push(identity.clone());
                let found = self.locate(identity, true).and_then(|at| self.nodes.get(&at));
                Some(Event::IsDirectory(matches!(found, Some(Node::Dir(_)))))
            }
            Action::Read { path, .. } => {
                self.read.push(path.clone());
                let content = match self.locate(path, true).and_then(|at| self.nodes.get(&at)) {
                    Some(Node::File(content)) => Some(content.clone()),
                    _ => None,
                };
                Some(Event::Content(content))
            }
            Action::Confirm { path } => {
                self.asked.push(path.clone());
                let answer = if self.answers.is_empty() {
                    String::new()
                } else {
                    self.answers.remove(0)
                };
                Some(Event::Answer(answer))
            }
            Action::Delete { path } => {
                if self.undeletable.contains(path) {
                    return Some(Event::Deleted(false));
                }
                let at = match self.locate(path, false) {
                    Some(at) => at,
                    None => return Some(Event::Deleted(false)),
                };
                if matches!(self.nodes.get(&at), Some(Node::Dir(_))) {
                    return Some(Event::Deleted(false));
                }
                self.nodes.remove(&at);
                let (parent, name) = parent_of(&at).unwrap();
                if let Some(Node::Dir(children)) = self.nodes.get_mut(&parent) {
                    children.retain(|child| *child != name);
                }
                self.deleted.push(path.clone());
                Some(Event::Deleted(true))
            }
            Action::Finish(_) => None,
        }
    }

    fn take(&mut self, output: &Output) {
        if let Some(note) = &output.note {
            self.notes.push((note.kind, note.path.clone(), note.detail.clone()));
        }
    }

    /// Drives a scan to its end and hands back what it finished with.
    fn scan(&mut self, config: ScanConfig) -> Result<usize, ScanError> {
        let (mut scanner, mut output) = Scanner::start(config);
        loop {
            self.take(&output);
            self.steps += 1;
            assert!(self.steps < 100_000, "the scan does not end");
            match self.perform(&output.action) {
                Some(event) => output = scanner.step(event).unwrap(),
                None => break,
            }
        }
        assert!(scanner.is_done());
        match output.action {
            Action::Finish(result) => {
                if let Ok(count) = result {
                    assert_eq!(count, scanner.count());
                }
                result
            }
            _ => unreachable!(),
        }
    }

    fn noted(&self, kind: NoteKind) -> Vec<String> {
        self.notes.iter().filter(|n| n.0 == kind).map(|n| n.1.clone()).collect()
    }
}

const D1_CONTENT: &[u8] = b"wanted content";
const D2_CONTENT: &[u8] = b"other content";

fn d1() -> String {
    get_hash(D1_CONTENT, &HashType::MD5)
}

fn config(hash: &str, ignore_symlinks: bool, recursive: bool, interactive: bool) -> ScanConfig {
    let cli = Cli {
        path: String::from("root"),
        hash: String::from(hash),
        ignore_symlinks,
        recursive,
        interactive,
        verbose: false,
    };
    ScanConfig::from_cli(&cli, true).unwrap()
}

fn verbose_config(hash: &str, recursive: bool) -> ScanConfig {
    let cli = Cli {
        path: String::from("root"),
        hash: String::from(hash),
        ignore_symlinks: false,
        recursive,
        interactive: false,
        verbose: true,
    };
    ScanConfig::from_cli(&cli, true).unwrap()
}

/// `a.txt` and `sub/c.txt` hold the wanted content, `b.txt` another.
fn small_tree() -> World {
    let mut world = World::new("root");
    world.file("root/a.txt", D1_CONTENT);
    world.file("root/b.txt", D2_CONTENT);
    world.dir("root/sub");
    world.file("root/sub/c.txt", D1_CONTENT);
    world
}

#[test]
fn recursive_scan_deletes_every_match() {
    let mut world = small_tree();
    let count = world.scan(config(&d1(), false, true, false));
    assert_eq!(count, Ok(2));
    assert!(!world.holds("root/a.txt"));
    assert!(!world.holds("root/sub/c.txt"));
    assert!(world.holds("root/b.txt"));
    assert!(world.holds("root/sub"));
    assert_eq!(world.deleted, ["root/a.txt", "root/sub/c.txt"]);
}

#[test]
fn flat_scan_leaves_subdirectories_alone() {
    let mut world = small_tree();
    let count = world.scan(config(&d1(), false, false, false));
    assert_eq!(count, Ok(1));
    assert!(!world.holds("root/a.txt"));
    assert!(world.holds("root/b.txt"));
    assert!(world.holds("root/sub/c.txt"));
    assert_eq!(world.listed, ["root"]);
    assert_eq!(world.read, ["root/a.txt", "root/b.txt"]);
    assert_eq!(world.deleted, ["root/a.txt"]);
}

#[test]
fn invalid_target_starts_no_scan() {
    let world = small_tree();
    let cli = Cli {
        path: String::from("root"),
        hash: String::from("0123456789abcdef0123"),
        ignore_symlinks: false,
        recursive: true,
        interactive: false,
        verbose: false,
    };
    assert!(ScanConfig::from_cli(&cli, true).is_err());
    assert!(world.holds("root/a.txt"));
    assert!(world.holds("root/b.txt"));
    assert!(world.holds("root/sub/c.txt"));
    assert!(world.deleted.is_empty());
}

#[test]
fn entries_are_taken_in_listing_order_depth_first() {
    let mut world = World::new("root");
    world.file("root/1", D2_CONTENT);
    world.dir("root/2");
    world.file("root/2/x", D2_CONTENT);
    world.dir("root/2/y");
    world.file("root/2/y/deep", D2_CONTENT);
    world.file("root/2/z", D2_CONTENT);
    world.file("root/3", D2_CONTENT);
    assert_eq!(world.scan(config(&d1(), false, true, false)), Ok(0));
    assert_eq!(world.read, ["root/1", "root/2/x", "root/2/y/deep", "root/2/z", "root/3"]);
    assert_eq!(world.listed, ["root", "root/2", "root/2/y"]);
    assert!(world.deleted.is_empty());
}

#[test]
fn files_without_a_match_are_untouched() {
    let mut world = small_tree();
    let absent = get_hash(b"nowhere", &HashType::MD5);
    assert_eq!(world.scan(config(&absent, false, true, false)), Ok(0));
    assert!(world.deleted.is_empty());
    assert!(world.holds("root/a.txt"));
    assert!(world.holds("root/b.txt"));
    assert!(world.holds("root/sub/c.txt"));
    assert_eq!(world.read.len(), 3);
}

#[test]
fn scan_uses_the_algorithm_of_the_target() {
    for algorithm in [HashType::MD5, HashType::SHA1, HashType::SHA256] {
        let mut world = small_tree();
        let target = get_hash(D1_CONTENT, &algorithm);
        assert_eq!(world.scan(config(&target, false, true, false)), Ok(2));
    }
}

#[test]
fn uppercase_target_matches_nothing() {
    let mut world = small_tree();
    assert_eq!(world.scan(config(&d1().to_uppercase(), false, true, false)), Ok(0));
    assert!(world.deleted.is_empty());
}

#[test]
fn several_targets_match_by_membership() {
    let mut world = small_tree();
    let config = ScanConfig::new(
        String::from("root"),
        vec![get_hash(D2_CONTENT, &HashType::SHA1), get_hash(D1_CONTENT, &HashType::SHA1)],
        None,
        false,
        true,
        false,
        false,
    )
    .unwrap();
    assert_eq!(world.scan(config), Ok(3));
    assert_eq!(world.deleted, ["root/a.txt", "root/b.txt", "root/sub/c.txt"]);
}

#[test]
fn two_links_to_one_file_have_it_hashed_once() {
    let mut world = World::new("root");
    world.link("root/first", "elsewhere/target");
    world.link("root/second", "elsewhere/target");
    world.nodes.insert(String::from("elsewhere"), Node::Dir(vec![]));
    world.file("elsewhere/target", D2_CONTENT);
    assert_eq!(world.scan(config(&d1(), false, true, false)), Ok(0));
    assert_eq!(world.links_read, ["root/first", "root/second"]);
    assert_eq!(world.classified, ["elsewhere/target"]);
    assert_eq!(world.read, ["root/first"]);
}

#[test]
fn link_to_a_listed_sibling_is_a_duplicate() {
    let mut world = World::new("root");
    world.file("root/a.txt", D1_CONTENT);
    world.link("root/again", "root/a.txt");
    assert_eq!(world.scan(config(&d1(), false, true, false)), Ok(1));
    assert_eq!(world.read, ["root/a.txt"]);
    assert_eq!(world.deleted, ["root/a.txt"]);
    assert!(world.holds("root/again"));
}

#[test]
fn link_to_a_visited_directory_is_not_entered_again() {
    let mut world = World::new("root");
    world.dir("root/sub");
    world.file("root/sub/c.txt", D1_CONTENT);
    world.link("root/z", "root/sub");
    assert_eq!(world.scan(config(&d1(), false, true, false)), Ok(1));
    assert_eq!(world.listed, ["root", "root/sub"]);
    assert_eq!(world.read, ["root/sub/c.txt"]);
}

#[test]
fn directory_behind_an_entered_link_is_not_entered_again() {
    let mut world = World::new("root");
    world.link("root/a", "root/sub");
    world.dir("root/sub");
    world.file("root/sub/c.txt", D1_CONTENT);
    assert_eq!(world.scan(config(&d1(), false, true, false)), Ok(1));
    assert_eq!(world.listed, ["root", "root/a"]);
    assert_eq!(world.read, ["root/a/c.txt"]);
    assert_eq!(world.deleted, ["root/a/c.txt"]);
    assert!(!world.holds("root/sub/c.txt"));
}

#[test]
fn link_back_to_the_root_ends_the_descent() {
    let mut world = World::new("root");
    world.dir("root/sub");
    world.link("root/sub/up", "root");
    world.file("root/sub/c.txt", D1_CONTENT);
    assert_eq!(world.scan(config(&d1(), false, true, false)), Ok(1));
    assert_eq!(world.listed, ["root", "root/sub"]);
}

#[test]
fn links_that_name_each_other_end_the_scan() {
    let mut world = World::new("root");
    world.link("root/a", "root/b");
    world.link("root/b", "root/a");
    world.file("root/c.txt", D1_CONTENT);
    assert_eq!(world.scan(config(&d1(), false, true, false)), Ok(1));
    assert_eq!(world.listed, ["root"]);
    assert_eq!(world.deleted, ["root/c.txt"]);
    assert!(world.steps < 100);
}

#[test]
fn directories_that_link_into_each_other_end_the_scan() {
    let mut world = World::new("root");
    world.dir("root/a");
    world.dir("root/b");
    world.link("root/a/to_b", "root/b");
    world.link("root/b/to_a", "root/a");
    world.file("root/b/c.txt", D1_CONTENT);
    assert_eq!(world.scan(config(&d1(), false, true, false)), Ok(1));
    assert_eq!(world.listed, ["root", "root/a", "root/a/to_b"]);
    assert_eq!(world.deleted, ["root/a/to_b/c.txt"]);
}

#[test]
fn link_under_another_name_for_a_directory_ends_too() {
    // The link's target is spelled otherwise than the path under which the
    // directory was entered, so the directory is entered once more through
    // the link; inside, the link leads to an identity that is recorded.
    let mut world = World::new("root");
    world.dir("root/sub");
    world.nodes.insert(String::from("alias"), Node::Link(String::from("root/sub")));
    world.link("root/sub/loop", "alias");
    world.file("root/sub/c.txt", D2_CONTENT);
    assert_eq!(world.scan(config(&d1(), false, true, false)), Ok(0));
    assert_eq!(world.listed, ["root", "root/sub", "root/sub/loop"]);
    assert_eq!(world.links_read, ["root/sub/loop", "root/sub/loop/loop"]);
    assert_eq!(world.read, ["root/sub/loop/c.txt", "root/sub/c.txt"]);
}

#[test]
fn ignored_links_are_not_followed() {
    let mut world = World::new("root");
    world.file("root/a.txt", D1_CONTENT);
    world.link("root/to_file", "elsewhere/match");
    world.link("root/to_dir", "elsewhere");
    world.nodes.insert(String::from("elsewhere"), Node::Dir(vec![]));
    world.file("elsewhere/match", D1_CONTENT);
    assert_eq!(world.scan(config(&d1(), true, true, false)), Ok(1));
    assert!(world.links_read.is_empty());
    assert_eq!(world.listed, ["root"]);
    assert_eq!(world.read, ["root/a.txt"]);
    assert_eq!(world.classified, ["root/a.txt"]);
    assert!(world.holds("elsewhere/match"));
    assert!(world.holds("root/to_file"));
}

#[test]
fn followed_link_to_a_match_is_what_gets_deleted() {
    let mut world = World::new("root");
    world.link("root/to_file", "elsewhere/match");
    world.nodes.insert(String::from("elsewhere"), Node::Dir(vec![]));
    world.file("elsewhere/match", D1_CONTENT);
    assert_eq!(world.scan(config(&d1(), false, false, false)), Ok(1));
    assert_eq!(world.deleted, ["root/to_file"]);
    assert!(world.holds("elsewhere/match"));
    assert!(!world.holds("root/to_file"));
}

#[test]
fn file_behind_an_earlier_link_is_skipped_as_a_duplicate() {
    let mut world = World::new("root");
    world.link("root/early", "root/late.txt");
    world.file("root/late.txt", D1_CONTENT);
    assert_eq!(world.scan(config(&d1(), false, false, false)), Ok(1));
    assert_eq!(world.read, ["root/early"]);
    assert_eq!(world.deleted, ["root/early"]);
    assert!(world.holds("root/late.txt"));
}

#[test]
fn broken_link_is_reported_and_skipped() {
    let mut world = World::new("root");
    world.link("root/dangling", "nowhere");
    world.file("root/a.txt", D1_CONTENT);
    assert_eq!(world.scan(config(&d1(), false, true, false)), Ok(1));
    assert_eq!(world.classified, ["nowhere", "root/a.txt"]);
    assert_eq!(world.read, ["root/dangling", "root/a.txt"]);
    assert_eq!(world.noted(NoteKind::Unreadable), ["root/dangling"]);
}

#[test]
fn declined_confirmation_spares_the_file() {
    let mut world = small_tree();
    world.answers = vec![String::from("n\n"), String::from("\n")];
    assert_eq!(world.scan(config(&d1(), false, true, true)), Ok(0));
    assert_eq!(world.asked, ["root/a.txt", "root/sub/c.txt"]);
    assert!(world.deleted.is_empty());
    assert!(world.holds("root/a.txt"));
    assert!(world.holds("root/sub/c.txt"));
}

#[test]
fn confirmed_deletion_is_carried_out() {
    let mut world = small_tree();
    world.answers = vec![String::from("y\n"), String::from("no\n")];
    assert_eq!(world.scan(config(&d1(), false, true, true)), Ok(1));
    assert_eq!(world.asked, ["root/a.txt", "root/sub/c.txt"]);
    assert_eq!(world.deleted, ["root/a.txt"]);
    assert!(world.holds("root/sub/c.txt"));
}

#[test]
fn confirmation_is_asked_for_matches_only() {
    let mut world = small_tree();
    world.answers = vec![String::from("Y"), String::from(" y ")];
    assert_eq!(world.scan(config(&d1(), false, true, true)), Ok(2));
    assert_eq!(world.asked, ["root/a.txt", "root/sub/c.txt"]);
    assert!(world.holds("root/b.txt"));
}

#[test]
fn failed_deletion_is_reported_and_not_counted() {
    let mut world = small_tree();
    world.undeletable = vec![String::from("root/a.txt")];
    assert_eq!(world.scan(config(&d1(), false, true, false)), Ok(1));
    assert_eq!(world.deleted, ["root/sub/c.txt"]);
    assert_eq!(world.noted(NoteKind::DeleteFailed), ["root/a.txt"]);
    assert!(world.holds("root/a.txt"));
}

#[test]
fn unreadable_subdirectory_costs_only_its_subtree() {
    let mut world = small_tree();
    world.dir("root/zz");
    world.file("root/zz/d.txt", D1_CONTENT);
    world.unlistable = vec![String::from("root/sub")];
    assert_eq!(world.scan(config(&d1(), false, true, false)), Ok(2));
    assert_eq!(world.deleted, ["root/a.txt", "root/zz/d.txt"]);
    assert_eq!(world.noted(NoteKind::ListingFailed), ["root/sub"]);
    assert!(world.holds("root/sub/c.txt"));
}

#[test]
fn unreadable_root_fails_the_scan() {
    let mut world = small_tree();
    world.unlistable = vec![String::from("root")];
    assert_eq!(world.scan(config(&d1(), false, true, false)), Err(ScanError::RootUnreadable));
    assert!(world.deleted.is_empty());
    assert_eq!(world.noted(NoteKind::ListingFailed), ["root"]);
}

#[test]
fn empty_root_gives_zero() {
    let mut world = World::new("root");
    assert_eq!(world.scan(config(&d1(), false, true, false)), Ok(0));
    assert_eq!(world.listed, ["root"]);
}

#[test]
fn quiet_scan_reports_failures_only() {
    let mut world = small_tree();
    assert_eq!(world.scan(config(&d1(), false, true, false)), Ok(2));
    assert!(world.notes.is_empty());
}

#[test]
fn verbose_scan_reports_each_thing_in_turn() {
    let mut world = small_tree();
    world.link("root/z", "root/a.txt");
    world.link("root/zz", "root/b.txt");
    assert_eq!(world.scan(verbose_config(&d1(), true)), Ok(2));
    let d2 = get_hash(D2_CONTENT, &HashType::MD5);
    let none = String::new();
    let expected = vec![
        (NoteKind::Scanning, String::from("root"), none.clone()),
        (NoteKind::Digest, String::from("root/a.txt"), d1()),
        (NoteKind::Deleted, String::from("root/a.txt"), none.clone()),
        (NoteKind::Digest, String::from("root/b.txt"), d2),
        (NoteKind::Scanning, String::from("root/sub"), none.clone()),
        (NoteKind::Digest, String::from("root/sub/c.txt"), d1()),
        (NoteKind::Deleted, String::from("root/sub/c.txt"), none.clone()),
        (NoteKind::ResolvingSymlink, String::from("root/z"), String::from("root/a.txt")),
        (NoteKind::IgnoringDuplicate, String::from("root/a.txt"), none.clone()),
        (NoteKind::ResolvingSymlink, String::from("root/zz"), String::from("root/b.txt")),
        (NoteKind::IgnoringDuplicate, String::from("root/b.txt"), none.clone()),
    ];
    assert_eq!(world.notes, expected);
}

#[test]
fn verbose_scan_reports_ignored_links() {
    let mut world = World::new("root");
    world.link("root/l", "root");
    let cli = Cli {
        path: String::from("root"),
        hash: d1(),
        ignore_symlinks: true,
        recursive: true,
        interactive: false,
        verbose: true,
    };
    assert_eq!(world.scan(ScanConfig::from_cli(&cli, true).unwrap()), Ok(0));
    assert_eq!(world.noted(NoteKind::IgnoringSymlink), ["root/l"]);
}

#[test]
fn start_records_the_root_and_asks_for_its_listing() {
    let (scanner, output) = Scanner::start(config(&d1(), false, true, false));
    assert_eq!(
        output.action,
        Action::List { path: String::from("root"), identity: String::from("root") }
    );
    assert_eq!(output.note, None);
    assert_eq!(scanner.count(), 0);
    assert!(!scanner.is_done());
    assert_eq!(scanner.visited().len(), 1);
    assert!(scanner.visited().contains(&String::from("root")));
    assert_eq!(scanner.config().root(), "root");
}

#[test]
fn step_by_step_through_one_match() {
    let (mut scanner, _) = Scanner::start(config(&d1(), false, false, false));
    let entries = vec![Entry { path: String::from("root/a.txt"), is_symlink: false }];
    let output = scanner.step(Event::Listed(Some(entries))).unwrap();
    assert_eq!(output.action, Action::Continue);
    let output = scanner.step(Event::Continue).unwrap();
    assert_eq!(output.action, Action::Classify { identity: String::from("root/a.txt") });
    assert!(scanner.visited().contains(&String::from("root/a.txt")));
    let output = scanner.step(Event::IsDirectory(false)).unwrap();
    assert_eq!(
        output.action,
        Action::Read { path: String::from("root/a.txt"), identity: String::from("root/a.txt") }
    );
    let output = scanner.step(Event::Content(Some(D1_CONTENT.to_vec()))).unwrap();
    assert_eq!(output.action, Action::Delete { path: String::from("root/a.txt") });
    assert_eq!(scanner.count(), 0);
    let output = scanner.step(Event::Deleted(true)).unwrap();
    assert_eq!(output.action, Action::Continue);
    assert_eq!(scanner.count(), 1);
    let output = scanner.step(Event::Continue).unwrap();
    assert_eq!(output.action, Action::Finish(Ok(1)));
    assert!(scanner.is_done());
}

#[test]
fn step_refuses_an_event_that_was_not_asked_for() {
    let (mut scanner, _) = Scanner::start(config(&d1(), false, false, false));
    assert_eq!(scanner.step(Event::Continue), Err(StepError::UnexpectedEvent));
    assert_eq!(scanner.step(Event::Deleted(true)), Err(StepError::UnexpectedEvent));
    assert_eq!(scanner.step(Event::IsDirectory(true)), Err(StepError::UnexpectedEvent));
    assert_eq!(scanner.count(), 0);
    // The scan still waits for the listing.
    let output = scanner.step(Event::Listed(Some(vec![]))).unwrap();
    assert_eq!(output.action, Action::Continue);
    assert_eq!(scanner.step(Event::Listed(None)), Err(StepError::UnexpectedEvent));
    let output = scanner.step(Event::Continue).unwrap();
    assert_eq!(output.action, Action::Finish(Ok(0)));
    assert_eq!(scanner.step(Event::Continue), Err(StepError::UnexpectedEvent));
    assert!(scanner.is_done());
}

#[test]
fn directory_in_a_flat_scan_is_recorded_but_not_listed() {
    let (mut scanner, _) = Scanner::start(config(&d1(), false, false, false));
    let entries = vec![Entry { path: String::from("root/sub"), is_symlink: false }];
    scanner.step(Event::Listed(Some(entries))).unwrap();
    scanner.step(Event::Continue).unwrap();
    let output = scanner.step(Event::IsDirectory(true)).unwrap();
    assert_eq!(output.action, Action::Continue);
    assert!(scanner.visited().contains(&String::from("root/sub")));
    let output = scanner.step(Event::Continue).unwrap();
    assert_eq!(output.action, Action::Finish(Ok(0)));
}

#[test]
fn entered_link_is_recorded_under_both_paths() {
    let (mut scanner, _) = Scanner::start(config(&d1(), false, true, false));
    let entries = vec![Entry { path: String::from("root/l"), is_symlink: true }];
    scanner.step(Event::Listed(Some(entries))).unwrap();
    let output = scanner.step(Event::Continue).unwrap();
    assert_eq!(output.action, Action::ReadLink { path: String::from("root/l") });
    let output = scanner.step(Event::LinkTarget(Some(String::from("/data")))).unwrap();
    assert_eq!(output.action, Action::Continue);
    let output = scanner.step(Event::Continue).unwrap();
    assert_eq!(output.action, Action::Classify { identity: String::from("/data") });
    let output = scanner.step(Event::IsDirectory(true)).unwrap();
    assert_eq!(
        output.action,
        Action::List { path: String::from("root/l"), identity: String::from("/data") }
    );
    assert_eq!(scanner.visited().len(), 3);
    assert!(scanner.visited().contains(&String::from("/data")));
    assert!(scanner.visited().contains(&String::from("root/l")));
}

#[test]
fn unreadable_link_is_reported_and_skipped() {
    let (mut scanner, _) = Scanner::start(config(&d1(), false, true, false));
    let entries = vec![Entry { path: String::from("root/l"), is_symlink: true }];
    scanner.step(Event::Listed(Some(entries))).unwrap();
    scanner.step(Event::Continue).unwrap();
    let output = scanner.step(Event::LinkTarget(None)).unwrap();
    assert_eq!(output.action, Action::Continue);
    let note = output.note.unwrap();
    assert_eq!(note.kind, NoteKind::BrokenLink);
    assert_eq!(note.path, "root/l");
    assert_eq!(scanner.visited().len(), 1);
    let output = scanner.step(Event::Continue).unwrap();
    assert_eq!(output.action, Action::Finish(Ok(0)));
}

#[test]
fn unreadable_file_is_reported_and_skipped() {
    let (mut scanner, _) = Scanner::start(config(&d1(), false, true, false));
    let entries = vec![Entry { path: String::from("root/gone"), is_symlink: false }];
    scanner.step(Event::Listed(Some(entries))).unwrap();
    scanner.step(Event::Continue).unwrap();
    scanner.step(Event::IsDirectory(false)).unwrap();
    let output = scanner.step(Event::Content(None)).unwrap();
    assert_eq!(output.action, Action::Continue);
    assert_eq!(output.note.unwrap().kind, NoteKind::Unreadable);
    let output = scanner.step(Event::Continue).unwrap();
    assert_eq!(output.action, Action::Finish(Ok(0)));
}
