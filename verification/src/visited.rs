//! The identities that a scan has already handled.

use vstd::prelude::*;

verus! {

/// Whether no element of `s` occurs twice.
pub open spec fn distinct(s: Seq<Seq<char>>) -> bool {
    forall|i: int, j: int| 0 <= i < j < s.len() ==> s[i] != s[j]
}

/// `visited` with `path` recorded: put at the end unless it is there already.
pub open spec fn recorded(visited: Seq<Seq<char>>, path: Seq<char>) -> Seq<Seq<char>> {
    if visited.contains(path) {
        visited
    } else {
        visited.push(path)
    }
}

/// The paths handled so far, in the order in which they were first met.
/// No path is held twice.
pub struct VisitedSet {
    paths: Vec<String>,
}

impl View for VisitedSet {
    type V = Seq<Seq<char>>;

    closed spec fn view(&self) -> Seq<Seq<char>> {
        Seq::new(self.paths@.len(), |i: int| self.paths@[i]@)
    }
}

impl VisitedSet {
    /// The invariant of the collection: nothing occurs twice.
    pub open spec fn wf(&self) -> bool {
        distinct(self@)
    }

    /// A collection with nothing in it.
    pub fn new() -> (set: VisitedSet)
        ensures
            set@ == Seq::<Seq<char>>::empty(),
            set.wf(),
    {
        VisitedSet { paths: Vec::new() }
    }

    /// How many paths are held.
    pub fn len(&self) -> (n: usize)
        ensures
            n == self@.len(),
    {
        self.paths.len()
    }

    /// The collection holds no more paths than a machine word can count.
    pub proof fn lemma_len_fits(&self)
        ensures
            self@.len() <= usize::MAX,
    {
        assert(self.paths.len() == self.paths@.len());
    }

    /// Whether `path` has been recorded.
    pub fn contains(&self, path: &String) -> (found: bool)
        ensures
            found == self@.contains(path@),
    {
        let mut i: usize = 0;
        while i < self.paths.len()
            invariant
                i <= self.paths@.len(),
                forall|k: int| 0 <= k < i ==> self@[k] != path@,
            decreases self.paths.len() - i,
        {
            if self.paths[i] == *path {
                assert(self@[i as int] == path@);
                return true;
            }
            i = i + 1;
        }
        false
    }

    /// Records `path` and tells whether it was new. A path that is held
    /// already changes nothing.
    pub fn insert(&mut self, path: String) -> (fresh: bool)
        requires
            old(self).wf(),
        ensures
            fresh == !old(self)@.contains(path@),
            final(self)@ == recorded(old(self)@, path@),
            final(self).wf(),
    {
        if self.contains(&path) {
            return false;
        }
        self.paths.push(path);
        true
    }
}

/// Recording keeps what was there, in its place, and ends with the path
/// among the recorded.
pub proof fn lemma_recorded_grows(visited: Seq<Seq<char>>, path: Seq<char>)
    ensures
        visited.is_prefix_of(recorded(visited, path)),
        recorded(visited, path).contains(path),
        distinct(visited) ==> distinct(recorded(visited, path)),
{
    let after = recorded(visited, path);
    if !visited.contains(path) {
        assert(after[visited.len() as int] == path);
    }
}

} // verus!
