//! The files that a generated file refers to, and that the site must
//! therefore hold: the set that each page fills while it is built.

use vstd::prelude::*;

use crate::text::text_eq;

verus! {

/// The paths of the files that a generated file refers to.
pub struct ExpectedFiles {
    paths: Vec<String>,
}

impl View for ExpectedFiles {
    type V = Set<Seq<char>>;

    /// The set of the paths.
    closed spec fn view(&self) -> Set<Seq<char>> {
        Set::new(|p: Seq<char>| exists|i: int| 0 <= i < self.paths@.len() && #[trigger] self.paths@[i]@ == p)
    }
}

impl ExpectedFiles {
    /// No file expected yet.
    pub fn new() -> (files: Self)
        ensures
            files@ == Set::<Seq<char>>::empty(),
    {
        let files = ExpectedFiles { paths: Vec::new() };
        assert(files@ =~= Set::<Seq<char>>::empty());
        files
    }

    /// Records that the file at `path` is expected, and gives `path` back
    /// for the reference to it.
    pub fn insert(&mut self, path: String) -> (inserted: String)
        ensures
            final(self)@ == old(self)@.insert(path@),
            inserted@ == path@,
    {
        let inserted = path.clone();
        let ghost before = self.paths@;
        self.paths.push(path);
        proof {
            let after = self.paths@;
            assert(after.len() == before.len() + 1);
            assert forall|q: Seq<char>| #[trigger] self@.contains(q) == old(self)@.insert(
                inserted@,
            ).contains(q) by {
                if old(self)@.contains(q) {
                    let i = choose|i: int| 0 <= i < before.len() && #[trigger] before[i]@ == q;
                    assert(after[i] == before[i]);
                }
                if self@.contains(q) {
                    let i = choose|i: int| 0 <= i < after.len() && #[trigger] after[i]@ == q;
                    if i < before.len() {
                        assert(after[i] == before[i]);
                    }
                }
                if q == inserted@ {
                    assert(after[before.len() as int]@ == q);
                }
            }
            assert(self@ =~= old(self)@.insert(inserted@));
        }
        inserted
    }

    /// Whether the file at `path` is expected.
    pub fn contains(&self, path: &str) -> (found: bool)
        ensures
            found == self@.contains(path@),
    {
        let n = self.paths.len();
        let mut i: usize = 0;
        while i < n
            invariant
                n == self.paths@.len(),
                i <= n,
                forall|j: int| 0 <= j < i ==> #[trigger] self.paths@[j]@ != path@,
            decreases n - i,
        {
            if text_eq(self.paths[i].as_str(), path) {
                assert(self.paths@[i as int]@ == path@);
                return true;
            }
            i = i + 1;
        }
        false
    }
}

impl Default for ExpectedFiles {
    /// No file expected yet.
    fn default() -> (files: Self)
        ensures
            files@ == Set::<Seq<char>>::empty(),
    {
        ExpectedFiles::new()
    }
}

} // verus!
