//! A snapshot of the filesystem facts the library decides on: which paths
//! exist. Existence probing itself is I/O and stays with the caller; the
//! caller hands in the set of existing paths as plain values.

use vstd::prelude::*;

verus! {

/// The set of paths that exist, as seen at one moment. Viewed as the
/// sequence of those paths' character sequences; membership is what the
/// resolution logic reads.
pub struct FsSnapshot {
    paths: Vec<String>,
}

impl View for FsSnapshot {
    type V = Seq<Seq<char>>;

    closed spec fn view(&self) -> Seq<Seq<char>> {
        self.paths.deep_view()
    }
}

impl FsSnapshot {
    /// Wraps a list of existing paths as a snapshot.
    pub fn new(paths: Vec<String>) -> (r: FsSnapshot)
        ensures
            r@ == paths.deep_view(),
    {
        FsSnapshot { paths }
    }

    /// Whether `p` is among the snapshot's existing paths.
    pub fn contains(&self, p: &String) -> (b: bool)
        ensures
            b == self@.contains(p@),
    {
        let mut i: usize = 0;
        while i < self.paths.len()
            invariant
                i <= self.paths.len(),
                forall|j: int| 0 <= j < i ==> self.paths@[j]@ != p@,
            decreases self.paths.len() - i,
        {
            if self.paths[i].eq(p) {
                proof {
                    assert(self@[i as int] == p@);
                }
                return true;
            }
            i = i + 1;
        }
        proof {
            assert(forall|j: int| 0 <= j < self@.len() ==> self@[j] == self.paths@[j]@);
        }
        false
    }
}

} // verus!
