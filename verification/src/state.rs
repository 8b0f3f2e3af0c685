//! The application state shared between the render loop and the background
//! fetch: the release list and the load-error flag. The owner wraps one
//! value of this type in a mutual-exclusion lock; each method here is one
//! lock scope's worth of work, so lock discipline is enforced at this API
//! boundary rather than by caller convention.

use vstd::prelude::*;
use crate::release::Release;

verus! {

/// The release list and the load-error flag.
pub struct AppState {
    /// Fetched releases, in the order the fetch appended them.
    pub releases: Vec<Release>,
    /// Set when a fetch failed; surfaced as an inline retry button. Never
    /// cleared: a later successful fetch simply fills the list again.
    pub load_error: bool,
}

impl AppState {
    /// The state before the first fetch: no releases, no error.
    pub fn new() -> (s: AppState)
        ensures
            s.releases@.len() == 0,
            !s.load_error,
    {
        AppState { releases: Vec::new(), load_error: false }
    }

    /// A reload begins: the list is fully cleared before the fetch appends
    /// anew. The error flag is left as it is.
    pub fn clear_for_fetch(&mut self)
        ensures
            final(self).releases@.len() == 0,
            final(self).load_error == old(self).load_error,
    {
        self.releases.clear();
    }

    /// The fetch delivered one whole record: it is appended after everything
    /// already in the list, which is otherwise untouched.
    pub fn append_release(&mut self, release: Release)
        ensures
            final(self).releases@ == old(self).releases@.push(release),
            final(self).releases@.len() == old(self).releases@.len() + 1,
            final(self).load_error == old(self).load_error,
    {
        self.releases.push(release);
    }

    /// The fetch failed: record it so the list body offers a retry.
    pub fn set_load_error(&mut self)
        ensures
            final(self).load_error,
            final(self).releases@ == old(self).releases@,
    {
        self.load_error = true;
    }

    /// How many releases the list holds right now.
    pub fn release_count(&self) -> (n: usize)
        ensures
            n == self.releases@.len(),
    {
        self.releases.len()
    }

    /// The render thread's per-frame snapshot: a copy of the whole list as
    /// it stands, taken inside one lock scope so a fetch can never be seen
    /// mid-record.
    pub fn snapshot_releases(&self) -> (rs: Vec<Release>)
        ensures
            rs@ == self.releases@,
    {
        let mut rs: Vec<Release> = Vec::new();
        let mut i: usize = 0;
        while i < self.releases.len()
            invariant
                i <= self.releases@.len(),
                rs@ == self.releases@.subrange(0, i as int),
            decreases self.releases@.len() - i,
        {
            rs.push(self.releases[i].duplicate());
            proof {
                assert(rs@ =~= self.releases@.subrange(0, i as int + 1));
            }
            i = i + 1;
        }
        proof {
            assert(rs@ =~= self.releases@);
        }
        rs
    }
}

/// Between two lock-protected checkpoints, an append changes the list only
/// by putting one whole record at the end: the length grows by exactly one
/// and every record that was present is still present, unchanged and in
/// place. A reader that samples the list between appends therefore only ever
/// observes a prefix of whole records, never a torn entry.
pub proof fn lemma_list_grows_by_whole_records(before: Seq<Release>, release: Release)
    ensures
        before.push(release).len() == before.len() + 1,
        forall|i: int| 0 <= i < before.len() ==> before.push(release)[i] == before[i],
        before.push(release)[before.len() as int] == release,
{
}

} // verus!
