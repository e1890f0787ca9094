use vstd::prelude::*;

verus! {

/// A one-shot latch that an owning handle consults before it performs its
/// foreign release action, so that the action fires once and only once.
pub struct Release {
    pending: bool,
}

impl Release {
    /// Whether the release action is still owed.
    pub closed spec fn is_pending(&self) -> bool {
        self.pending
    }

    /// A latch for a freshly acquired resource: its release is owed.
    pub fn armed() -> (r: Release)
        ensures
            r.is_pending(),
    {
        Release { pending: true }
    }

    /// Whether the release action is still owed.
    pub fn pending(&self) -> (r: bool)
        ensures
            r == self.is_pending(),
    {
        self.pending
    }

    /// Claims the release: true exactly when it was still owed, in which case
    /// the caller performs the action. Afterwards it is never owed again.
    pub fn fire(&mut self) -> (r: bool)
        ensures
            r == old(self).is_pending(),
            !final(self).is_pending(),
    {
        let r = self.pending;
        self.pending = false;
        r
    }
}

} // verus!
