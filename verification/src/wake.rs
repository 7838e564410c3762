use vstd::prelude::*;

verus! {

/// The single-slot wake notification between the sync side and the
/// importer. Posting a wake records a pending notification; consuming
/// takes it. Missed wakes never accumulate beyond one.
#[derive(Clone, Copy, Debug, PartialEq, Eq, Structural)]
pub struct WakeSlot {
    pub pending: bool,
}

/// The slot after a wake has been posted, whatever it held before.
pub open spec fn spec_notify(w: WakeSlot) -> WakeSlot {
    WakeSlot { pending: true }
}

impl WakeSlot {
    /// Whether a wake is pending.
    pub open spec fn pending(self) -> bool {
        self.pending
    }

    pub fn new() -> (w: WakeSlot)
        ensures
            !w.pending(),
    {
        WakeSlot { pending: false }
    }

    /// Posts a wake. Any number of posts leave exactly one pending wake.
    pub fn notify_one(&mut self)
        ensures
            *final(self) == spec_notify(*old(self)),
    {
        self.pending = true;
    }

    /// Consumes the pending wake, if one is there, and reports whether
    /// there was one.
    pub fn take(&mut self) -> (was: bool)
        ensures
            was == old(self).pending(),
            !final(self).pending(),
    {
        let was = self.pending;
        self.pending = false;
        was
    }
}

/// Wake coalescing: posting a wake twice leaves the same slot as posting
/// it once, so any number of posts during a busy cycle schedule at most
/// one further cycle after the drain.
pub proof fn lemma_wake_coalescing(w: WakeSlot)
    ensures
        spec_notify(spec_notify(w)) == spec_notify(w),
{
}

} // verus!
