use vstd::prelude::*;

use crate::types::HeightRange;

verus! {

/// Bookkeeping for one bounded, order-preserving fetch stage. Requests
/// for the heights of a range are issued in increasing order with at
/// most `capacity` outstanding at once, and completions are released
/// downstream in issue order, not completion order.
pub struct Window {
    range: HeightRange,
    capacity: usize,
    next_issue: u64,
    next_release: u64,
}

impl Window {
    /// The range of heights this stage works through.
    pub closed spec fn spec_range(self) -> HeightRange {
        self.range
    }

    /// The bound on outstanding requests.
    pub closed spec fn spec_capacity(self) -> int {
        self.capacity as int
    }

    /// The next height a request will be issued for.
    pub closed spec fn next_issue(self) -> int {
        self.next_issue as int
    }

    /// The next height whose completion will be released downstream.
    pub closed spec fn next_release(self) -> int {
        self.next_release as int
    }

    /// How many requests have been issued but not yet released.
    pub open spec fn in_flight(self) -> int {
        self.next_issue() - self.next_release()
    }

    pub open spec fn wf(self) -> bool {
        &&& self.spec_range().wf()
        &&& self.spec_capacity() >= 1
        &&& self.spec_range().start <= self.next_release()
        &&& self.next_release() <= self.next_issue()
        &&& self.next_issue() <= self.spec_range().end + 1
        &&& self.in_flight() <= self.spec_capacity()
    }

    pub fn new(range: HeightRange, capacity: usize) -> (w: Window)
        requires
            range.wf(),
            capacity >= 1,
        ensures
            w.wf(),
            w.spec_range() == range,
            w.spec_capacity() == capacity,
            w.next_issue() == range.start,
            w.next_release() == range.start,
    {
        Window {
            range,
            capacity,
            next_issue: range.start as u64,
            next_release: range.start as u64,
        }
    }

    /// Whether another request may be issued: the stage is under its
    /// bound and heights of the range remain unrequested.
    pub fn can_issue(&self) -> (r: bool)
        requires
            self.wf(),
        ensures
            r == (self.in_flight() < self.spec_capacity() && self.next_issue()
                <= self.spec_range().end),
    {
        self.next_issue - self.next_release < self.capacity as u64 && self.next_issue
            <= self.range.end as u64
    }

    /// Issues the request for the next height in order.
    pub fn issue(&mut self) -> (h: u32)
        requires
            old(self).wf(),
            old(self).in_flight() < old(self).spec_capacity(),
            old(self).next_issue() <= old(self).spec_range().end,
        ensures
            final(self).wf(),
            h == old(self).next_issue(),
            final(self).next_issue() == old(self).next_issue() + 1,
            final(self).next_release() == old(self).next_release(),
            final(self).spec_range() == old(self).spec_range(),
            final(self).spec_capacity() == old(self).spec_capacity(),
    {
        let h = self.next_issue as u32;
        self.next_issue = self.next_issue + 1;
        h
    }

    /// Whether a request is outstanding.
    pub fn has_in_flight(&self) -> (r: bool)
        requires
            self.wf(),
        ensures
            r == (self.in_flight() > 0),
    {
        self.next_release < self.next_issue
    }

    /// Releases the completion that came in for the oldest outstanding
    /// request: results leave this stage in the order the heights were
    /// asked for.
    pub fn release(&mut self) -> (h: u32)
        requires
            old(self).wf(),
            old(self).in_flight() > 0,
        ensures
            final(self).wf(),
            h == old(self).next_release(),
            final(self).next_release() == old(self).next_release() + 1,
            final(self).next_issue() == old(self).next_issue(),
            final(self).spec_range() == old(self).spec_range(),
            final(self).spec_capacity() == old(self).spec_capacity(),
    {
        let h = self.next_release as u32;
        self.next_release = self.next_release + 1;
        h
    }
}

/// Bounded concurrency: a well-formed stage never has more requests
/// outstanding than its configured bound, and `issue` demands room
/// under the bound before another request may leave.
pub proof fn lemma_bounded_in_flight(w: Window)
    requires
        w.wf(),
    ensures
        w.in_flight() <= w.spec_capacity(),
{
}

} // verus!
