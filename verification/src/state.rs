use vstd::prelude::*;

use crate::types::HeightRange;

verus! {

/// Mathematical view of the shared import state.
pub struct StateView {
    /// Highest height some peer claims.
    pub observed_tip: Option<u32>,
    /// Highest height this node has committed.
    pub committed_tip: Option<u32>,
    /// The range the importer is currently draining.
    pub in_progress: Option<HeightRange>,
    /// The heights that aborted this session; the sync side decides retry.
    pub failed: Set<int>,
}

impl StateView {
    /// The next height a commit may land on: one above the committed tip.
    pub open spec fn next_height(self) -> int {
        match self.committed_tip {
            None => 0,
            Some(c) => c + 1,
        }
    }

    /// The committed tip never runs ahead of the observed tip.
    pub open spec fn wf(self) -> bool {
        self.committed_tip matches Some(c) ==> (self.observed_tip matches Some(o) && c <= o)
    }
}

/// The union of the heights covered by a sequence of ranges.
pub open spec fn heights_of(rs: Seq<HeightRange>) -> Set<int>
    decreases rs.len(),
{
    if rs.len() == 0 {
        Set::empty()
    } else {
        heights_of(rs.drop_last()).union(rs.last().heights())
    }
}

pub proof fn lemma_heights_of_push(rs: Seq<HeightRange>, r: HeightRange)
    ensures
        heights_of(rs.push(r)) == heights_of(rs).union(r.heights()),
{
    assert(rs.push(r).drop_last() =~= rs);
    assert(rs.push(r).last() == r);
}

/// A height lies in the union exactly when one of the ranges covers it.
pub proof fn lemma_heights_of_contains(rs: Seq<HeightRange>, h: int)
    ensures
        heights_of(rs).contains(h) <==> exists|i: int| 0 <= i < rs.len() && rs[i].contains(h),
    decreases rs.len(),
{
    if rs.len() > 0 {
        lemma_heights_of_contains(rs.drop_last(), h);
        if heights_of(rs).contains(h) {
            if rs.last().contains(h) {
                assert(rs[rs.len() - 1].contains(h));
            } else {
                let i = choose|i: int| 0 <= i < rs.drop_last().len() && rs.drop_last()[i].contains(
                    h,
                );
                assert(rs[i].contains(h));
            }
        }
        if exists|i: int| 0 <= i < rs.len() && rs[i].contains(h) {
            let i = choose|i: int| 0 <= i < rs.len() && rs[i].contains(h);
            if i < rs.len() - 1 {
                assert(rs.drop_last()[i].contains(h));
            }
        }
    }
}

/// The range a state offers for processing: one above the committed tip
/// through the observed tip, when that interval is non-empty.
pub open spec fn spec_process_range(v: StateView) -> Option<HeightRange> {
    if v.observed_tip matches Some(o) && v.next_height() <= o {
        Some(HeightRange { start: v.next_height() as u32, end: v.observed_tip->0 })
    } else {
        None
    }
}

/// The record shared between the sync side and the importer. The sync
/// side advances the observed tip and decides retries; the importer
/// drains ranges and commits heights.
pub struct State {
    observed_tip: Option<u32>,
    committed_tip: Option<u32>,
    in_progress: Option<HeightRange>,
    failed: Vec<HeightRange>,
}

impl View for State {
    type V = StateView;

    closed spec fn view(&self) -> StateView {
        StateView {
            observed_tip: self.observed_tip,
            committed_tip: self.committed_tip,
            in_progress: self.in_progress,
            failed: heights_of(self.failed@),
        }
    }
}

impl State {
    pub open spec fn wf(self) -> bool {
        self@.wf()
    }

    pub fn new(committed_tip: Option<u32>, observed_tip: Option<u32>) -> (s: State)
        requires
            committed_tip matches Some(c) ==> (observed_tip matches Some(o) && c <= o),
        ensures
            s.wf(),
            s@.committed_tip == committed_tip,
            s@.observed_tip == observed_tip,
            s@.in_progress is None,
            s@.failed == Set::<int>::empty(),
    {
        let s = State { observed_tip, committed_tip, in_progress: None, failed: Vec::new() };
        proof {
            assert(s.failed@.len() == 0);
        }
        s
    }

    pub fn observed_tip(&self) -> (r: Option<u32>)
        ensures
            r == self@.observed_tip,
    {
        self.observed_tip
    }

    pub fn committed_tip(&self) -> (r: Option<u32>)
        ensures
            r == self@.committed_tip,
    {
        self.committed_tip
    }

    pub fn in_progress(&self) -> (r: Option<HeightRange>)
        ensures
            r == self@.in_progress,
    {
        self.in_progress
    }

    /// The failed heights, as the recorded ranges.
    pub fn failed_ranges(&self) -> (r: &Vec<HeightRange>)
        ensures
            heights_of(r@) == self@.failed,
    {
        &self.failed
    }

    /// Whether a height is recorded as failed.
    pub fn is_failed(&self, height: u32) -> (r: bool)
        ensures
            r == self@.failed.contains(height as int),
    {
        let n = self.failed.len();
        let mut i: usize = 0;
        while i < n
            invariant
                0 <= i <= n,
                n == self.failed@.len(),
                forall|j: int| 0 <= j < i ==> !self.failed@[j].contains(height as int),
            decreases n - i,
        {
            let r = self.failed[i];
            if r.start <= height && height <= r.end {
                proof {
                    lemma_heights_of_contains(self.failed@, height as int);
                }
                return true;
            }
            i += 1;
        }
        proof {
            lemma_heights_of_contains(self.failed@, height as int);
        }
        false
    }

    /// Records a tip some peer claims, for the sync side: the observed
    /// tip only ever rises, so it never falls below the committed tip.
    /// Reports whether the claim moved it.
    pub fn observe(&mut self, height: u32) -> (changed: bool)
        requires
            old(self).wf(),
        ensures
            final(self).wf(),
            final(self)@.committed_tip == old(self)@.committed_tip,
            final(self)@.in_progress == old(self)@.in_progress,
            final(self)@.failed == old(self)@.failed,
            changed == (match old(self)@.observed_tip {
                None => true,
                Some(o) => height > o,
            }),
            final(self)@.observed_tip == (if changed {
                Some(height)
            } else {
                old(self)@.observed_tip
            }),
    {
        let changed = match self.observed_tip {
            None => true,
            Some(o) => height > o,
        };
        if changed {
            self.observed_tip = Some(height);
        }
        changed
    }

    /// Offers the next range to drain and records it as in progress.
    /// Returns the interval from one above the committed tip through the
    /// observed tip exactly when that interval is non-empty.
    pub fn process_range(&mut self) -> (r: Option<HeightRange>)
        requires
            old(self).wf(),
        ensures
            final(self).wf(),
            r == spec_process_range(old(self)@),
            r matches Some(rr) ==> rr.wf() && rr.start == old(self)@.next_height(),
            final(self)@.in_progress == r,
            final(self)@.observed_tip == old(self)@.observed_tip,
            final(self)@.committed_tip == old(self)@.committed_tip,
            final(self)@.failed == old(self)@.failed,
    {
        let r = match (self.committed_tip, self.observed_tip) {
            (_, None) => None,
            (None, Some(o)) => Some(HeightRange { start: 0, end: o }),
            (Some(c), Some(o)) => {
                if c < o {
                    Some(HeightRange { start: c + 1, end: o })
                } else {
                    None
                }
            },
        };
        self.in_progress = r;
        r
    }

    /// Commits one height: the one directly above the committed tip.
    /// The tip advances to it and the height is cleared from the failed
    /// set; nothing else changes.
    pub fn commit(&mut self, height: u32)
        requires
            old(self).wf(),
            height == old(self)@.next_height(),
            old(self)@.observed_tip matches Some(o) && height <= o,
        ensures
            final(self).wf(),
            final(self)@.committed_tip == Some(height),
            final(self)@.observed_tip == old(self)@.observed_tip,
            final(self)@.in_progress == old(self)@.in_progress,
            final(self)@.failed == old(self)@.failed.remove(height as int),
    {
        self.committed_tip = Some(height);

        let mut cleared: Vec<HeightRange> = Vec::new();
        let n = self.failed.len();
        let mut i: usize = 0;
        while i < n
            invariant
                0 <= i <= n,
                n == self.failed@.len(),
                heights_of(cleared@) == heights_of(self.failed@.take(i as int)).remove(
                    height as int,
                ),
            decreases n - i,
        {
            let ghost pre = cleared@;
            let ghost prefix = self.failed@.take(i as int);
            let r = self.failed[i];
            if height < r.start || r.end < height {
                cleared.push(r);
                proof {
                    lemma_heights_of_push(pre, r);
                    assert(heights_of(cleared@) =~= heights_of(prefix.push(r)).remove(
                        height as int,
                    )) by {
                        lemma_heights_of_push(prefix, r);
                    }
                }
            } else {
                if r.start < height {
                    cleared.push(HeightRange { start: r.start, end: height - 1 });
                    proof {
                        lemma_heights_of_push(pre, HeightRange { start: r.start, end: (height
                            - 1) as u32 });
                    }
                }
                let ghost mid = cleared@;
                if height < r.end {
                    cleared.push(HeightRange { start: height + 1, end: r.end });
                    proof {
                        lemma_heights_of_push(mid, HeightRange { start: (height + 1) as u32, end: r.end });
                    }
                }
                proof {
                    lemma_heights_of_push(prefix, r);
                    assert(heights_of(cleared@) =~= heights_of(prefix.push(r)).remove(
                        height as int,
                    ));
                }
            }
            proof {
                assert(self.failed@.take(i + 1) =~= prefix.push(self.failed@[i as int]));
            }
            i += 1;
        }
        proof {
            assert(self.failed@.take(n as int) =~= self.failed@);
        }
        self.failed = cleared;
    }

    /// Records a range as failed so the sync side can retry it. The
    /// committed tip is never touched here.
    pub fn failed_to_process(&mut self, range: HeightRange)
        requires
            old(self).wf(),
            range.wf(),
        ensures
            final(self).wf(),
            final(self)@.committed_tip == old(self)@.committed_tip,
            final(self)@.observed_tip == old(self)@.observed_tip,
            final(self)@.in_progress == old(self)@.in_progress,
            final(self)@.failed == old(self)@.failed.union(range.heights()),
    {
        let ghost pre = self.failed@;
        self.failed.push(range);
        proof {
            lemma_heights_of_push(pre, range);
        }
    }
}

/// One option is at or below another, with absence lowest of all.
pub open spec fn tip_leq(a: Option<u32>, b: Option<u32>) -> bool {
    match a {
        None => true,
        Some(x) => b matches Some(y) && x <= y,
    }
}

/// Monotone commits: a commit lands one above the committed tip, so the
/// tip never decreases.
pub proof fn lemma_commit_monotone(v: StateView, h: u32)
    requires
        v.wf(),
        h == v.next_height(),
    ensures
        tip_leq(v.committed_tip, Some(h)),
{
}

/// Replaying a committed range yields no new commits: any range the
/// state offers starts strictly above the committed tip, so no height at
/// or below it is ever handed to the pipeline again.
pub proof fn lemma_no_recommit(v: StateView)
    requires
        v.wf(),
    ensures
        v.committed_tip matches Some(c) ==> (spec_process_range(v) matches Some(r) ==> r.start
            > c),
{
}

} // verus!
