use vstd::prelude::*;

use crate::errors::ImportError;
use crate::state::State;
use crate::state::spec_process_range;
use crate::state::StateView;
use crate::types::HeightRange;
use crate::types::SealedBlock;

verus! {

/// Which step the serial commit stage of one cycle is at.
#[derive(Clone, Copy, Debug, PartialEq, Eq, Structural)]
pub enum CyclePhase {
    /// Awaiting the pipeline's outcome for the next height in order.
    Ready,
    /// One execute-and-commit is in flight; its result is owed.
    Executing,
    /// The cycle is closed: range drained, a skip, an error or shutdown.
    Done,
}

/// The serial, order-preserving tail of one import cycle. Per-height
/// outcomes are offered lowest height first; blocks are executed one at
/// a time; commits land contiguously from the low end of the range. The
/// cycle closes on the first error, the first missing block, shutdown,
/// or when the range is drained.
pub struct Cycle {
    range: HeightRange,
    next: u64,
    committed: u64,
    phase: CyclePhase,
    failure: Option<ImportError>,
}

impl Cycle {
    /// The range this cycle drains.
    pub closed spec fn spec_range(self) -> HeightRange {
        self.range
    }

    /// The height whose outcome is owed next; committed heights are
    /// exactly those of the range below it.
    pub closed spec fn next(self) -> int {
        self.next as int
    }

    /// How many blocks this cycle has committed.
    pub closed spec fn committed_count(self) -> int {
        self.committed as int
    }

    pub closed spec fn phase(self) -> CyclePhase {
        self.phase
    }

    /// The first error the cycle observed, if any.
    pub closed spec fn failure(self) -> Option<ImportError> {
        self.failure
    }

    /// Whether this cycle has committed the given height.
    pub open spec fn is_committed(self, h: int) -> bool {
        self.spec_range().start <= h < self.next()
    }

    pub open spec fn wf(self) -> bool {
        &&& self.spec_range().wf()
        &&& self.spec_range().start <= self.next()
        &&& self.next() <= self.spec_range().end + 1
        &&& self.committed_count() == self.next() - self.spec_range().start
        &&& (self.phase() !is Done ==> self.next() <= self.spec_range().end && self.failure()
            is None)
    }

    /// The cycle and the shared state agree: the next height this cycle
    /// works on is the one directly above the state's committed tip, and
    /// the whole range sits at or below the observed tip.
    pub open spec fn in_sync(self, v: StateView) -> bool {
        &&& v.wf()
        &&& v.next_height() == self.next()
        &&& v.observed_tip matches Some(o) && self.spec_range().end <= o
    }

    pub fn new(range: HeightRange) -> (c: Cycle)
        requires
            range.wf(),
        ensures
            c.wf(),
            c.spec_range() == range,
            c.next() == range.start,
            c.committed_count() == 0,
            c.phase() is Ready,
            c.failure() is None,
    {
        Cycle {
            range,
            next: range.start as u64,
            committed: 0,
            phase: CyclePhase::Ready,
            failure: None,
        }
    }

    /// The range this cycle drains.
    pub fn range(&self) -> (r: HeightRange)
        ensures
            r == self.spec_range(),
    {
        self.range
    }

    pub fn is_done(&self) -> (r: bool)
        ensures
            r == (self.phase() is Done),
    {
        matches!(self.phase, CyclePhase::Done)
    }

    pub fn awaiting_execution(&self) -> (r: bool)
        ensures
            r == (self.phase() is Executing),
    {
        matches!(self.phase, CyclePhase::Executing)
    }

    /// The height the cycle is currently working on.
    pub fn current_height(&self) -> (h: u32)
        requires
            self.wf(),
            self.phase() !is Done,
        ensures
            h == self.next(),
    {
        self.next as u32
    }

    pub fn committed_so_far(&self) -> (n: u64)
        ensures
            n == self.committed_count(),
    {
        self.committed
    }

    /// Takes the pipeline's outcome for the next height in order. A
    /// block is handed back for execution; a missing block closes the
    /// cycle gracefully; an error closes it and is kept as the cycle's
    /// failure. Heights above a close are never executed, even if their
    /// work completed.
    pub fn offer(&mut self, outcome: Result<Option<SealedBlock>, ImportError>) -> (r: Option<
        SealedBlock,
    >)
        requires
            old(self).wf(),
            old(self).phase() is Ready,
            outcome matches Ok(Some(bb)) ==> bb.height() == old(self).next(),
        ensures
            final(self).wf(),
            final(self).spec_range() == old(self).spec_range(),
            final(self).next() == old(self).next(),
            final(self).committed_count() == old(self).committed_count(),
            match outcome {
                Ok(Some(b)) => {
                    &&& r == Some(b)
                    &&& final(self).phase() is Executing
                    &&& final(self).failure() is None
                },
                Ok(None) => {
                    &&& r is None
                    &&& final(self).phase() is Done
                    &&& final(self).failure() is None
                },
                Err(e) => {
                    &&& r is None
                    &&& final(self).phase() is Done
                    &&& final(self).failure() == Some(e)
                },
            },
    {
        match outcome {
            Ok(Some(block)) => {
                self.phase = CyclePhase::Executing;
                Some(block)
            },
            Ok(None) => {
                self.phase = CyclePhase::Done;
                None
            },
            Err(e) => {
                self.phase = CyclePhase::Done;
                self.failure = Some(e);
                None
            },
        }
    }

    /// Records the result of the execute-and-commit that was in flight.
    /// On success the shared state commits exactly the height the block
    /// sat at and the cycle moves to the next height; on failure the
    /// shared state is left untouched and the cycle closes with the
    /// error.
    pub fn record_execution(
        &mut self,
        state: &mut State,
        result: Result<(), ImportError>,
    )
        requires
            old(self).wf(),
            old(self).phase() is Executing,
            old(self).in_sync(old(state)@),
        ensures
            final(self).wf(),
            final(state).wf(),
            final(self).spec_range() == old(self).spec_range(),
            final(state)@.observed_tip == old(state)@.observed_tip,
            final(state)@.in_progress == old(state)@.in_progress,
            match result {
                Ok(_) => {
                    &&& final(self).next() == old(self).next() + 1
                    &&& final(self).committed_count() == old(self).committed_count() + 1
                    &&& final(self).failure() is None
                    &&& (final(self).phase() is Done <==> old(self).next()
                        == old(self).spec_range().end)
                    &&& (final(self).phase() is Ready <==> old(self).next()
                        != old(self).spec_range().end)
                    &&& final(state)@.committed_tip == Some(old(self).next() as u32)
                    &&& final(state)@.failed == old(state)@.failed.remove(old(self).next())
                    &&& final(self).in_sync(final(state)@)
                },
                Err(e) => {
                    &&& *final(state) == *old(state)
                    &&& final(self).phase() is Done
                    &&& final(self).failure() == Some(e)
                    &&& final(self).next() == old(self).next()
                    &&& final(self).committed_count() == old(self).committed_count()
                },
            },
    {
        match result {
            Ok(()) => {
                let height = self.next as u32;
                state.commit(height);
                self.next = self.next + 1;
                self.committed = self.committed + 1;
                if self.next > self.range.end as u64 {
                    self.phase = CyclePhase::Done;
                } else {
                    self.phase = CyclePhase::Ready;
                }
            },
            Err(e) => {
                self.phase = CyclePhase::Done;
                self.failure = Some(e);
            },
        }
    }

    /// Observes the shutdown signal: the cycle stops producing new work.
    /// An execute-and-commit that is in flight is not cancelled; its
    /// result must be recorded before shutdown is observed here.
    pub fn on_shutdown(&mut self)
        requires
            old(self).wf(),
            old(self).phase() !is Executing,
        ensures
            final(self).wf(),
            final(self).phase() is Done,
            final(self).spec_range() == old(self).spec_range(),
            final(self).next() == old(self).next(),
            final(self).committed_count() == old(self).committed_count(),
            final(self).failure() == old(self).failure(),
    {
        self.phase = CyclePhase::Done;
    }

    /// Closes the cycle's books: if the range was not fully committed,
    /// the uncommitted suffix is recorded in the shared state as failed
    /// so the sync side can retry it. Returns how many blocks were
    /// committed, contiguously from the low end of the range, and the
    /// first error observed, if any.
    pub fn finish(self, state: &mut State) -> (r: (u64, Option<ImportError>))
        requires
            self.wf(),
            self.phase() is Done,
            old(state).wf(),
        ensures
            final(state).wf(),
            r.0 == self.committed_count(),
            r.1 == self.failure(),
            final(state)@.committed_tip == old(state)@.committed_tip,
            final(state)@.observed_tip == old(state)@.observed_tip,
            final(state)@.in_progress == old(state)@.in_progress,
            self.committed_count() < self.spec_range().len() ==> final(state)@.failed == old(
                state,
            )@.failed.union(
                (HeightRange { start: self.next() as u32, end: self.spec_range().end }).heights(),
            ),
            self.committed_count() == self.spec_range().len() ==> final(state)@.failed == old(
                state,
            )@.failed,
    {
        if self.next <= self.range.end as u64 {
            state.failed_to_process(HeightRange { start: self.next as u32, end: self.range.end });
        }
        (self.committed, self.failure)
    }
}

/// Opens one import cycle: takes the range the shared state offers, if
/// any, records it as in progress, and starts the serial commit stage
/// on it, in step with the state.
pub fn begin_cycle(state: &mut State) -> (c: Option<Cycle>)
    requires
        old(state).wf(),
    ensures
        final(state).wf(),
        final(state)@.committed_tip == old(state)@.committed_tip,
        final(state)@.observed_tip == old(state)@.observed_tip,
        final(state)@.failed == old(state)@.failed,
        final(state)@.in_progress == spec_process_range(old(state)@),
        c is Some <==> spec_process_range(old(state)@) is Some,
        c matches Some(cc) ==> {
            &&& cc.wf()
            &&& cc.phase() is Ready
            &&& cc.committed_count() == 0
            &&& cc.in_sync(final(state)@)
            &&& Some(cc.spec_range()) == spec_process_range(old(state)@)
        },
{
    match state.process_range() {
        Some(range) => Some(Cycle::new(range)),
        None => None,
    }
}

/// Contiguity: the heights a cycle has committed are exactly the first
/// `committed_count` heights of its range, so whenever a height is
/// committed, every height from the range's start up to it is too.
pub proof fn lemma_contiguous_commits(c: Cycle, h: int, k: int)
    requires
        c.wf(),
        c.is_committed(h),
        c.spec_range().start <= k <= h,
    ensures
        c.is_committed(k),
{
}

/// A cycle in step with the shared state has committed exactly the
/// heights below its cursor: once anything is committed, the state's
/// tip is the last height the cycle committed.
pub proof fn lemma_in_sync_tip(c: Cycle, v: StateView)
    requires
        c.wf(),
        c.in_sync(v),
        c.committed_count() > 0,
    ensures
        v.committed_tip == Some((c.next() - 1) as u32),
{
}

/// How many execute-and-commit calls a cycle has in flight: one while
/// the commit stage awaits a result, none otherwise.
pub open spec fn executions_in_flight(c: Cycle) -> int {
    if c.phase() is Executing {
        1
    } else {
        0
    }
}

/// The commit stage is strictly serial: at most one execute-and-commit
/// is ever in flight, and no new block can be offered for execution
/// until the outstanding result has been recorded.
pub proof fn lemma_serial_execution(c: Cycle)
    ensures
        executions_in_flight(c) <= 1,
{
}

/// Cancellation safety: once a cycle is closed — in particular after
/// shutdown has been observed — it is in no phase that admits offering
/// another block or starting another execute-and-commit.
pub proof fn lemma_no_execution_after_close(c: Cycle)
    requires
        c.phase() is Done,
    ensures
        c.phase() !is Ready,
        c.phase() !is Executing,
{
}

} // verus!
