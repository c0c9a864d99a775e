//! The pipeline controller: turns a stream of available input ranges into
//! strictly ordered commits with bounded concurrency.
//!
//! A stage of sync work is split in two: a parallel step (fetch and verify,
//! reorderable) and a sequential step (commit, strictly ordered).  The
//! controller schedules contiguous, non-overlapping ranges, lets their
//! parallel steps finish in any order, and releases ranges for their
//! sequential step only in the order they were scheduled.  The surrounding
//! driver performs the steps themselves; the controller owns the bookkeeping
//! that makes the ordering and the concurrency bound hold.

use vstd::prelude::*;

use crate::range::BlockRange;

verus! {

/// Result of a sequential step: either the range was committed, or the stage
/// signals that no further progress should be made (not an error).
#[derive(Debug, PartialEq, Eq)]
pub enum ApplyOutcome<T> {
    Success(T),
    Stop,
}

/// The state of one scheduled range.
#[derive(Clone, Copy, Debug, PartialEq, Eq, Structural)]
pub enum SlotState {
    /// The parallel step for the range has been started and has not finished.
    Fetching,
    /// The parallel step has finished; the range waits for its sequential
    /// step, which runs once every earlier range has committed.
    Ready,
}

/// One scheduled range together with the state of its parallel step.
#[derive(Clone, Copy, Debug, PartialEq, Eq, Structural)]
pub struct Slot {
    pub range: BlockRange,
    pub state: SlotState,
}

/// Scheduler state of one pipeline stage.
pub struct PipelineController {
    pub parallelization: usize,
    pub batch_size: usize,
    pub next_input_block_n: u64,
    pub next_commit_block_n: u64,
    pub slots: Vec<Slot>,
    pub halted: bool,
}

impl PipelineController {
    /// How many parallel steps may be in flight at once.
    pub open spec fn spec_parallelization(self) -> int {
        self.parallelization as int
    }

    /// The largest number of blocks a single scheduled range may cover.
    pub open spec fn spec_batch_size(self) -> int {
        self.batch_size as int
    }

    /// The next block number requiring input.
    pub open spec fn spec_next_input_block_n(self) -> u64 {
        self.next_input_block_n
    }

    /// The sequential frontier: the next block number requiring commit.
    pub open spec fn spec_next_commit_block_n(self) -> u64 {
        self.next_commit_block_n
    }

    pub open spec fn spec_slots(self) -> Seq<Slot> {
        self.slots@
    }

    pub open spec fn spec_halted(self) -> bool {
        self.halted
    }

    /// The scheduled ranges form a contiguous, non-overlapping chain: each
    /// range ends where the next begins, each is non-empty and no larger than
    /// the batch size.
    pub open spec fn chain_ok(self) -> bool {
        &&& forall|i: int|
            #![trigger self.slots@[i], self.slots@[i + 1]]
            0 <= i < self.slots@.len() - 1 ==> self.slots@[i].range.end == self.slots@[
                i + 1
            ].range.start
        &&& forall|i: int|
            0 <= i < self.slots@.len() ==> ((#[trigger] self.slots@[i]).range.wf()
                && self.slots@[i].range.spec_len() >= 1 && self.slots@[i].range.spec_len()
                <= self.batch_size)
    }

    /// The chain of scheduled ranges runs exactly from the commit frontier to
    /// the input frontier.
    pub open spec fn aligned(self) -> bool {
        &&& (if self.slots@.len() == 0 {
            self.next_commit_block_n == self.next_input_block_n
        } else {
            &&& self.slots@[0].range.start == self.next_commit_block_n
            &&& self.slots@[self.slots@.len() - 1].range.end == self.next_input_block_n
        })
    }

    /// No more ranges are in flight than the parallelization bound allows,
    /// the chain of scheduled ranges is contiguous, and, until a stop signal
    /// arrives, it runs exactly from the commit frontier to the input
    /// frontier.  (A stop signal discards the work still in flight, so the
    /// frontier deliberately stays behind it.)
    pub open spec fn wf(self) -> bool {
        &&& self.parallelization >= 1
        &&& self.batch_size >= 1
        &&& self.slots@.len() <= self.parallelization
        &&& self.chain_ok()
        &&& (!self.halted ==> self.aligned())
    }

    /// Whether a new range may be scheduled toward `target` (an inclusive
    /// block number): the stage has not signalled a stop, a parallel slot is
    /// free, and input is still needed at or below the target.
    pub open spec fn spec_can_schedule(self, target: u64) -> bool {
        &&& !self.halted
        &&& self.slots@.len() < self.parallelization
        &&& self.next_input_block_n <= target
    }

    /// The range whose sequential step may run now: the earliest scheduled
    /// range, and only once its parallel step has finished.
    pub open spec fn spec_next_commit(self) -> Option<BlockRange> {
        if self.slots@.len() > 0 && self.slots@[0].state is Ready {
            Some(self.slots@[0].range)
        } else {
            None
        }
    }

    /// A fresh controller, with both frontiers at the durably recorded
    /// starting block (`None` means genesis, i.e. zero), no range in flight
    /// and no stop signalled.
    pub fn new(parallelization: usize, batch_size: usize, starting_block_n: Option<u64>) -> (r:
        PipelineController)
        requires
            parallelization >= 1,
            batch_size >= 1,
        ensures
            r.wf(),
            r.spec_parallelization() == parallelization,
            r.spec_batch_size() == batch_size,
            r.spec_next_commit_block_n() == (match starting_block_n {
                Some(n) => n,
                None => 0u64,
            }),
            r.spec_next_input_block_n() == r.spec_next_commit_block_n(),
            r.spec_slots().len() == 0,
            !r.spec_halted(),
    {
        let start: u64 = match starting_block_n {
            Some(n) => n,
            None => 0,
        };
        PipelineController {
            parallelization,
            batch_size,
            next_input_block_n: start,
            next_commit_block_n: start,
            slots: Vec::new(),
            halted: false,
        }
    }

    pub fn parallelization(&self) -> (r: usize)
        ensures
            r == self.spec_parallelization(),
    {
        self.parallelization
    }

    pub fn input_batch_size(&self) -> (r: usize)
        ensures
            r == self.spec_batch_size(),
    {
        self.batch_size
    }

    pub fn next_input_block_n(&self) -> (r: u64)
        ensures
            r == self.spec_next_input_block_n(),
    {
        self.next_input_block_n
    }

    pub fn next_commit_block_n(&self) -> (r: u64)
        ensures
            r == self.spec_next_commit_block_n(),
    {
        self.next_commit_block_n
    }

    pub fn is_halted(&self) -> (r: bool)
        ensures
            r == self.spec_halted(),
    {
        self.halted
    }

    /// True when there is no in-flight work at all.
    pub fn is_empty(&self) -> (r: bool)
        ensures
            r == (self.spec_slots().len() == 0),
    {
        self.slots.len() == 0
    }

    /// How many ranges are currently in flight.
    pub fn in_flight(&self) -> (r: usize)
        ensures
            r == self.spec_slots().len(),
    {
        self.slots.len()
    }

    pub fn can_schedule(&self, target: u64) -> (r: bool)
        ensures
            r == self.spec_can_schedule(target),
    {
        !self.halted && self.slots.len() < self.parallelization && self.next_input_block_n
            <= target
    }

    /// Schedules the next range toward the inclusive `target` and starts its
    /// parallel step.  The range begins exactly at the input frontier and
    /// covers at most one batch, never running past the target.
    pub fn schedule(&mut self, target: u64) -> (r: BlockRange)
        requires
            old(self).wf(),
            old(self).spec_can_schedule(target),
            target < u64::MAX,
        ensures
            final(self).wf(),
            r.start == old(self).spec_next_input_block_n(),
            r.end == (if target + 1 - r.start <= old(self).spec_batch_size() {
                target + 1
            } else {
                r.start + old(self).spec_batch_size()
            }),
            r.wf() && r.spec_len() >= 1,
            final(self).spec_slots() == old(self).spec_slots().push(
                Slot { range: r, state: SlotState::Fetching },
            ),
            final(self).spec_next_input_block_n() == r.end,
            final(self).spec_next_commit_block_n() == old(self).spec_next_commit_block_n(),
            final(self).spec_parallelization() == old(self).spec_parallelization(),
            final(self).spec_batch_size() == old(self).spec_batch_size(),
            final(self).spec_halted() == old(self).spec_halted(),
    {
        let start: u64 = self.next_input_block_n;
        let span: u64 = target - start + 1;
        let take: u64 = if span <= self.batch_size as u64 {
            span
        } else {
            self.batch_size as u64
        };
        let end: u64 = start + take;
        let range = BlockRange { start, end };
        self.slots.push(Slot { range, state: SlotState::Fetching });
        self.next_input_block_n = end;
        range
    }

    /// Records that the parallel step for the `i`-th in-flight range has
    /// finished.  Parallel steps may finish in any order; this only makes the
    /// range eligible for its sequential step once it is the earliest one.
    #[verifier::rlimit(30)]
    pub fn parallel_done(&mut self, i: usize)
        requires
            old(self).wf(),
            i < old(self).spec_slots().len(),
        ensures
            final(self).wf(),
            final(self).spec_slots() == old(self).spec_slots().update(
                i as int,
                Slot { range: old(self).spec_slots()[i as int].range, state: SlotState::Ready },
            ),
            final(self).spec_next_input_block_n() == old(self).spec_next_input_block_n(),
            final(self).spec_next_commit_block_n() == old(self).spec_next_commit_block_n(),
            final(self).spec_parallelization() == old(self).spec_parallelization(),
            final(self).spec_batch_size() == old(self).spec_batch_size(),
            final(self).spec_halted() == old(self).spec_halted(),
    {
        let range = self.slots[i].range;
        self.slots.set(i, Slot { range, state: SlotState::Ready });
        proof {
            assert forall|j: int| 0 <= j < self.slots@.len() implies (#[trigger] self.slots@[j]).range
                == old(self).slots@[j].range by {}
            assert forall|j: int|
                #![trigger self.slots@[j], self.slots@[j + 1]]
                0 <= j < self.slots@.len() - 1 implies self.slots@[j].range.end == self.slots@[
                j + 1
            ].range.start by {
                assert(old(self).slots@[j].range.end == old(self).slots@[j + 1].range.start);
            }
        }
    }

    /// The range whose sequential step may run now, if any.  Only the
    /// earliest scheduled range is ever released, and only once its parallel
    /// step has finished: a later range that finished early waits here.
    pub fn next_commit(&self) -> (r: Option<BlockRange>)
        requires
            self.wf(),
        ensures
            r == self.spec_next_commit(),
    {
        if self.slots.len() > 0 {
            let slot = self.slots[0];
            match slot.state {
                SlotState::Ready => Some(slot.range),
                SlotState::Fetching => None,
            }
        } else {
            None
        }
    }

    /// Records the outcome of the sequential step for the range returned by
    /// `next_commit`.  On success the commit frontier advances to the end of
    /// that range; on a stop signal the frontier stays and the controller
    /// stops scheduling for good.  The outcome's payload is handed back; the
    /// controller keeps only its frontier bookkeeping.
    #[verifier::rlimit(30)]
    pub fn record_commit<T>(&mut self, outcome: ApplyOutcome<T>) -> (r: Option<T>)
        requires
            old(self).wf(),
            old(self).spec_next_commit() is Some,
        ensures
            final(self).wf(),
            final(self).spec_slots() == old(self).spec_slots().drop_first(),
            outcome matches ApplyOutcome::Success(v) ==> {
                &&& final(self).spec_next_commit_block_n() == old(
                    self,
                ).spec_next_commit().unwrap().end
                &&& final(self).spec_halted() == old(self).spec_halted()
                &&& r == Some(v)
            },
            outcome is Stop ==> {
                &&& final(self).spec_next_commit_block_n() == old(self).spec_next_commit_block_n()
                &&& final(self).spec_halted()
                &&& r is None
            },
            final(self).spec_next_input_block_n() == old(self).spec_next_input_block_n(),
            final(self).spec_parallelization() == old(self).spec_parallelization(),
            final(self).spec_batch_size() == old(self).spec_batch_size(),
    {
        let slot = self.slots.remove(0);
        proof {
            assert(self.slots@ =~= old(self).slots@.drop_first());
            assert forall|i: int| 0 <= i < self.slots@.len() implies #[trigger] self.slots@[i] == old(
                self,
            ).slots@[i + 1] by {}
            assert forall|i: int|
                #![trigger self.slots@[i], self.slots@[i + 1]]
                0 <= i < self.slots@.len() - 1 implies self.slots@[i].range.end == self.slots@[
                i + 1
            ].range.start by {
                assert(old(self).slots@[i + 1].range.end == old(self).slots@[i + 2].range.start);
            }
            assert forall|i: int| 0 <= i < self.slots@.len() implies ((#[trigger] self.slots@[i]).range.wf()
                && self.slots@[i].range.spec_len() >= 1 && self.slots@[i].range.spec_len()
                <= self.batch_size) by {
                assert(old(self).slots@[i + 1].range.wf());
            }
        }
        match outcome {
            ApplyOutcome::Success(value) => {
                self.next_commit_block_n = slot.range.end;
                proof {
                    if !self.halted {
                        if self.slots@.len() > 0 {
                            assert(old(self).slots@[0].range.end == old(
                                self,
                            ).slots@[1].range.start);
                        }
                    }
                }
                Some(value)
            },
            ApplyOutcome::Stop => {
                self.halted = true;
                None
            },
        }
    }

    /// No more than `parallelization` parallel steps are in flight at any
    /// instant, whatever pattern of scheduling and completion led to the
    /// state.
    pub proof fn lemma_parallelism_bound(self)
        requires
            self.wf(),
        ensures
            self.spec_slots().len() <= self.spec_parallelization(),
    {
    }

    /// Sequential steps run in increasing, gap-free range order, matching the
    /// order the ranges were scheduled in, regardless of the order parallel
    /// steps finish: the only range ever released for commit is the earliest
    /// scheduled one, and it starts exactly at the commit frontier.
    pub proof fn lemma_commit_order(self)
        requires
            self.wf(),
            !self.spec_halted(),
            self.spec_next_commit() is Some,
        ensures
            self.spec_next_commit().unwrap() == self.spec_slots()[0].range,
            self.spec_next_commit().unwrap().start == self.spec_next_commit_block_n(),
            self.spec_next_commit().unwrap().end > self.spec_next_commit().unwrap().start,
    {
        assert(self.slots@[0].range.spec_len() >= 1);
    }

    /// A stop signal from a sequential step halts all further scheduling for
    /// this controller, whatever target is asked for; it is not an error.
    pub proof fn lemma_halt_stops_scheduling(self)
        requires
            self.spec_halted(),
        ensures
            forall|target: u64| !self.spec_can_schedule(target),
    {
    }
}

} // verus!
