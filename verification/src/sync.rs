//! The sync controller: merges a settlement-layer head signal, a probe-derived
//! best-known height and an optional hard stop height into a single target
//! height, and decides, iteration by iteration, whether to drive the forward
//! pipeline or to issue a probe call.
//!
//! The controller is a single cooperative state machine.  Each iteration of
//! its run loop computes a plan: possibly start a probe call, possibly run the
//! pipeline toward the current target, or exit cleanly when nothing can make
//! progress.  The surrounding driver performs the waiting (channel reads, the
//! probe future, pipeline futures) and hands the outcome of whichever event
//! fired back to the controller.

use vstd::prelude::*;

use crate::pipeline::PipelineController;

verus! {

/// What a probe call should be issued with: the probe asks an external source
/// how far the chain extends, starting from the pipeline's next input block.
#[derive(Clone, Copy, Debug, PartialEq, Eq)]
pub struct ProbeRequest {
    pub next_block_n: u64,
    pub batch_size: usize,
    /// Whether a cooldown from an earlier probe completion must be waited out
    /// before the call is made.
    pub wait_cooldown: bool,
}

/// The plan for one iteration of the run loop.
#[derive(Clone, Copy, Debug, PartialEq, Eq)]
pub struct IterationPlan {
    /// `Some` when a new probe call must be started this iteration.
    pub start_probe: Option<ProbeRequest>,
    /// `Some(target)` when the pipeline can run toward `target`.
    pub pipeline_target: Option<u64>,
    /// True when no branch can make progress and the loop exits cleanly.
    pub exit: bool,
}

/// Top-level sync state: the forward pipeline plus the signals the target
/// height is derived from and the probe bookkeeping.
pub struct SyncController {
    pub pipeline: PipelineController,
    /// Hard stop height, when configured.
    pub stop_at_block_n: Option<u64>,
    /// Whether a probe is configured at all.
    pub probe_enabled: bool,
    /// Block number of the most recently observed settlement-layer head.
    pub current_l1_head: Option<u64>,
    /// Best known height extracted from the latest probe state.
    pub probe_highest: Option<u64>,
    /// True while a probe call is outstanding; at most one ever is.
    pub probe_in_flight: bool,
    /// True when a completed probe has armed the cooldown delay that the next
    /// probe call must wait out first.
    pub probe_cooldown_pending: bool,
}

/// The larger of two optional heights; an absent term drops out.
pub open spec fn opt_max(a: Option<u64>, b: Option<u64>) -> Option<u64> {
    match (a, b) {
        (None, None) => None,
        (None, Some(y)) => Some(y),
        (Some(x), None) => Some(x),
        (Some(x), Some(y)) => if x >= y {
            Some(x)
        } else {
            Some(y)
        },
    }
}

/// The smaller of two optional heights; an absent term drops out.
pub open spec fn opt_min(a: Option<u64>, b: Option<u64>) -> Option<u64> {
    match (a, b) {
        (None, None) => None,
        (None, Some(y)) => Some(y),
        (Some(x), None) => Some(x),
        (Some(x), Some(y)) => if x <= y {
            Some(x)
        } else {
            Some(y)
        },
    }
}

impl SyncController {
    pub open spec fn wf(self) -> bool {
        &&& self.pipeline.wf()
        &&& (self.probe_in_flight || self.probe_highest is Some ==> self.probe_enabled)
    }

    /// The height the controller aims for: the minimum of the stop height and
    /// the maximum of the settlement head and the probe-derived height, each
    /// term dropping out when absent.  The probe term only exists when a
    /// probe is configured.
    pub open spec fn spec_target_height(self) -> Option<u64> {
        opt_min(
            opt_max(
                self.current_l1_head,
                if self.probe_enabled {
                    self.probe_highest
                } else {
                    None
                },
            ),
            self.stop_at_block_n,
        )
    }

    /// The pipeline can run when it still has work in flight, or when the
    /// target reaches its next input block.
    pub open spec fn spec_can_run_pipeline(self) -> bool {
        self.pipeline.slots@.len() > 0 || (self.spec_target_height() matches Some(t)
            && t >= self.pipeline.next_input_block_n)
    }

    /// A probe call is started when a probe is configured, none is already in
    /// flight, and the pipeline cannot run.
    pub open spec fn spec_should_start_probe(self) -> bool {
        self.probe_enabled && !self.probe_in_flight && !self.spec_can_run_pipeline()
    }

    /// The plan for one loop iteration, given whether the settlement-head
    /// channel is still open, as computed against the state at the start of
    /// the iteration.
    pub open spec fn spec_plan(self, l1_channel_open: bool) -> IterationPlan {
        let start_probe = if self.spec_should_start_probe() {
            Some(
                ProbeRequest {
                    next_block_n: self.pipeline.next_input_block_n,
                    batch_size: self.pipeline.batch_size,
                    wait_cooldown: self.probe_cooldown_pending,
                },
            )
        } else {
            None
        };
        let pipeline_target = if self.spec_can_run_pipeline() {
            self.spec_target_height()
        } else {
            None
        };
        let probe_outstanding = self.probe_in_flight || start_probe is Some;
        IterationPlan {
            start_probe,
            pipeline_target,
            exit: !l1_channel_open && !probe_outstanding && pipeline_target is None,
        }
    }

    /// A fresh controller: no settlement head observed, nothing learned from
    /// the probe, no probe call in flight and no cooldown armed.
    pub fn new(pipeline: PipelineController, stop_at_block_n: Option<u64>, probe_enabled: bool) -> (r:
        SyncController)
        requires
            pipeline.wf(),
        ensures
            r.wf(),
            r.pipeline == pipeline,
            r.stop_at_block_n == stop_at_block_n,
            r.probe_enabled == probe_enabled,
            r.current_l1_head is None,
            r.probe_highest is None,
            !r.probe_in_flight,
            !r.probe_cooldown_pending,
    {
        SyncController {
            pipeline,
            stop_at_block_n,
            probe_enabled,
            current_l1_head: None,
            probe_highest: None,
            probe_in_flight: false,
            probe_cooldown_pending: false,
        }
    }

    pub fn target_height(&self) -> (r: Option<u64>)
        ensures
            r == self.spec_target_height(),
    {
        let mut target: Option<u64> = self.current_l1_head;
        if self.probe_enabled {
            target = match (target, self.probe_highest) {
                (None, None) => None,
                (None, Some(y)) => Some(y),
                (Some(x), None) => Some(x),
                (Some(x), Some(y)) => if x >= y {
                    Some(x)
                } else {
                    Some(y)
                },
            };
        }
        match (target, self.stop_at_block_n) {
            (None, None) => None,
            (None, Some(y)) => Some(y),
            (Some(x), None) => Some(x),
            (Some(x), Some(y)) => if x <= y {
                Some(x)
            } else {
                Some(y)
            },
        }
    }

    pub fn can_run_pipeline(&self) -> (r: bool)
        ensures
            r == self.spec_can_run_pipeline(),
    {
        if self.pipeline.in_flight() > 0 {
            true
        } else {
            match self.target_height() {
                Some(t) => t >= self.pipeline.next_input_block_n(),
                None => false,
            }
        }
    }

    /// Computes the plan for this iteration and records the start of a probe
    /// call when the plan asks for one.  A new probe call is never started
    /// while one is in flight.
    pub fn begin_iteration(&mut self, l1_channel_open: bool) -> (r: IterationPlan)
        requires
            old(self).wf(),
        ensures
            final(self).wf(),
            r == old(self).spec_plan(l1_channel_open),
            r.start_probe is Some ==> !old(self).probe_in_flight,
            final(self).probe_in_flight == (old(self).probe_in_flight || r.start_probe is Some),
            final(self).pipeline == old(self).pipeline,
            final(self).stop_at_block_n == old(self).stop_at_block_n,
            final(self).probe_enabled == old(self).probe_enabled,
            final(self).current_l1_head == old(self).current_l1_head,
            final(self).probe_highest == old(self).probe_highest,
            final(self).probe_cooldown_pending == old(self).probe_cooldown_pending,
    {
        let can_run = self.can_run_pipeline();
        let start_probe: Option<ProbeRequest> = if self.probe_enabled && !self.probe_in_flight
            && !can_run {
            Some(
                ProbeRequest {
                    next_block_n: self.pipeline.next_input_block_n(),
                    batch_size: self.pipeline.input_batch_size(),
                    wait_cooldown: self.probe_cooldown_pending,
                },
            )
        } else {
            None
        };
        if start_probe.is_some() {
            self.probe_in_flight = true;
        }
        let pipeline_target: Option<u64> = if can_run {
            self.target_height()
        } else {
            None
        };
        let probe_outstanding = self.probe_in_flight;
        IterationPlan {
            start_probe,
            pipeline_target,
            exit: !l1_channel_open && !probe_outstanding && pipeline_target.is_none(),
        }
    }

    /// Records a settlement-head update.  The most recent value always wins;
    /// earlier ones are discarded.
    pub fn on_l1_head_update(&mut self, head_block_n: Option<u64>)
        requires
            old(self).wf(),
        ensures
            final(self).wf(),
            final(self).current_l1_head == head_block_n,
            final(self).pipeline == old(self).pipeline,
            final(self).stop_at_block_n == old(self).stop_at_block_n,
            final(self).probe_enabled == old(self).probe_enabled,
            final(self).probe_highest == old(self).probe_highest,
            final(self).probe_in_flight == old(self).probe_in_flight,
            final(self).probe_cooldown_pending == old(self).probe_cooldown_pending,
    {
        self.current_l1_head = head_block_n;
    }

    /// Records the completion of the outstanding probe call: the best known
    /// height extracted from the returned probe state replaces the previous
    /// one wholesale, and the cooldown before the next call is armed.
    pub fn on_probe_success(&mut self, highest_known_block: Option<u64>)
        requires
            old(self).wf(),
            old(self).probe_in_flight,
        ensures
            final(self).wf(),
            !final(self).probe_in_flight,
            final(self).probe_cooldown_pending,
            final(self).probe_highest == highest_known_block,
            final(self).pipeline == old(self).pipeline,
            final(self).stop_at_block_n == old(self).stop_at_block_n,
            final(self).probe_enabled == old(self).probe_enabled,
            final(self).current_l1_head == old(self).current_l1_head,
    {
        self.probe_in_flight = false;
        self.probe_cooldown_pending = true;
        self.probe_highest = highest_known_block;
    }

    /// Records the failure of the outstanding probe call.  The failure is
    /// fatal to the current run and is propagated by the caller; the state is
    /// still cleaned up so that a later run can resume.
    pub fn on_probe_failure(&mut self)
        requires
            old(self).wf(),
            old(self).probe_in_flight,
        ensures
            final(self).wf(),
            !final(self).probe_in_flight,
            final(self).probe_cooldown_pending,
            final(self).probe_highest == old(self).probe_highest,
            final(self).pipeline == old(self).pipeline,
            final(self).stop_at_block_n == old(self).stop_at_block_n,
            final(self).probe_enabled == old(self).probe_enabled,
            final(self).current_l1_head == old(self).current_l1_head,
    {
        self.probe_in_flight = false;
        self.probe_cooldown_pending = true;
    }

    /// Only one probe call is in flight at any time: while one is
    /// outstanding, no iteration plan ever starts another.
    pub proof fn lemma_single_probe(self, l1_channel_open: bool)
        requires
            self.probe_in_flight,
        ensures
            self.spec_plan(l1_channel_open).start_probe is None,
    {
    }

    /// Re-running the controller after a clean termination with unchanged
    /// inputs performs no additional work: a state in which the loop exits
    /// cleanly plans no probe call and no pipeline run, and the iteration
    /// leaves the state unchanged, so the commit frontier stays where it is.
    pub proof fn lemma_rerun_after_clean_exit(self, l1_channel_open: bool)
        requires
            self.wf(),
            self.spec_plan(l1_channel_open).exit,
        ensures
            self.spec_plan(l1_channel_open).start_probe is None,
            self.spec_plan(l1_channel_open).pipeline_target is None,
    {
    }
}

} // verus!
