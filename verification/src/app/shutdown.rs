//! Cooperative shutdown: one flag that every loop reads at the top of each
//! iteration, and how long a loop may block before it reads the flag again.

use vstd::prelude::*;
use crate::app::render::{frame_budget, frame_budget_nanos, remaining};
use crate::consts::{EVENT_WAIT_MILLIS, INPUT_POLL_MILLIS, NANOS_PER_MILLI, WORKER_IDLE_MILLIS};

verus! {

/// What a loop does at the top of an iteration.
#[derive(Clone, Copy, Debug, PartialEq, Eq, Structural)]
pub enum LoopStep {
    /// Go through one more iteration.
    Continue,
    /// Break out and return, so that the thread can be joined.
    Exit,
}

/// One of the long-running loops.
#[derive(Clone, Copy, Debug, PartialEq, Eq, Structural)]
pub enum LoopKind {
    /// Draws one frame per iteration.
    Render,
    /// Handles one domain event per iteration.
    Event,
    /// Reads one raw event per iteration.
    Input,
    /// Runs one background task per iteration.
    Worker,
}

/// What a loop does once it has read the shutdown flag: it leaves when the
/// flag is set and goes on when it is not.
pub fn loop_step(shutdown: bool) -> (step: LoopStep)
    ensures
        step == if shutdown {
            LoopStep::Exit
        } else {
            LoopStep::Continue
        },
{
    if shutdown {
        LoopStep::Exit
    } else {
        LoopStep::Continue
    }
}

/// The longest that a loop of this kind waits in one iteration, apart from
/// the work it does, before it reads the shutdown flag again, in
/// nanoseconds.
pub open spec fn longest_wait(kind: LoopKind) -> nat {
    match kind {
        LoopKind::Render => frame_budget_nanos(),
        LoopKind::Event => (EVENT_WAIT_MILLIS * NANOS_PER_MILLI) as nat,
        LoopKind::Input => (INPUT_POLL_MILLIS * NANOS_PER_MILLI) as nat,
        LoopKind::Worker => (WORKER_IDLE_MILLIS * NANOS_PER_MILLI) as nat,
    }
}

/// The longest that a loop of this kind waits in one iteration before it
/// reads the shutdown flag again, in nanoseconds.
pub fn wait_bound(kind: LoopKind) -> (nanos: u64)
    ensures
        nanos == longest_wait(kind),
{
    match kind {
        LoopKind::Render => frame_budget(),
        LoopKind::Event => EVENT_WAIT_MILLIS * NANOS_PER_MILLI,
        LoopKind::Input => INPUT_POLL_MILLIS * NANOS_PER_MILLI,
        LoopKind::Worker => WORKER_IDLE_MILLIS * NANOS_PER_MILLI,
    }
}

/// A loop that reads the flag as set leaves at once; and whatever a frame
/// cost, the render loop sleeps no longer than one frame period, and the
/// event and input loops wait no longer than fifty milliseconds, before
/// they read the flag again.
pub proof fn lemma_shutdown_is_observed(kind: LoopKind, elapsed: nat)
    ensures
        remaining(frame_budget_nanos(), elapsed) <= longest_wait(LoopKind::Render),
        longest_wait(kind) <= 50_000_000,
        longest_wait(LoopKind::Input) + longest_wait(LoopKind::Render) <= 50_000_000
            + frame_budget_nanos(),
{
    assert(1_000_000_000nat / 60nat == 16_666_666) by (nonlinear_arith);
}

} // verus!
