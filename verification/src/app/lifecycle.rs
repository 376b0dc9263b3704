//! The order of startup and shutdown on the primary thread, and what each
//! kind of failure is allowed to bring down.

use vstd::prelude::*;

verus! {

/// One of the threads that the primary thread starts.
#[derive(Clone, Copy, Debug, PartialEq, Eq, Structural)]
pub enum Worker {
    /// Draws the frames.
    Render,
    /// Owns the execution engine and the pool of workers.
    Executor,
    /// Handles the domain events.
    Events,
}

/// One step of the primary thread.
#[derive(Clone, Copy, Debug, PartialEq, Eq, Structural)]
pub enum RunStep {
    /// Give the task producer its channel.
    InitScheduler,
    /// Queue the event that fetches the first content.
    SendStart,
    /// Start a thread.
    Spawn(Worker),
    /// Read input until shutdown is requested.
    RunInput,
    /// Wait until a thread has returned.
    Join(Worker),
    /// Give the terminal back to the shell.
    RestoreTerminal,
}

/// What the primary thread does, in order: the scheduler is made ready
/// before anything can schedule, the threads are started, input is read
/// until shutdown, every thread is waited for, and only then is the
/// terminal given back.
pub open spec fn run_script() -> Seq<RunStep> {
    seq![
        RunStep::InitScheduler,
        RunStep::SendStart,
        RunStep::Spawn(Worker::Render),
        RunStep::Spawn(Worker::Executor),
        RunStep::Spawn(Worker::Events),
        RunStep::RunInput,
        RunStep::Join(Worker::Render),
        RunStep::Join(Worker::Executor),
        RunStep::Join(Worker::Events),
        RunStep::RestoreTerminal,
    ]
}

/// What the primary thread does, in order.
pub fn run_steps() -> (steps: Vec<RunStep>)
    ensures
        steps@ == run_script(),
{
    let mut steps: Vec<RunStep> = Vec::new();
    steps.push(RunStep::InitScheduler);
    steps.push(RunStep::SendStart);
    steps.push(RunStep::Spawn(Worker::Render));
    steps.push(RunStep::Spawn(Worker::Executor));
    steps.push(RunStep::Spawn(Worker::Events));
    steps.push(RunStep::RunInput);
    steps.push(RunStep::Join(Worker::Render));
    steps.push(RunStep::Join(Worker::Executor));
    steps.push(RunStep::Join(Worker::Events));
    steps.push(RunStep::RestoreTerminal);
    assert(steps@ =~= run_script());
    steps
}

/// The scheduler is ready before any thread runs and before the first
/// event is queued, so nothing can schedule on a producer without a
/// channel.
pub proof fn lemma_scheduler_is_ready_first(i: int)
    requires
        0 <= i < run_script().len(),
        run_script()[i] is Spawn || run_script()[i] is SendStart || run_script()[i] is RunInput,
    ensures
        run_script()[0] == RunStep::InitScheduler,
        0 < i,
{
}

/// Every thread that is started is waited for, after input has ended and
/// before the terminal is given back; and the terminal is given back last.
pub proof fn lemma_threads_are_joined_before_restore(worker: Worker) -> (at: (int, int))
    ensures
        0 <= at.0 < at.1 < run_script().len() - 1,
        run_script()[at.0] == RunStep::Spawn(worker),
        run_script()[at.1] == RunStep::Join(worker),
        run_script()[5] == RunStep::RunInput && at.0 < 5 < at.1,
        run_script()[run_script().len() - 1] == RunStep::RestoreTerminal,
        forall|i: int|
            0 <= i < run_script().len() && run_script()[i] == RunStep::RestoreTerminal ==> i
                == run_script().len() - 1,
{
    match worker {
        Worker::Render => (2, 6),
        Worker::Executor => (3, 7),
        Worker::Events => (4, 8),
    }
}

/// What can go wrong while the application runs.
#[derive(Clone, Copy, Debug, PartialEq, Eq, Structural)]
pub enum Failure {
    /// The terminal could not be set up at startup.
    Startup,
    /// A task was scheduled before the executor existed.
    SchedulerUninitialized,
    /// A task was scheduled after the workers had gone.
    SchedulingFailed,
    /// The lock of a shared component could not be taken.
    LockFailure,
    /// One frame could not be drawn.
    RenderTransient,
    /// Input that stands for nothing.
    InputUnrecognized,
    /// A background task failed on its own.
    TaskFailure,
}

/// How far a failure reaches.
#[derive(Clone, Copy, Debug, PartialEq, Eq, Structural)]
pub enum Containment {
    /// The process ends with a non-zero status.
    AbortProcess,
    /// What was being done is skipped for this iteration and logged; the
    /// loop goes on and tries again the next time.
    SkipIteration,
    /// The failure is logged and has no other consequence.
    LogOnly,
    /// The failure is dropped without a trace.
    Silent,
}

/// How far each failure reaches: only a failure at startup ends the
/// process; everything else stays within the iteration in which it
/// happened.
pub open spec fn containment_of(failure: Failure) -> Containment {
    match failure {
        Failure::Startup => Containment::AbortProcess,
        Failure::SchedulerUninitialized => Containment::LogOnly,
        Failure::SchedulingFailed => Containment::LogOnly,
        Failure::LockFailure => Containment::SkipIteration,
        Failure::RenderTransient => Containment::SkipIteration,
        Failure::InputUnrecognized => Containment::Silent,
        Failure::TaskFailure => Containment::LogOnly,
    }
}

impl Failure {
    /// How far the failure reaches.
    pub fn containment(&self) -> (containment: Containment)
        ensures
            containment == containment_of(*self),
            containment == Containment::AbortProcess <==> *self == Failure::Startup,
    {
        match self {
            Failure::Startup => Containment::AbortProcess,
            Failure::SchedulerUninitialized => Containment::LogOnly,
            Failure::SchedulingFailed => Containment::LogOnly,
            Failure::LockFailure => Containment::SkipIteration,
            Failure::RenderTransient => Containment::SkipIteration,
            Failure::InputUnrecognized => Containment::Silent,
            Failure::TaskFailure => Containment::LogOnly,
        }
    }
}

} // verus!
