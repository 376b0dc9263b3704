//! The producer half of the task scheduler, and the decisions of the worker
//! threads that consume what it sends.

use vstd::prelude::*;
use std::sync::mpsc::Sender;
use crate::consts::WORKER_IDLE_MILLIS;

verus! {

/// The sending half of a channel of the standard library. Nothing inside it
/// is visible to the verifier.
#[verifier::external_type_specification]
#[verifier::external_body]
#[verifier::reject_recursive_types(T)]
pub struct ExSender<T>(Sender<T>);

/// Why a task could not be handed to the workers.
#[derive(Clone, Copy, Debug, PartialEq, Eq, Structural)]
pub enum ScheduleError {
    /// The producer was used before the executor gave it a channel.
    SchedulerUninitialized,
    /// The workers' end of the channel is gone.
    SchedulingFailed,
}

/// `std::sync::mpsc::Sender::send`: hands `task` to the channel and says
/// whether the channel took it, which it does not once the receiving end is
/// gone. Whether that end still exists is not known here, so nothing is
/// claimed of the answer.
#[verifier::external_body]
fn send_task<T>(sender: &Sender<T>, task: T) -> (accepted: bool) {
    sender.send(task).is_ok()
}

/// `std::sync::mpsc::Sender::clone`: another handle to the same channel.
#[verifier::external_body]
fn clone_sender<T>(sender: &Sender<T>) -> (copy: Sender<T>) {
    sender.clone()
}

/// What `schedule` answers, given whether the producer had a channel and
/// whether the channel took the task.
pub open spec fn schedule_outcome(initialized: bool, accepted: bool) -> Result<(), ScheduleError> {
    if !initialized {
        Err(ScheduleError::SchedulerUninitialized)
    } else if accepted {
        Ok(())
    } else {
        Err(ScheduleError::SchedulingFailed)
    }
}

/// The answer of the scheduler for a producer that was or was not
/// initialized and a channel that did or did not take the task.
pub fn outcome(initialized: bool, accepted: bool) -> (result: Result<(), ScheduleError>)
    ensures
        result == schedule_outcome(initialized, accepted),
{
    if !initialized {
        Err(ScheduleError::SchedulerUninitialized)
    } else if accepted {
        Ok(())
    } else {
        Err(ScheduleError::SchedulingFailed)
    }
}

/// The submission endpoint for background work. It is cheap to clone, and
/// every clone feeds the same channel.
#[verifier::reject_recursive_types(T)]
pub struct TaskProducer<T> {
    inner: Option<Sender<T>>,
}

impl<T> TaskProducer<T> {
    /// Whether the executor has given this producer its channel.
    pub closed spec fn initialized(&self) -> bool {
        self.inner is Some
    }

    /// A producer without a channel: scheduling on it fails until `init`.
    pub fn new() -> (producer: Self)
        ensures
            !producer.initialized(),
    {
        TaskProducer { inner: None }
    }

    /// Gives the producer the sending half of the task channel.
    pub fn init(&mut self, sender: Sender<T>)
        ensures
            final(self).initialized(),
    {
        self.inner = Some(sender);
    }

    /// Whether the executor has given this producer its channel.
    pub fn is_initialized(&self) -> (b: bool)
        ensures
            b == self.initialized(),
    {
        self.inner.is_some()
    }

    /// Hands `task` to the workers. Fails with `SchedulerUninitialized`
    /// before `init`, and with `SchedulingFailed` when the workers' end of
    /// the channel is gone; it never blocks on the workers.
    pub fn schedule(&mut self, task: T) -> (result: Result<(), ScheduleError>)
        ensures
            final(self).initialized() == old(self).initialized(),
            !old(self).initialized() <==> result == Err::<(), ScheduleError>(
                ScheduleError::SchedulerUninitialized,
            ),
            old(self).initialized() ==> result == schedule_outcome(true, true) || result
                == schedule_outcome(true, false),
    {
        match &self.inner {
            None => outcome(false, false),
            Some(sender) => {
                let accepted = send_task(sender, task);
                outcome(true, accepted)
            },
        }
    }

}

impl<T> Clone for TaskProducer<T> {
    /// Another producer for the same channel.
    fn clone(&self) -> (copy: Self)
        ensures
            copy.initialized() == self.initialized(),
    {
        match &self.inner {
            None => TaskProducer { inner: None },
            Some(sender) => TaskProducer { inner: Some(clone_sender(sender)) },
        }
    }
}

/// What a worker does after it has tried to claim a task.
pub enum WorkerAction<T> {
    /// Run the claimed task to completion before claiming another.
    Run(T),
    /// Nothing was waiting: sleep this many milliseconds, then look at the
    /// shutdown flag again.
    Sleep(u64),
}

/// What a worker does with the answer of the channel: it runs the task it
/// claimed, and sleeps for a short while when there was none.
pub open spec fn worker_decision<T>(claimed: Option<T>) -> WorkerAction<T> {
    match claimed {
        Some(task) => WorkerAction::Run(task),
        None => WorkerAction::Sleep(WORKER_IDLE_MILLIS),
    }
}

/// What a worker does with the answer of the channel: it runs the task it
/// claimed, and sleeps for a short while when there was none.
pub fn worker_action<T>(claimed: Option<T>) -> (action: WorkerAction<T>)
    ensures
        action == worker_decision(claimed),
{
    match claimed {
        Some(task) => WorkerAction::Run(task),
        None => WorkerAction::Sleep(WORKER_IDLE_MILLIS),
    }
}

/// One step in the life of the thread that owns the execution engine.
#[derive(Clone, Copy, Debug, PartialEq, Eq, Structural)]
pub enum OwnerAction {
    /// Create the execution engine.
    CreateEngine,
    /// Start the worker with this number and give it a handle to the engine.
    SpawnWorker(u32),
    /// Wait until the worker with this number has returned.
    JoinWorker(u32),
    /// Discard the execution engine.
    DropEngine,
    /// Nothing is left to do.
    Finished,
}

/// The step at which the owner of a pool creates the engine.
pub open spec fn create_step() -> nat {
    0
}

/// The step at which worker `worker` is started.
pub open spec fn spawn_step(worker: nat) -> nat {
    worker + 1
}

/// The step at which worker `worker` is waited for.
pub open spec fn join_step(workers: nat, worker: nat) -> nat {
    workers + worker + 1
}

/// The step at which the engine is discarded.
pub open spec fn drop_step(workers: nat) -> nat {
    2 * workers + 1
}

/// What the owner of a pool of `workers` workers does at step `step`: it
/// creates the engine, starts the workers one by one, waits for each of
/// them, and only then discards the engine.
pub open spec fn owner_action_at(workers: nat, step: nat) -> OwnerAction {
    if step == create_step() {
        OwnerAction::CreateEngine
    } else if step <= workers {
        OwnerAction::SpawnWorker((step - 1) as u32)
    } else if step <= 2 * workers {
        OwnerAction::JoinWorker((step - 1 - workers) as u32)
    } else if step == drop_step(workers) {
        OwnerAction::DropEngine
    } else {
        OwnerAction::Finished
    }
}

/// The thread that owns the execution engine, between two steps.
pub struct ExecutorOwner {
    workers: u32,
    step: u64,
}

impl ExecutorOwner {
    /// How many workers the pool has.
    pub closed spec fn workers(&self) -> nat {
        self.workers as nat
    }

    /// How many steps have been taken.
    pub closed spec fn step(&self) -> nat {
        self.step as nat
    }

    /// The steps never run past the one after the engine is discarded.
    pub closed spec fn wf(&self) -> bool {
        self.step <= 2 * self.workers + 2
    }

    /// The owner of a pool of `workers` workers, before its first step.
    pub fn new(workers: u32) -> (owner: Self)
        ensures
            owner.wf(),
            owner.workers() == workers,
            owner.step() == 0,
    {
        ExecutorOwner { workers, step: 0 }
    }

    /// What to do next.
    pub fn next(&mut self) -> (action: OwnerAction)
        requires
            old(self).wf(),
        ensures
            final(self).wf(),
            final(self).workers() == old(self).workers(),
            action == owner_action_at(old(self).workers(), old(self).step()),
            final(self).step() == if old(self).step() <= drop_step(old(self).workers()) {
                old(self).step() + 1
            } else {
                old(self).step()
            },
    {
        let workers: u64 = self.workers as u64;
        let step: u64 = self.step;
        if step <= 2 * workers + 1 {
            self.step = step + 1;
        }
        if step == 0 {
            OwnerAction::CreateEngine
        } else if step <= workers {
            OwnerAction::SpawnWorker((step - 1) as u32)
        } else if step <= 2 * workers {
            OwnerAction::JoinWorker((step - 1 - workers) as u32)
        } else if step == 2 * workers + 1 {
            OwnerAction::DropEngine
        } else {
            OwnerAction::Finished
        }
    }
}

/// The engine outlives every worker that uses it: each worker is started
/// after the engine was created and waited for after it was started, and
/// the engine is discarded only after the last worker was waited for.
pub proof fn lemma_engine_outlives_workers(workers: nat, worker: nat)
    requires
        worker < workers,
        workers <= u32::MAX,
    ensures
        owner_action_at(workers, create_step()) == OwnerAction::CreateEngine,
        owner_action_at(workers, spawn_step(worker)) == OwnerAction::SpawnWorker(worker as u32),
        owner_action_at(workers, join_step(workers, worker)) == OwnerAction::JoinWorker(
            worker as u32,
        ),
        owner_action_at(workers, drop_step(workers)) == OwnerAction::DropEngine,
        create_step() < spawn_step(worker) < join_step(workers, worker) < drop_step(workers),
{
}

/// The engine is created once and discarded once, and every worker is
/// started once and waited for once: no other step does any of these.
pub proof fn lemma_owner_steps_are_unique(workers: nat, step: nat)
    requires
        workers <= u32::MAX,
    ensures
        owner_action_at(workers, step) == OwnerAction::CreateEngine ==> step == create_step(),
        owner_action_at(workers, step) == OwnerAction::DropEngine ==> step == drop_step(workers),
        forall|worker: nat|
            worker < workers && owner_action_at(workers, step) == OwnerAction::SpawnWorker(
                worker as u32,
            ) ==> step == spawn_step(worker),
        forall|worker: nat|
            worker < workers && owner_action_at(workers, step) == OwnerAction::JoinWorker(
                worker as u32,
            ) ==> step == join_step(workers, worker),
{
}

} // verus!
