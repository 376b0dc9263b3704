use mngdx::app::lifecycle::{run_steps, Containment, Failure, RunStep, Worker};
use mngdx::app::scheduler::{
    outcome, worker_action, ExecutorOwner, OwnerAction, ScheduleError, TaskProducer, WorkerAction,
};
use mngdx::app::shutdown::{loop_step, wait_bound, LoopKind, LoopStep};
use std::sync::mpsc;

#[test]
fn schedule_before_init_is_uninitialized() {
    let mut producer: TaskProducer<u32> = TaskProducer::new();
    assert!(!producer.is_initialized());
    assert_eq!(producer.schedule(7), Err(ScheduleError::SchedulerUninitialized));
    assert_eq!(producer.schedule(8), Err(ScheduleError::SchedulerUninitialized));
}

#[test]
fn schedule_after_init_delivers_in_order() {
    let (sender, receiver) = mpsc::channel::<u32>();
    let mut producer = TaskProducer::new();
    producer.init(sender);
    assert!(producer.is_initialized());
    assert_eq!(producer.schedule(1), Ok(()));
    assert_eq!(producer.schedule(2), Ok(()));
    assert_eq!(receiver.try_recv(), Ok(1));
    assert_eq!(receiver.try_recv(), Ok(2));
    assert!(receiver.try_recv().is_err());
}

#[test]
fn schedule_after_receiver_is_gone_fails() {
    let (sender, receiver) = mpsc::channel::<u32>();
    let mut producer = TaskProducer::new();
    producer.init(sender);
    drop(receiver);
    assert_eq!(producer.schedule(1), Err(ScheduleError::SchedulingFailed));
}

#[test]
fn clones_feed_the_same_channel() {
    let (sender, receiver) = mpsc::channel::<u32>();
    let mut producer = TaskProducer::new();
    producer.init(sender);
    let mut copy = producer.clone();
    let mut other = copy.clone();
    assert_eq!(copy.schedule(10), Ok(()));
    assert_eq!(producer.schedule(11), Ok(()));
    assert_eq!(other.schedule(12), Ok(()));
    assert_eq!(receiver.try_recv(), Ok(10));
    assert_eq!(receiver.try_recv(), Ok(11));
    assert_eq!(receiver.try_recv(), Ok(12));
}

#[test]
fn clone_of_uninitialized_is_uninitialized() {
    let producer: TaskProducer<u32> = TaskProducer::new();
    let mut copy = producer.clone();
    assert_eq!(copy.schedule(1), Err(ScheduleError::SchedulerUninitialized));
}

#[test]
fn outcome_table() {
    assert_eq!(outcome(false, false), Err(ScheduleError::SchedulerUninitialized));
    assert_eq!(outcome(false, true), Err(ScheduleError::SchedulerUninitialized));
    assert_eq!(outcome(true, true), Ok(()));
    assert_eq!(outcome(true, false), Err(ScheduleError::SchedulingFailed));
}

#[test]
fn three_tasks_on_two_workers_all_run_once() {
    // Three tasks, each adding one to a counter, drained by two workers
    // that take turns at the shared receiving end.
    let (sender, receiver) = mpsc::channel::<u32>();
    let mut producer = TaskProducer::new();
    producer.init(sender);
    for _ in 0..3 {
        assert_eq!(producer.schedule(1), Ok(()));
    }
    let mut counter = 0;
    let mut ran = [0usize; 2];
    let mut worker = 0;
    loop {
        match worker_action(receiver.try_recv().ok()) {
            WorkerAction::Run(task) => {
                counter += task;
                ran[worker] += 1;
            }
            WorkerAction::Sleep(millis) => {
                assert_eq!(millis, 50);
                break;
            }
        }
        worker = 1 - worker;
    }
    assert_eq!(counter, 3);
    assert_eq!(ran[0] + ran[1], 3);
}

#[test]
fn worker_sleeps_when_nothing_waits() {
    assert!(matches!(worker_action::<u8>(None), WorkerAction::Sleep(50)));
    assert!(matches!(worker_action(Some(9u8)), WorkerAction::Run(9)));
}

#[test]
fn owner_creates_spawns_joins_then_drops() {
    let mut owner = ExecutorOwner::new(2);
    let mut script = Vec::new();
    for _ in 0..8 {
        script.push(owner.next());
    }
    assert_eq!(
        script,
        vec![
            OwnerAction::CreateEngine,
            OwnerAction::SpawnWorker(0),
            OwnerAction::SpawnWorker(1),
            OwnerAction::JoinWorker(0),
            OwnerAction::JoinWorker(1),
            OwnerAction::DropEngine,
            OwnerAction::Finished,
            OwnerAction::Finished,
        ]
    );
}

#[test]
fn owner_of_empty_pool() {
    let mut owner = ExecutorOwner::new(0);
    assert_eq!(owner.next(), OwnerAction::CreateEngine);
    assert_eq!(owner.next(), OwnerAction::DropEngine);
    assert_eq!(owner.next(), OwnerAction::Finished);
}

#[test]
fn loops_leave_when_flag_is_set() {
    assert_eq!(loop_step(true), LoopStep::Exit);
    assert_eq!(loop_step(false), LoopStep::Continue);
}

#[test]
fn waits_are_bounded() {
    assert_eq!(wait_bound(LoopKind::Input), 50_000_000);
    assert_eq!(wait_bound(LoopKind::Event), 50_000_000);
    assert_eq!(wait_bound(LoopKind::Worker), 50_000_000);
    assert_eq!(wait_bound(LoopKind::Render), 16_666_666);
}

#[test]
fn primary_thread_joins_before_it_restores() {
    let steps = run_steps();
    assert_eq!(
        steps,
        vec![
            RunStep::InitScheduler,
            RunStep::SendStart,
            RunStep::Spawn(Worker::Render),
            RunStep::Spawn(Worker::Executor),
            RunStep::Spawn(Worker::Events),
            RunStep::RunInput,
            RunStep::Join(Worker::Render),
            RunStep::Join(Worker::Executor),
            RunStep::Join(Worker::Events),
            RunStep::RestoreTerminal,
        ]
    );
}

#[test]
fn only_startup_failures_end_the_process() {
    assert_eq!(Failure::Startup.containment(), Containment::AbortProcess);
    assert_eq!(Failure::SchedulerUninitialized.containment(), Containment::LogOnly);
    assert_eq!(Failure::SchedulingFailed.containment(), Containment::LogOnly);
    assert_eq!(Failure::LockFailure.containment(), Containment::SkipIteration);
    assert_eq!(Failure::RenderTransient.containment(), Containment::SkipIteration);
    assert_eq!(Failure::InputUnrecognized.containment(), Containment::Silent);
    assert_eq!(Failure::TaskFailure.containment(), Containment::LogOnly);
}
