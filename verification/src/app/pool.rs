//! A model of the worker pool, on which its guarantee is proved: whatever
//! the interleaving, every task that was submitted runs exactly once.
//!
//! Tasks are named by the order in which they were submitted. The channel
//! is a queue. The workers share its receiving end behind a lock, so a task
//! leaves the queue for exactly one worker, and a worker runs the task it
//! claimed to completion before it claims another: at most as many tasks run
//! at once as the pool has workers.

use vstd::prelude::*;
use vstd::multiset::Multiset;
use crate::app::scheduler::{schedule_outcome, worker_decision, WorkerAction};

verus! {

/// The pool between two steps.
pub struct PoolView {
    /// How many workers the pool has.
    pub size: nat,
    /// How many tasks have been submitted so far; they are named
    /// `0 .. submitted`.
    pub submitted: nat,
    /// The tasks that wait in the channel, oldest first.
    pub queue: Seq<nat>,
    /// The tasks that a worker is running.
    pub running: Multiset<nat>,
    /// The tasks that have run to completion, in the order in which they
    /// finished.
    pub done: Seq<nat>,
}

/// One step of the pool.
pub enum PoolEvent {
    /// A producer sends the next task into the channel.
    Submit,
    /// An idle worker takes the oldest waiting task.
    Claim,
    /// The worker that runs the named task finishes it.
    Finish(nat),
}

/// A pool of `size` workers to which nothing has been submitted.
pub open spec fn fresh(size: nat) -> PoolView {
    PoolView {
        size,
        submitted: 0,
        queue: Seq::empty(),
        running: Multiset::empty(),
        done: Seq::empty(),
    }
}

/// Whether `event` can happen in `pool`.
pub open spec fn enabled(pool: PoolView, event: PoolEvent) -> bool {
    match event {
        PoolEvent::Submit => true,
        PoolEvent::Claim => pool.queue.len() > 0 && pool.running.len() < pool.size,
        PoolEvent::Finish(task) => pool.running.count(task) > 0,
    }
}

/// The tasks that run once a worker has acted on what the channel gave
/// it: a claimed task runs, and nothing changes where none was claimed.
pub open spec fn running_after(running: Multiset<nat>, claimed: Option<nat>) -> Multiset<nat> {
    match worker_decision(claimed) {
        WorkerAction::Run(task) => running.insert(task),
        WorkerAction::Sleep(_) => running,
    }
}

/// The pool after `event`. A submission is one that the scheduler answers
/// with success: the producer has its channel and the channel takes the
/// task. A claim hands the oldest waiting task to the worker's decision.
pub open spec fn after(pool: PoolView, event: PoolEvent) -> PoolView {
    match event {
        PoolEvent::Submit => if schedule_outcome(true, true) is Ok {
            PoolView {
                submitted: pool.submitted + 1,
                queue: pool.queue.push(pool.submitted),
                ..pool
            }
        } else {
            pool
        },
        PoolEvent::Claim => PoolView {
            queue: pool.queue.remove(0),
            running: running_after(pool.running, Some(pool.queue[0])),
            ..pool
        },
        PoolEvent::Finish(task) => PoolView {
            running: pool.running.remove(task),
            done: pool.done.push(task),
            ..pool
        },
    }
}

/// In how many places `task` is: waiting, running or done.
pub open spec fn occurrences(pool: PoolView, task: nat) -> nat {
    pool.queue.to_multiset().count(task) + pool.running.count(task) + pool.done.to_multiset().count(
        task,
    )
}

/// Every submitted task is in exactly one place, no other task is
/// anywhere, and no more tasks run than the pool has workers.
pub open spec fn accounted(pool: PoolView) -> bool {
    &&& pool.running.len() <= pool.size
    &&& forall|task: nat| #[trigger]
        occurrences(pool, task) == if task < pool.submitted {
            1nat
        } else {
            0nat
        }
}

/// Whether nothing waits and nothing runs.
pub open spec fn drained(pool: PoolView) -> bool {
    pool.queue.len() == 0 && pool.running.len() == 0
}

/// How many steps of the workers the pool is away from being drained, at
/// most: two for each waiting task, one for each running task.
pub open spec fn work_left(pool: PoolView) -> nat {
    2 * pool.queue.len() + pool.running.len()
}

/// The pool after the events of `trace`, in order.
pub open spec fn after_all(pool: PoolView, trace: Seq<PoolEvent>) -> PoolView
    decreases trace.len(),
{
    if trace.len() == 0 {
        pool
    } else {
        after(after_all(pool, trace.drop_last()), trace.last())
    }
}

/// Whether each event of `trace` can happen when its turn comes.
pub open spec fn feasible(pool: PoolView, trace: Seq<PoolEvent>) -> bool
    decreases trace.len(),
{
    if trace.len() == 0 {
        true
    } else {
        feasible(pool, trace.drop_last()) && enabled(
            after_all(pool, trace.drop_last()),
            trace.last(),
        )
    }
}

/// How many tasks `trace` submits.
pub open spec fn submissions(trace: Seq<PoolEvent>) -> nat
    decreases trace.len(),
{
    if trace.len() == 0 {
        0
    } else if trace.last() is Submit {
        submissions(trace.drop_last()) + 1
    } else {
        submissions(trace.drop_last())
    }
}

/// A fresh pool is accounted for.
pub proof fn lemma_fresh_is_accounted(size: nat)
    ensures
        accounted(fresh(size)),
        drained(fresh(size)),
{
    let pool = fresh(size);
    assert forall|task: nat| #[trigger] occurrences(pool, task) == 0 by {
        assert(pool.queue.to_multiset().count(task) == 0) by {
            pool.queue.to_multiset_ensures();
        }
        assert(pool.done.to_multiset().count(task) == 0) by {
            pool.done.to_multiset_ensures();
        }
    }
}

/// No step loses a task or runs one twice: a step that can happen keeps
/// every task in exactly one place.
pub proof fn lemma_step_keeps_account(pool: PoolView, event: PoolEvent)
    requires
        accounted(pool),
        enabled(pool, event),
    ensures
        accounted(after(pool, event)),
        after(pool, event).size == pool.size,
        after(pool, event).submitted == pool.submitted + if event is Submit {
            1nat
        } else {
            0nat
        },
{
    let next = after(pool, event);
    pool.queue.to_multiset_ensures();
    pool.done.to_multiset_ensures();
    assert forall|task: nat| #[trigger]
        occurrences(next, task) == if task < next.submitted {
            1nat
        } else {
            0nat
        } by {
        assert(occurrences(pool, task) == if task < pool.submitted {
            1nat
        } else {
            0nat
        });
        match event {
            PoolEvent::Submit => {
                assert(next.queue.to_multiset() =~= pool.queue.to_multiset().insert(pool.submitted));
            },
            PoolEvent::Claim => {
                assert(next.queue.to_multiset() =~= pool.queue.to_multiset().remove(pool.queue[0]));
                assert(pool.queue.contains(pool.queue[0]));
            },
            PoolEvent::Finish(finished) => {
                assert(next.done.to_multiset() =~= pool.done.to_multiset().insert(finished));
            },
        }
    }
}

/// A step of a worker brings the pool closer to being drained.
pub proof fn lemma_worker_step_makes_progress(pool: PoolView, event: PoolEvent)
    requires
        enabled(pool, event),
        !(event is Submit),
    ensures
        work_left(after(pool, event)) < work_left(pool),
{
}

/// While work is left and the pool has a worker, some worker can take a
/// step: nothing ever waits for good.
pub proof fn lemma_never_stuck(pool: PoolView) -> (event: PoolEvent)
    requires
        pool.size >= 1,
        pool.running.len() <= pool.size,
        !drained(pool),
    ensures
        !(event is Submit),
        enabled(pool, event),
{
    if pool.running.len() > 0 {
        let task = pool.running.choose();
        assert(pool.running.count(task) > 0);
        PoolEvent::Finish(task)
    } else {
        PoolEvent::Claim
    }
}

/// Whatever happens in whatever order, the account is kept.
pub proof fn lemma_trace_keeps_account(size: nat, trace: Seq<PoolEvent>)
    requires
        feasible(fresh(size), trace),
    ensures
        accounted(after_all(fresh(size), trace)),
        after_all(fresh(size), trace).size == size,
        after_all(fresh(size), trace).submitted == submissions(trace),
    decreases trace.len(),
{
    if trace.len() == 0 {
        lemma_fresh_is_accounted(size);
    } else {
        lemma_trace_keeps_account(size, trace.drop_last());
        lemma_step_keeps_account(after_all(fresh(size), trace.drop_last()), trace.last());
    }
}

/// Once the pool is drained, every task that was submitted has run to
/// completion exactly once, and nothing else has run.
pub proof fn lemma_drained_pool_ran_each_once(pool: PoolView)
    requires
        accounted(pool),
        drained(pool),
    ensures
        pool.done.len() == pool.submitted,
        forall|task: nat| task < pool.submitted ==> pool.done.to_multiset().count(task) == 1,
        forall|task: nat| task >= pool.submitted ==> pool.done.to_multiset().count(task) == 0,
{
    pool.queue.to_multiset_ensures();
    pool.done.to_multiset_ensures();
    assert(pool.running =~= Multiset::empty());
    assert(pool.queue.to_multiset() =~= Multiset::empty()) by {
        assert(pool.queue =~= Seq::empty());
    }
    assert forall|task: nat| pool.done.to_multiset().count(task) == if task < pool.submitted {
        1nat
    } else {
        0nat
    } by {
        assert(occurrences(pool, task) == if task < pool.submitted {
            1nat
        } else {
            0nat
        });
    }
    lemma_counts_of_each_below(pool.done.to_multiset(), pool.submitted);
}

/// A multiset that holds each number below `n` once and nothing else has
/// `n` elements.
proof fn lemma_counts_of_each_below(m: Multiset<nat>, n: nat)
    requires
        forall|x: nat| m.count(x) == if x < n {
            1nat
        } else {
            0nat
        },
    ensures
        m.len() == n,
    decreases n,
{
    if n == 0 {
        assert(m =~= Multiset::empty());
    } else {
        let last = (n - 1) as nat;
        assert(m.count(last) == 1);
        let rest = m.remove(last);
        assert forall|x: nat| rest.count(x) == if x < last {
            1nat
        } else {
            0nat
        } by {
            assert(m.count(x) == if x < n {
                1nat
            } else {
                0nat
            });
        }
        lemma_counts_of_each_below(rest, last);
    }
}

/// The guarantee of the pool: for any number of workers that is at least
/// one and any feasible sequence of submissions, claims and completions,
/// once nothing waits and nothing runs, each of the submitted tasks has
/// run exactly once.
pub proof fn lemma_all_tasks_run_exactly_once(size: nat, trace: Seq<PoolEvent>)
    requires
        size >= 1,
        feasible(fresh(size), trace),
        drained(after_all(fresh(size), trace)),
    ensures
        after_all(fresh(size), trace).done.len() == submissions(trace),
        forall|task: nat|
            task < submissions(trace) ==> after_all(fresh(size), trace).done.to_multiset().count(
                task,
            ) == 1,
        forall|task: nat|
            task >= submissions(trace) ==> after_all(fresh(size), trace).done.to_multiset().count(
                task,
            ) == 0,
{
    lemma_trace_keeps_account(size, trace);
    lemma_drained_pool_ran_each_once(after_all(fresh(size), trace));
}

} // verus!
