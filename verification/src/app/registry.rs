//! The shared components and the one order in which their locks are taken.
//!
//! Every component of the registry sits behind a lock of its own. A thread
//! that needs several of them takes them in ascending rank: the interface
//! state first, then the reading session, then the image manager, and the
//! terminal last. No code path takes two of them the other way round, so
//! no two threads can wait for each other.

use vstd::prelude::*;

verus! {

/// One independently locked part of the registry.
#[derive(Clone, Copy, Debug, PartialEq, Eq, Structural)]
pub enum Component {
    /// What the interface shows besides the pages, such as the status label.
    UiState,
    /// The reading session: which page is shown.
    Session,
    /// The images and their placements.
    ImageManager,
    /// The terminal that drawing writes to.
    Terminal,
}

/// The place of a component in the lock order.
pub open spec fn rank_of(component: Component) -> nat {
    match component {
        Component::UiState => 0,
        Component::Session => 1,
        Component::ImageManager => 2,
        Component::Terminal => 3,
    }
}

impl Component {
    /// The place of this component in the lock order.
    pub fn rank(&self) -> (r: u8)
        ensures
            r == rank_of(*self),
    {
        match self {
            Component::UiState => 0,
            Component::Session => 1,
            Component::ImageManager => 2,
            Component::Terminal => 3,
        }
    }
}

/// Whether `locks` names components in strictly ascending rank, which is the
/// only order in which a thread may hold several of them.
pub open spec fn ascending(locks: Seq<Component>) -> bool {
    forall|i: int, j: int| 0 <= i < j < locks.len() ==> rank_of(locks[i]) < rank_of(locks[j])
}

/// Whether a thread that holds `held` may go on to take `next`.
pub open spec fn may_acquire(held: Seq<Component>, next: Component) -> bool {
    forall|i: int| 0 <= i < held.len() ==> rank_of(held[i]) < rank_of(next)
}

/// Checks that `locks` is a legal order of acquisition.
pub fn is_ascending(locks: &Vec<Component>) -> (ok: bool)
    ensures
        ok == ascending(locks@),
{
    if locks.len() < 2 {
        return true;
    }
    let mut i: usize = 1;
    while i < locks.len()
        invariant
            1 <= i <= locks.len(),
            forall|a: int| 0 <= a < i - 1 ==> rank_of(locks@[a]) < rank_of(#[trigger] locks@[a + 1]),
        decreases locks.len() - i,
    {
        if locks[i - 1].rank() >= locks[i].rank() {
            return false;
        }
        i += 1;
    }
    proof {
        lemma_adjacent_ascending(locks@);
    }
    true
}

/// A sequence whose neighbours ascend in rank ascends as a whole.
pub proof fn lemma_adjacent_ascending(locks: Seq<Component>)
    requires
        forall|a: int| 0 <= a < locks.len() - 1 ==> rank_of(locks[a]) < rank_of(#[trigger] locks[a + 1]),
    ensures
        ascending(locks),
{
    assert forall|i: int, j: int| 0 <= i < j < locks.len() implies rank_of(locks[i]) < rank_of(
        locks[j],
    ) by {
        lemma_ascending_step(locks, i, j);
    }
}

proof fn lemma_ascending_step(locks: Seq<Component>, i: int, j: int)
    requires
        forall|a: int| 0 <= a < locks.len() - 1 ==> rank_of(locks[a]) < rank_of(#[trigger] locks[a + 1]),
        0 <= i < j < locks.len(),
    ensures
        rank_of(locks[i]) < rank_of(locks[j]),
    decreases j - i,
{
    if j - 1 > i {
        lemma_ascending_step(locks, i, j - 1);
    }
    assert(rank_of(locks[j - 1]) < rank_of(locks[(j - 1) + 1]));
}

/// A step of work that needs some of the components at once.
#[derive(Clone, Copy, Debug, PartialEq, Eq, Structural)]
pub enum Stage {
    /// Draw the widgets: reads the interface state and the session, writes
    /// to the terminal.
    Widgets,
    /// Let the session say which image goes where.
    Placement,
    /// Bring the terminal in line with the wanted placements.
    Reconcile,
    /// Forget what the terminal was believed to hold and draw again.
    Recover,
}

/// The components that a stage holds, in the order in which it takes them.
pub open spec fn stage_locks(stage: Stage) -> Seq<Component> {
    match stage {
        Stage::Widgets => seq![Component::UiState, Component::Session, Component::Terminal],
        Stage::Placement => seq![Component::Session, Component::ImageManager],
        Stage::Reconcile => seq![Component::ImageManager, Component::Terminal],
        Stage::Recover => seq![Component::ImageManager, Component::Terminal],
    }
}

/// The stages of one draw pass: the widgets first, then the placement of
/// the images, then their reconciliation with the terminal.
pub open spec fn draw_pass() -> Seq<Stage> {
    seq![Stage::Widgets, Stage::Placement, Stage::Reconcile]
}

impl Stage {
    /// The components that this stage holds, in the order in which it takes
    /// them. The order is always ascending, and no stage holds them all.
    pub fn locks(&self) -> (locks: Vec<Component>)
        ensures
            locks@ == stage_locks(*self),
            ascending(locks@),
            locks@.len() < 4,
    {
        let mut locks: Vec<Component> = Vec::new();
        match self {
            Stage::Widgets => {
                locks.push(Component::UiState);
                locks.push(Component::Session);
                locks.push(Component::Terminal);
            },
            Stage::Placement => {
                locks.push(Component::Session);
                locks.push(Component::ImageManager);
            },
            Stage::Reconcile => {
                locks.push(Component::ImageManager);
                locks.push(Component::Terminal);
            },
            Stage::Recover => {
                locks.push(Component::ImageManager);
                locks.push(Component::Terminal);
            },
        }
        assert(locks@ =~= stage_locks(*self));
        locks
    }
}

/// The stages of one draw pass, in order.
pub fn draw_stages() -> (stages: Vec<Stage>)
    ensures
        stages@ == draw_pass(),
{
    let mut stages: Vec<Stage> = Vec::new();
    stages.push(Stage::Widgets);
    stages.push(Stage::Placement);
    stages.push(Stage::Reconcile);
    assert(stages@ =~= draw_pass());
    stages
}

/// Every stage takes its locks in ascending rank.
pub proof fn lemma_stages_ascend(stage: Stage)
    ensures
        ascending(stage_locks(stage)),
{
}

/// One thread of a would-be deadlock: it holds `held` and waits for
/// `wanted`.
pub struct Waiter {
    pub held: Component,
    pub wanted: Component,
}

/// Whether the threads in `waiters` wait for each other in a ring: each
/// wants what the next one holds, and the last wants what the first holds.
pub open spec fn waits_in_ring(waiters: Seq<Waiter>) -> bool {
    &&& waiters.len() > 0
    &&& forall|i: int|
        0 <= i < waiters.len() ==> (#[trigger] waiters[i]).wanted == waiters[(i + 1) % (
        waiters.len() as int)].held
}

/// Whether every thread in `waiters` keeps to the lock order: what it waits
/// for ranks above what it holds.
pub open spec fn all_keep_order(waiters: Seq<Waiter>) -> bool {
    forall|i: int|
        0 <= i < waiters.len() ==> rank_of((#[trigger] waiters[i]).held) < rank_of(
            waiters[i].wanted,
        )
}

/// Threads that keep to the lock order never wait for each other in a ring:
/// around such a ring the rank would have to rise at every step and still
/// come back to where it began.
pub proof fn lemma_no_deadlock(waiters: Seq<Waiter>)
    requires
        all_keep_order(waiters),
    ensures
        !waits_in_ring(waiters),
{
    if waits_in_ring(waiters) {
        let n = waiters.len() as int;
        lemma_rank_rises_along_ring(waiters, n - 1);
        assert(waiters[n - 1].wanted == waiters[((n - 1) + 1) % n].held);
        assert(((n - 1) + 1) % n == 0) by (nonlinear_arith)
            requires
                n > 0,
        ;
    }
}

proof fn lemma_rank_rises_along_ring(waiters: Seq<Waiter>, k: int)
    requires
        all_keep_order(waiters),
        waits_in_ring(waiters),
        0 <= k < waiters.len(),
    ensures
        rank_of(waiters[0].held) + k <= rank_of(waiters[k].held),
    decreases k,
{
    if k > 0 {
        lemma_rank_rises_along_ring(waiters, k - 1);
        let n = waiters.len() as int;
        assert(waiters[k - 1].wanted == waiters[((k - 1) + 1) % n].held);
        assert(((k - 1) + 1) % n == k) by (nonlinear_arith)
            requires
                0 < k < n,
        ;
    }
}

} // verus!
