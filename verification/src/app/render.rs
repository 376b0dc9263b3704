//! Frame pacing of the render loop: how long to sleep after a frame, and the
//! rolling window of frame costs kept for diagnostics.

use vstd::prelude::*;
use crate::consts::{FRAME_RATE, FRAME_WINDOW, NANOS_PER_SEC};

verus! {

/// The frame budget: the wall-clock time one render iteration may take, in
/// nanoseconds.
pub open spec fn frame_budget_nanos() -> nat {
    (NANOS_PER_SEC as nat) / (FRAME_RATE as nat)
}

/// The frame budget in nanoseconds.
pub fn frame_budget() -> (budget: u64)
    ensures
        budget == frame_budget_nanos(),
        budget == 16_666_666,
{
    assert(1_000_000_000nat / 60nat == 16_666_666) by (nonlinear_arith);
    NANOS_PER_SEC / (FRAME_RATE as u64)
}

/// What is left of `budget` once `elapsed` is spent: the difference where the
/// work fit in the budget, zero where it did not.
pub open spec fn remaining(budget: nat, elapsed: nat) -> nat {
    if elapsed >= budget {
        0
    } else {
        (budget - elapsed) as nat
    }
}

/// How long the render loop sleeps after a frame that took `elapsed`
/// nanoseconds, with a budget of `budget` nanoseconds.
pub fn frame_sleep(budget: u64, elapsed: u64) -> (sleep: u64)
    ensures
        sleep == remaining(budget as nat, elapsed as nat),
{
    if elapsed >= budget {
        0
    } else {
        budget - elapsed
    }
}

/// The sleep after a frame is never negative and never longer than the
/// budget; a frame that used up its budget is followed by no sleep at all,
/// and a frame that did not is followed by exactly the unused part.
pub proof fn lemma_sleep_is_clamped(budget: nat, elapsed: nat)
    ensures
        0 <= remaining(budget, elapsed) <= budget,
        elapsed >= budget ==> remaining(budget, elapsed) == 0,
        elapsed < budget ==> remaining(budget, elapsed) + elapsed == budget,
{
}

/// The sum of a sequence of frame costs.
pub open spec fn total(costs: Seq<u64>) -> nat
    decreases costs.len(),
{
    if costs.len() == 0 {
        0
    } else {
        total(costs.drop_last()) + costs.last() as nat
    }
}

/// The mean of a non-empty sequence of frame costs, rounded down.
pub open spec fn mean(costs: Seq<u64>) -> nat
    recommends
        costs.len() > 0,
{
    total(costs) / costs.len()
}

/// The sum of `n` costs is at most `n` times the largest `u64`.
pub proof fn lemma_total_bound(costs: Seq<u64>)
    ensures
        total(costs) <= costs.len() * (u64::MAX as nat),
    decreases costs.len(),
{
    if costs.len() > 0 {
        lemma_total_bound(costs.drop_last());
        assert((costs.len() - 1) * (u64::MAX as nat) + (u64::MAX as nat) == costs.len() * (
        u64::MAX as nat)) by (nonlinear_arith);
    }
}

/// The mean of a non-empty window lies between zero and the largest `u64`.
pub proof fn lemma_mean_bound(costs: Seq<u64>)
    requires
        costs.len() > 0,
    ensures
        mean(costs) <= u64::MAX,
{
    lemma_total_bound(costs);
    let n = costs.len();
    let t = total(costs);
    assert(t / n <= u64::MAX as nat) by (nonlinear_arith)
        requires
            n > 0,
            t <= n * (u64::MAX as nat),
    ;
}

/// What the render loop reports when its window of frame costs has filled.
#[derive(Clone, Copy, Debug, PartialEq, Eq, Structural)]
pub struct FrameReport {
    /// The mean cost of the frames in the window, in nanoseconds.
    pub average: u64,
    /// How many frames the window held.
    pub frames: usize,
}

/// A bounded window of the most recent frame costs.
pub struct FrameStats {
    costs: Vec<u64>,
    sum: u128,
    capacity: usize,
}

impl View for FrameStats {
    type V = Seq<u64>;

    closed spec fn view(&self) -> Seq<u64> {
        self.costs@
    }
}

impl FrameStats {
    /// The number of frames after which the window is reported and emptied.
    pub closed spec fn capacity(&self) -> nat {
        self.capacity as nat
    }

    /// The window is never full between two calls: it holds fewer costs than
    /// its capacity.
    pub closed spec fn wf(&self) -> bool {
        &&& self.capacity > 0
        &&& self.costs@.len() < self.capacity
        &&& self.sum == total(self.costs@)
    }

    /// An empty window that reports every `capacity` frames; a capacity of
    /// zero is taken as one.
    pub fn new(capacity: usize) -> (stats: Self)
        ensures
            stats.wf(),
            stats@ == Seq::<u64>::empty(),
            stats.capacity() == if capacity == 0 { 1 } else { capacity as nat },
    {
        let capacity: usize = if capacity == 0 { 1 } else { capacity };
        FrameStats { costs: Vec::new(), sum: 0, capacity }
    }

    /// An empty window of the size the render loop uses.
    pub fn for_render_loop() -> (stats: Self)
        ensures
            stats.wf(),
            stats@ == Seq::<u64>::empty(),
            stats.capacity() == FRAME_WINDOW,
    {
        Self::new(FRAME_WINDOW)
    }

    /// How many costs the window holds.
    pub fn len(&self) -> (n: usize)
        requires
            self.wf(),
        ensures
            n == self@.len(),
            n < self.capacity(),
    {
        self.costs.len()
    }

    /// Adds the cost of one frame. When that fills the window, its mean is
    /// reported and the window starts over empty.
    pub fn record(&mut self, cost: u64) -> (report: Option<FrameReport>)
        requires
            old(self).wf(),
        ensures
            final(self).wf(),
            final(self).capacity() == old(self).capacity(),
            old(self)@.len() + 1 < old(self).capacity() ==> report is None && final(self)@
                == old(self)@.push(cost),
            old(self)@.len() + 1 == old(self).capacity() ==> final(self)@ == Seq::<u64>::empty()
                && report == Some(
                (FrameReport {
                    average: mean(old(self)@.push(cost)) as u64,
                    frames: old(self).capacity() as usize,
                }),
            ) && mean(old(self)@.push(cost)) <= u64::MAX,
    {
        let ghost filled = self.costs@.push(cost);
        proof {
            assert(filled.drop_last() == self.costs@);
            lemma_total_bound(self.costs@);
            lemma_mean_bound(filled);
            assert(self.costs@.len() * (u64::MAX as nat) + (u64::MAX as nat) <= usize::MAX * (
            u64::MAX as nat) + (u64::MAX as nat)) by (nonlinear_arith)
                requires
                    self.costs@.len() <= usize::MAX,
            ;
            assert(usize::MAX * (u64::MAX as nat) + (u64::MAX as nat) <= u128::MAX)
                by (nonlinear_arith)
                requires
                    usize::MAX <= u64::MAX,
            ;
        }
        self.costs.push(cost);
        self.sum = self.sum + (cost as u128);
        if self.costs.len() == self.capacity {
            let average = (self.sum / (self.capacity as u128)) as u64;
            let frames = self.capacity;
            self.costs.clear();
            self.sum = 0;
            Some(FrameReport { average, frames })
        } else {
            None
        }
    }
}

/// What the render loop does at the end of an iteration.
#[derive(Clone, Copy, Debug, PartialEq, Eq, Structural)]
pub struct FrameEnd {
    /// For how long to sleep, in nanoseconds.
    pub sleep: u64,
    /// The frame could not be drawn and was dropped; the loop goes on.
    pub dropped: bool,
    /// The report on the last window of frames, when it has just filled.
    pub report: Option<FrameReport>,
}

/// The render loop between two iterations: its frame budget and the window
/// of recent frame costs.
pub struct RenderLoop {
    budget: u64,
    stats: FrameStats,
}

impl RenderLoop {
    /// The frame budget, in nanoseconds.
    pub closed spec fn budget(&self) -> nat {
        self.budget as nat
    }

    /// The costs of the frames since the last report.
    pub closed spec fn costs(&self) -> Seq<u64> {
        self.stats@
    }

    /// After how many frames a report is made.
    pub closed spec fn window(&self) -> nat {
        self.stats.capacity()
    }

    /// The window of frame costs is in order.
    pub closed spec fn wf(&self) -> bool {
        self.stats.wf()
    }

    /// A render loop with the given frame budget, in nanoseconds, that
    /// reports every `window` frames.
    pub fn new(budget: u64, window: usize) -> (render: Self)
        ensures
            render.wf(),
            render.budget() == budget,
            render.costs() == Seq::<u64>::empty(),
            render.window() == if window == 0 { 1 } else { window as nat },
    {
        RenderLoop { budget, stats: FrameStats::new(window) }
    }

    /// The render loop of the application: sixty frames a second.
    pub fn standard() -> (render: Self)
        ensures
            render.wf(),
            render.budget() == frame_budget_nanos(),
            render.costs() == Seq::<u64>::empty(),
            render.window() == FRAME_WINDOW,
    {
        RenderLoop { budget: frame_budget(), stats: FrameStats::for_render_loop() }
    }

    /// Ends an iteration whose draw pass took `elapsed` nanoseconds and
    /// did or did not succeed. The sleep that follows depends on this
    /// frame alone: whatever the frames before it cost, it is the unused
    /// part of the budget, and nothing where the budget was used up. A
    /// frame that failed is dropped, and the loop goes on all the same.
    pub fn end_frame(&mut self, elapsed: u64, drawn: bool) -> (end: FrameEnd)
        requires
            old(self).wf(),
        ensures
            final(self).wf(),
            final(self).budget() == old(self).budget(),
            final(self).window() == old(self).window(),
            end.sleep == remaining(old(self).budget(), elapsed as nat),
            end.dropped == !drawn,
            old(self).costs().len() + 1 < old(self).window() ==> end.report is None
                && final(self).costs() == old(self).costs().push(elapsed),
            old(self).costs().len() + 1 == old(self).window() ==> final(self).costs() == Seq::<
                u64,
            >::empty() && end.report == Some(
                (FrameReport {
                    average: mean(old(self).costs().push(elapsed)) as u64,
                    frames: old(self).window() as usize,
                }),
            ),
    {
        let sleep = frame_sleep(self.budget, elapsed);
        let report = self.stats.record(elapsed);
        FrameEnd { sleep, dropped: !drawn, report }
    }
}

} // verus!
