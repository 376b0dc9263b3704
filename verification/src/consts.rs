//! Tunables shared by the runtime.

use vstd::prelude::*;

verus! {

/// How many images the terminal may hold at a time.
pub const IMAGE_SLOTS: u32 = 20;

/// How many background tasks may run in parallel; a larger pool risks being
/// rate limited by the content service.
pub const EXECUTOR_THREAD_COUNT: u32 = 2;

/// The frame rate the render loop aims for.
pub const FRAME_RATE: u32 = 60;

/// Nanoseconds in one second.
pub const NANOS_PER_SEC: u64 = 1_000_000_000;

/// Nanoseconds in one millisecond.
pub const NANOS_PER_MILLI: u64 = 1_000_000;

/// How long the input loop waits for a key before it looks at the shutdown
/// flag again, in milliseconds.
pub const INPUT_POLL_MILLIS: u64 = 50;

/// How long the event loop waits for an event before it looks at the
/// shutdown flag again, in milliseconds.
pub const EVENT_WAIT_MILLIS: u64 = 50;

/// How long an idle worker sleeps between two attempts to claim a task, in
/// milliseconds.
pub const WORKER_IDLE_MILLIS: u64 = 50;

/// How many frame costs are gathered before their average is reported.
pub const FRAME_WINDOW: usize = 6000;

} // verus!
