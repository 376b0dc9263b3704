//! Named stopwatches for diagnostics.

use vstd::prelude::*;
use vstd::string::StringExecFns;

verus! {

/// What can be turned into a `String` without a detour.
pub trait IntoString: Sized {
    /// The characters of the value.
    spec fn text(&self) -> Seq<char>;

    /// The value as a `String`.
    fn into_string(self) -> (s: String)
        ensures
            s@ == self.text(),
    ;
}

impl IntoString for String {
    open spec fn text(&self) -> Seq<char> {
        self@
    }

    fn into_string(self) -> (s: String) {
        self
    }
}

impl<'a> IntoString for &'a str {
    open spec fn text(&self) -> Seq<char> {
        self@
    }

    fn into_string(self) -> (s: String) {
        String::from_str(self)
    }
}

/// The running stopwatches, as a mathematical value: their names and the
/// times at which they were started.
pub open spec fn watch_views(watches: Seq<(String, u64)>) -> Seq<(Seq<char>, u64)> {
    watches.map_values(|watch: (String, u64)| watch_view(watch))
}

/// A running stopwatch, as a mathematical value.
pub open spec fn watch_view(watch: (String, u64)) -> (Seq<char>, u64) {
    (watch.0@, watch.1)
}

/// Whether no two of `watches` have the same name.
pub open spec fn distinct_names(watches: Seq<(Seq<char>, u64)>) -> bool {
    forall|i: int, j: int|
        0 <= i < j < watches.len() ==> (#[trigger] watches[i]).0 != (#[trigger] watches[j]).0
}

/// Whether one of `watches` has the name `name`.
pub open spec fn running(watches: Seq<(Seq<char>, u64)>, name: Seq<char>) -> bool {
    exists|i: int| 0 <= i < watches.len() && (#[trigger] watches[i]).0 == name
}

/// Where the stopwatch `name` stands in `watches`, if it runs.
pub open spec fn watch_at(watches: Seq<(Seq<char>, u64)>, name: Seq<char>) -> Option<int> {
    if running(watches, name) {
        Some(choose|i: int| 0 <= i < watches.len() && (#[trigger] watches[i]).0 == name)
    } else {
        None
    }
}

/// The time between `start` and `now`; none where `now` is the earlier.
pub open spec fn elapsed(start: u64, now: u64) -> u64 {
    if now >= start {
        (now - start) as u64
    } else {
        0
    }
}

/// The stopwatches once `name` was started at `now`: a stopwatch that ran
/// under the name starts over, a new one goes to the end.
pub open spec fn started(watches: Seq<(Seq<char>, u64)>, name: Seq<char>, now: u64) -> Seq<
    (Seq<char>, u64),
> {
    match watch_at(watches, name) {
        Some(at) => watches.update(at, (name, now)),
        None => watches.push((name, now)),
    }
}

/// The stopwatches once `name` was stopped.
pub open spec fn stopped(watches: Seq<(Seq<char>, u64)>, name: Seq<char>) -> Seq<(Seq<char>, u64)> {
    match watch_at(watches, name) {
        Some(at) => watches.remove(at),
        None => watches,
    }
}

/// What stopping `name` at `now` reports: for how long it ran, or nothing
/// where it did not run.
pub open spec fn reported(watches: Seq<(Seq<char>, u64)>, name: Seq<char>, now: u64) -> Option<u64> {
    match watch_at(watches, name) {
        Some(at) => Some(elapsed(watches[at].1, now)),
        None => None,
    }
}

/// Where names are distinct, a name is found at one position only.
pub proof fn lemma_watch_is_unique(watches: Seq<(Seq<char>, u64)>, name: Seq<char>, at: int)
    requires
        distinct_names(watches),
        0 <= at < watches.len(),
        watches[at].0 == name,
    ensures
        watch_at(watches, name) == Some(at),
{
    assert(running(watches, name));
    let found = choose|i: int| 0 <= i < watches.len() && (#[trigger] watches[i]).0 == name;
    if found < at {
        assert(watches[found].0 != watches[at].0);
    } else if at < found {
        assert(watches[at].0 != watches[found].0);
    }
}

/// A set of named stopwatches. Times are nanoseconds on a clock that
/// never runs backwards.
pub struct Timer {
    timers: Vec<(String, u64)>,
}

impl View for Timer {
    type V = Seq<(Seq<char>, u64)>;

    closed spec fn view(&self) -> Seq<(Seq<char>, u64)> {
        watch_views(self.timers@)
    }
}

impl Timer {
    /// No two stopwatches have the same name.
    pub open spec fn wf(&self) -> bool {
        distinct_names(self@)
    }

    /// No stopwatch runs.
    pub fn new() -> (timer: Self)
        ensures
            timer.wf(),
            timer@ == Seq::<(Seq<char>, u64)>::empty(),
    {
        let timer = Timer { timers: Vec::new() };
        assert(timer@ =~= Seq::empty());
        timer
    }

    fn find(&self, name: &String) -> (at: Option<usize>)
        ensures
            match at {
                Some(i) => i < self@.len() && self@[i as int].0 == name@,
                None => !running(self@, name@),
            },
    {
        let mut i: usize = 0;
        while i < self.timers.len()
            invariant
                i <= self.timers@.len(),
                forall|j: int| 0 <= j < i ==> (#[trigger] self@[j]).0 != name@,
            decreases self.timers@.len() - i,
        {
            if self.timers[i].0 == *name {
                return Some(i);
            }
            i += 1;
        }
        None
    }

    /// Starts the stopwatch `name` at the time `now`.
    pub fn start(&mut self, name: String, now: u64)
        requires
            old(self).wf(),
        ensures
            final(self).wf(),
            final(self)@ == started(old(self)@, name@, now),
    {
        match self.find(&name) {
            Some(at) => {
                proof {
                    lemma_watch_is_unique(self@, name@, at as int);
                }
                self.timers.set(at, (name, now));
                assert(self@ =~= started(old(self)@, name@, now));
                assert forall|i: int, j: int| 0 <= i < j < self@.len() implies (#[trigger] self@[i]).0
                    != (#[trigger] self@[j]).0 by {
                    assert(self@[i].0 == old(self)@[i].0);
                    assert(self@[j].0 == old(self)@[j].0);
                }
            },
            None => {
                self.timers.push((name, now));
                assert(self@ =~= started(old(self)@, name@, now));
                assert forall|i: int, j: int| 0 <= i < j < self@.len() implies (#[trigger] self@[i]).0
                    != (#[trigger] self@[j]).0 by {
                    assert(self@[i] == old(self)@[i]);
                    if j < old(self)@.len() {
                        assert(self@[j] == old(self)@[j]);
                    }
                }
            },
        }
    }

    /// Stops the stopwatch `name` at the time `now` and says for how long
    /// it ran; nothing where no stopwatch ran under that name.
    pub fn stop(&mut self, name: String, now: u64) -> (ran: Option<u64>)
        requires
            old(self).wf(),
        ensures
            final(self).wf(),
            final(self)@ == stopped(old(self)@, name@),
            ran == reported(old(self)@, name@, now),
    {
        match self.find(&name) {
            Some(at) => {
                proof {
                    lemma_watch_is_unique(self@, name@, at as int);
                }
                let watch = self.timers.remove(at);
                assert(self@ =~= stopped(old(self)@, name@));
                assert forall|i: int, j: int| 0 <= i < j < self@.len() implies (#[trigger] self@[i]).0
                    != (#[trigger] self@[j]).0 by {
                    let a = if i < at { i } else { i + 1 };
                    let b = if j < at { j } else { j + 1 };
                    assert(self@[i] == old(self)@[a]);
                    assert(self@[j] == old(self)@[b]);
                }
                if now >= watch.1 {
                    Some(now - watch.1)
                } else {
                    Some(0)
                }
            },
            None => None,
        }
    }
}

/// Starts the stopwatch `name` of `timer` at the time `now`.
pub fn timer_start<N: IntoString>(timer: &mut Timer, name: N, now: u64)
    requires
        old(timer).wf(),
    ensures
        final(timer).wf(),
        final(timer)@ == started(old(timer)@, name.text(), now),
{
    timer.start(name.into_string(), now);
}

/// Stops the stopwatch `name` of `timer` at the time `now` and says for
/// how long it ran; nothing where no stopwatch ran under that name.
pub fn timer_stop<N: IntoString>(timer: &mut Timer, name: N, now: u64) -> (ran: Option<u64>)
    requires
        old(timer).wf(),
    ensures
        final(timer).wf(),
        final(timer)@ == stopped(old(timer)@, name.text()),
        ran == reported(old(timer)@, name.text(), now),
{
    timer.stop(name.into_string(), now)
}

} // verus!
