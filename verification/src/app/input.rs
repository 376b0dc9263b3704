//! The input loop's state machine: it tells the terminal's out-of-band
//! replies from what the user typed, and translates the latter.
//!
//! A reply of the terminal arrives as key presses between a two-key prefix
//! and a one-key suffix. While such a reply is being captured nothing is
//! forwarded to the event loop. When the suffix arrives and the captured
//! text holds the error marker, the images are to be sent again.

use vstd::prelude::*;
use crate::app::events::{AppEvent, EventView, InputEvent, InputView, Key, KeyCode, Modifiers, translation};
use crate::text::{contains, contains_text};

verus! {

/// The keys that open a reply of the terminal: Alt+`_`, then Shift+`G`.
pub open spec fn enter_sequence() -> Seq<Key> {
    seq![
        Key { code: KeyCode::Char('_'), modifiers: Modifiers::only_alt() },
        Key { code: KeyCode::Char('G'), modifiers: Modifiers::only_shift() },
    ]
}

/// The key that closes a reply of the terminal: Alt+`\`.
pub open spec fn leave_sequence() -> Seq<Key> {
    seq![Key { code: KeyCode::Char('\\'), modifiers: Modifiers::only_alt() }]
}

/// The text by which the terminal says that it no longer has an image.
pub open spec fn error_marker() -> Seq<char> {
    seq!['E', 'N', 'O', 'E', 'N', 'T']
}

/// Whether `event` is the key that `pattern` expects at `cursor`.
pub open spec fn hits(pattern: Seq<Key>, cursor: nat, event: InputView) -> bool {
    cursor < pattern.len() && event == InputView::Key(pattern[cursor as int])
}

/// Whether `event` is the last key of `pattern`, the keys before it having
/// been seen.
pub open spec fn completes(pattern: Seq<Key>, cursor: nat, event: InputView) -> bool {
    hits(pattern, cursor, event) && cursor + 1 == pattern.len()
}

/// Where the cursor into `pattern` stands after `event`: one further on a
/// hit, back at the start on a miss or when the pattern is complete.
pub open spec fn cursor_after(pattern: Seq<Key>, cursor: nat, event: InputView) -> nat {
    if hits(pattern, cursor, event) && !completes(pattern, cursor, event) {
        cursor + 1
    } else {
        0
    }
}

/// The state of the capture, as a mathematical value.
pub struct CaptureView {
    /// Whether a reply of the terminal is being captured.
    pub capturing: bool,
    /// How many keys of the prefix have been seen in a row.
    pub enter_cursor: nat,
    /// How many keys of the suffix have been seen in a row.
    pub leave_cursor: nat,
    /// The characters captured so far.
    pub message: Seq<char>,
}

/// What the input loop is to do after an event.
pub struct OutcomeView {
    /// The terminal reported a missing image: invalidate and draw again.
    pub recover: bool,
    /// The event to hand to the event loop.
    pub forward: Option<EventView>,
}

/// The state before any input.
pub open spec fn initial() -> CaptureView {
    CaptureView { capturing: false, enter_cursor: 0, leave_cursor: 0, message: Seq::empty() }
}

/// Whether a capture is going on once `event` has been matched against the
/// prefix and the suffix.
pub open spec fn capturing_after(state: CaptureView, event: InputView) -> bool {
    (state.capturing || completes(enter_sequence(), state.enter_cursor, event)) && !completes(
        leave_sequence(),
        state.leave_cursor,
        event,
    )
}

/// The state after `event`.
pub open spec fn step_state(state: CaptureView, event: InputView) -> CaptureView {
    let left = completes(leave_sequence(), state.leave_cursor, event);
    let capturing = capturing_after(state, event);
    let kept = if left {
        Seq::empty()
    } else {
        state.message
    };
    CaptureView {
        capturing,
        enter_cursor: cursor_after(enter_sequence(), state.enter_cursor, event),
        leave_cursor: cursor_after(leave_sequence(), state.leave_cursor, event),
        message: match event {
            InputView::Key(Key { code: KeyCode::Char(c), modifiers: _ }) => if capturing {
                kept.push(c)
            } else {
                kept
            },
            _ => kept,
        },
    }
}

/// What the input loop is to do after `event`: recover when the suffix
/// closes a reply that holds the error marker, and forward the translation
/// of the event unless a capture is going on.
pub open spec fn step_outcome(state: CaptureView, event: InputView) -> OutcomeView {
    OutcomeView {
        recover: completes(leave_sequence(), state.leave_cursor, event) && contains_text(
            state.message,
            error_marker(),
        ),
        forward: if capturing_after(state, event) {
            None
        } else {
            translation(event)
        },
    }
}

/// What the input loop is to do after an event.
#[derive(Clone, Debug, PartialEq, Eq)]
pub struct InputOutcome {
    /// The terminal reported a missing image: invalidate and draw again.
    pub recover: bool,
    /// The event to hand to the event loop.
    pub forward: Option<AppEvent>,
}

impl View for InputOutcome {
    type V = OutcomeView;

    open spec fn view(&self) -> OutcomeView {
        OutcomeView {
            recover: self.recover,
            forward: match self.forward {
                Some(event) => Some(event@),
                None => None,
            },
        }
    }
}

/// The state of the input loop between two events.
pub struct InputState {
    capturing: bool,
    enter_cursor: usize,
    leave_cursor: usize,
    message: Vec<char>,
}

impl View for InputState {
    type V = CaptureView;

    closed spec fn view(&self) -> CaptureView {
        CaptureView {
            capturing: self.capturing,
            enter_cursor: self.enter_cursor as nat,
            leave_cursor: self.leave_cursor as nat,
            message: self.message@,
        }
    }
}

/// The `index`-th key of the prefix.
fn enter_key(index: usize) -> (key: Key)
    requires
        index < 2,
    ensures
        key == enter_sequence()[index as int],
{
    if index == 0 {
        Key { code: KeyCode::Char('_'), modifiers: Modifiers { shift: false, control: false, alt: true } }
    } else {
        Key { code: KeyCode::Char('G'), modifiers: Modifiers { shift: true, control: false, alt: false } }
    }
}

/// The key of the suffix.
fn leave_key() -> (key: Key)
    ensures
        key == leave_sequence()[0],
{
    Key { code: KeyCode::Char('\\'), modifiers: Modifiers { shift: false, control: false, alt: true } }
}

/// The error marker.
fn marker() -> (text: Vec<char>)
    ensures
        text@ == error_marker(),
{
    let mut text: Vec<char> = Vec::new();
    text.push('E');
    text.push('N');
    text.push('O');
    text.push('E');
    text.push('N');
    text.push('T');
    assert(text@ =~= error_marker());
    text
}

/// Whether `event` is a press of `key`.
fn is_key(event: &InputEvent, key: Key) -> (b: bool)
    ensures
        b == (event@ == InputView::Key(key)),
{
    match event {
        InputEvent::Key(pressed) => *pressed == key,
        _ => false,
    }
}

impl InputState {
    /// Whether the cursors point into their patterns.
    pub closed spec fn wf(&self) -> bool {
        self.enter_cursor < 2 && self.leave_cursor < 1
    }

    /// The state before any input.
    pub fn new() -> (state: Self)
        ensures
            state.wf(),
            state@ == initial(),
    {
        InputState { capturing: false, enter_cursor: 0, leave_cursor: 0, message: Vec::new() }
    }

    /// Whether a reply of the terminal is being captured.
    pub fn is_capturing(&self) -> (b: bool)
        ensures
            b == self@.capturing,
    {
        self.capturing
    }

    /// Takes one raw event and says what the input loop is to do with it.
    pub fn step(&mut self, event: InputEvent) -> (outcome: InputOutcome)
        requires
            old(self).wf(),
        ensures
            final(self).wf(),
            final(self)@ == step_state(old(self)@, event@),
            outcome@ == step_outcome(old(self)@, event@),
    {
        let ghost before = self@;
        let mut recover = false;
        if is_key(&event, enter_key(self.enter_cursor)) {
            self.enter_cursor += 1;
            if self.enter_cursor == 2 {
                self.capturing = true;
                self.enter_cursor = 0;
            }
        } else {
            self.enter_cursor = 0;
        }
        if is_key(&event, leave_key()) {
            let wanted = marker();
            recover = contains(&self.message, &wanted);
            self.message.clear();
            self.capturing = false;
            self.leave_cursor = 0;
        } else {
            self.leave_cursor = 0;
        }
        assert(self.capturing == capturing_after(before, event@));
        if self.capturing {
            match event {
                InputEvent::Key(Key { code: KeyCode::Char(c), modifiers: _ }) => {
                    self.message.push(c);
                },
                _ => {},
            }
            assert(self@.message =~= step_state(before, event@).message);
            InputOutcome { recover, forward: None }
        } else {
            assert(self@.message =~= step_state(before, event@).message);
            let forward = match AppEvent::from_input(event) {
                Ok(translated) => Some(translated),
                Err(_) => None,
            };
            InputOutcome { recover, forward }
        }
    }
}

/// While a reply of the terminal is being captured, and on the key that
/// opens one, nothing is forwarded to the event loop.
pub proof fn lemma_capture_forwards_nothing(state: CaptureView, event: InputView)
    requires
        state.capturing || completes(enter_sequence(), state.enter_cursor, event),
    ensures
        step_outcome(state, event).forward is None,
{
}

/// An event never both triggers the recovery and is forwarded.
pub proof fn lemma_recover_excludes_forward(state: CaptureView, event: InputView)
    ensures
        !(step_outcome(state, event).recover && step_outcome(state, event).forward is Some),
{
}

/// What a run of events amounts to: the state it ends in, how often the
/// recovery was triggered, and the events that were forwarded, in order.
pub struct RunView {
    pub state: CaptureView,
    pub recoveries: nat,
    pub forwarded: Seq<EventView>,
}

/// Feeds `events` to the state machine one by one, starting in `state`.
pub open spec fn run(state: CaptureView, events: Seq<InputView>) -> RunView
    decreases events.len(),
{
    if events.len() == 0 {
        RunView { state, recoveries: 0, forwarded: Seq::empty() }
    } else {
        let before = run(state, events.drop_last());
        let outcome = step_outcome(before.state, events.last());
        RunView {
            state: step_state(before.state, events.last()),
            recoveries: if outcome.recover {
                before.recoveries + 1
            } else {
                before.recoveries
            },
            forwarded: match outcome.forward {
                Some(event) => before.forwarded.push(event),
                None => before.forwarded,
            },
        }
    }
}

/// The press of `key`, as a raw event.
pub open spec fn press(key: Key) -> InputView {
    InputView::Key(key)
}

/// The character `c` typed without a modifier, as a raw event.
pub open spec fn plain_press(c: char) -> InputView {
    InputView::Key(Key { code: KeyCode::Char(c), modifiers: Modifiers::none() })
}

/// The presses of `keys`, as raw events.
pub open spec fn key_events(keys: Seq<Key>) -> Seq<InputView> {
    keys.map_values(|key: Key| press(key))
}

/// The characters of `text`, each typed without a modifier.
pub open spec fn typed(text: Seq<char>) -> Seq<InputView> {
    text.map_values(|c: char| plain_press(c))
}

/// A reply of the terminal that carries `text`: the prefix, the text, the
/// suffix.
pub open spec fn reply(text: Seq<char>) -> Seq<InputView> {
    key_events(enter_sequence()) + typed(text) + key_events(leave_sequence())
}

/// The state in the middle of a capture that has gathered `message`.
pub open spec fn capturing(message: Seq<char>) -> CaptureView {
    CaptureView { capturing: true, enter_cursor: 0, leave_cursor: 0, message }
}

proof fn lemma_run_prefix()
    ensures
        run(initial(), key_events(enter_sequence())) == (RunView {
            state: capturing(seq!['G']),
            recoveries: 0,
            forwarded: Seq::empty(),
        }),
{
    let events = key_events(enter_sequence());
    let first = events.drop_last();
    assert(first.len() == 1);
    assert(first.drop_last().len() == 0);
    assert(first.last() == InputView::Key(enter_sequence()[0]));
    assert(events.last() == InputView::Key(enter_sequence()[1]));
    let start = run(initial(), first.drop_last());
    assert(start.state == initial() && start.recoveries == 0 && start.forwarded
        == Seq::<EventView>::empty());
    let middle = run(initial(), first);
    assert(middle.state.message =~= Seq::<char>::empty());
    assert(middle.state == (CaptureView {
        capturing: false,
        enter_cursor: 1,
        leave_cursor: 0,
        message: Seq::empty(),
    }));
    assert(middle.recoveries == 0 && middle.forwarded == Seq::<EventView>::empty());
    let end = run(initial(), events);
    assert(end.state.message =~= seq!['G']);
}

proof fn lemma_run_text(text: Seq<char>)
    ensures
        run(initial(), key_events(enter_sequence()) + typed(text)) == (RunView {
            state: capturing(seq!['G'] + text),
            recoveries: 0,
            forwarded: Seq::empty(),
        }),
    decreases text.len(),
{
    let prefix = key_events(enter_sequence());
    let events = prefix + typed(text);
    assert(prefix.len() == 2);
    assert(typed(text).len() == text.len());
    if text.len() == 0 {
        assert(events =~= prefix);
        assert(seq!['G'] + text =~= seq!['G']);
        lemma_run_prefix();
    } else {
        lemma_run_text(text.drop_last());
        assert(typed(text.drop_last()).len() == text.len() - 1);
        assert(events.drop_last() =~= prefix + typed(text.drop_last()));
        assert(events.last() == typed(text)[text.len() - 1]);
        assert(events.last() == InputView::Key(
            Key { code: KeyCode::Char(text.last()), modifiers: Modifiers::none() },
        ));
        let end = run(initial(), events);
        assert(end.state.message =~= seq!['G'] + text);
    }
}

/// The error marker stands in a captured reply exactly when it stands in
/// the text after the `G` that opened the reply.
pub proof fn lemma_marker_after_prefix(text: Seq<char>)
    ensures
        contains_text(seq!['G'] + text, error_marker()) <==> contains_text(text, error_marker()),
{
    let whole = seq!['G'] + text;
    let marker = error_marker();
    if contains_text(whole, marker) {
        let at = choose|at: int| crate::text::occurs_at(whole, marker, at);
        assert(whole.subrange(at, at + marker.len())[0] == marker[0]);
        assert(at >= 1);
        assert(text.subrange(at - 1, at - 1 + marker.len()) =~= whole.subrange(
            at,
            at + marker.len(),
        ));
        assert(crate::text::occurs_at(text, marker, at - 1));
    }
    if contains_text(text, marker) {
        let at = choose|at: int| crate::text::occurs_at(text, marker, at);
        assert(whole.subrange(at + 1, at + 1 + marker.len()) =~= text.subrange(
            at,
            at + marker.len(),
        ));
        assert(crate::text::occurs_at(whole, marker, at + 1));
    }
}

/// A reply of the terminal is captured whole, whatever it says: from the
/// state before any input, the prefix, then any text typed without
/// modifiers, then the suffix forward nothing to the event loop, leave the
/// state machine where it began, and trigger the recovery exactly once if
/// the text holds the error marker and not at all if it does not.
pub proof fn lemma_reply_is_captured(text: Seq<char>)
    ensures
        run(initial(), reply(text)).forwarded == Seq::<EventView>::empty(),
        run(initial(), reply(text)).state == initial(),
        run(initial(), reply(text)).recoveries == if contains_text(text, error_marker()) {
            1nat
        } else {
            0nat
        },
{
    let events = reply(text);
    let body = key_events(enter_sequence()) + typed(text);
    lemma_run_text(text);
    lemma_marker_after_prefix(text);
    assert(events.drop_last() =~= body);
    assert(events.last() == InputView::Key(leave_sequence()[0]));
    let end = run(initial(), events);
    assert(end.state.message =~= Seq::<char>::empty());
}

} // verus!
