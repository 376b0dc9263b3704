//! Domain events: what raw terminal input is translated into, and what the
//! event loop does for each of them.

use vstd::prelude::*;
use crate::app::reader::Reader;
use crate::app::registry::Component;
use crate::app::state::AppState;
use crate::images::manager::{invalidated, ImageManager};

verus! {

/// The code of a key, as far as the application tells keys apart.
#[derive(Clone, Copy, Debug, PartialEq, Eq, Structural)]
pub enum KeyCode {
    /// A character key.
    Char(char),
    /// The left arrow.
    Left,
    /// The right arrow.
    Right,
    /// The up arrow.
    Up,
    /// The down arrow.
    Down,
    /// Any other key.
    Other,
}

/// The modifier keys held while a key was pressed.
#[derive(Clone, Copy, Debug, PartialEq, Eq, Structural)]
pub struct Modifiers {
    pub shift: bool,
    pub control: bool,
    pub alt: bool,
}

/// A key press.
#[derive(Clone, Copy, Debug, PartialEq, Eq, Structural)]
pub struct Key {
    pub code: KeyCode,
    pub modifiers: Modifiers,
}

/// One raw event read from the terminal.
#[derive(Clone, Debug, PartialEq, Eq)]
pub enum InputEvent {
    /// A key press.
    Key(Key),
    /// A mouse event, by its description.
    Mouse(String),
    /// The terminal was resized to this many columns and rows.
    Resize(u16, u16),
}

/// The mathematical value of an `InputEvent`.
pub enum InputView {
    Key(Key),
    Mouse(Seq<char>),
    Resize(u16, u16),
}

impl View for InputEvent {
    type V = InputView;

    open spec fn view(&self) -> InputView {
        match *self {
            InputEvent::Key(key) => InputView::Key(key),
            InputEvent::Mouse(text) => InputView::Mouse(text@),
            InputEvent::Resize(columns, rows) => InputView::Resize(columns, rows),
        }
    }
}

/// A high-level action of the application.
#[derive(Clone, Debug, PartialEq, Eq)]
pub enum AppEvent {
    /// Show this text in the status label.
    Debug(String),
    /// Fetch the initial content and start reading it.
    Start,
    /// Go to the next page.
    Next,
    /// Go to the previous page.
    Previous,
    /// Stop every loop.
    Quit,
    /// The terminal lost its images: send them again.
    Reload,
}

/// The mathematical value of an `AppEvent`.
pub enum EventView {
    Debug(Seq<char>),
    Start,
    Next,
    Previous,
    Quit,
    Reload,
}

impl View for AppEvent {
    type V = EventView;

    open spec fn view(&self) -> EventView {
        match *self {
            AppEvent::Debug(text) => EventView::Debug(text@),
            AppEvent::Start => EventView::Start,
            AppEvent::Next => EventView::Next,
            AppEvent::Previous => EventView::Previous,
            AppEvent::Quit => EventView::Quit,
            AppEvent::Reload => EventView::Reload,
        }
    }
}

/// Raw input that stands for no domain event. It is dropped silently.
#[derive(Clone, Copy, Debug, PartialEq, Eq, Structural)]
pub struct InputUnrecognized;

impl Modifiers {
    /// No modifier held.
    pub open spec fn none() -> Modifiers {
        Modifiers { shift: false, control: false, alt: false }
    }

    /// Only the Alt key held.
    pub open spec fn only_alt() -> Modifiers {
        Modifiers { shift: false, control: false, alt: true }
    }

    /// Only the Shift key held.
    pub open spec fn only_shift() -> Modifiers {
        Modifiers { shift: true, control: false, alt: false }
    }

    /// Whether no modifier is held.
    pub fn is_none(&self) -> (b: bool)
        ensures
            b == (*self == Modifiers::none()),
    {
        !self.shift && !self.control && !self.alt
    }
}

/// The domain event that a key pressed without modifiers stands for: `q`
/// quits, `r` reloads, right and down go forward, left and up go back.
pub open spec fn plain_key_event(code: KeyCode) -> Option<EventView> {
    match code {
        KeyCode::Char(c) => if c == 'q' {
            Some(EventView::Quit)
        } else if c == 'r' {
            Some(EventView::Reload)
        } else {
            None
        },
        KeyCode::Right | KeyCode::Down => Some(EventView::Next),
        KeyCode::Left | KeyCode::Up => Some(EventView::Previous),
        KeyCode::Other => None,
    }
}

/// The domain event that a raw event stands for, if any. A resize asks for
/// a reload, a mouse event is shown as text, and a key counts only when no
/// modifier is held.
pub open spec fn translation(event: InputView) -> Option<EventView> {
    match event {
        InputView::Key(key) => if key.modifiers == Modifiers::none() {
            plain_key_event(key.code)
        } else {
            None
        },
        InputView::Mouse(text) => Some(EventView::Debug(text)),
        InputView::Resize(_, _) => Some(EventView::Reload),
    }
}

impl AppEvent {
    /// Translates a raw event into the domain event it stands for.
    /// Everything else is `InputUnrecognized`.
    pub fn from_input(event: InputEvent) -> (result: Result<AppEvent, InputUnrecognized>)
        ensures
            match translation(event@) {
                Some(v) => result is Ok && result->Ok_0@ == v,
                None => result is Err,
            },
    {
        match event {
            InputEvent::Key(key) => {
                if !key.modifiers.is_none() {
                    return Err(InputUnrecognized);
                }
                match key.code {
                    KeyCode::Char(c) => {
                        if c == 'q' {
                            Ok(AppEvent::Quit)
                        } else if c == 'r' {
                            Ok(AppEvent::Reload)
                        } else {
                            Err(InputUnrecognized)
                        }
                    },
                    KeyCode::Right => Ok(AppEvent::Next),
                    KeyCode::Down => Ok(AppEvent::Next),
                    KeyCode::Left => Ok(AppEvent::Previous),
                    KeyCode::Up => Ok(AppEvent::Previous),
                    KeyCode::Other => Err(InputUnrecognized),
                }
            },
            InputEvent::Mouse(text) => Ok(AppEvent::Debug(text)),
            InputEvent::Resize(_, _) => Ok(AppEvent::Reload),
        }
    }
}

/// One thing the event loop does on behalf of an event. Each effect touches
/// at most one component of the registry, so a handler never holds two
/// locks at once.
#[derive(Clone, Debug, PartialEq, Eq)]
pub enum Effect {
    /// Submit the background task that fetches the initial content and
    /// starts the reading session with it.
    FetchContent,
    /// Advance the reading session.
    Advance,
    /// Take the reading session one step back.
    Retreat,
    /// Store this text as the status label.
    SetLabel(String),
    /// Set the shutdown flag.
    RequestShutdown,
    /// Wait for one frame period, holding nothing.
    Pause,
    /// Make the image manager forget what the terminal holds, so that the
    /// next draw pass sends everything again.
    InvalidateImages,
    /// Let the terminal adopt its new size.
    ResizeTerminal,
}

/// The mathematical value of an `Effect`.
pub enum EffectView {
    FetchContent,
    Advance,
    Retreat,
    SetLabel(Seq<char>),
    RequestShutdown,
    Pause,
    InvalidateImages,
    ResizeTerminal,
}

impl View for Effect {
    type V = EffectView;

    open spec fn view(&self) -> EffectView {
        match *self {
            Effect::FetchContent => EffectView::FetchContent,
            Effect::Advance => EffectView::Advance,
            Effect::Retreat => EffectView::Retreat,
            Effect::SetLabel(text) => EffectView::SetLabel(text@),
            Effect::RequestShutdown => EffectView::RequestShutdown,
            Effect::Pause => EffectView::Pause,
            Effect::InvalidateImages => EffectView::InvalidateImages,
            Effect::ResizeTerminal => EffectView::ResizeTerminal,
        }
    }
}

/// The views of a sequence of effects.
pub open spec fn effect_views(effects: Seq<Effect>) -> Seq<EffectView> {
    effects.map_values(|e: Effect| e@)
}

/// What the event loop does for an event, in order.
pub open spec fn effects_of(event: EventView) -> Seq<EffectView> {
    match event {
        EventView::Start => seq![EffectView::FetchContent],
        EventView::Next => seq![EffectView::Advance],
        EventView::Previous => seq![EffectView::Retreat],
        EventView::Debug(text) => seq![EffectView::SetLabel(text)],
        EventView::Quit => seq![EffectView::RequestShutdown],
        EventView::Reload => seq![
            EffectView::Pause,
            EffectView::InvalidateImages,
            EffectView::Pause,
            EffectView::ResizeTerminal,
        ],
    }
}

/// The component whose lock an effect takes, if it takes one.
pub open spec fn effect_lock(effect: EffectView) -> Option<Component> {
    match effect {
        EffectView::FetchContent => None,
        EffectView::Advance => Some(Component::Session),
        EffectView::Retreat => Some(Component::Session),
        EffectView::SetLabel(_) => Some(Component::UiState),
        EffectView::RequestShutdown => None,
        EffectView::Pause => None,
        EffectView::InvalidateImages => Some(Component::ImageManager),
        EffectView::ResizeTerminal => Some(Component::Terminal),
    }
}

/// The shutdown flag after the event loop has handled `event`: only `Quit`
/// sets it, and nothing clears it.
pub open spec fn flag_after(flag: bool, event: EventView) -> bool {
    flag || event is Quit
}

impl Effect {
    /// The component whose lock this effect takes, if it takes one.
    pub fn lock(&self) -> (lock: Option<Component>)
        ensures
            lock == effect_lock(self@),
    {
        match self {
            Effect::FetchContent => None,
            Effect::Advance => Some(Component::Session),
            Effect::Retreat => Some(Component::Session),
            Effect::SetLabel(_) => Some(Component::UiState),
            Effect::RequestShutdown => None,
            Effect::Pause => None,
            Effect::InvalidateImages => Some(Component::ImageManager),
            Effect::ResizeTerminal => Some(Component::Terminal),
        }
    }

    /// Whether this effect sets the shutdown flag.
    pub fn requests_shutdown(&self) -> (b: bool)
        ensures
            b == (self@ is RequestShutdown),
    {
        match self {
            Effect::RequestShutdown => true,
            _ => false,
        }
    }
}

/// What the event loop does for `event`, in order: `Start` delegates the
/// slow work to the scheduler, `Next` and `Previous` drive the session,
/// `Debug` stores its text, `Reload` invalidates the images between two
/// pauses and resizes the terminal, and `Quit` requests shutdown.
pub fn process_event(event: AppEvent) -> (effects: Vec<Effect>)
    ensures
        effect_views(effects@) == effects_of(event@),
{
    let mut effects: Vec<Effect> = Vec::new();
    match event {
        AppEvent::Start => {
            effects.push(Effect::FetchContent);
        },
        AppEvent::Next => {
            effects.push(Effect::Advance);
        },
        AppEvent::Previous => {
            effects.push(Effect::Retreat);
        },
        AppEvent::Debug(text) => {
            effects.push(Effect::SetLabel(text));
        },
        AppEvent::Quit => {
            effects.push(Effect::RequestShutdown);
        },
        AppEvent::Reload => {
            effects.push(Effect::Pause);
            effects.push(Effect::InvalidateImages);
            effects.push(Effect::Pause);
            effects.push(Effect::ResizeTerminal);
        },
    }
    assert(effect_views(effects@) =~= effects_of(event@));
    effects
}

/// The shutdown flag is requested by the effects of `Quit` and of no other
/// event, and handling an event never clears it.
pub proof fn lemma_only_quit_requests_shutdown(flag: bool, event: EventView)
    ensures
        effects_of(event).contains(EffectView::RequestShutdown) <==> event is Quit,
        flag ==> flag_after(flag, event),
        flag_after(flag, event) == (flag || effects_of(event).contains(
            EffectView::RequestShutdown,
        )),
{
    let effects = effects_of(event);
    if event is Quit {
        assert(effects[0] == EffectView::RequestShutdown);
    } else {
        assert forall|i: int| 0 <= i < effects.len() implies effects[i]
            != EffectView::RequestShutdown by {}
    }
}

impl Effect {
    /// Carries the effect out on the reading session, if it is one on the
    /// session, and says whether it was.
    pub fn apply_to_session<R: Reader>(&self, session: &mut R) -> (applied: bool)
        requires
            old(session).wf(),
        ensures
            final(session).wf(),
            applied == (self@ is Advance || self@ is Retreat),
            *final(session) == match self@ {
                EffectView::Advance => old(session).advanced(),
                EffectView::Retreat => old(session).retreated(),
                _ => *old(session),
            },
    {
        match self {
            Effect::Advance => {
                session.next();
                true
            },
            Effect::Retreat => {
                session.previous();
                true
            },
            _ => false,
        }
    }

    /// Carries the effect out on the interface state, if it is one on that
    /// state, and says whether it was.
    pub fn apply_to_state(&self, state: &mut AppState) -> (applied: bool)
        ensures
            applied == (self@ is SetLabel),
            match self@ {
                EffectView::SetLabel(text) => final(state).block_name@ == text,
                _ => *final(state) == *old(state),
            },
    {
        match self {
            Effect::SetLabel(text) => {
                state.set_label(text.clone());
                true
            },
            _ => false,
        }
    }

    /// Carries the effect out on the image manager, if it is one on the
    /// manager, and says whether it was.
    pub fn apply_to_images(&self, images: &mut ImageManager) -> (applied: bool)
        requires
            old(images).wf(),
        ensures
            final(images).wf(),
            applied == (self@ is InvalidateImages),
            final(images)@ == if applied {
                invalidated(old(images)@)
            } else {
                old(images)@
            },
    {
        match self {
            Effect::InvalidateImages => {
                images.force_invalidate();
                true
            },
            _ => false,
        }
    }
}

} // verus!
