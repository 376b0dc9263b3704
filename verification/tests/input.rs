use mngdx::app::events::{
    process_event, AppEvent, Effect, InputEvent, InputUnrecognized, Key, KeyCode, Modifiers,
};
use mngdx::app::input::{InputOutcome, InputState};
use mngdx::app::registry::{draw_stages, is_ascending, Component, Stage};

const NONE: Modifiers = Modifiers { shift: false, control: false, alt: false };
const ALT: Modifiers = Modifiers { shift: false, control: false, alt: true };
const SHIFT: Modifiers = Modifiers { shift: true, control: false, alt: false };

fn key(c: char, modifiers: Modifiers) -> InputEvent {
    InputEvent::Key(Key { code: KeyCode::Char(c), modifiers })
}

fn plain(code: KeyCode) -> InputEvent {
    InputEvent::Key(Key { code, modifiers: NONE })
}

fn nothing() -> InputOutcome {
    InputOutcome { recover: false, forward: None }
}

#[test]
fn keys_translate_to_events() {
    assert_eq!(AppEvent::from_input(key('q', NONE)), Ok(AppEvent::Quit));
    assert_eq!(AppEvent::from_input(key('r', NONE)), Ok(AppEvent::Reload));
    assert_eq!(AppEvent::from_input(plain(KeyCode::Right)), Ok(AppEvent::Next));
    assert_eq!(AppEvent::from_input(plain(KeyCode::Down)), Ok(AppEvent::Next));
    assert_eq!(AppEvent::from_input(plain(KeyCode::Left)), Ok(AppEvent::Previous));
    assert_eq!(AppEvent::from_input(plain(KeyCode::Up)), Ok(AppEvent::Previous));
    assert_eq!(AppEvent::from_input(InputEvent::Resize(80, 24)), Ok(AppEvent::Reload));
    assert_eq!(
        AppEvent::from_input(InputEvent::Mouse("moved".to_string())),
        Ok(AppEvent::Debug("moved".to_string()))
    );
}

#[test]
fn unrecognized_input_is_dropped() {
    assert_eq!(AppEvent::from_input(key('x', NONE)), Err(InputUnrecognized));
    assert_eq!(AppEvent::from_input(key('q', ALT)), Err(InputUnrecognized));
    assert_eq!(AppEvent::from_input(key('q', SHIFT)), Err(InputUnrecognized));
    assert_eq!(AppEvent::from_input(plain(KeyCode::Other)), Err(InputUnrecognized));
    assert_eq!(
        AppEvent::from_input(InputEvent::Key(Key { code: KeyCode::Right, modifiers: ALT })),
        Err(InputUnrecognized)
    );
}

#[test]
fn plain_keys_are_forwarded_outside_a_capture() {
    let mut state = InputState::new();
    assert_eq!(
        state.step(key('q', NONE)),
        InputOutcome { recover: false, forward: Some(AppEvent::Quit) }
    );
    assert_eq!(
        state.step(plain(KeyCode::Left)),
        InputOutcome { recover: false, forward: Some(AppEvent::Previous) }
    );
    assert_eq!(state.step(key('x', NONE)), nothing());
    assert!(!state.is_capturing());
}

#[test]
fn error_reply_triggers_one_recovery_and_no_event() {
    let mut state = InputState::new();
    let mut recoveries = 0;
    let mut forwarded = Vec::new();
    let mut feed = |state: &mut InputState, event: InputEvent| {
        let outcome = state.step(event);
        if outcome.recover {
            recoveries += 1;
        }
        if let Some(event) = outcome.forward {
            forwarded.push(event);
        }
    };
    feed(&mut state, key('_', ALT));
    feed(&mut state, key('G', SHIFT));
    for c in "i=3;ENOENT:q r".chars() {
        feed(&mut state, key(c, NONE));
    }
    feed(&mut state, key('\\', ALT));
    assert_eq!(recoveries, 1);
    assert!(forwarded.is_empty());
    assert!(!state.is_capturing());
    // After the reply, keys count again.
    assert_eq!(
        state.step(key('q', NONE)),
        InputOutcome { recover: false, forward: Some(AppEvent::Quit) }
    );
}

#[test]
fn reply_without_marker_triggers_nothing() {
    let mut state = InputState::new();
    assert_eq!(state.step(key('_', ALT)), nothing());
    assert!(!state.is_capturing());
    assert_eq!(state.step(key('G', SHIFT)), nothing());
    assert!(state.is_capturing());
    for c in "i=3;OK".chars() {
        assert_eq!(state.step(key(c, NONE)), nothing());
    }
    assert_eq!(state.step(key('\\', ALT)), nothing());
    assert!(!state.is_capturing());
}

#[test]
fn second_reply_starts_with_an_empty_message() {
    let mut state = InputState::new();
    let mut all = Vec::new();
    for event in [key('_', ALT), key('G', SHIFT)] {
        all.push(state.step(event));
    }
    for c in "ENOENT".chars() {
        all.push(state.step(key(c, NONE)));
    }
    let first = state.step(key('\\', ALT));
    assert!(first.recover);
    state.step(key('_', ALT));
    state.step(key('G', SHIFT));
    let second = state.step(key('\\', ALT));
    assert_eq!(second, nothing());
    assert!(all.iter().all(|outcome| *outcome == nothing()));
}

#[test]
fn broken_prefix_does_not_start_a_capture() {
    let mut state = InputState::new();
    state.step(key('_', ALT));
    state.step(key('x', NONE));
    state.step(key('G', SHIFT));
    assert!(!state.is_capturing());
    assert_eq!(
        state.step(key('r', NONE)),
        InputOutcome { recover: false, forward: Some(AppEvent::Reload) }
    );
}

#[test]
fn suffix_outside_a_capture_is_dropped() {
    let mut state = InputState::new();
    assert_eq!(state.step(key('\\', ALT)), nothing());
}

#[test]
fn events_map_to_effects() {
    assert_eq!(process_event(AppEvent::Start), vec![Effect::FetchContent]);
    assert_eq!(process_event(AppEvent::Next), vec![Effect::Advance]);
    assert_eq!(process_event(AppEvent::Previous), vec![Effect::Retreat]);
    assert_eq!(process_event(AppEvent::Quit), vec![Effect::RequestShutdown]);
    assert_eq!(
        process_event(AppEvent::Debug("hi".to_string())),
        vec![Effect::SetLabel("hi".to_string())]
    );
    assert_eq!(
        process_event(AppEvent::Reload),
        vec![Effect::Pause, Effect::InvalidateImages, Effect::Pause, Effect::ResizeTerminal]
    );
}

#[test]
fn effects_name_their_lock() {
    assert_eq!(Effect::FetchContent.lock(), None);
    assert_eq!(Effect::Advance.lock(), Some(Component::Session));
    assert_eq!(Effect::Retreat.lock(), Some(Component::Session));
    assert_eq!(Effect::SetLabel(String::new()).lock(), Some(Component::UiState));
    assert_eq!(Effect::RequestShutdown.lock(), None);
    assert_eq!(Effect::Pause.lock(), None);
    assert_eq!(Effect::InvalidateImages.lock(), Some(Component::ImageManager));
    assert_eq!(Effect::ResizeTerminal.lock(), Some(Component::Terminal));
    assert!(Effect::RequestShutdown.requests_shutdown());
    assert!(!Effect::Pause.requests_shutdown());
}

#[test]
fn quit_sets_the_flag_and_loops_stop() {
    let mut shutdown = false;
    for event in [AppEvent::Next, AppEvent::Quit, AppEvent::Previous] {
        for effect in process_event(event) {
            if effect.requests_shutdown() {
                shutdown = true;
            }
        }
    }
    assert!(shutdown);
}

#[test]
fn stages_take_locks_in_ascending_rank() {
    for stage in [Stage::Widgets, Stage::Placement, Stage::Reconcile, Stage::Recover] {
        let locks = stage.locks();
        assert!(is_ascending(&locks));
        assert!(locks.len() < 4);
    }
    assert_eq!(
        Stage::Widgets.locks(),
        vec![Component::UiState, Component::Session, Component::Terminal]
    );
    assert_eq!(Stage::Recover.locks(), vec![Component::ImageManager, Component::Terminal]);
    assert_eq!(draw_stages(), vec![Stage::Widgets, Stage::Placement, Stage::Reconcile]);
}

#[test]
fn lock_order_is_checked() {
    assert!(is_ascending(&vec![]));
    assert!(is_ascending(&vec![Component::Terminal]));
    assert!(is_ascending(&vec![Component::UiState, Component::ImageManager, Component::Terminal]));
    assert!(!is_ascending(&vec![Component::Terminal, Component::ImageManager]));
    assert!(!is_ascending(&vec![Component::Session, Component::Session]));
    assert_eq!(Component::UiState.rank(), 0);
    assert_eq!(Component::Session.rank(), 1);
    assert_eq!(Component::ImageManager.rank(), 2);
    assert_eq!(Component::Terminal.rank(), 3);
}
