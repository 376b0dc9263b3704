use mngdx::app::events::{AppEvent, Effect};
use mngdx::app::reader::{PageReader, Reader};
use mngdx::app::render::{FrameEnd, FrameReport, RenderLoop};
use mngdx::app::shutdown::{loop_step, LoopStep};
use mngdx::app::state::AppState;
use mngdx::app::time::{timer_start, timer_stop, IntoString, Timer};
use mngdx::images::manager::ImageManager;
use mngdx::images::{Image, ImagePlacement};

#[test]
fn stopwatches_report_elapsed_time() {
    let mut timer = Timer::new();
    timer_start(&mut timer, "draw", 100);
    timer_start(&mut timer, "load".to_string(), 150);
    assert_eq!(timer_stop(&mut timer, "draw", 175), Some(75));
    assert_eq!(timer_stop(&mut timer, "draw", 180), None);
    assert_eq!(timer_stop(&mut timer, "load".to_string(), 150), Some(0));
    assert_eq!(timer_stop(&mut timer, "never", 0), None);
}

#[test]
fn starting_again_starts_over() {
    let mut timer = Timer::new();
    timer.start("a".to_string(), 10);
    timer.start("b".to_string(), 20);
    timer.start("a".to_string(), 30);
    assert_eq!(timer.stop("a".to_string(), 35), Some(5));
    assert_eq!(timer.stop("a".to_string(), 35), None);
    assert_eq!(timer.stop("b".to_string(), 10), Some(0));
}

#[test]
fn strings_and_slices_turn_into_strings() {
    assert_eq!("abc".into_string(), "abc");
    assert_eq!("abc".to_string().into_string(), "abc");
}

#[test]
fn render_loop_paces_and_reports() {
    let mut render = RenderLoop::new(16_600_000, 2);
    assert_eq!(
        render.end_frame(5_000_000, true),
        FrameEnd { sleep: 11_600_000, dropped: false, report: None }
    );
    assert_eq!(
        render.end_frame(20_000_000, false),
        FrameEnd {
            sleep: 0,
            dropped: true,
            report: Some(FrameReport { average: 12_500_000, frames: 2 })
        }
    );
    // The frame that overran leaves no debt: the next sleep is the full rest.
    assert_eq!(
        render.end_frame(1_000_000, true),
        FrameEnd { sleep: 15_600_000, dropped: false, report: None }
    );
    let mut standard = RenderLoop::standard();
    assert_eq!(standard.end_frame(0, true).sleep, 16_666_666);
}

#[test]
fn effects_are_carried_out_on_their_component() {
    let mut reader = PageReader::new();
    reader.read(vec!["a".to_string(), "b".to_string()]);
    let mut state = AppState::new();
    let mut images = ImageManager::new();
    images.add_image(1, Image { width: 1, height: 1, rgba: vec![0, 0, 0, 0] });
    images.display_image(1, ImagePlacement::default()).unwrap();
    images.draw();
    assert!(Effect::Advance.apply_to_session(&mut reader));
    assert_eq!(reader.current(), 1);
    assert!(Effect::Retreat.apply_to_session(&mut reader));
    assert_eq!(reader.current(), 0);
    assert!(!Effect::Pause.apply_to_session(&mut reader));
    assert!(Effect::SetLabel("hi".to_string()).apply_to_state(&mut state));
    assert_eq!(state.block_name, "hi");
    assert!(!Effect::Advance.apply_to_state(&mut state));
    assert_eq!(state.block_name, "hi");
    assert!(!Effect::ResizeTerminal.apply_to_images(&mut images));
    assert!(images.is_loaded(1));
    assert!(Effect::InvalidateImages.apply_to_images(&mut images));
    assert!(!images.is_loaded(1));
    assert_eq!(images.draw().len(), 2);
}

#[test]
fn recovery_sends_everything_again() {
    let mut images = ImageManager::new();
    images.add_image(1, Image { width: 1, height: 1, rgba: vec![0, 0, 0, 0] });
    images.display_image(1, ImagePlacement::default()).unwrap();
    let first = images.draw();
    assert_eq!(images.recover(), first);
    assert!(images.draw().is_empty());
}

#[test]
fn quit_stops_all_three_loops() {
    // Each loop reads the flag at the top of its iteration; once the event
    // loop has handled `Quit`, every one of them leaves at its next look.
    let mut flag = false;
    let mut iterations = [0u32; 3];
    let mut events = vec![AppEvent::Start, AppEvent::Next, AppEvent::Quit, AppEvent::Next];
    events.reverse();
    let mut running = [true; 3];
    for _round in 0..10 {
        for (index, alive) in running.iter_mut().enumerate() {
            if !*alive {
                continue;
            }
            if loop_step(flag) == LoopStep::Exit {
                *alive = false;
                continue;
            }
            iterations[index] += 1;
            if index == 1 {
                if let Some(event) = events.pop() {
                    for effect in mngdx::app::events::process_event(event) {
                        if effect.requests_shutdown() {
                            flag = true;
                        }
                    }
                }
            }
        }
    }
    assert!(flag);
    assert_eq!(running, [false, false, false]);
    // The event after `Quit` was never handled.
    assert_eq!(events, vec![AppEvent::Next]);
    assert!(iterations.iter().all(|n| *n <= 4));
}
