use mngdx::app::render::{frame_budget, frame_sleep, FrameReport, FrameStats};

#[test]
fn sleep_is_budget_minus_elapsed() {
    assert_eq!(frame_sleep(16_600_000, 5_000_000), 11_600_000);
}

#[test]
fn sleep_is_zero_when_over_budget() {
    assert_eq!(frame_sleep(16_600_000, 20_000_000), 0);
    assert_eq!(frame_sleep(16_600_000, 16_600_000), 0);
}

#[test]
fn budget_is_one_sixtieth_of_a_second() {
    assert_eq!(frame_budget(), 16_666_666);
}

#[test]
fn window_reports_mean_when_full() {
    let mut stats = FrameStats::new(3);
    assert_eq!(stats.record(4), None);
    assert_eq!(stats.record(5), None);
    assert_eq!(stats.record(7), Some(FrameReport { average: 5, frames: 3 }));
    assert_eq!(stats.len(), 0);
}

#[test]
fn ten_frames_of_five_milliseconds() {
    // A draw cost of 5 ms against a budget of 16.6 ms leaves 11.6 ms of
    // sleep in every iteration, and the rolling mean comes out at 5 ms.
    let budget = 16_600_000;
    let mut stats = FrameStats::new(10);
    let mut report = None;
    for _ in 0..10 {
        assert_eq!(frame_sleep(budget, 5_000_000), 11_600_000);
        report = stats.record(5_000_000);
    }
    assert_eq!(report, Some(FrameReport { average: 5_000_000, frames: 10 }));
}

#[test]
fn no_debt_is_carried_forward() {
    let budget = frame_budget();
    assert_eq!(frame_sleep(budget, 3 * budget), 0);
    assert_eq!(frame_sleep(budget, 1_000_000), budget - 1_000_000);
}

#[test]
fn window_starts_over_after_a_report() {
    let mut stats = FrameStats::new(2);
    assert_eq!(stats.record(u64::MAX), None);
    assert_eq!(stats.len(), 1);
    assert_eq!(stats.record(u64::MAX), Some(FrameReport { average: u64::MAX, frames: 2 }));
    assert_eq!(stats.record(1), None);
    assert_eq!(stats.record(2), Some(FrameReport { average: 1, frames: 2 }));
}

#[test]
fn window_of_zero_counts_as_one() {
    let mut stats = FrameStats::new(0);
    assert_eq!(stats.record(9), Some(FrameReport { average: 9, frames: 1 }));
    let mut stats = FrameStats::for_render_loop();
    assert_eq!(stats.record(9), None);
}
