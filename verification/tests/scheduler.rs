use peng::tick_controller::{TickController, elapsed_between, measured_rate};

// Scheduler phase lock: over a one-second window the scheduler emits the
// target number of ticks, give or take one.
#[test]
fn fps_test() {
    let target_fps = 60;
    let mut tick_controller = TickController::from_target_fps(target_fps);

    // the first wait returns at once (the first tick is scheduled for the
    // moment of creation): take it before opening the measurement window
    tick_controller.wait_for_next_tick();

    let start = std::time::Instant::now();
    let mut frame_count: u32 = 0;

    while start.elapsed().as_secs_f32() < 1.0 {
        tick_controller.wait_for_next_tick();
        frame_count += 1;
    }
    println!("Frames: {}", frame_count);
    assert_eq!(frame_count >= target_fps - 1 && frame_count <= target_fps + 1, true);
}

#[test]
fn from_target_fps_sets_interval() {
    let t = TickController::from_target_fps(60);
    assert_eq!(t.tick_interval, 1_000_000_000 / 60);
    assert_eq!(t.target_fps, 60);
    assert_eq!(t.frame_count, 0);
    assert!(!t.paused);
    assert_eq!(t.scheduled_tick, t.current_tick_actual);
}

#[test]
fn pause_and_resume_toggle_the_flag() {
    let mut t = TickController::from_target_fps(60);
    t.pause();
    assert!(t.paused);
    t.resume();
    assert!(!t.paused);
}

// The schedule keeps its phase: after a wait the target has advanced by a
// whole number of intervals from where it was.
#[test]
fn wait_advances_schedule_by_whole_intervals() {
    let mut t = TickController::from_target_fps(1000);
    let before = t.scheduled_tick;
    let interval = t.tick_interval;
    t.wait_for_next_tick();
    let advanced = t.scheduled_tick - before;
    assert!(advanced >= interval);
    assert_eq!(advanced % interval, 0);
}

// The measured elapsed time between ticks is close to the tick interval.
#[test]
fn elapsed_tracks_the_tick_interval() {
    let mut t = TickController::from_target_fps(100);
    t.wait_for_next_tick();
    t.wait_for_next_tick();
    let elapsed = t.elapsed_since_last_tick();
    // two 10 ms ticks have passed since previous_tick_actual was taken
    assert!(elapsed < 1_000_000_000);
}

// Reporting the measured rate closes the counting window: the frame counter
// starts over.
#[test]
fn fps_check_resets_the_window() {
    let mut t = TickController::from_target_fps(1000);
    t.wait_for_next_tick();
    t.wait_for_next_tick();
    let _ = t.fps_check();
    assert_eq!(t.frame_count, 0);
    assert_eq!(t.target_fps, 1000);
}

#[test]
fn measured_rate_exact_values() {
    assert_eq!(measured_rate(60, 1_000_000_000), 60);
    assert_eq!(measured_rate(60, 500_000_000), 120);
    assert_eq!(measured_rate(61, 2_000_000_000), 30);
    assert_eq!(measured_rate(0, 1_000_000_000), 0);
    assert_eq!(measured_rate(5, 0), 0);
    assert_eq!(measured_rate(u64::MAX, 1), u64::MAX);
}

#[test]
fn elapsed_between_guards_backward_clocks() {
    assert_eq!(elapsed_between(10, 3), 7);
    assert_eq!(elapsed_between(3, 10), 0);
    assert_eq!(elapsed_between(5, 5), 0);
}
