use termtrace::pacing::{FrameAction, FrameClock};

fn count_frames(clock: &mut FrameClock, compute: u64) -> u64 {
    let mut frames = 0;
    loop {
        frames += 1;
        if clock.finish_frame(compute) == FrameAction::Stop {
            return frames;
        }
    }
}

#[test]
fn one_unit_at_24_frames() {
    let mut clock = FrameClock::new(24, false, 1_000_000);
    let frames = count_frames(&mut clock, 0);
    assert_eq!(frames, 25);
    assert!((23..=25).contains(&frames));
}

#[test]
fn debug_mode_steps_one_unit_per_frame() {
    let mut clock = FrameClock::new(24, true, 3_000_000);
    assert_eq!(clock.frame_micros, 1_000_000);
    assert_eq!(count_frames(&mut clock, 0), 4);
}

#[test]
fn zero_duration_draws_one_frame() {
    let mut clock = FrameClock::new(30, false, 0);
    assert_eq!(count_frames(&mut clock, 5), 1);
}

#[test]
fn wait_fills_the_rest_of_the_interval() {
    let mut clock = FrameClock::new(24, false, 10_000_000);
    assert_eq!(clock.frame_micros, 41_666);
    assert_eq!(clock.finish_frame(1_666), FrameAction::Wait { micros: 40_000 });
    assert_eq!(clock.finish_frame(41_666), FrameAction::Wait { micros: 0 });
    assert_eq!(clock.finish_frame(90_000), FrameAction::Wait { micros: 0 });
    assert_eq!(clock.frames, 3);
    assert_eq!(clock.total_compute, 133_332);
    assert_eq!(clock.total_wait, 40_000);
}

#[test]
fn load_is_share_of_compute_time() {
    let mut clock = FrameClock::new(10, false, 10_000_000);
    assert_eq!(clock.load_percent(), None);
    clock.finish_frame(25_000);
    assert_eq!(clock.total_wait, 75_000);
    assert_eq!(clock.load_percent(), Some(25));
}

#[test]
fn totals_saturate() {
    let mut clock = FrameClock::new(1, false, 10_000_000);
    clock.finish_frame(u64::MAX - 1);
    clock.finish_frame(10);
    assert_eq!(clock.total_compute, u64::MAX);
}

#[test]
fn inclusive_clock_stops_on_reaching_the_duration() {
    let mut clock = FrameClock::new_inclusive(1, false, 1_000_000);
    assert!(clock.reach_is_enough);
    assert_eq!(count_frames(&mut clock, 0), 1);
    let mut clock = FrameClock::new_inclusive(24, false, 1_000_000);
    assert_eq!(count_frames(&mut clock, 0), 24);
    let mut clock = FrameClock::new_inclusive(24, false, 1_010_000);
    assert_eq!(count_frames(&mut clock, 0), 25);
}

#[test]
fn inclusive_clock_draws_one_frame_for_zero_duration() {
    let mut clock = FrameClock::new_inclusive(30, false, 0);
    assert_eq!(count_frames(&mut clock, 0), 1);
}

#[test]
fn exclusive_clock_runs_one_frame_past_an_exact_duration() {
    let mut clock = FrameClock::new(1, false, 1_000_000);
    assert!(!clock.reach_is_enough);
    assert_eq!(count_frames(&mut clock, 0), 2);
}
