use crayon::engine::{
    mean_of, Dispatch, Done, Engine, EngineSettings, EventKind, Phase, Task, Wait,
};
use std::collections::VecDeque;

const MS: u64 = 1_000_000;

fn smoothing(window: u32) -> Engine {
    Engine::new_with(EngineSettings {
        min_fps: 0,
        max_fps: 0,
        max_inactive_fps: 0,
        time_smooth_step: window,
    })
}

#[test]
fn timestep_is_the_mean_of_the_window() {
    let mut engine = smoothing(4);
    assert_eq!(engine.advance(10 * MS), 10 * MS);
    assert_eq!(engine.advance(20 * MS), 15 * MS);
    assert_eq!(engine.advance(30 * MS), 20 * MS);
    assert_eq!(engine.advance(40 * MS), 25 * MS);
    assert_eq!(engine.advance(50 * MS), 35 * MS);
    assert_eq!(engine.timestep(), 35 * MS);
    let kept: Vec<u64> = engine.previous_timesteps.iter().copied().collect();
    assert_eq!(kept, vec![50 * MS, 40 * MS, 30 * MS, 20 * MS]);
}

#[test]
fn timestep_mean_rounds_down() {
    let mut engine = smoothing(2);
    engine.advance(1);
    assert_eq!(engine.advance(2), 1);
    assert_eq!(engine.advance(5), 3);
}

#[test]
fn timestep_without_smoothing_is_the_sample() {
    let mut engine = smoothing(0);
    assert_eq!(engine.advance(16 * MS), 16 * MS);
    assert_eq!(engine.advance(3 * MS), 3 * MS);
    assert!(engine.previous_timesteps.is_empty());
}

#[test]
fn min_fps_clamps_the_sample() {
    let mut engine = smoothing(0);
    engine.set_min_fps(10);
    assert_eq!(engine.advance(250 * MS), 100 * MS);
    assert_eq!(engine.advance(100 * MS), 100 * MS);
    assert_eq!(engine.advance(99 * MS), 99 * MS);
}

#[test]
fn min_fps_clamps_before_smoothing() {
    let mut engine = smoothing(2);
    engine.set_min_fps(10);
    assert_eq!(engine.advance(250 * MS), 100 * MS);
    assert_eq!(engine.advance(50 * MS), 75 * MS);
    let kept: Vec<u64> = engine.previous_timesteps.iter().copied().collect();
    assert_eq!(kept, vec![50 * MS, 100 * MS]);
}

#[test]
fn min_fps_interval_is_whole_milliseconds() {
    let mut engine = smoothing(0);
    engine.set_min_fps(3);
    assert_eq!(engine.advance(1_000 * MS), 333 * MS);
    engine.set_min_fps(2000);
    assert_eq!(engine.advance(1), 0);
}

#[test]
fn shrinking_the_window_drops_old_samples() {
    let mut engine = smoothing(4);
    engine.advance(10);
    engine.advance(20);
    engine.advance(30);
    engine.set_time_smoothing_step(2);
    assert_eq!(engine.advance(40), 35);
    assert_eq!(engine.previous_timesteps.len(), 2);
}

#[test]
fn large_samples_do_not_overflow_the_mean() {
    let mut engine = smoothing(3);
    engine.advance(u64::MAX);
    engine.advance(u64::MAX);
    assert_eq!(engine.advance(u64::MAX), u64::MAX);
    assert_eq!(engine.advance(u64::MAX - 3), u64::MAX - 1);
}

#[test]
fn mean_of_nothing_is_zero() {
    assert_eq!(mean_of(&VecDeque::new()), 0);
    let mut samples = VecDeque::new();
    samples.push_back(4);
    samples.push_back(7);
    assert_eq!(mean_of(&samples), 5);
}

#[test]
fn throttle_sleeps_yields_and_proceeds() {
    let mut engine = Engine::new();
    engine.set_max_fps(50);
    assert_eq!(engine.throttle(0), Wait::Sleep(MS));
    assert_eq!(engine.throttle(15 * MS - 1), Wait::Sleep(MS));
    assert_eq!(engine.throttle(15 * MS), Wait::Yield);
    assert_eq!(engine.throttle(20 * MS), Wait::Yield);
    assert_eq!(engine.throttle(20 * MS + 1), Wait::Proceed);
    engine.set_max_fps(0);
    assert_eq!(engine.throttle(0), Wait::Proceed);
}

#[test]
fn default_settings() {
    let settings = EngineSettings::default();
    assert_eq!(
        settings,
        EngineSettings { min_fps: 0, max_fps: 30, max_inactive_fps: 0, time_smooth_step: 0 }
    );
    let engine = Engine::new();
    assert_eq!(engine.max_fps, 30);
    assert_eq!(engine.min_fps, 0);
    assert_eq!(engine.smoothing_step, 0);
    assert_eq!(engine.timestep(), 0);
    assert!(engine.alive);
    assert_eq!(engine.phase, Phase::Idle);
    assert_eq!(engine.throttle(33 * MS), Wait::Yield);
    assert_eq!(engine.throttle(33 * MS + 1), Wait::Proceed);
}

#[test]
fn setters_set_one_field_each() {
    let mut engine = Engine::new();
    engine.set_min_fps(5);
    engine.set_max_fps(60);
    engine.set_max_inactive_fps(10);
    engine.set_time_smoothing_step(8);
    assert_eq!(engine.min_fps, 5);
    assert_eq!(engine.max_fps, 60);
    assert_eq!(engine.max_inactive_fps, 10);
    assert_eq!(engine.smoothing_step, 8);
    assert!(engine.alive);
}

#[test]
fn fps_comes_from_the_part_below_a_second() {
    let mut engine = smoothing(0);
    assert_eq!(engine.get_fps(), 0);
    engine.advance(16 * MS);
    assert_eq!(engine.get_fps(), 62);
    engine.advance(1);
    assert_eq!(engine.get_fps(), 1_000_000_000);
    engine.advance(1_000 * MS);
    assert_eq!(engine.get_fps(), 0);
    engine.advance(1_500 * MS);
    assert_eq!(engine.get_fps(), 2);
}

#[test]
fn main_loop_runs_frame_after_frame() {
    let mut engine = Engine::new();
    assert_eq!(engine.run(Done::Started), Task::Poll);
    assert_eq!(engine.phase, Phase::Polling);
    assert_eq!(engine.run(Done::Polled), Task::Frame);
    assert_eq!(engine.run(Done::Frame { failed: false }), Task::PostUpdate);
    assert_eq!(engine.run(Done::PostUpdate { failed: false }), Task::Poll);
    assert_eq!(engine.run(Done::Polled), Task::Frame);
    assert_eq!(engine.phase, Phase::Framing);
}

#[test]
fn close_event_stops_the_loop() {
    let mut engine = Engine::new();
    assert_eq!(engine.run(Done::Started), Task::Poll);
    assert_eq!(engine.dispatch(EventKind::InputDevice), Dispatch::Process);
    assert_eq!(engine.dispatch(EventKind::Application), Dispatch::Drop);
    assert_eq!(engine.dispatch(EventKind::Other), Dispatch::Drop);
    assert!(engine.alive);
    assert_eq!(engine.dispatch(EventKind::Closed), Dispatch::Stop);
    assert!(!engine.alive);
    assert_eq!(engine.run(Done::Polled), Task::Exit { failed: false });
    assert_eq!(engine.phase, Phase::Stopped);
    assert_eq!(engine.run(Done::Started), Task::Exit { failed: false });
}

#[test]
fn stop_lets_the_frame_finish() {
    let mut engine = Engine::new();
    engine.run(Done::Started);
    assert_eq!(engine.run(Done::Polled), Task::Frame);
    engine.stop();
    assert_eq!(engine.run(Done::Frame { failed: false }), Task::PostUpdate);
    assert_eq!(engine.run(Done::PostUpdate { failed: false }), Task::Exit { failed: false });
}

#[test]
fn failed_frame_aborts_the_loop() {
    let mut engine = Engine::new();
    engine.run(Done::Started);
    engine.run(Done::Polled);
    assert_eq!(engine.run(Done::Frame { failed: true }), Task::Exit { failed: true });
    assert_eq!(engine.phase, Phase::Stopped);
    assert!(engine.alive);
}

#[test]
fn failed_post_update_aborts_the_loop() {
    let mut engine = Engine::new();
    engine.run(Done::Started);
    engine.run(Done::Polled);
    engine.run(Done::Frame { failed: false });
    assert_eq!(engine.run(Done::PostUpdate { failed: true }), Task::Exit { failed: true });
}

#[test]
fn unexpected_report_aborts_the_loop() {
    let mut engine = Engine::new();
    assert_eq!(engine.run(Done::Polled), Task::Exit { failed: true });
    let mut other = Engine::new();
    other.run(Done::Started);
    assert_eq!(other.run(Done::Frame { failed: false }), Task::Exit { failed: true });
}

#[test]
fn stopped_engine_never_starts() {
    let mut engine = Engine::new();
    engine.stop();
    assert_eq!(engine.run(Done::Started), Task::Exit { failed: false });
}
