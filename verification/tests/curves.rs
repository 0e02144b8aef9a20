use easer::functions::Easing as EaserCurve;
use motion::{use_motion, AnimationState, Easing, Linear, Motion, Step, TICK_INTERVAL};
use std::time::Duration;

#[test]
fn linear_at_the_start_is_the_start() {
    assert_eq!(Linear.ease(0, 10, 5, 25), 5);
    assert_eq!(Linear.ease(0, 10, 25, 5), 25);
}

#[test]
fn linear_covers_the_span_in_proportion() {
    assert_eq!(Linear.ease(1, 4, 2, 14), 5);
    assert_eq!(Linear.ease(2, 4, 2, 14), 8);
    assert_eq!(Linear.ease(3, 4, 2, 14), 11);
    assert_eq!(Linear.ease(3, 4, 14, 2), 5);
}

#[test]
fn linear_rounds_towards_the_start() {
    assert_eq!(Linear.ease(1, 3, 0, 10), 3);
    assert_eq!(Linear.ease(2, 3, 0, 10), 6);
    assert_eq!(Linear.ease(1, 3, 10, 0), 7);
    assert_eq!(Linear.ease(2, 3, 10, 0), 4);
    assert_eq!(Linear.ease(1, 3, 0, -10), -3);
    assert_eq!(Linear.ease(2, 3, -10, 0), -4);
}

#[test]
fn linear_between_equal_ends_stands_still() {
    assert_eq!(Linear.ease(7, 9, 4, 4), 4);
}

#[test]
fn linear_spans_the_whole_range_of_values() {
    assert_eq!(Linear.ease(1, 2, i64::MIN, i64::MAX), -1);
    assert_eq!(Linear.ease(1, 2, i64::MAX, i64::MIN), 0);
    assert_eq!(Linear.ease(u64::MAX - 1, u64::MAX, i64::MIN, i64::MAX), i64::MAX - 1);
    assert_eq!(Linear.ease(u64::MAX - 1, u64::MAX, i64::MAX, i64::MIN), i64::MIN + 1);
    assert_eq!(Linear.ease(0, u64::MAX, i64::MIN, i64::MAX), i64::MIN);
}

/// The straight line over floats, as `easer` draws it.
#[derive(Debug, Clone, Copy)]
struct FloatLinear;

impl Easing<f32> for FloatLinear {
    fn eased(&self, elapsed: u64, total: u64, start: f32, end: f32) -> f32 {
        let progress =
            Duration::from_nanos(elapsed).as_secs_f32() / Duration::from_nanos(total).as_secs_f32();
        easer::functions::Linear::ease_in_out(progress, start, end - start, 1.0)
    }

    fn ease(&self, elapsed: u64, total: u64, start: f32, end: f32) -> f32 {
        self.eased(elapsed, total, start, end)
    }
}

const MS: u64 = 1_000_000;

#[test]
fn floats_halfway_read_about_fifty() {
    let m = Motion::new(0.0f32).to(100.0).duration(1000 * MS).easing(FloatLinear);
    let mut h = use_motion(m);
    assert!(h.start(0));
    match h.tick(500 * MS) {
        Step::Published { value, wait } => {
            assert!((value - 50.0).abs() < 0.001);
            assert_eq!(wait, TICK_INTERVAL);
        }
        other => panic!("expected a sample, got {:?}", other),
    }
    assert!((h.value() - 50.0).abs() < 0.001);
    assert_eq!(h.tick(1000 * MS), Step::Completed { value: 100.0, notify: false });
    assert_eq!(h.value(), 100.0);
    assert_eq!(h.state(), AnimationState::Completed);
    assert_eq!(h.tick(1016 * MS), Step::Parked);
    assert_eq!(h.value(), 100.0);
}

#[test]
fn floats_approach_the_target() {
    let m = Motion::new(100.0f32).to(0.0).duration(600 * MS).easing(FloatLinear);
    let mut h = use_motion(m);
    h.start(0);
    let mut now = 0;
    let mut last = h.value();
    loop {
        match h.tick(now) {
            Step::Published { value, wait } => {
                assert!(value <= last);
                last = value;
                now += wait;
            }
            Step::Completed { value, .. } => {
                assert_eq!(value, 0.0);
                break;
            }
            Step::Parked => panic!("a run was under way"),
        }
    }
    assert_eq!(h.value(), 0.0);
}

/// A curve that overshoots: the driver still ends on the target.
#[derive(Debug, Clone, Copy)]
struct Overshoot;

impl Easing<i64> for Overshoot {
    fn eased(&self, _elapsed: u64, _total: u64, _start: i64, end: i64) -> i64 {
        end + 1000
    }

    fn ease(&self, elapsed: u64, total: u64, start: i64, end: i64) -> i64 {
        self.eased(elapsed, total, start, end)
    }
}

#[test]
fn the_last_value_is_the_target_whatever_the_curve_does() {
    let mut h = use_motion(Motion::new(0i64).to(10).duration(100).easing(Overshoot));
    h.start(0);
    assert_eq!(h.tick(99), Step::Published { value: 1010, wait: TICK_INTERVAL });
    assert_eq!(h.tick(100), Step::Completed { value: 10, notify: false });
    assert_eq!(h.value(), 10);
}

/// A curve that records what it was asked.
#[derive(Debug, Clone, Copy)]
struct Echo;

impl Easing<(u64, u64, i64, i64)> for Echo {
    fn eased(
        &self,
        elapsed: u64,
        total: u64,
        start: (u64, u64, i64, i64),
        end: (u64, u64, i64, i64),
    ) -> (u64, u64, i64, i64) {
        (elapsed, total, start.2, end.3)
    }

    fn ease(
        &self,
        elapsed: u64,
        total: u64,
        start: (u64, u64, i64, i64),
        end: (u64, u64, i64, i64),
    ) -> (u64, u64, i64, i64) {
        self.eased(elapsed, total, start, end)
    }
}

#[test]
fn the_curve_is_asked_with_the_elapsed_time_and_the_run_s_ends() {
    let m = Motion::new((0, 0, 5, 0)).to((0, 0, 0, 9)).duration(40).easing(Echo);
    let mut h = use_motion(m);
    h.start(100);
    assert_eq!(h.tick(130), Step::Published { value: (30, 40, 5, 9), wait: TICK_INTERVAL });
    // the run began at the value of the start, and stays timed from it
    assert_eq!(h.tick(139), Step::Published { value: (39, 40, 5, 9), wait: TICK_INTERVAL });
    assert_eq!(h.tick(140), Step::Completed { value: (0, 0, 0, 9), notify: false });
}
