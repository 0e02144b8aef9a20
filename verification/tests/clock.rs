use motion::platform::next_reading;
use motion::{use_motion, AnimationState, DesktopTime, Motion, Step, TimeProvider, WebTime, TICK_INTERVAL};

#[test]
fn a_reading_never_goes_back() {
    assert_eq!(next_reading(0, 0), 0);
    assert_eq!(next_reading(0, 15), 15);
    assert_eq!(next_reading(20, 15), 20);
    assert_eq!(next_reading(20, 20), 20);
    assert_eq!(next_reading(20, 21), 21);
}

#[test]
fn a_reading_is_capped_to_what_fits() {
    assert_eq!(next_reading(3, u64::MAX as u128), u64::MAX);
    assert_eq!(next_reading(3, u64::MAX as u128 + 1), u64::MAX);
    assert_eq!(next_reading(u64::MAX, 4), u64::MAX);
    assert_eq!(next_reading(3, u128::MAX), u64::MAX);
}

#[test]
fn the_desktop_clock_does_not_go_back() {
    let mut clock = DesktopTime::new();
    let mut last = 0;
    for _ in 0..1000 {
        let now = clock.now();
        assert!(now >= last);
        last = now;
    }
}

#[test]
fn the_desktop_clock_advances() {
    let mut clock = DesktopTime::new();
    let first = clock.now();
    let mut now = first;
    let mut reads = 0u64;
    while now == first && reads < 50_000_000 {
        now = clock.now();
        reads += 1;
    }
    assert!(now > first);
}

#[test]
fn the_web_clock_does_not_go_back() {
    let mut clock = WebTime::new();
    let mut last = 0;
    for _ in 0..1000 {
        let now = clock.now();
        assert!(now >= last);
        last = now;
    }
}

#[test]
fn browser_timeouts_are_whole_milliseconds_rounded_up() {
    assert_eq!(WebTime::timeout_millis(0), 0);
    assert_eq!(WebTime::timeout_millis(1), 1);
    assert_eq!(WebTime::timeout_millis(999_999), 1);
    assert_eq!(WebTime::timeout_millis(1_000_000), 1);
    assert_eq!(WebTime::timeout_millis(1_000_001), 2);
    assert_eq!(WebTime::timeout_millis(TICK_INTERVAL), 16);
    assert_eq!(WebTime::timeout_millis(TICK_INTERVAL + 1), 17);
}

#[test]
fn browser_timeouts_are_capped() {
    assert_eq!(WebTime::timeout_millis(2_147_483_646_000_000), 2_147_483_646);
    assert_eq!(WebTime::timeout_millis(2_147_483_646_000_001), i32::MAX);
    assert_eq!(WebTime::timeout_millis(2_147_483_647_000_000), i32::MAX);
    assert_eq!(WebTime::timeout_millis(2_147_483_648_000_000), i32::MAX);
    assert_eq!(WebTime::timeout_millis(u64::MAX), i32::MAX);
}

/// A clock that is set by hand.
struct Hand {
    readings: Vec<u64>,
    next: usize,
    last: u64,
}

impl Hand {
    fn new(readings: Vec<u64>) -> Self {
        Hand { readings, next: 0, last: 0 }
    }
}

impl TimeProvider for Hand {
    fn latest(&self) -> u64 {
        self.last
    }

    fn now(&mut self) -> u64 {
        let raw = self.readings[self.next];
        self.next += 1;
        self.last = next_reading(self.last, raw as u128);
        self.last
    }
}

const MS: u64 = 1_000_000;

#[test]
fn a_run_on_an_injected_clock() {
    let mut clock = Hand::new(vec![100 * MS, 100 * MS, 350 * MS, 600 * MS, 1100 * MS, 1200 * MS]);
    let mut h = use_motion(Motion::new(0i64).to(100).duration(1000 * MS));
    assert!(h.start_now(&mut clock));
    assert_eq!(h.tick_now(&mut clock), Step::Published { value: 0, wait: TICK_INTERVAL });
    assert_eq!(h.tick_now(&mut clock), Step::Published { value: 25, wait: TICK_INTERVAL });
    assert_eq!(h.tick_now(&mut clock), Step::Published { value: 50, wait: TICK_INTERVAL });
    assert_eq!(h.tick_now(&mut clock), Step::Completed { value: 100, notify: false });
    assert_eq!(h.state(), AnimationState::Completed);
    assert_eq!(h.tick_now(&mut clock), Step::Parked);
    assert_eq!(clock.latest(), 1200 * MS);
}

#[test]
fn a_start_on_a_clock_while_running_changes_nothing() {
    let mut clock = Hand::new(vec![0, 400 * MS, 500 * MS]);
    let mut h = use_motion(Motion::new(0i64).to(100).duration(1000 * MS));
    assert!(h.start_now(&mut clock));
    assert!(!h.start_now(&mut clock));
    assert_eq!(h.tick_now(&mut clock), Step::Published { value: 50, wait: TICK_INTERVAL });
}

#[test]
fn a_run_on_the_desktop_clock_completes() {
    let mut clock = DesktopTime::new();
    let mut h = use_motion(Motion::new(0i64).to(1000).duration(2 * MS));
    assert!(h.start_now(&mut clock));
    let mut last = 0;
    let mut ticks = 0u64;
    loop {
        match h.tick_now(&mut clock) {
            Step::Published { value, .. } => {
                assert!(value >= last && value <= 1000);
                last = value;
            }
            Step::Completed { value, notify } => {
                assert_eq!(value, 1000);
                assert!(!notify);
                break;
            }
            Step::Parked => panic!("a run was under way"),
        }
        ticks += 1;
        assert!(ticks < 500_000_000);
    }
    assert!(clock.now() >= 2 * MS);
    assert_eq!(h.value(), 1000);
}

#[test]
fn nothing_is_left_of_a_delay_that_one_timeout_holds() {
    assert_eq!(WebTime::left_after(0), 0);
    assert_eq!(WebTime::left_after(1), 0);
    assert_eq!(WebTime::left_after(TICK_INTERVAL), 0);
    assert_eq!(WebTime::left_after(16_000_001), 0);
    assert_eq!(WebTime::left_after(2_147_483_646_000_000), 0);
    assert_eq!(WebTime::left_after(2_147_483_647_000_000), 0);
}

#[test]
fn a_capped_timeout_leaves_the_rest_of_the_delay() {
    assert_eq!(WebTime::left_after(2_147_483_647_000_001), 1);
    assert_eq!(WebTime::left_after(u64::MAX), u64::MAX - 2_147_483_647_000_000);
}

#[test]
fn a_long_delay_is_over_after_finitely_many_timeouts() {
    let mut left = 5_000_000_000_000_000u64;
    let mut waited_millis = 0u64;
    let mut timers = 0;
    while left > 0 {
        waited_millis += WebTime::timeout_millis(left) as u64;
        left = WebTime::left_after(left);
        timers += 1;
    }
    assert_eq!(timers, 3);
    assert_eq!(waited_millis, 5_000_000_000);
}
