//! Time sources: where a driver's `now` comes from.
//!
//! A source reports nanoseconds since it was made. Whatever the clock
//! underneath does, what a source reports never goes back.

use vstd::prelude::*;

verus! {

/// Nanoseconds in a millisecond.
pub const NANOS_PER_MILLI: u64 = 1_000_000;

/// A point in time of the platform's monotonic clock. Nothing inside it is
/// visible here.
#[verifier::external_type_specification]
#[verifier::external_body]
pub struct ExInstant(instant::Instant);

/// Reads the platform's clock, by `instant::Instant::now`. Nothing is claimed
/// of what it returns.
#[verifier::external_body]
fn clock_reading() -> (reading: instant::Instant) {
    instant::Instant::now()
}

/// The time from `earlier` to `later`, by
/// `Instant::saturating_duration_since`, which returns for every pair of
/// instants: the span between them, or zero where `earlier` is the later of
/// the two. Nothing is claimed of what it returns.
#[verifier::external_body]
fn time_between(later: &instant::Instant, earlier: &instant::Instant) -> (span: instant::Duration) {
    later.saturating_duration_since(*earlier)
}

/// The whole nanoseconds in `span`, by `Duration::as_nanos`. Nothing is
/// claimed of what it returns.
#[verifier::external_body]
fn whole_nanos(span: &instant::Duration) -> (nanos: u128) {
    span.as_nanos()
}

/// What a source reports after it reported `latest` and its clock now reads
/// `raw`: the reading, capped to what fits, but never less than `latest`.
pub open spec fn reading_after(latest: u64, raw: u128) -> u64 {
    if raw > u64::MAX {
        u64::MAX
    } else if raw > latest {
        raw as u64
    } else {
        latest
    }
}

/// Computes `reading_after`.
pub fn next_reading(latest: u64, raw: u128) -> (reading: u64)
    ensures
        reading == reading_after(latest, raw),
        reading >= latest,
{
    if raw > u64::MAX as u128 {
        u64::MAX
    } else if raw > latest as u128 {
        raw as u64
    } else {
        latest
    }
}

/// A source of time for a driver.
pub trait TimeProvider {
    /// The last time this source reported; zero before the first.
    spec fn latest(&self) -> u64;

    /// The time now, in nanoseconds since the source was made: never less
    /// than what it reported before.
    fn now(&mut self) -> (time: u64)
        ensures
            time >= old(self).latest(),
            final(self).latest() == time,
    ;
}

/// A clock that counts from the moment it was set going.
struct Stopwatch {
    origin: instant::Instant,
    latest: u64,
}

impl Stopwatch {
    /// A watch set going now: it counts from what the clock reads at this
    /// moment, whatever that is, and has reported nothing yet.
    fn begin() -> (watch: Self)
        ensures
            watch.latest == 0,
    {
        Stopwatch::since(clock_reading())
    }

    /// A watch that counts from `origin` and has reported nothing yet.
    fn since(origin: instant::Instant) -> (watch: Self)
        ensures
            watch.origin == origin,
            watch.latest == 0,
    {
        Stopwatch { origin, latest: 0 }
    }

    /// The time on the watch now: never less than what it showed before. The
    /// watch goes on counting from the same origin.
    fn read(&mut self) -> (time: u64)
        ensures
            time >= old(self).latest,
            final(self).latest == time,
            final(self).origin == old(self).origin,
    {
        let reading = clock_reading();
        let span = time_between(&reading, &self.origin);
        let time = next_reading(self.latest, whole_nanos(&span));
        self.latest = time;
        time
    }
}

/// The time source of a native host.
pub struct DesktopTime {
    watch: Stopwatch,
}

impl DesktopTime {
    /// A source whose time begins now.
    pub fn new() -> (source: Self)
        ensures
            source.latest() == 0,
    {
        DesktopTime { watch: Stopwatch::begin() }
    }
}

impl TimeProvider for DesktopTime {
    closed spec fn latest(&self) -> u64 {
        self.watch.latest
    }

    fn now(&mut self) -> (time: u64) {
        self.watch.read()
    }
}

/// The time source of a browser host, whose timers count whole milliseconds.
pub struct WebTime {
    watch: Stopwatch,
}

/// The timeout, in milliseconds, that makes a browser timer wait for at least
/// `duration` nanoseconds: rounded up, and capped at the longest timeout there
/// is.
pub open spec fn timeout_for(duration: u64) -> int {
    let millis = (duration + NANOS_PER_MILLI - 1) / (NANOS_PER_MILLI as int);
    if millis > i32::MAX {
        i32::MAX as int
    } else {
        millis
    }
}

impl WebTime {
    /// A source whose time begins now.
    pub fn new() -> (source: Self)
        ensures
            source.latest() == 0,
    {
        WebTime { watch: Stopwatch::begin() }
    }

    /// The timeout to hand to the browser's timer for a delay of `duration`
    /// nanoseconds. Unless it is the longest timeout there is, the timer does
    /// not fire early, and waits less than a millisecond too long.
    pub fn timeout_millis(duration: u64) -> (millis: i32)
        ensures
            millis == timeout_for(duration),
            0 <= millis,
            millis < i32::MAX ==> millis * NANOS_PER_MILLI >= duration > (millis - 1)
                * NANOS_PER_MILLI,
    {
        let whole: u64 = duration / NANOS_PER_MILLI;
        let millis: u64 = if duration % NANOS_PER_MILLI == 0 {
            whole
        } else {
            whole + 1
        };
        if millis > i32::MAX as u64 {
            i32::MAX
        } else {
            millis as i32
        }
    }

    /// What is left to wait of a delay of `duration` nanoseconds once the
    /// timer set for it, with the timeout that `timeout_millis` gives, has
    /// fired. Nothing is left unless that timeout was capped, and then less
    /// than before: a delay is over after finitely many timers, and never
    /// sooner than asked.
    pub fn left_after(duration: u64) -> (left: u64)
        ensures
            left == left_of(duration),
            timeout_for(duration) < i32::MAX ==> left == 0,
            duration > 0 ==> left < duration,
    {
        let millis: i32 = Self::timeout_millis(duration);
        let waited: u64 = (millis as u64) * NANOS_PER_MILLI;
        if duration > waited {
            duration - waited
        } else {
            0
        }
    }
}

/// What is left of a delay of `duration` nanoseconds once a timer with the
/// timeout `timeout_for(duration)` has fired.
pub open spec fn left_of(duration: u64) -> int {
    if duration > timeout_for(duration) * NANOS_PER_MILLI {
        duration - timeout_for(duration) * NANOS_PER_MILLI
    } else {
        0
    }
}

impl TimeProvider for WebTime {
    closed spec fn latest(&self) -> u64 {
        self.watch.latest
    }

    fn now(&mut self) -> (time: u64) {
        self.watch.read()
    }
}

} // verus!
