//! The driver of one animated value: a state machine that is started, then
//! ticked with the time until its run has completed.
//!
//! The driver never waits and never reads a clock by itself. Whoever hosts it
//! feeds it the time and carries out what each tick reports: publish a value
//! and come back after `TICK_INTERVAL`, or publish the target and call the
//! completion callback.

use vstd::prelude::*;
use crate::easing::Easing;
use crate::motion::{fresh_id, Motion};
use crate::platform::TimeProvider;

verus! {

/// The nominal time between two samples of a run: 16 ms, in nanoseconds.
pub const TICK_INTERVAL: u64 = 16_000_000;

/// Where a driver stands in its life.
#[derive(Debug, Clone, Copy, PartialEq, Eq, Structural)]
pub enum AnimationState {
    /// Never started.
    Idle,
    /// In the middle of a run.
    Running,
    /// The last run has arrived at the target.
    Completed,
}

/// What one tick did, and what its host is to do about it.
#[derive(Debug, Clone, Copy, PartialEq)]
pub enum Step<V> {
    /// No run is under way: nothing changed, wait for the next start.
    Parked,
    /// The run goes on: `value` is the new current value, and the next tick is
    /// due after `wait` nanoseconds.
    Published { value: V, wait: u64 },
    /// The run has ended: `value` is the target, now the current value, and
    /// with `notify` the completion callback is to be called, once.
    Completed { value: V, notify: bool },
}

/// The time that has passed at `now` since `start`; none if `now` lies before
/// `start`.
pub open spec fn elapsed_since(start: u64, now: u64) -> u64 {
    if now >= start {
        (now - start) as u64
    } else {
        0
    }
}

/// A driver as a mathematical value.
pub struct Animation<V, E, C> {
    /// The identity of the driver.
    pub id: u128,
    /// The motion it was made for.
    pub config: Motion<V, E, C>,
    /// The current value.
    pub value: V,
    /// Where it stands in its life.
    pub state: AnimationState,
    /// When the last run began.
    pub start_time: u64,
    /// The value the last run began at.
    pub start_value: V,
}

impl<V, E: Easing<V>, C> Animation<V, E, C> {
    /// A driver that has never run rests on the initial value, and one whose
    /// run has completed rests on the target.
    pub open spec fn wf(self) -> bool {
        &&& self.state == AnimationState::Idle ==> self.value == self.config.initial
        &&& self.state == AnimationState::Completed ==> self.value == self.config.target
    }

    /// Whether the run under way is over at `now`.
    pub open spec fn due(self, now: u64) -> bool {
        elapsed_since(self.start_time, now) >= self.config.duration
    }

    /// The driver after a start at `now`: a run begins at the current value,
    /// unless one is under way already.
    pub open spec fn started(self, now: u64) -> Self {
        if self.state == AnimationState::Running {
            self
        } else {
            Animation {
                state: AnimationState::Running,
                start_time: now,
                start_value: self.value,
                ..self
            }
        }
    }

    /// The value a tick at `now` publishes while a run is under way.
    pub open spec fn sample(self, now: u64) -> V {
        if self.due(now) {
            self.config.target
        } else {
            self.config.easing.eased(
                elapsed_since(self.start_time, now),
                self.config.duration,
                self.start_value,
                self.config.target,
            )
        }
    }

    /// The driver after a tick at `now`.
    pub open spec fn ticked(self, now: u64) -> Self {
        if self.state != AnimationState::Running {
            self
        } else if self.due(now) {
            Animation { value: self.config.target, state: AnimationState::Completed, ..self }
        } else {
            Animation { value: self.sample(now), ..self }
        }
    }

    /// What a tick at `now` reports.
    pub open spec fn step(self, now: u64) -> Step<V> {
        if self.state != AnimationState::Running {
            Step::Parked
        } else if self.due(now) {
            Step::Completed { value: self.config.target, notify: self.config.on_complete is Some }
        } else {
            Step::Published { value: self.sample(now), wait: TICK_INTERVAL }
        }
    }
}

/// The handle of one animated value. It owns the current value and the state
/// of the run; its view is an `Animation`.
///
/// A handle is not `Clone`: a copy would animate on its own. A host that
/// hands one animation to several readers shares the handle itself.
pub struct UseMotion<V, E, C> {
    id: u128,
    value: V,
    state: AnimationState,
    config: Motion<V, E, C>,
    start_time: u64,
    start_value: V,
}

impl<V, E, C> View for UseMotion<V, E, C> {
    type V = Animation<V, E, C>;

    closed spec fn view(&self) -> Animation<V, E, C> {
        Animation {
            id: self.id,
            config: self.config,
            value: self.value,
            state: self.state,
            start_time: self.start_time,
            start_value: self.start_value,
        }
    }
}

/// A driver for `config`: idle, resting on the initial value, with an
/// identity of its own.
pub fn use_motion<V: Copy, E: Easing<V>, C>(config: Motion<V, E, C>) -> (handle: UseMotion<V, E, C>)
    ensures
        handle@.config == config,
        handle@.value == config.initial,
        handle@.state == AnimationState::Idle,
        handle@.start_time == 0,
        handle@.start_value == config.initial,
        handle@.wf(),
{
    let initial = config.initial;
    UseMotion {
        id: fresh_id(),
        value: initial,
        state: AnimationState::Idle,
        config,
        start_time: 0,
        start_value: initial,
    }
}

impl<V: Copy, E: Easing<V>, C> UseMotion<V, E, C> {
    /// The current value.
    pub fn value(&self) -> (value: V)
        ensures
            value == self@.value,
    {
        self.value
    }

    /// Where the driver stands in its life.
    pub fn state(&self) -> (state: AnimationState)
        ensures
            state == self@.state,
    {
        self.state
    }

    /// The identity of this driver.
    pub fn id(&self) -> (id: u128)
        ensures
            id == self@.id,
    {
        self.id
    }

    /// The motion this driver was made for.
    pub fn config(&self) -> (config: &Motion<V, E, C>)
        ensures
            *config == self@.config,
    {
        &self.config
    }

    /// Asks for a run, at time `now`.
    ///
    /// Unless a run is under way, one begins: from the current value, timed
    /// from `now`. The result says whether it did, that is whether the host is
    /// to wake its tick loop. While a run is under way the call changes
    /// nothing.
    pub fn start(&mut self, now: u64) -> (triggered: bool)
        ensures
            final(self)@ == old(self)@.started(now),
            triggered == (old(self)@.state != AnimationState::Running),
            old(self)@.wf() ==> final(self)@.wf(),
    {
        match self.state {
            AnimationState::Running => false,
            _ => {
                self.state = AnimationState::Running;
                self.start_time = now;
                self.start_value = self.value;
                true
            },
        }
    }

    /// Advances the run to time `now`.
    ///
    /// With no run under way nothing changes. A run whose time is up ends: the
    /// target becomes the current value and the driver is `Completed`.
    /// Otherwise the curve is sampled and the sample becomes the current
    /// value.
    pub fn tick(&mut self, now: u64) -> (step: Step<V>)
        ensures
            final(self)@ == old(self)@.ticked(now),
            step == old(self)@.step(now),
            old(self)@.wf() ==> final(self)@.wf(),
    {
        match self.state {
            AnimationState::Running => {
                let elapsed: u64 = if now >= self.start_time {
                    now - self.start_time
                } else {
                    0
                };
                if elapsed >= self.config.duration {
                    let target = self.config.target;
                    self.value = target;
                    self.state = AnimationState::Completed;
                    Step::Completed { value: target, notify: self.config.on_complete.is_some() }
                } else {
                    let value = self.config.easing.ease(
                        elapsed,
                        self.config.duration,
                        self.start_value,
                        self.config.target,
                    );
                    self.value = value;
                    Step::Published { value, wait: TICK_INTERVAL }
                }
            },
            _ => Step::Parked,
        }
    }

    /// Asks for a run at the time that `clock` reports: `start` with that
    /// time, which is then the latest that the clock has reported.
    pub fn start_now<T: TimeProvider>(&mut self, clock: &mut T) -> (triggered: bool)
        ensures
            final(clock).latest() >= old(clock).latest(),
            final(self)@ == old(self)@.started(final(clock).latest()),
            triggered == (old(self)@.state != AnimationState::Running),
            old(self)@.wf() ==> final(self)@.wf(),
    {
        let now = clock.now();
        self.start(now)
    }

    /// Advances the run to the time that `clock` reports: `tick` with that
    /// time, which is then the latest that the clock has reported.
    pub fn tick_now<T: TimeProvider>(&mut self, clock: &mut T) -> (step: Step<V>)
        ensures
            final(clock).latest() >= old(clock).latest(),
            final(self)@ == old(self)@.ticked(final(clock).latest()),
            step == old(self)@.step(final(clock).latest()),
            old(self)@.wf() ==> final(self)@.wf(),
    {
        let now = clock.now();
        self.tick(now)
    }
}

} // verus!
