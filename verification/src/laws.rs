//! What holds of every driver, whatever it is fed.

use vstd::prelude::*;
use crate::driver::{elapsed_since, Animation, AnimationState, Step};
use crate::easing::{approaches_target, distance, stays_between, within, Easing};

verus! {

/// Something that happens to a driver.
pub enum Event {
    /// A start is asked for at time `now`.
    Start { now: u64 },
    /// A tick at time `now`.
    Tick { now: u64 },
}

/// The driver after `event`.
pub open spec fn after_event<V, E: Easing<V>, C>(a: Animation<V, E, C>, event: Event) -> Animation<
    V,
    E,
    C,
> {
    match event {
        Event::Start { now } => a.started(now),
        Event::Tick { now } => a.ticked(now),
    }
}

/// Whether `event` begins a run of `a`.
pub open spec fn begins_run<V, E: Easing<V>, C>(a: Animation<V, E, C>, event: Event) -> bool {
    event is Start && a.state != AnimationState::Running
}

/// Whether `event` ends a run of `a`.
pub open spec fn ends_run<V, E: Easing<V>, C>(a: Animation<V, E, C>, event: Event) -> bool {
    match event {
        Event::Start { now } => false,
        Event::Tick { now } => a.step(now) is Completed,
    }
}

/// Whether `event` has the completion callback of `a` called.
pub open spec fn notifies<V, E: Easing<V>, C>(a: Animation<V, E, C>, event: Event) -> bool {
    match event {
        Event::Start { now } => false,
        Event::Tick { now } => a.step(now) matches Step::Completed { notify, .. } && notify,
    }
}

/// The driver after all of `events`, in order.
pub open spec fn after_all<V, E: Easing<V>, C>(a: Animation<V, E, C>, events: Seq<Event>) -> Animation<
    V,
    E,
    C,
>
    decreases events.len(),
{
    if events.len() == 0 {
        a
    } else {
        after_event(after_all(a, events.drop_last()), events.last())
    }
}

/// How many runs begin while `events` happen to `a`.
pub open spec fn runs_begun<V, E: Easing<V>, C>(a: Animation<V, E, C>, events: Seq<Event>) -> nat
    decreases events.len(),
{
    if events.len() == 0 {
        0
    } else {
        let before = after_all(a, events.drop_last());
        runs_begun(a, events.drop_last()) + if begins_run(before, events.last()) {
            1nat
        } else {
            0nat
        }
    }
}

/// How many runs end while `events` happen to `a`.
pub open spec fn runs_ended<V, E: Easing<V>, C>(a: Animation<V, E, C>, events: Seq<Event>) -> nat
    decreases events.len(),
{
    if events.len() == 0 {
        0
    } else {
        let before = after_all(a, events.drop_last());
        runs_ended(a, events.drop_last()) + if ends_run(before, events.last()) {
            1nat
        } else {
            0nat
        }
    }
}

/// How often the completion callback is called while `events` happen to `a`.
pub open spec fn notifications<V, E: Easing<V>, C>(a: Animation<V, E, C>, events: Seq<Event>) -> nat
    decreases events.len(),
{
    if events.len() == 0 {
        0
    } else {
        let before = after_all(a, events.drop_last());
        notifications(a, events.drop_last()) + if notifies(before, events.last()) {
            1nat
        } else {
            0nat
        }
    }
}

/// One if a run of `a` is under way, else zero.
pub open spec fn under_way<V, E: Easing<V>, C>(a: Animation<V, E, C>) -> nat {
    if a.state == AnimationState::Running {
        1
    } else {
        0
    }
}

/// No event touches the motion a driver was made for, nor its identity, and
/// every event keeps a driver well-formed.
pub proof fn events_keep_motion<V, E: Easing<V>, C>(a: Animation<V, E, C>, events: Seq<Event>)
    ensures
        after_all(a, events).config == a.config,
        after_all(a, events).id == a.id,
        a.wf() ==> after_all(a, events).wf(),
    decreases events.len(),
{
    if events.len() > 0 {
        events_keep_motion(a, events.drop_last());
    }
}

/// Monotonic progress. Within one run, along a curve that never moves away
/// from the target, a later tick never publishes a value further from the
/// target than an earlier tick did; and a tick that finds the run's time up
/// publishes the target itself and completes the run.
pub proof fn progress_is_monotonic<E: Easing<i64>, C>(
    a: Animation<i64, E, C>,
    earlier: u64,
    later: u64,
)
    requires
        a.state == AnimationState::Running,
        earlier <= later,
        approaches_target(a.config.easing),
    ensures
        distance(a.config.target as int, a.ticked(earlier).ticked(later).value as int) <= distance(
            a.config.target as int,
            a.ticked(earlier).value as int,
        ),
        a.due(later) ==> a.ticked(earlier).ticked(later).value == a.config.target,
        a.due(later) ==> a.ticked(earlier).ticked(later).state == AnimationState::Completed,
{
    let first = a.ticked(earlier);
    let target = a.config.target;
    let total = a.config.duration;
    if !a.due(earlier) && !a.due(later) {
        let e1 = elapsed_since(a.start_time, earlier);
        let e2 = elapsed_since(a.start_time, later);
        assert(e1 <= e2 < total);
        assert(first.ticked(later).value == a.config.easing.eased(e2, total, a.start_value, target));
        assert(first.value == a.config.easing.eased(e1, total, a.start_value, target));
    }
}

/// While a run is under way along a curve that stays between its ends, the
/// current value lies between the value the run began at and the target;
/// once the run has completed it is the target.
pub proof fn value_stays_in_range<E: Easing<i64>, C>(a: Animation<i64, E, C>, now: u64)
    requires
        a.state == AnimationState::Running,
        stays_between(a.config.easing),
    ensures
        within(a.start_value as int, a.config.target as int, a.ticked(now).value as int),
        a.ticked(now).state == AnimationState::Completed ==> a.ticked(now).value
            == a.config.target,
{
}

/// Whether the current value of `a`, and the value its run began at while one
/// is under way, lie between the motion's initial value and its target.
pub open spec fn in_range<E: Easing<i64>, C>(a: Animation<i64, E, C>) -> bool {
    &&& within(a.config.initial as int, a.config.target as int, a.value as int)
    &&& a.state == AnimationState::Running ==> within(
        a.config.initial as int,
        a.config.target as int,
        a.start_value as int,
    )
}

/// Along a curve that stays between its ends, the current value never leaves
/// the range from the motion's initial value to its target, whatever happens
/// to the driver; and whenever the driver is `Completed`, the current value is
/// the target exactly.
pub proof fn value_never_leaves_range<E: Easing<i64>, C>(
    a: Animation<i64, E, C>,
    events: Seq<Event>,
)
    requires
        a.wf(),
        in_range(a),
        stays_between(a.config.easing),
    ensures
        in_range(after_all(a, events)),
        after_all(a, events).state == AnimationState::Completed ==> after_all(a, events).value
            == a.config.target,
    decreases events.len(),
{
    events_keep_motion(a, events);
    if events.len() > 0 {
        value_never_leaves_range(a, events.drop_last());
        events_keep_motion(a, events.drop_last());
    }
}

/// Idempotent start. A start while a run is under way changes nothing: the
/// run keeps the time and the value it began with, and no second run begins.
pub proof fn start_is_idempotent<V, E: Easing<V>, C>(a: Animation<V, E, C>, first: u64, second: u64)
    ensures
        a.started(first).started(second) == a.started(first),
        !begins_run(a.started(first), Event::Start { now: second }),
        a.state == AnimationState::Running ==> a.started(first) == a,
{
}

/// Restart from the current value. A start after a completed run begins the
/// next run at the value the driver rests on, which is the target of the run
/// before, and not at the motion's initial value: until its time is up, each
/// tick publishes what the curve gives from there.
pub proof fn restart_begins_at_current_value<V, E: Easing<V>, C>(
    a: Animation<V, E, C>,
    start: u64,
    now: u64,
)
    requires
        a.wf(),
        a.state == AnimationState::Completed,
    ensures
        a.started(start).state == AnimationState::Running,
        a.started(start).start_time == start,
        a.started(start).start_value == a.value,
        a.started(start).start_value == a.config.target,
        a.started(start).value == a.value,
        !a.started(start).due(now) ==> a.started(start).ticked(now).value
            == a.config.easing.eased(
            elapsed_since(start, now),
            a.config.duration,
            a.config.target,
            a.config.target,
        ),
{
}

/// Zero duration. A motion that takes no time completes on the first tick
/// after its start, whatever the two times are: that tick publishes the
/// target, reports the completion, and asks for the callback if there is one.
pub proof fn zero_duration_completes_at_once<V, E: Easing<V>, C>(
    a: Animation<V, E, C>,
    start: u64,
    now: u64,
)
    requires
        a.config.duration == 0,
        a.state != AnimationState::Running,
    ensures
        a.started(start).state == AnimationState::Running,
        a.started(start).ticked(now).state == AnimationState::Completed,
        a.started(start).ticked(now).value == a.config.target,
        a.started(start).step(now) == (Step::Completed {
            value: a.config.target,
            notify: a.config.on_complete is Some,
        }),
{
}

/// A tick publishes the target exactly when it ends the run, and then the
/// driver is parked: until the next start, no tick reports anything.
pub proof fn completion_parks_the_driver<V, E: Easing<V>, C>(
    a: Animation<V, E, C>,
    now: u64,
    next: u64,
)
    requires
        a.step(now) is Completed,
    ensures
        a.state == AnimationState::Running,
        a.ticked(now).state == AnimationState::Completed,
        a.ticked(now).value == a.config.target,
        a.ticked(now).step(next) == Step::<V>::Parked,
        a.ticked(now).ticked(next) == a.ticked(now),
{
}

/// Callback once. Over any course of events, every run that began has ended
/// exactly once or is still under way; so no run ends twice, and a start that
/// begins no run ends none. The callback is called once for each run that
/// ended if the motion has one, and never if it has none.
pub proof fn each_run_completes_once<V, E: Easing<V>, C>(a: Animation<V, E, C>, events: Seq<Event>)
    ensures
        runs_ended(a, events) + under_way(after_all(a, events)) == runs_begun(a, events)
            + under_way(a),
        a.config.on_complete is Some ==> notifications(a, events) == runs_ended(a, events),
        a.config.on_complete is None ==> notifications(a, events) == 0,
    decreases events.len(),
{
    if events.len() > 0 {
        each_run_completes_once(a, events.drop_last());
        events_keep_motion(a, events.drop_last());
    }
}

/// An event, and which of two drivers it happens to.
pub enum Addressed {
    /// The event happens to the first driver.
    First { event: Event },
    /// The event happens to the second driver.
    Second { event: Event },
}

/// Two drivers after all of `events`, each event applied to the driver it is
/// addressed to.
pub open spec fn after_both<V, E: Easing<V>, C, W, F: Easing<W>, D>(
    a: Animation<V, E, C>,
    b: Animation<W, F, D>,
    events: Seq<Addressed>,
) -> (Animation<V, E, C>, Animation<W, F, D>)
    decreases events.len(),
{
    if events.len() == 0 {
        (a, b)
    } else {
        let before = after_both(a, b, events.drop_last());
        match events.last() {
            Addressed::First { event } => (after_event(before.0, event), before.1),
            Addressed::Second { event } => (before.0, after_event(before.1, event)),
        }
    }
}

/// The events among `events` that are addressed to the first driver, in
/// order.
pub open spec fn to_first(events: Seq<Addressed>) -> Seq<Event>
    decreases events.len(),
{
    if events.len() == 0 {
        Seq::empty()
    } else {
        match events.last() {
            Addressed::First { event } => to_first(events.drop_last()).push(event),
            Addressed::Second { event } => to_first(events.drop_last()),
        }
    }
}

/// The events among `events` that are addressed to the second driver, in
/// order.
pub open spec fn to_second(events: Seq<Addressed>) -> Seq<Event>
    decreases events.len(),
{
    if events.len() == 0 {
        Seq::empty()
    } else {
        match events.last() {
            Addressed::First { event } => to_second(events.drop_last()),
            Addressed::Second { event } => to_second(events.drop_last()).push(event),
        }
    }
}

/// Isolation. However the events of two drivers are interleaved, each driver
/// ends where its own events alone would have taken it: neither sees what
/// happens to the other.
pub proof fn drivers_are_isolated<V, E: Easing<V>, C, W, F: Easing<W>, D>(
    a: Animation<V, E, C>,
    b: Animation<W, F, D>,
    events: Seq<Addressed>,
)
    ensures
        after_both(a, b, events).0 == after_all(a, to_first(events)),
        after_both(a, b, events).1 == after_all(b, to_second(events)),
    decreases events.len(),
{
    if events.len() > 0 {
        drivers_are_isolated(a, b, events.drop_last());
        match events.last() {
            Addressed::First { event } => {
                let own = to_first(events.drop_last());
                assert(own.push(event).drop_last() =~= own);
                assert(own.push(event).last() == event);
            },
            Addressed::Second { event } => {
                let own = to_second(events.drop_last());
                assert(own.push(event).drop_last() =~= own);
                assert(own.push(event).last() == event);
            },
        }
    }
}

} // verus!
