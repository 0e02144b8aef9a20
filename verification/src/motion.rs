//! The description of one motion: where a value begins, where it is to end,
//! how long that takes, along which curve, and what to call on arrival.

use vstd::prelude::*;
use crate::easing::Linear;

verus! {

/// The run time of a motion that was given none: 300 ms, in nanoseconds.
pub const DEFAULT_DURATION: u64 = 300_000_000;

/// Draws a random identity.
///
/// Calls `uuid::Uuid::new_v4`, which asks the operating system for random
/// bits, and hands the result on as a number (`Uuid::as_u128`). Nothing is
/// claimed of the number that comes back.
#[verifier::external_body]
pub(crate) fn fresh_id() -> (id: u128) {
    uuid::Uuid::new_v4().as_u128()
}

/// A motion of a value of type `V` along a curve of type `E`, with a
/// completion callback of type `C`.
///
/// Times are in nanoseconds. A motion is a plain value: it is built once, by
/// chained calls, and a driver keeps its own copy.
#[derive(Debug, Clone, Copy)]
pub struct Motion<V, E, C> {
    /// A random identity, drawn when the motion was made. Copies share it.
    pub id: u128,
    /// The value before the first run.
    pub initial: V,
    /// The value every run ends on.
    pub target: V,
    /// How long a run takes. Zero is allowed: such a run completes on its
    /// first tick.
    pub duration: u64,
    /// The curve between the two.
    pub easing: E,
    /// What the owner wants called when a run has completed, if anything.
    pub on_complete: Option<C>,
}

impl<V: Copy> Motion<V, Linear, ()> {
    /// A motion that rests at `initial`: its target is `initial` too, it takes
    /// `DEFAULT_DURATION` along the straight line, and nothing is called on
    /// completion.
    pub fn new(initial: V) -> (motion: Self)
        ensures
            motion.initial == initial,
            motion.target == initial,
            motion.duration == DEFAULT_DURATION,
            motion.easing == Linear,
            motion.on_complete is None,
    {
        Motion {
            id: fresh_id(),
            initial,
            target: initial,
            duration: DEFAULT_DURATION,
            easing: Linear,
            on_complete: None,
        }
    }
}

impl<V, E, C> Motion<V, E, C> {
    /// The same motion, heading for `target`.
    pub fn to(self, target: V) -> (motion: Self)
        ensures
            motion == (Motion { target, ..self }),
    {
        let mut motion = self;
        motion.target = target;
        motion
    }

    /// Another name for `to`.
    pub fn animate(self, target: V) -> (motion: Self)
        ensures
            motion == (Motion { target, ..self }),
    {
        self.to(target)
    }

    /// The same motion, taking `duration` nanoseconds.
    pub fn duration(self, duration: u64) -> (motion: Self)
        ensures
            motion == (Motion { duration, ..self }),
    {
        let mut motion = self;
        motion.duration = duration;
        motion
    }

    /// The same motion along another curve.
    pub fn easing<E2>(self, easing: E2) -> (motion: Motion<V, E2, C>)
        ensures
            motion == (Motion {
                id: self.id,
                initial: self.initial,
                target: self.target,
                duration: self.duration,
                easing,
                on_complete: self.on_complete,
            }),
    {
        Motion {
            id: self.id,
            initial: self.initial,
            target: self.target,
            duration: self.duration,
            easing,
            on_complete: self.on_complete,
        }
    }

    /// The same motion, with `f` to be called when a run has completed.
    pub fn on_complete<C2>(self, f: C2) -> (motion: Motion<V, E, C2>)
        ensures
            motion == (Motion {
                id: self.id,
                initial: self.initial,
                target: self.target,
                duration: self.duration,
                easing: self.easing,
                on_complete: Some(f),
            }),
    {
        Motion {
            id: self.id,
            initial: self.initial,
            target: self.target,
            duration: self.duration,
            easing: self.easing,
            on_complete: Some(f),
        }
    }
}

} // verus!
