//! A verified driver for one animated value: it travels from where it stands
//! to a target over a set time, along an easing curve, and its owner is told
//! when it has arrived.

pub mod driver;
pub mod easing;
pub mod laws;
pub mod motion;
pub mod platform;

pub use driver::{use_motion, Animation, AnimationState, Step, UseMotion, TICK_INTERVAL};
pub use easing::{Easing, Linear};
pub use motion::{Motion, DEFAULT_DURATION};
pub use platform::{DesktopTime, TimeProvider, WebTime};
