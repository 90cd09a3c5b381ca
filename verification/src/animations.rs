//! Animation repetition modes and the names of the easing curves.
use vstd::prelude::*;

verus! {

/// What an animation does once its duration has passed.
#[derive(Copy, Clone, Debug, PartialEq, Eq, Structural)]
pub enum AnimationRepeat {
    Once,
    Loop,
    PingPong,
}

/// `t`
pub struct Linear;

/// `t * t`
pub struct Quadratic;

/// `t * t * t`
pub struct Cubic;

/// `-t * (t - 2)`
pub struct EaseOutQuadratic;

/// `t * t`
pub struct EaseInQuadratic;

/// `2 t t` for `t < 1/2`, else `-1 + (4 - 2 t) t`
pub struct EaseInOutQuadratic;

} // verus!
