//! Skeleton animations. The per-frame skeleton math is floating point and
//! lives with the rendering layer; the markers here identify the animations.

use vstd::prelude::*;

verus! {

/// The quadruped tail-whip attack animation.
#[derive(Clone, Copy, Debug, PartialEq, Eq, Structural)]
pub struct TailwhipAnimation;

} // verus!
