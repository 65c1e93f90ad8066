//! The ball's travel direction and speed tier.

use vstd::prelude::*;

verus! {

/// Speed of a freshly spawned ball, in world units per second.
pub const BASE_VELOCITY: i64 = 410;

/// Speed gained with every confirmed paddle hit.
pub const VELOCITY_STEP: i64 = 10;

/// Speed of a ball whose speed tier is `tier`.
pub open spec fn velocity_at(tier: int) -> int {
    BASE_VELOCITY + VELOCITY_STEP * tier
}

/// Transient marker left on a paddle by a collision. It carries the
/// direction in which the ball travelled before it was reflected.
#[derive(Debug, PartialEq)]
pub struct Hit<D> {
    pub direction: D,
}

/// The ball in play. The direction type `D` is the caller's: directions are
/// stored and handed on, never computed with.
#[derive(Debug, PartialEq)]
pub struct Ball<D> {
    pub mvt_dir: D,
    pub velocity_indicator: i32,
}

impl<D> Ball<D> {
    /// The speed tier is never negative.
    pub open spec fn wf(self) -> bool {
        self.velocity_indicator >= 0
    }

    /// A new ball travelling along `mvt_dir` at speed tier zero.
    pub fn spawn(mvt_dir: D) -> (ball: Self)
        ensures
            ball.mvt_dir == mvt_dir,
            ball.velocity_indicator == 0,
            ball.wf(),
    {
        Ball { mvt_dir, velocity_indicator: 0 }
    }

    /// Current speed in world units per second.
    pub fn velocity(&self) -> (v: i64)
        ensures
            v == velocity_at(self.velocity_indicator as int),
    {
        let tier: i64 = self.velocity_indicator as i64;
        BASE_VELOCITY + VELOCITY_STEP * tier
    }

    /// Applies a confirmed paddle hit: the ball takes the reflected direction
    /// `new_dir` and climbs one speed tier. The marker handed back carries the
    /// direction the ball had before the hit.
    pub fn bounce(&mut self, new_dir: D) -> (hit: Hit<D>)
        requires
            old(self).velocity_indicator < i32::MAX,
        ensures
            final(self).mvt_dir == new_dir,
            final(self).velocity_indicator == old(self).velocity_indicator + 1,
            hit.direction == old(self).mvt_dir,
            old(self).wf() ==> final(self).wf(),
    {
        let mut direction = new_dir;
        core::mem::swap(&mut self.mvt_dir, &mut direction);
        self.velocity_indicator = self.velocity_indicator + 1;
        Hit { direction }
    }
}

} // verus!
