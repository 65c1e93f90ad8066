//! What holds of every rally, whatever steps it takes.

use vstd::prelude::*;
use crate::ball::{velocity_at, VELOCITY_STEP};
use crate::rally::{PaddleId, Rally, Step};
use crate::scoreboard::max_score;

verus! {

/// Whether a start signal is among `steps`.
pub open spec fn has_start<D>(steps: Seq<Step<D>>) -> bool {
    exists|i: int| 0 <= i < steps.len() && #[trigger] steps[i] is Start
}

/// Number of collisions in `steps` that come after its last start signal;
/// all of its collisions, if it holds no start signal.
pub open spec fn collisions_since_start<D>(steps: Seq<Step<D>>) -> nat
    decreases steps.len(),
{
    if steps.len() == 0 {
        0
    } else {
        match steps.last() {
            Step::Start { .. } => 0,
            Step::Collision { .. } => 1 + collisions_since_start(steps.drop_last()),
            _ => collisions_since_start(steps.drop_last()),
        }
    }
}

/// Whether `steps` holds a collision with `paddle`.
pub open spec fn hits_paddle<D>(steps: Seq<Step<D>>, paddle: PaddleId) -> bool {
    exists|i: int|
        0 <= i < steps.len() && (#[trigger] steps[i] matches Step::Collision { paddle: p, .. }
            && p == paddle)
}

/// Whether every one of `steps` is a collision.
pub open spec fn only_collisions<D>(steps: Seq<Step<D>>) -> bool {
    forall|i: int| 0 <= i < steps.len() ==> #[trigger] steps[i] is Collision
}

/// One step moves the speed tier in two ways only: a collision raises it by
/// exactly one, and a start signal returns it to zero. Every other step
/// leaves the ball as it is.
pub proof fn tier_moves_by_collision_or_start<D>(rally: Rally<D>, step: Step<D>)
    requires
        rally.admits(step),
    ensures
        step is Collision ==> rally.after(step).ball->0.velocity_indicator
            == rally.ball->0.velocity_indicator + 1,
        step is Start ==> rally.after(step).ball->0.velocity_indicator == 0,
        !(step is Collision) && !(step is Start) ==> rally.after(step).ball == rally.ball,
{
}

/// Once a ball is in play, a ball stays in play: no step ends a rally
/// without starting the next.
pub proof fn playing_stays_playing<D>(rally: Rally<D>, steps: Seq<Step<D>>)
    requires
        rally.ball is Some,
    ensures
        rally.after_all(steps).ball is Some,
    decreases steps.len(),
{
    if steps.len() > 0 {
        playing_stays_playing(rally, steps.drop_last());
    }
}

/// The speed tier counts the collisions of the rally in progress. After any
/// steps that hold a start signal, the tier is the number of collisions
/// since the last one. After steps that hold none, the tier has grown by the
/// number of collisions, so it never falls within a rally, and the speed has
/// grown by one speed step for each of them.
pub proof fn tier_counts_collisions<D>(rally: Rally<D>, steps: Seq<Step<D>>)
    requires
        rally.admits_all(steps),
    ensures
        has_start(steps) ==> {
            &&& rally.after_all(steps).ball is Some
            &&& rally.after_all(steps).ball->0.velocity_indicator == collisions_since_start(
                steps,
            )
        },
        !has_start(steps) && rally.ball is Some ==> {
            &&& rally.after_all(steps).ball is Some
            &&& rally.after_all(steps).ball->0.velocity_indicator
                == rally.ball->0.velocity_indicator + collisions_since_start(steps)
            &&& velocity_at(rally.after_all(steps).ball->0.velocity_indicator as int)
                == velocity_at(rally.ball->0.velocity_indicator as int) + VELOCITY_STEP
                * collisions_since_start(steps)
        },
        !has_start(steps) && rally.ball is None ==> rally.after_all(steps).ball is None,
    decreases steps.len(),
{
    if steps.len() > 0 {
        let prefix = steps.drop_last();
        tier_counts_collisions(rally, prefix);
        if steps.last() is Start {
            assert(steps[steps.len() - 1] is Start);
        } else {
            if has_start(prefix) {
                let i = choose|i: int| 0 <= i < prefix.len() && #[trigger] prefix[i] is Start;
                assert(steps[i] is Start);
            }
            if has_start(steps) {
                let i = choose|i: int| 0 <= i < steps.len() && #[trigger] steps[i] is Start;
                assert(prefix[i] is Start);
            }
        }
    }
}

/// The best score never falls, and a start signal raises it to the score
/// of the rally that ends, if that is higher.
pub proof fn best_never_falls<D>(rally: Rally<D>, steps: Seq<Step<D>>)
    ensures
        rally.after_all(steps).scoreboard.best >= rally.scoreboard.best,
        steps.len() > 0 && steps.last() is Start ==> rally.after_all(steps).scoreboard.best
            == max_score(
            rally.after_all(steps.drop_last()).scoreboard.best,
            rally.after_all(steps.drop_last()).scoreboard.score,
        ),
    decreases steps.len(),
{
    if steps.len() > 0 {
        best_never_falls(rally, steps.drop_last());
    }
}

/// In a frame that holds collisions only, a paddle carries a marker at the
/// end exactly if the ball hit it.
pub proof fn markers_follow_collisions<D>(
    rally: Rally<D>,
    collisions: Seq<Step<D>>,
    paddle: PaddleId,
)
    requires
        only_collisions(collisions),
    ensures
        rally.cleared().after_all(collisions).spec_marker(paddle) is Some <==> hits_paddle(
            collisions,
            paddle,
        ),
    decreases collisions.len(),
{
    if collisions.len() > 0 {
        let prefix = collisions.drop_last();
        assert(only_collisions(prefix)) by {
            assert forall|i: int| 0 <= i < prefix.len() implies #[trigger] prefix[i]
                is Collision by {
                assert(collisions[i] is Collision);
            }
        }
        markers_follow_collisions(rally, prefix, paddle);
        assert(collisions[collisions.len() - 1] is Collision);
        if hits_paddle(prefix, paddle) {
            let i = choose|i: int|
                0 <= i < prefix.len() && (#[trigger] prefix[i] matches Step::Collision {
                    paddle: p,
                    ..
                } && p == paddle);
            assert(collisions[i] == prefix[i]);
        }
        if hits_paddle(collisions, paddle) {
            let i = choose|i: int|
                0 <= i < collisions.len() && (#[trigger] collisions[i] matches Step::Collision {
                    paddle: p,
                    ..
                } && p == paddle);
            if i < prefix.len() {
                assert(prefix[i] == collisions[i]);
            }
        }
    }
}

/// A frame scores one point for each paddle that the ball hit in it: after
/// the markers are cleared, the collisions taken and the markers counted,
/// the score has grown by the number of paddles hit.
pub proof fn frame_scores_paddles_hit<D>(rally: Rally<D>, collisions: Seq<Step<D>>)
    requires
        only_collisions(collisions),
        rally.scoreboard.score + 2 <= usize::MAX,
    ensures
        rally.cleared().after_all(collisions).scored().scoreboard.score
            == rally.scoreboard.score + (if hits_paddle(collisions, PaddleId::Outer) {
            1int
        } else {
            0int
        }) + (if hits_paddle(collisions, PaddleId::Inner) {
            1int
        } else {
            0int
        }),
{
    markers_follow_collisions(rally, collisions, PaddleId::Outer);
    markers_follow_collisions(rally, collisions, PaddleId::Inner);
    score_unchanged_by_collisions(rally.cleared(), collisions);
}

/// Collisions leave the scoreboard as it is: points come only when the
/// markers are counted.
pub proof fn score_unchanged_by_collisions<D>(rally: Rally<D>, collisions: Seq<Step<D>>)
    requires
        only_collisions(collisions),
    ensures
        rally.after_all(collisions).scoreboard == rally.scoreboard,
    decreases collisions.len(),
{
    if collisions.len() > 0 {
        let prefix = collisions.drop_last();
        assert(only_collisions(prefix)) by {
            assert forall|i: int| 0 <= i < prefix.len() implies #[trigger] prefix[i]
                is Collision by {
                assert(collisions[i] is Collision);
            }
        }
        score_unchanged_by_collisions(rally, prefix);
        assert(collisions[collisions.len() - 1] is Collision);
    }
}

/// The rally after `frames`, each given by the directions in which the ball
/// left the outer and the inner paddle, where it met them.
pub open spec fn played<D>(rally: Rally<D>, frames: Seq<(Option<D>, Option<D>)>) -> Rally<D>
    decreases frames.len(),
{
    if frames.len() == 0 {
        rally
    } else {
        played(rally, frames.drop_last()).framed(frames.last().0, frames.last().1)
    }
}

/// Score and speed tier grow together: over whole frames of one rally, in
/// each of which the ball meets a paddle at most once, the score grows by
/// as much as the speed tier, and that is at most two a frame.
pub proof fn score_grows_with_tier<D>(rally: Rally<D>, frames: Seq<(Option<D>, Option<D>)>)
    requires
        rally.ball is Some,
        rally.ball->0.velocity_indicator + 2 * frames.len() <= i32::MAX,
        rally.scoreboard.score + 2 * frames.len() <= usize::MAX,
    ensures
        played(rally, frames).ball is Some,
        played(rally, frames).scoreboard.score - rally.scoreboard.score == played(
            rally,
            frames,
        ).ball->0.velocity_indicator - rally.ball->0.velocity_indicator,
        0 <= played(rally, frames).scoreboard.score - rally.scoreboard.score <= 2 * frames.len(),
        played(rally, frames).scoreboard.best == rally.scoreboard.best,
    decreases frames.len(),
{
    if frames.len() > 0 {
        score_grows_with_tier(rally, frames.drop_last());
    }
}

} // verus!
