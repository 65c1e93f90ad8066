//! The rally lifecycle: start signals, the ball in play, the hit markers of
//! the two paddles and the score they feed.

use vstd::prelude::*;
use crate::ball::{Ball, Hit};
use crate::scoreboard::{max_score, Scoreboard};

verus! {

/// The two paddles of the arena, in the order in which a frame visits them.
#[derive(Clone, Copy, PartialEq, Eq, Debug)]
pub enum PaddleId {
    Outer,
    Inner,
}

/// Whether a ball is in play.
#[derive(Clone, Copy, PartialEq, Eq, Debug)]
pub enum RallyState {
    Idle,
    Playing,
}

/// Everything that can happen to a rally.
#[derive(Debug, PartialEq)]
pub enum Step<D> {
    /// A start signal. The ball that is spawned travels along `mvt_dir`.
    Start { mvt_dir: D },
    /// A new frame begins.
    BeginFrame,
    /// The ball hit `paddle` and leaves it along `new_dir`.
    Collision { paddle: PaddleId, new_dir: D },
    /// The hit markers of the frame are counted into the score.
    Score,
}

/// The whole discrete state of the game.
#[derive(Debug, PartialEq)]
pub struct Rally<D> {
    pub scoreboard: Scoreboard,
    /// The ball in play, if any. There is never more than one.
    pub ball: Option<Ball<D>>,
    /// Marker of a hit on the outer paddle in the current frame.
    pub outer_hit: Option<Hit<D>>,
    /// Marker of a hit on the inner paddle in the current frame.
    pub inner_hit: Option<Hit<D>>,
}

impl<D> Rally<D> {
    /// A ball in play has a valid speed tier, and only a ball in play leaves
    /// hit markers.
    pub open spec fn wf(self) -> bool {
        &&& self.ball matches Some(ball) ==> ball.wf()
        &&& (self.outer_hit is Some || self.inner_hit is Some) ==> self.ball is Some
    }

    pub open spec fn spec_state(&self) -> RallyState {
        if self.ball is Some {
            RallyState::Playing
        } else {
            RallyState::Idle
        }
    }

    pub open spec fn spec_marker(&self, paddle: PaddleId) -> Option<Hit<D>> {
        match paddle {
            PaddleId::Outer => self.outer_hit,
            PaddleId::Inner => self.inner_hit,
        }
    }

    /// Number of paddles that carry a hit marker.
    pub open spec fn spec_hit_markers(&self) -> nat {
        let outer: nat = if self.outer_hit is Some { 1 } else { 0 };
        let inner: nat = if self.inner_hit is Some { 1 } else { 0 };
        outer + inner
    }

    /// The rally after a start signal.
    pub open spec fn started(self, mvt_dir: D) -> Self {
        Rally {
            scoreboard: Scoreboard {
                score: 0,
                best: max_score(self.scoreboard.best, self.scoreboard.score),
            },
            ball: Some(Ball { mvt_dir, velocity_indicator: 0 }),
            outer_hit: self.outer_hit,
            inner_hit: self.inner_hit,
        }
    }

    /// The rally at the beginning of a frame: no paddle carries a marker.
    pub open spec fn cleared(self) -> Self {
        Rally {
            scoreboard: self.scoreboard,
            ball: self.ball,
            outer_hit: None,
            inner_hit: None,
        }
    }

    /// The rally after the ball in play hit `paddle`.
    pub open spec fn collided(self, paddle: PaddleId, new_dir: D) -> Self
        recommends
            self.ball is Some,
    {
        let ball = self.ball->0;
        let hit = Some(Hit { direction: ball.mvt_dir });
        Rally {
            scoreboard: self.scoreboard,
            ball: Some(
                Ball {
                    mvt_dir: new_dir,
                    velocity_indicator: (ball.velocity_indicator + 1) as i32,
                },
            ),
            outer_hit: if paddle == PaddleId::Outer {
                hit
            } else {
                self.outer_hit
            },
            inner_hit: if paddle == PaddleId::Inner {
                hit
            } else {
                self.inner_hit
            },
        }
    }

    /// The rally after its hit markers were counted.
    pub open spec fn scored(self) -> Self {
        Rally {
            scoreboard: Scoreboard {
                score: (self.scoreboard.score + self.spec_hit_markers()) as usize,
                best: self.scoreboard.best,
            },
            ball: self.ball,
            outer_hit: self.outer_hit,
            inner_hit: self.inner_hit,
        }
    }

    /// The rally after a whole frame: the markers are cleared, the ball
    /// meets the outer paddle if `outer` holds the direction it leaves it
    /// along, then the inner paddle if `inner` does, and the markers are
    /// counted.
    pub open spec fn framed(self, outer: Option<D>, inner: Option<D>) -> Self {
        let opened = self.cleared();
        let past_outer = match outer {
            Some(new_dir) => opened.collided(PaddleId::Outer, new_dir),
            None => opened,
        };
        let past_inner = match inner {
            Some(new_dir) => past_outer.collided(PaddleId::Inner, new_dir),
            None => past_outer,
        };
        past_inner.scored()
    }

    /// A rally before the first start signal.
    pub fn new() -> (rally: Self)
        ensures
            rally.scoreboard.score == 0,
            rally.scoreboard.best == 0,
            rally.ball is None,
            rally.outer_hit is None,
            rally.inner_hit is None,
            rally.wf(),
    {
        Rally { scoreboard: Scoreboard::new(), ball: None, outer_hit: None, inner_hit: None }
    }

    #[verifier::when_used_as_spec(spec_state)]
    pub fn state(&self) -> (state: RallyState)
        ensures
            state == self.spec_state(),
    {
        if self.ball.is_some() {
            RallyState::Playing
        } else {
            RallyState::Idle
        }
    }

    /// Handles a start signal: the best score takes in the score so far, the
    /// score returns to zero, and the ball in play, if any, gives way to a
    /// new one at speed tier zero that travels along `mvt_dir`.
    pub fn start(&mut self, mvt_dir: D)
        ensures
            *final(self) == old(self).started(mvt_dir),
            final(self).state() == RallyState::Playing,
            old(self).wf() ==> final(self).wf(),
    {
        self.scoreboard.start();
        self.ball = Some(Ball::spawn(mvt_dir));
    }

    /// Opens a frame by clearing the markers left by the last one.
    pub fn begin_frame(&mut self)
        ensures
            *final(self) == old(self).cleared(),
            old(self).wf() ==> final(self).wf(),
    {
        self.outer_hit = None;
        self.inner_hit = None;
    }

    /// Records that the ball in play hit `paddle`: the ball takes the
    /// reflected direction `new_dir` and climbs one speed tier, and the paddle
    /// gets a marker that carries the direction the ball came along.
    pub fn collide(&mut self, paddle: PaddleId, new_dir: D)
        requires
            old(self).ball is Some,
            old(self).ball->0.velocity_indicator < i32::MAX,
        ensures
            *final(self) == old(self).collided(paddle, new_dir),
            final(self).ball->0.velocity_indicator == old(self).ball->0.velocity_indicator + 1,
            old(self).wf() ==> final(self).wf(),
    {
        let mut ball = self.ball.take().unwrap();
        let hit = ball.bounce(new_dir);
        self.ball = Some(ball);
        match paddle {
            PaddleId::Outer => {
                self.outer_hit = Some(hit);
            },
            PaddleId::Inner => {
                self.inner_hit = Some(hit);
            },
        }
    }

    /// The marker that `paddle` carries in the current frame, if any.
    pub fn marker(&self, paddle: PaddleId) -> (marker: &Option<Hit<D>>)
        ensures
            *marker == self.spec_marker(paddle),
    {
        match paddle {
            PaddleId::Outer => &self.outer_hit,
            PaddleId::Inner => &self.inner_hit,
        }
    }

    /// Number of paddles that carry a hit marker in the current frame.
    pub fn hit_markers(&self) -> (count: usize)
        ensures
            count == self.spec_hit_markers(),
            count <= 2,
    {
        let outer: usize = if self.outer_hit.is_some() { 1 } else { 0 };
        let inner: usize = if self.inner_hit.is_some() { 1 } else { 0 };
        outer + inner
    }

    /// Counts every hit marker of the current frame into the score.
    pub fn hit_as_score(&mut self)
        requires
            old(self).scoreboard.score + old(self).spec_hit_markers() <= usize::MAX,
        ensures
            *final(self) == old(self).scored(),
            final(self).scoreboard.score == old(self).scoreboard.score + old(self).spec_hit_markers(),
            old(self).wf() ==> final(self).wf(),
    {
        let hits = self.hit_markers();
        self.scoreboard.add_hits(hits);
    }

    /// Whether `step` can be taken from this rally: a collision needs a ball
    /// in play, and neither the speed tier nor the score may leave its type.
    pub open spec fn admits(self, step: Step<D>) -> bool {
        match step {
            Step::Start { .. } => true,
            Step::BeginFrame => true,
            Step::Collision { .. } => self.ball matches Some(ball) && ball.velocity_indicator
                < i32::MAX,
            Step::Score => self.scoreboard.score + self.spec_hit_markers() <= usize::MAX,
        }
    }

    /// The rally after `step`.
    pub open spec fn after(self, step: Step<D>) -> Self {
        match step {
            Step::Start { mvt_dir } => self.started(mvt_dir),
            Step::BeginFrame => self.cleared(),
            Step::Collision { paddle, new_dir } => self.collided(paddle, new_dir),
            Step::Score => self.scored(),
        }
    }

    /// Whether `steps` can be taken one after the other from this rally.
    pub open spec fn admits_all(self, steps: Seq<Step<D>>) -> bool
        decreases steps.len(),
    {
        steps.len() > 0 ==> {
            &&& self.admits_all(steps.drop_last())
            &&& self.after_all(steps.drop_last()).admits(steps.last())
        }
    }

    /// The rally after `steps`, taken one after the other.
    pub open spec fn after_all(self, steps: Seq<Step<D>>) -> Self
        decreases steps.len(),
    {
        if steps.len() == 0 {
            self
        } else {
            self.after_all(steps.drop_last()).after(steps.last())
        }
    }

    /// Takes one step.
    pub fn apply(&mut self, step: Step<D>)
        requires
            old(self).admits(step),
        ensures
            *final(self) == old(self).after(step),
            old(self).wf() ==> final(self).wf(),
    {
        match step {
            Step::Start { mvt_dir } => self.start(mvt_dir),
            Step::BeginFrame => self.begin_frame(),
            Step::Collision { paddle, new_dir } => self.collide(paddle, new_dir),
            Step::Score => self.hit_as_score(),
        }
    }
}

} // verus!
