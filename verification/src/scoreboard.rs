//! Score of the rally in progress and the best score seen so far.

use vstd::prelude::*;

verus! {

/// Points of the rally in progress, and the most that any rally has reached
/// by the time it was restarted.
#[derive(Debug, PartialEq, Eq)]
pub struct Scoreboard {
    pub score: usize,
    pub best: usize,
}

/// The larger of two scores.
pub open spec fn max_score(a: usize, b: usize) -> usize {
    if a >= b {
        a
    } else {
        b
    }
}

impl Scoreboard {
    /// A scoreboard on which nothing has been scored.
    pub fn new() -> (board: Self)
        ensures
            board.score == 0,
            board.best == 0,
    {
        Scoreboard { score: 0, best: 0 }
    }

    /// A start signal: the best score takes in the rally that ends, and the
    /// score of the new rally starts from zero.
    pub fn start(&mut self)
        ensures
            final(self).best == max_score(old(self).best, old(self).score),
            final(self).score == 0,
    {
        if self.score > self.best {
            self.best = self.score;
        }
        self.score = 0;
    }

    /// Counts `hits` hit markers into the score of the rally in progress.
    pub fn add_hits(&mut self, hits: usize)
        requires
            old(self).score + hits <= usize::MAX,
        ensures
            final(self).score == old(self).score + hits,
            final(self).best == old(self).best,
    {
        self.score = self.score + hits;
    }
}

} // verus!
