//! Discrete core of a circular-arena paddle game: the speed tier of the
//! ball, the scoreboard and the rally lifecycle.

pub mod ball;
pub mod laws;
pub mod rally;
pub mod scoreboard;
