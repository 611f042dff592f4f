//! The player and the tracks it plays.

pub mod next_track;
pub mod player;
pub mod track;
