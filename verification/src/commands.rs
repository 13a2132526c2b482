//! What the program can be asked to do.

pub mod achievements;
pub mod merge;
