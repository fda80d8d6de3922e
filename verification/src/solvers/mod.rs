//! Puzzles that are solved by watching frames.

pub mod shape;
pub mod violetta;
