//! Decision logic of a game bot: operation cycles, player state machines, object tracking,
//! service event handling and the editing rules of its control panel.
//!
//! Everything here works on plain values. Reading frames, sending input, talking to channels and
//! drawing happen outside; they hand their answers in and carry out the commands handed back.

pub mod clock;
pub mod debug;
pub mod geometry;
pub mod models;
pub mod operation;
pub mod panel;
pub mod player;
pub mod resources;
pub mod services;
pub mod solvers;
pub mod text;
