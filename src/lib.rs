//! A two-dimensional bouncing-ball demo: a ball that reflects off the window
//! edges and off a player-controlled paddle pinned near the left edge.
//!
//! All coordinates are fixed-point integers in tenths of a pixel, with the
//! origin at the centre of the window and `y` growing upwards.

pub mod geometry;
pub mod bar;
pub mod ball;
pub mod game;
