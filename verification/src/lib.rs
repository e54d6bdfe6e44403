//! A day meter for the terminal: where the current time of day falls on a bar
//! as wide as the screen, which markers and labels stand around it, how each
//! cell is styled, and how key presses edit the two times of the schedule.
//!
//! Everything here works on plain values. Reading the clock, the keyboard and
//! the configuration file, and drawing the composed frame, are left to the
//! program that uses this library.

pub mod clock;
pub mod compositor;
pub mod config;
pub mod markers;
pub mod placement;
pub mod render;
pub mod state;
pub mod text;
pub mod theme;
pub mod timeline;
