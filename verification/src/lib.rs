//! A two-player ball-and-paddle arcade game, without the screen: the arena,
//! the physics of the ball, paddle control for humans and for the computer
//! opponent, the scoring of points and the state machine that decides which
//! of these run.
//!
//! The simulation is deterministic integer arithmetic. Lengths are counted in
//! thousandths of a world unit, speeds in thousandths of a world unit per
//! second, time in microseconds (see [`fixed`]). Every source of chance is a
//! parameter of the function that uses it; the functions that draw the
//! numbers themselves are thin companions of those.

pub mod fixed;
pub mod game;
pub mod gamepad;
pub mod math;
pub mod settings;
pub mod ui;
