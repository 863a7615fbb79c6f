//! The match: its arena and bodies, its players and score, and the steps that
//! one tick of the simulation is made of.

pub mod arena;
pub mod event;
pub mod physics;
pub mod player;
pub mod random;
pub mod resource;
pub mod state;
pub mod system;
pub mod world;
