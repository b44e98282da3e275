//! Simulation core of a fixed-tick, terminal-rendered survival game.
//!
//! The library owns the deterministic part of the game: the world of
//! entities and scheduled actions, the tick pacing arithmetic, the input
//! translation and the run-until-quit state machine.  Rendering, terminal
//! input, configuration parsing and persistence are collaborators that live
//! outside the library and exchange plain values with it.
//!
//! Time is measured in whole milliseconds of simulation time.  Resource
//! gauges are measured in millionths of a gauge unit, so that depletion is
//! exact integer arithmetic.

pub mod actions;
pub mod clock;
pub mod config;
pub mod controller;
pub mod input;
pub mod entity;
pub mod errors;
pub mod world;
