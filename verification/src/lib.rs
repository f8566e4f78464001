//! Fixed-point mini-golf simulation: aiming, ball flight, wall bounces and the
//! level state machine, with every function verified against its contract.
//!
//! Lengths, speeds and durations are integers that count 1024ths of a world
//! unit or of a second (see [`units`]). Each type of the simulation has a
//! mathematical model over unbounded integers, its view, and the contracts
//! are stated over those models.

pub mod aiming;
pub mod collision;
pub mod components;
pub mod game;
pub mod levels;
pub mod maps;
pub mod physics;
pub mod swings_count;
pub mod tuning;
pub mod ui;
pub mod units;
pub mod vector;
