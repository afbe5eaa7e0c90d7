//! Simulation core of a small arcade game: a player dodges and shoots
//! spawning enemies, earns money for kills and spends it on upgrades.
//!
//! The library is a pure state machine. Once per frame the caller hands it
//! what the platform reports (elapsed time, screen size, pointer and keys);
//! the library updates its state and answers with the list of things to draw
//! and to play. Lengths are whole sub-pixel units, times whole microseconds.

pub mod math;

pub mod platform;
pub mod random;
pub mod states;
pub mod tier;
pub mod objects;
pub mod battling;
pub mod upgrading;
pub mod game;
