//! The player and the gun that follows it.

pub mod gun;
pub mod player;
