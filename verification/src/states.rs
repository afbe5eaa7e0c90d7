//! The screens of the game, and the name of each.

pub mod battling;
pub mod dead;
pub mod game_state;
pub mod menu;
pub mod tutorial;
pub mod upgrading;
