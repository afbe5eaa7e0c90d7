//! What moves on the battlefield.

pub mod bullet;
pub mod enemy;
pub mod player;
