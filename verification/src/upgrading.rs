//! What the upgrade screen sells.

pub mod bullet_button;
pub mod character;
