//! The widgets that the screens are made of.

pub mod bullets;
pub mod button;
pub mod money;
pub mod text;
