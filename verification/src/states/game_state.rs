use vstd::prelude::*;

verus! {

/// The screens of the game. One of them is active at any time.
#[derive(Clone, Copy, Debug, PartialEq, Eq, Structural)]
pub enum GameState {
    Menu,
    Dead,
    Battling,
    Upgrading,
    Tutorial,
}

} // verus!
