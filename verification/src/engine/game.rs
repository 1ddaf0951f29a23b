//! What a piece of the scene can be told.

use vstd::prelude::*;

verus! {

/// The way a piece moves.
#[derive(Debug, Clone, Copy, PartialEq, Eq, Structural)]
pub enum Direction {
    Right,
    Left,
    Up,
    Down,
}

/// What happened to a piece.
#[derive(Debug, Clone, Copy, PartialEq, Eq, Structural)]
pub enum Event {
    Move,
    Collision,
}

} // verus!
