//! The two hands of a player.

use vstd::prelude::*;

verus! {

/// Selects one of a player's two hands.
#[derive(Clone, Copy, Debug, PartialEq, Eq, Structural)]
pub enum Hand {
    Left,
    Right,
}

} // verus!
