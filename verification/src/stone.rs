//! The two players.

use vstd::prelude::*;

verus! {

/// Owner of a stone on the board, and of a turn.
#[derive(Clone, Copy, Debug, PartialEq, Eq, Hash, Structural)]
pub enum Stone {
    Black,
    White,
}

impl Stone {
    /// The other player.
    pub open spec fn spec_opposite(self) -> Stone {
        match self {
            Stone::Black => Stone::White,
            Stone::White => Stone::Black,
        }
    }

    /// The other player.
    #[verifier::when_used_as_spec(spec_opposite)]
    pub fn opposite(self) -> (other: Stone)
        ensures
            other == self.spec_opposite(),
    {
        match self {
            Stone::Black => Stone::White,
            Stone::White => Stone::Black,
        }
    }
}

/// Taking the opposite twice gives the player back.
pub proof fn law_opposite_involution(stone: Stone)
    ensures
        stone.opposite().opposite() == stone,
        stone.opposite() != stone,
{
}

} // verus!
