use vstd::prelude::*;

verus! {

/// Identifies one of the two players of a battle.
#[derive(Debug, Copy, Clone, PartialEq, Eq, PartialOrd, Ord, Hash, Structural)]
pub enum PlayerName {
    /// The player who operates the client.
    User,
    /// The opponent of the user.
    Enemy,
}

/// Whether the face of a card can be seen.
#[derive(Debug, Copy, Clone, PartialEq, Eq, Hash, Structural)]
pub enum CardFacing {
    FaceDown,
    FaceUp,
}

} // verus!
