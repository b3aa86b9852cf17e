use vstd::prelude::*;

verus! {

/// A resource used to pay for cards & abilities.
#[derive(Debug, Copy, Clone, PartialEq, Eq, PartialOrd, Ord, Hash, Structural)]
pub struct Energy(pub u32);

/// Represents the 'power' of characters; the primary way in which players earn
/// victory points.
#[derive(Debug, Copy, Clone, PartialEq, Eq, PartialOrd, Ord, Hash, Structural)]
pub struct Spark(pub u32);

/// Victory points. Enable the player to win the game.
#[derive(Debug, Copy, Clone, PartialEq, Eq, PartialOrd, Ord, Hash, Structural)]
pub struct Points(pub u32);

} // verus!
