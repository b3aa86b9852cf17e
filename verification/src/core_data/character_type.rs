use vstd::prelude::*;

verus! {

/// Represents possible subtypes of 'character' cards.
#[derive(Debug, Copy, Clone, PartialEq, Eq, Hash, Structural)]
pub enum CharacterType {
    Warrior,
    Survivor,
    SpiritAnimal,
}

} // verus!
