use crate::ability_data::predicate::Predicate;
use crate::core_data::numerics::Energy;
use vstd::prelude::*;

verus! {

/// Any action a player must take in order to play a card or activate an
/// ability, such as paying energy.
#[derive(Debug, PartialEq, Eq)]
pub enum Cost {
    /// Nothing is to be paid. This is a cost of its own, not the absence
    /// of one.
    NoCost,
    Energy(Energy),
    BanishCardsFromYourVoid(u64),
    BanishAllCardsFromYourVoid,
    /// Abandon the given number of characters matching the predicate.
    AbandonCharacters(Predicate, u64),
    DiscardHand,
}

impl Clone for Cost {
    /// A copy of the cost, equal to it.
    fn clone(&self) -> (copy: Self)
        ensures
            copy == *self,
    {
        match self {
            Cost::NoCost => Cost::NoCost,
            Cost::Energy(a) => Cost::Energy(*a),
            Cost::BanishCardsFromYourVoid(a) => Cost::BanishCardsFromYourVoid(*a),
            Cost::BanishAllCardsFromYourVoid => Cost::BanishAllCardsFromYourVoid,
            Cost::AbandonCharacters(a, b) => Cost::AbandonCharacters(a.clone(), *b),
            Cost::DiscardHand => Cost::DiscardHand,
        }
    }
}

} // verus!
