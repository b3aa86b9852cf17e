use crate::ability_data::predicate::Predicate;
use vstd::prelude::*;

verus! {

/// Something that must hold for an effect to happen or for an alternate
/// way of playing a card to be open.
#[derive(Debug, PartialEq, Eq)]
pub enum Condition {
    CardsDiscardedThisTurn { count: u64 },
    CardsDrawnThisTurn { count: u64 },
    CardsInVoidCount { count: u64 },
    DissolvedThisTurn { predicate: Predicate },
    /// At least `count` objects match `predicate`.
    PredicateCount { count: u64, predicate: Predicate },
    ThisCharacterIsInYourVoid,
}

impl Clone for Condition {
    /// A copy of the condition, equal to it.
    fn clone(&self) -> (copy: Self)
        ensures
            copy == *self,
    {
        match self {
            Condition::CardsDiscardedThisTurn { count } => {
                Condition::CardsDiscardedThisTurn { count: *count }
            },
            Condition::CardsDrawnThisTurn { count } => {
                Condition::CardsDrawnThisTurn { count: *count }
            },
            Condition::CardsInVoidCount { count } => Condition::CardsInVoidCount { count: *count },
            Condition::DissolvedThisTurn { predicate } => {
                Condition::DissolvedThisTurn { predicate: predicate.clone() }
            },
            Condition::PredicateCount { count, predicate } => {
                Condition::PredicateCount { count: *count, predicate: predicate.clone() }
            },
            Condition::ThisCharacterIsInYourVoid => Condition::ThisCharacterIsInYourVoid,
        }
    }
}

} // verus!
