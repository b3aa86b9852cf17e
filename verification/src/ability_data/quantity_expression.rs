use crate::ability_data::predicate::{CardPredicate, Predicate};
use vstd::prelude::*;

verus! {

/// Describes a quantity that an effect is repeated or scaled by, as in
/// "draw a card for each character you control".
#[derive(Debug, PartialEq, Eq)]
pub enum QuantityExpression {
    /// The number of objects matching the predicate.
    Matching(Predicate),
    AbandonedThisTurn(CardPredicate),
    AbandonedThisWay(CardPredicate),
    CardsDrawnThisTurn(CardPredicate),
    DiscardedThisTurn(CardPredicate),
    DissolvedThisTurn(CardPredicate),
    PlayedThisTurn(CardPredicate),
}

impl Clone for QuantityExpression {
    /// A copy of the expression, equal to it.
    fn clone(&self) -> (copy: Self)
        ensures
            copy == *self,
    {
        match self {
            QuantityExpression::Matching(a) => QuantityExpression::Matching(a.clone()),
            QuantityExpression::AbandonedThisTurn(a) => {
                QuantityExpression::AbandonedThisTurn(a.clone())
            },
            QuantityExpression::AbandonedThisWay(a) => {
                QuantityExpression::AbandonedThisWay(a.clone())
            },
            QuantityExpression::CardsDrawnThisTurn(a) => {
                QuantityExpression::CardsDrawnThisTurn(a.clone())
            },
            QuantityExpression::DiscardedThisTurn(a) => {
                QuantityExpression::DiscardedThisTurn(a.clone())
            },
            QuantityExpression::DissolvedThisTurn(a) => {
                QuantityExpression::DissolvedThisTurn(a.clone())
            },
            QuantityExpression::PlayedThisTurn(a) => QuantityExpression::PlayedThisTurn(a.clone()),
        }
    }
}

} // verus!
