use crate::ability_data::predicate::{CardPredicate, Predicate};
use crate::ability_data::quantity_expression::QuantityExpression;
use crate::grammar::determiner::{counted, qualified};
use crate::grammar::primitives::{phrase, Outcome};
use vstd::prelude::*;

verus! {

/// What is counted after "for each". The forms that end in a phrase of
/// their own stand before the plain objects, which would match their start.
#[verifier::opaque]
pub open spec fn quantity_expression(s: Seq<char>, p: int) -> Outcome<QuantityExpression> {
    qualified(s, phrase(s, p, ""), "you have drawn this turn").map(
        |c: CardPredicate| QuantityExpression::CardsDrawnThisTurn(c),
    )
        .or(
            qualified(s, phrase(s, p, ""), "you have discarded this turn").map(
                |c: CardPredicate| QuantityExpression::DiscardedThisTurn(c),
            ),
        )
        .or(
            qualified(s, phrase(s, p, ""), "you have played this turn").map(
                |c: CardPredicate| QuantityExpression::PlayedThisTurn(c),
            ),
        )
        .or(
            qualified(s, phrase(s, p, ""), "which dissolved this turn").map(
                |c: CardPredicate| QuantityExpression::DissolvedThisTurn(c),
            ),
        )
        .or(
            qualified(s, phrase(s, p, ""), "you abandoned this turn").map(
                |c: CardPredicate| QuantityExpression::AbandonedThisTurn(c),
            ),
        )
        .or(
            qualified(s, phrase(s, p, ""), "abandoned this way").map(
                |c: CardPredicate| QuantityExpression::AbandonedThisWay(c),
            ),
        )
        .or(counted(s, p).map(|t: Predicate| QuantityExpression::Matching(t)))
}

} // verus!
