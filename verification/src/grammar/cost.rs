use crate::ability_data::cost::Cost;
use crate::ability_data::predicate::{CardPredicate, Predicate};
use crate::core_data::numerics::Energy;
use crate::grammar::card_predicate::card_predicate;
use crate::grammar::determiner::your_action;
use crate::grammar::primitives::{count, energy, phrase, Outcome};
use vstd::prelude::*;

verus! {

/// "abandon" and the character to abandon.
pub open spec fn abandon(s: Seq<char>, p: int) -> Outcome<Cost> {
    phrase(s, p, "abandon").keep(|q: int| your_action(s, q)).map(
        |t: Predicate| Cost::AbandonCharacters(t, 1),
    )
}

/// "abandoning", a count and the characters to abandon.
pub open spec fn abandoning(s: Seq<char>, p: int) -> Outcome<Cost> {
    count(s, p, "abandoning", "").pair(|q: int| card_predicate(s, q)).map(
        |v: (u64, CardPredicate)| Cost::AbandonCharacters(Predicate::Your(v.1), v.0),
    )
}

/// A cost as it is written before the colon of an activated ability:
/// "$2", "banish 3 cards from your void", "abandon a character",
/// "discard your hand".
#[verifier::opaque]
pub open spec fn cost(s: Seq<char>, p: int) -> Outcome<Cost> {
    energy(s, p, "$", "").map(|e: Energy| Cost::Energy(e))
        .or(
            count(s, p, "banish", "cards from your void").map(
                |n: u64| Cost::BanishCardsFromYourVoid(n),
            ),
        )
        .or(abandon(s, p))
        .or(phrase(s, p, "discard your hand").to(Cost::DiscardHand))
}

/// A cost as a static ability words it, after "by": "banishing another
/// card from your void", "abandoning 2 characters".
#[verifier::opaque]
pub open spec fn inflected_additional_cost(s: Seq<char>, p: int) -> Outcome<Cost> {
    phrase(s, p, "banishing another card from your void").to(Cost::BanishCardsFromYourVoid(1))
        .or(
            phrase(s, p, "banishing all other cards from your void").to(
                Cost::BanishAllCardsFromYourVoid,
            ),
        )
        .or(phrase(s, p, "banishing all cards from your void").to(Cost::BanishAllCardsFromYourVoid))
        .or(abandoning(s, p))
}

} // verus!
