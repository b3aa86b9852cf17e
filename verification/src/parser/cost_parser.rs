use crate::ability_data::cost::Cost;
use crate::ability_data::predicate::Predicate;
use crate::grammar::cost;
use crate::parser::card_predicate_parser;
use crate::parser::determiner_parser;
use crate::parser::parser_utils::{count, energy, keyword, outcome, phrase, Parsed};
use vstd::prelude::*;

verus! {

/// Reads a cost at `start`.
pub fn parser(text: &[char], start: usize) -> (r: Parsed<Cost>)
    requires
        start <= text@.len(),
    ensures
        outcome(r) == cost::cost(text@, start as int),
        outcome(r).within(text@, start as int),
{
    proof {
        reveal(cost::cost);
    }
    let failure = match energy(text, start, "$", "") {
        Ok((amount, next)) => return Ok((Cost::Energy(amount), next)),
        Err(failure) => failure,
    };
    let failure = match count(text, start, "banish", "cards from your void") {
        Ok((n, next)) => return Ok((Cost::BanishCardsFromYourVoid(n), next)),
        Err(other) => failure.merge(other),
    };
    let failure = match abandon(text, start) {
        Ok(found) => return Ok(found),
        Err(other) => failure.merge(other),
    };
    match keyword(text, start, "discard your hand", Cost::DiscardHand) {
        Ok(found) => Ok(found),
        Err(other) => Err(failure.merge(other)),
    }
}

fn abandon(text: &[char], start: usize) -> (r: Parsed<Cost>)
    requires
        start <= text@.len(),
    ensures
        outcome(r) == cost::abandon(text@, start as int),
        outcome(r).within(text@, start as int),
{
    let q1 = phrase(text, start, "abandon")?;
    let (target, q2) = determiner_parser::your_action(text, q1)?;
    Ok((Cost::AbandonCharacters(target, 1), q2))
}

/// Alternate phrasing for costs, which are written in static abilities, for
/// example "You may play this event for $0 by abandoning a character".
pub fn inflected_additional_cost(text: &[char], start: usize) -> (r: Parsed<Cost>)
    requires
        start <= text@.len(),
    ensures
        outcome(r) == cost::inflected_additional_cost(text@, start as int),
        outcome(r).within(text@, start as int),
{
    proof {
        reveal(cost::inflected_additional_cost);
    }
    let failure = match keyword(
        text,
        start,
        "banishing another card from your void",
        Cost::BanishCardsFromYourVoid(1),
    ) {
        Ok(found) => return Ok(found),
        Err(failure) => failure,
    };
    let failure = match keyword(
        text,
        start,
        "banishing all other cards from your void",
        Cost::BanishAllCardsFromYourVoid,
    ) {
        Ok(found) => return Ok(found),
        Err(other) => failure.merge(other),
    };
    let failure = match keyword(
        text,
        start,
        "banishing all cards from your void",
        Cost::BanishAllCardsFromYourVoid,
    ) {
        Ok(found) => return Ok(found),
        Err(other) => failure.merge(other),
    };
    match abandoning(text, start) {
        Ok(found) => Ok(found),
        Err(other) => Err(failure.merge(other)),
    }
}

fn abandoning(text: &[char], start: usize) -> (r: Parsed<Cost>)
    requires
        start <= text@.len(),
    ensures
        outcome(r) == cost::abandoning(text@, start as int),
        outcome(r).within(text@, start as int),
{
    let (n, q1) = count(text, start, "abandoning", "")?;
    let (matching, q2) = card_predicate_parser::parser(text, q1)?;
    Ok((Cost::AbandonCharacters(Predicate::Your(matching), n), q2))
}

} // verus!
