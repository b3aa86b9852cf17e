use crate::ability_data::predicate::{CardPredicate, Predicate};
use crate::grammar::determiner;
use crate::parser::card_predicate_parser;
use crate::parser::parser_utils::{a_or_an, keyword, outcome, phrase, reached, Failure, Parsed};
use vstd::prelude::*;

verus! {

/// Reads a card predicate after `head`, the result of a rule that was tried
/// at `start`, and the phrase `tail` after the predicate.
pub fn qualified(
    text: &[char],
    start: usize,
    head: Result<usize, Failure>,
    tail: &'static str,
) -> (r: Parsed<CardPredicate>)
    requires
        start <= text@.len(),
        reached(head).within(text@, start as int),
    ensures
        outcome(r) == determiner::qualified(text@, reached(head), tail),
        outcome(r).within(text@, start as int),
{
    let q1 = head?;
    let (found, q2) = card_predicate_parser::parser(text, q1)?;
    let q3 = phrase(text, q2, tail)?;
    Ok((found, q3))
}

/// Reads the object that an effect acts on.
pub fn target_parser(text: &[char], start: usize) -> (r: Parsed<Predicate>)
    requires
        start <= text@.len(),
    ensures
        outcome(r) == determiner::target(text@, start as int),
        outcome(r).within(text@, start as int),
{
    proof {
        reveal(determiner::target);
    }
    let failure = match keyword(text, start, "this character", Predicate::This) {
        Ok(found) => return Ok(found),
        Err(failure) => failure,
    };
    let failure = match keyword(text, start, "this event", Predicate::This) {
        Ok(found) => return Ok(found),
        Err(other) => failure.merge(other),
    };
    let failure = match keyword(text, start, "that character", Predicate::That) {
        Ok(found) => return Ok(found),
        Err(other) => failure.merge(other),
    };
    let failure = match keyword(text, start, "that event", Predicate::That) {
        Ok(found) => return Ok(found),
        Err(other) => failure.merge(other),
    };
    let failure = match keyword(text, start, "them", Predicate::Them) {
        Ok(found) => return Ok(found),
        Err(other) => failure.merge(other),
    };
    let failure = match keyword(text, start, "it", Predicate::It) {
        Ok(found) => return Ok(found),
        Err(other) => failure.merge(other),
    };
    let failure = match qualified(text, start, phrase(text, start, "an enemy"), "") {
        Ok((c, next)) => return Ok((Predicate::Enemy(c), next)),
        Err(other) => failure.merge(other),
    };
    let failure = match qualified(text, start, phrase(text, start, "another"), "you control") {
        Ok((c, next)) => return Ok((Predicate::Another(c), next)),
        Err(other) => failure.merge(other),
    };
    let failure = match qualified(text, start, phrase(text, start, "another"), "") {
        Ok((c, next)) => return Ok((Predicate::AnyOther(c), next)),
        Err(other) => failure.merge(other),
    };
    let failure = match qualified(text, start, a_or_an(text, start), "you control") {
        Ok((c, next)) => return Ok((Predicate::Your(c), next)),
        Err(other) => failure.merge(other),
    };
    let failure = match qualified(text, start, a_or_an(text, start), "in your void") {
        Ok((c, next)) => return Ok((Predicate::YourVoid(c), next)),
        Err(other) => failure.merge(other),
    };
    let failure = match qualified(text, start, a_or_an(text, start), "in the enemy's void") {
        Ok((c, next)) => return Ok((Predicate::EnemyVoid(c), next)),
        Err(other) => failure.merge(other),
    };
    match qualified(text, start, a_or_an(text, start), "") {
        Ok((c, next)) => Ok((Predicate::Any(c), next)),
        Err(other) => Err(failure.merge(other)),
    }
}

/// Reads the object of something that you do.
pub fn your_action(text: &[char], start: usize) -> (r: Parsed<Predicate>)
    requires
        start <= text@.len(),
    ensures
        outcome(r) == determiner::your_action(text@, start as int),
        outcome(r).within(text@, start as int),
{
    proof {
        reveal(determiner::your_action);
    }
    let failure = match keyword(text, start, "this character", Predicate::This) {
        Ok(found) => return Ok(found),
        Err(failure) => failure,
    };
    let failure = match keyword(text, start, "this event", Predicate::This) {
        Ok(found) => return Ok(found),
        Err(other) => failure.merge(other),
    };
    let failure = match keyword(text, start, "that character", Predicate::That) {
        Ok(found) => return Ok(found),
        Err(other) => failure.merge(other),
    };
    let failure = match keyword(text, start, "that event", Predicate::That) {
        Ok(found) => return Ok(found),
        Err(other) => failure.merge(other),
    };
    let failure = match qualified(text, start, phrase(text, start, "an enemy"), "") {
        Ok((c, next)) => return Ok((Predicate::Enemy(c), next)),
        Err(other) => failure.merge(other),
    };
    let failure = match qualified(text, start, phrase(text, start, "another"), "") {
        Ok((c, next)) => return Ok((Predicate::Another(c), next)),
        Err(other) => failure.merge(other),
    };
    match qualified(text, start, a_or_an(text, start), "") {
        Ok((c, next)) => Ok((Predicate::Your(c), next)),
        Err(other) => Err(failure.merge(other)),
    }
}

/// Reads the objects that are counted.
pub fn counted_parser(text: &[char], start: usize) -> (r: Parsed<Predicate>)
    requires
        start <= text@.len(),
    ensures
        outcome(r) == determiner::counted(text@, start as int),
        outcome(r).within(text@, start as int),
{
    proof {
        reveal(determiner::counted);
    }
    let failure = match qualified(text, start, phrase(text, start, "other"), "you control") {
        Ok((c, next)) => return Ok((Predicate::Another(c), next)),
        Err(failure) => failure,
    };
    let failure = match qualified(text, start, phrase(text, start, "enemy"), "") {
        Ok((c, next)) => return Ok((Predicate::Enemy(c), next)),
        Err(other) => failure.merge(other),
    };
    let failure = match qualified(text, start, phrase(text, start, "other"), "") {
        Ok((c, next)) => return Ok((Predicate::AnyOther(c), next)),
        Err(other) => failure.merge(other),
    };
    let failure = match qualified(text, start, phrase(text, start, ""), "you control") {
        Ok((c, next)) => return Ok((Predicate::Your(c), next)),
        Err(other) => failure.merge(other),
    };
    let failure = match qualified(text, start, phrase(text, start, ""), "in your void") {
        Ok((c, next)) => return Ok((Predicate::YourVoid(c), next)),
        Err(other) => failure.merge(other),
    };
    let failure = match qualified(text, start, phrase(text, start, ""), "in the enemy's void") {
        Ok((c, next)) => return Ok((Predicate::EnemyVoid(c), next)),
        Err(other) => failure.merge(other),
    };
    match qualified(text, start, phrase(text, start, ""), "") {
        Ok((c, next)) => Ok((Predicate::Any(c), next)),
        Err(other) => Err(failure.merge(other)),
    }
}

/// Reads "for each" and the objects that are counted.
pub fn for_each_parser(text: &[char], start: usize) -> (r: Parsed<Predicate>)
    requires
        start <= text@.len(),
    ensures
        outcome(r) == determiner::for_each(text@, start as int),
        outcome(r).within(text@, start as int),
{
    let q1 = phrase(text, start, "for each")?;
    counted_parser(text, q1)
}

/// Reads the object of an effect between the phrases `before` and `after`.
pub fn targeting(
    text: &[char],
    start: usize,
    before: &'static str,
    after: &'static str,
) -> (r: Parsed<Predicate>)
    requires
        start <= text@.len(),
    ensures
        outcome(r) == determiner::targeting(text@, start as int, before, after),
        outcome(r).within(text@, start as int),
{
    let q1 = phrase(text, start, before)?;
    let (found, q2) = target_parser(text, q1)?;
    let q3 = phrase(text, q2, after)?;
    Ok((found, q3))
}

/// Reads the object of something that you do, between the phrases `before`
/// and `after`.
pub fn acting(
    text: &[char],
    start: usize,
    before: &'static str,
    after: &'static str,
) -> (r: Parsed<Predicate>)
    requires
        start <= text@.len(),
    ensures
        outcome(r) == determiner::acting(text@, start as int, before, after),
        outcome(r).within(text@, start as int),
{
    let q1 = phrase(text, start, before)?;
    let (found, q2) = your_action(text, q1)?;
    let q3 = phrase(text, q2, after)?;
    Ok((found, q3))
}

} // verus!
