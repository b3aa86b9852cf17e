use crate::ability_data::predicate::{CardPredicate, Operator};
use crate::core_data::character_type::CharacterType;
use crate::core_data::numerics::{Energy, Spark};
use crate::grammar::card_predicate;
use crate::parser::parser_utils::{
    either_phrase, energy, keyword, outcome, phrase, reached, spark, Failure, Parsed,
};
use vstd::prelude::*;

verus! {

/// Reads a card predicate at `start`.
pub fn parser(text: &[char], start: usize) -> (r: Parsed<CardPredicate>)
    requires
        start <= text@.len(),
    ensures
        outcome(r) == card_predicate::card_predicate(text@, start as int),
        outcome(r).within(text@, start as int),
        r matches Ok((found, _)) ==> found.well_formed(),
{
    proof {
        reveal(card_predicate::card_predicate);
    }
    let failure = match character_with_cost_compared_to_controlled(text, start) {
        Ok(found) => return Ok(found),
        Err(failure) => failure,
    };
    let failure = match character_with_cost_compared_to_abandoned(text, start) {
        Ok(found) => return Ok(found),
        Err(other) => failure.merge(other),
    };
    match non_recursive_predicate(text, start) {
        Ok(found) => Ok(found),
        Err(other) => Err(failure.merge(other)),
    }
}

fn non_recursive_predicate(text: &[char], start: usize) -> (r: Parsed<CardPredicate>)
    requires
        start <= text@.len(),
    ensures
        outcome(r) == card_predicate::non_recursive_predicate(text@, start as int),
        outcome(r).within(text@, start as int),
        r matches Ok((found, _)) ==> found.is_simple(),
{
    proof {
        reveal(card_predicate::non_recursive_predicate);
    }
    let failure = match character_with_cost(text, start) {
        Ok(found) => return Ok(found),
        Err(failure) => failure,
    };
    let failure = match character_with_spark(text, start) {
        Ok(found) => return Ok(found),
        Err(other) => failure.merge(other),
    };
    let failure = match character_with_materialized_ability(text, start) {
        Ok(found) => return Ok(found),
        Err(other) => failure.merge(other),
    };
    let failure = match character_type(text, start) {
        Ok((found, next)) => return Ok((CardPredicate::CharacterType(found), next)),
        Err(other) => failure.merge(other),
    };
    let failure = match either_phrase(text, start, "cards", "card") {
        Ok(next) => return Ok((CardPredicate::Card, next)),
        Err(other) => failure.merge(other),
    };
    let failure = match character(text, start) {
        Ok(next) => return Ok((CardPredicate::Character, next)),
        Err(other) => failure.merge(other),
    };
    match either_phrase(text, start, "events", "event") {
        Ok(next) => Ok((CardPredicate::Event, next)),
        Err(other) => Err(failure.merge(other)),
    }
}

fn cost_bound(text: &[char], start: usize) -> (r: Parsed<Operator<Energy>>)
    requires
        start <= text@.len(),
    ensures
        outcome(r) == card_predicate::cost_bound(text@, start as int),
        outcome(r).within(text@, start as int),
{
    let failure = match keyword(text, start, "or less", Operator::<Energy>::OrLess) {
        Ok(found) => return Ok(found),
        Err(failure) => failure,
    };
    match keyword(text, start, "or more", Operator::<Energy>::OrMore) {
        Ok(found) => Ok(found),
        Err(other) => Err(failure.merge(other)),
    }
}

fn spark_bound(text: &[char], start: usize) -> (r: Parsed<Operator<Spark>>)
    requires
        start <= text@.len(),
    ensures
        outcome(r) == card_predicate::spark_bound(text@, start as int),
        outcome(r).within(text@, start as int),
{
    let failure = match keyword(text, start, "or less", Operator::<Spark>::OrLess) {
        Ok(found) => return Ok(found),
        Err(failure) => failure,
    };
    match keyword(text, start, "or more", Operator::<Spark>::OrMore) {
        Ok(found) => Ok(found),
        Err(other) => Err(failure.merge(other)),
    }
}

fn character_with_cost(text: &[char], start: usize) -> (r: Parsed<CardPredicate>)
    requires
        start <= text@.len(),
    ensures
        outcome(r) == card_predicate::character_with_cost(text@, start as int),
        outcome(r).within(text@, start as int),
{
    let q1 = character(text, start)?;
    let (cost, q2) = energy(text, q1, "with cost $", "")?;
    let (operator, q3) = cost_bound(text, q2)?;
    Ok((CardPredicate::CharacterWithCost(cost, operator), q3))
}

fn character_with_spark(text: &[char], start: usize) -> (r: Parsed<CardPredicate>)
    requires
        start <= text@.len(),
    ensures
        outcome(r) == card_predicate::character_with_spark(text@, start as int),
        outcome(r).within(text@, start as int),
{
    let q1 = character(text, start)?;
    let (value, q2) = spark(text, q1, "with spark", "")?;
    let (operator, q3) = spark_bound(text, q2)?;
    Ok((CardPredicate::CharacterWithSpark(value, operator), q3))
}

fn controlled_comparison(text: &[char], start: usize) -> (r: Parsed<Operator<Energy>>)
    requires
        start <= text@.len(),
    ensures
        outcome(r) == card_predicate::controlled_comparison(text@, start as int),
        outcome(r).within(text@, start as int),
{
    let failure = match keyword(text, start, "less than or equal to", Operator::<Energy>::OrLess) {
        Ok(found) => return Ok(found),
        Err(failure) => failure,
    };
    let failure = match keyword(text, start, "equal to", Operator::<Energy>::Exactly) {
        Ok(found) => return Ok(found),
        Err(other) => failure.merge(other),
    };
    match keyword(text, start, "greater than or equal to", Operator::<Energy>::OrMore) {
        Ok(found) => Ok(found),
        Err(other) => Err(failure.merge(other)),
    }
}

fn number_controlled(text: &[char], start: usize) -> (r: Parsed<CardPredicate>)
    requires
        start <= text@.len(),
    ensures
        outcome(r) == card_predicate::number_controlled(text@, start as int),
        outcome(r).within(text@, start as int),
        r matches Ok((found, _)) ==> found.is_simple(),
{
    let q1 = phrase(text, start, "the number of")?;
    let (counted, q2) = non_recursive_predicate(text, q1)?;
    let q3 = phrase(text, q2, "you control")?;
    Ok((counted, q3))
}

fn character_with_cost_compared_to_controlled(
    text: &[char],
    start: usize,
) -> (r: Parsed<CardPredicate>)
    requires
        start <= text@.len(),
    ensures
        outcome(r) == card_predicate::character_with_cost_compared_to_controlled(
            text@,
            start as int,
        ),
        outcome(r).within(text@, start as int),
        r matches Ok((found, _)) ==> found.well_formed(),
{
    let (target, q1) = non_recursive_predicate(text, start)?;
    let q2 = phrase(text, q1, "with cost")?;
    let (cost_operator, q3) = controlled_comparison(text, q2)?;
    let (count_matching, q4) = number_controlled(text, q3)?;
    Ok(
        (
            CardPredicate::CharacterWithCostComparedToControlled {
                target: Box::new(target),
                cost_operator,
                count_matching: Box::new(count_matching),
            },
            q4,
        ),
    )
}

fn abandoned_comparison(text: &[char], start: usize) -> (r: Parsed<Operator<Energy>>)
    requires
        start <= text@.len(),
    ensures
        outcome(r) == card_predicate::abandoned_comparison(text@, start as int),
        outcome(r).within(text@, start as int),
{
    let failure = match energy(text, start, "$", "higher than") {
        Ok((by, next)) => return Ok((Operator::HigherBy(by), next)),
        Err(failure) => failure,
    };
    let failure = match energy(text, start, "$", "lower than") {
        Ok((by, next)) => return Ok((Operator::LowerBy(by), next)),
        Err(other) => failure.merge(other),
    };
    let failure = match keyword(text, start, "greater than", Operator::<Energy>::OrMore) {
        Ok(found) => return Ok(found),
        Err(other) => failure.merge(other),
    };
    let failure = match keyword(text, start, "less than", Operator::<Energy>::OrLess) {
        Ok(found) => return Ok(found),
        Err(other) => failure.merge(other),
    };
    match keyword(text, start, "equal to", Operator::<Energy>::Exactly) {
        Ok(found) => Ok(found),
        Err(other) => Err(failure.merge(other)),
    }
}

fn character_with_cost_compared_to_abandoned(
    text: &[char],
    start: usize,
) -> (r: Parsed<CardPredicate>)
    requires
        start <= text@.len(),
    ensures
        outcome(r) == card_predicate::character_with_cost_compared_to_abandoned(
            text@,
            start as int,
        ),
        outcome(r).within(text@, start as int),
        r matches Ok((found, _)) ==> found.well_formed(),
{
    let (target, q1) = non_recursive_predicate(text, start)?;
    let q2 = phrase(text, q1, "with cost")?;
    let (cost_operator, q3) = abandoned_comparison(text, q2)?;
    let q4 = phrase(text, q3, "the abandoned character")?;
    Ok(
        (
            CardPredicate::CharacterWithCostComparedToAbandoned {
                target: Box::new(target),
                cost_operator,
            },
            q4,
        ),
    )
}

fn character_with_materialized_ability(text: &[char], start: usize) -> (r: Parsed<CardPredicate>)
    requires
        start <= text@.len(),
    ensures
        outcome(r) == card_predicate::character_with_materialized_ability(text@, start as int),
        outcome(r).within(text@, start as int),
{
    let q1 = character(text, start)?;
    let q2 = phrase(text, q1, "with a $materialized ability")?;
    Ok((CardPredicate::CharacterWithMaterializedAbility, q2))
}

fn character_type_name(text: &[char], start: usize) -> (r: Parsed<CharacterType>)
    requires
        start <= text@.len(),
    ensures
        outcome(r) == card_predicate::character_type_name(text@, start as int),
        outcome(r).within(text@, start as int),
{
    let failure = match either_phrase(text, start, "warriors", "warrior") {
        Ok(next) => return Ok((CharacterType::Warrior, next)),
        Err(failure) => failure,
    };
    let failure = match either_phrase(text, start, "survivors", "survivor") {
        Ok(next) => return Ok((CharacterType::Survivor, next)),
        Err(other) => failure.merge(other),
    };
    match either_phrase(text, start, "spirit animals", "spirit animal") {
        Ok(next) => Ok((CharacterType::SpiritAnimal, next)),
        Err(other) => Err(failure.merge(other)),
    }
}

fn character_type(text: &[char], start: usize) -> (r: Parsed<CharacterType>)
    requires
        start <= text@.len(),
    ensures
        outcome(r) == card_predicate::character_type(text@, start as int),
        outcome(r).within(text@, start as int),
{
    let q1 = phrase(text, start, "{cardtype: ")?;
    let (found, q2) = character_type_name(text, q1)?;
    let q3 = phrase(text, q2, "}")?;
    Ok((found, q3))
}

fn character(text: &[char], start: usize) -> (r: Result<usize, Failure>)
    requires
        start <= text@.len(),
    ensures
        reached(r) == card_predicate::character(text@, start as int),
        reached(r).within(text@, start as int),
{
    either_phrase(text, start, "characters", "character")
}

} // verus!
