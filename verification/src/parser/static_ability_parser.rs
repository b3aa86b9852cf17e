use crate::ability_data::condition::Condition;
use crate::ability_data::cost::Cost;
use crate::ability_data::effect::Effect;
use crate::ability_data::static_ability::{AlternateCost, PlayFromVoid, StaticAbility};
use crate::core_data::numerics::Energy;
use crate::grammar::primitives::Outcome;
use crate::grammar::static_ability;
use crate::parser::card_predicate_parser;
use crate::parser::condition_parser;
use crate::parser::cost_parser;
use crate::parser::determiner_parser::{counted_parser, qualified};
use crate::parser::parser_utils::{
    either_phrase, energy, keyword, outcome, phrase, spark, this, Parsed,
};
use crate::parser::standard_effect_parser;
use vstd::prelude::*;

verus! {

/// Reads a static ability at `start`.
pub fn parser(text: &[char], start: usize) -> (r: Parsed<StaticAbility>)
    requires
        start <= text@.len(),
    ensures
        outcome(r) == static_ability::static_ability(text@, start as int),
        outcome(r).within(text@, start as int),
{
    proof {
        reveal(static_ability::static_ability);
    }
    let failure = match cost_increase(text, start) {
        Ok(found) => return Ok(found),
        Err(failure) => failure,
    };
    let failure = match cost_reduction(text, start) {
        Ok(found) => return Ok(found),
        Err(other) => failure.merge(other),
    };
    let failure = match disable_enemy_materialized_abilities(text, start) {
        Ok(found) => return Ok(found),
        Err(other) => failure.merge(other),
    };
    let failure = match once_per_turn_play_from_void(text, start) {
        Ok(found) => return Ok(found),
        Err(other) => failure.merge(other),
    };
    let failure = match enemy_added_cost_to_play(text, start) {
        Ok(found) => return Ok(found),
        Err(other) => failure.merge(other),
    };
    let failure = match other_spark_bonus(text, start) {
        Ok(found) => return Ok(found),
        Err(other) => failure.merge(other),
    };
    let failure = match has_all_character_types(text, start) {
        Ok(found) => return Ok(found),
        Err(other) => failure.merge(other),
    };
    let failure = match play_from_void(text, start) {
        Ok(found) => return Ok(found),
        Err(other) => failure.merge(other),
    };
    let failure = match simple_alternate_cost(text, start) {
        Ok(found) => return Ok(found),
        Err(other) => failure.merge(other),
    };
    let failure = match play_for_alternate_cost(text, start) {
        Ok(found) => return Ok(found),
        Err(other) => failure.merge(other),
    };
    let failure = match play_only_from_void(text, start) {
        Ok(found) => return Ok(found),
        Err(other) => failure.merge(other),
    };
    let failure = match reclaim(text, start) {
        Ok(found) => return Ok(found),
        Err(other) => failure.merge(other),
    };
    let failure = match spark_equal_to_predicate_count(text, start) {
        Ok(found) => return Ok(found),
        Err(other) => failure.merge(other),
    };
    let failure = match characters_in_hand_have_fast(text, start) {
        Ok(found) => return Ok(found),
        Err(other) => failure.merge(other),
    };
    let failure = match judgment_triggers_when_materialized(text, start) {
        Ok(found) => return Ok(found),
        Err(other) => failure.merge(other),
    };
    let failure = match look_at_top_card(text, start) {
        Ok(found) => return Ok(found),
        Err(other) => failure.merge(other),
    };
    match play_from_top_of_deck(text, start) {
        Ok(found) => Ok(found),
        Err(other) => Err(failure.merge(other)),
    }
}

/// Reads "if", a condition and a comma.
fn gate(text: &[char], start: usize) -> (r: Parsed<Condition>)
    requires
        start <= text@.len(),
    ensures
        outcome(r) == static_ability::gate(text@, start as int),
        outcome(r).within(text@, start as int),
{
    let q1 = phrase(text, start, "if")?;
    let (condition, q2) = condition_parser::parser(text, q1)?;
    let q3 = phrase(text, q2, ",")?;
    Ok((condition, q3))
}

/// Reads a condition in front of an ability, if one stands there.
fn optional_gate(text: &[char], start: usize) -> (r: (Option<Condition>, usize))
    requires
        start <= text@.len(),
    ensures
        static_ability::gate(text@, start as int).or_not(start as int) == Outcome::Match(
            r.0,
            r.1 as int,
        ),
        start <= r.1 <= text@.len(),
{
    match gate(text, start) {
        Ok((condition, next)) => (Some(condition), next),
        Err(_) => (None, start),
    }
}

/// Reads "for $" and an amount of energy, if they stand there.
fn optional_energy(text: &[char], start: usize) -> (r: (Option<Energy>, usize))
    requires
        start <= text@.len(),
    ensures
        static_ability::optional_energy(text@, start as int) == Outcome::Match(r.0, r.1 as int),
        start <= r.1 <= text@.len(),
{
    match energy(text, start, "for $", "") {
        Ok((amount, next)) => (Some(amount), next),
        Err(_) => (None, start),
    }
}

/// Reads "by" and a cost.
fn by_cost(text: &[char], start: usize) -> (r: Parsed<Cost>)
    requires
        start <= text@.len(),
    ensures
        outcome(r) == static_ability::by_cost(text@, start as int),
        outcome(r).within(text@, start as int),
{
    let q1 = phrase(text, start, "by")?;
    cost_parser::inflected_additional_cost(text, q1)
}

/// Reads the cost that "by ..." adds; without it, there is no cost.
fn additional_cost(text: &[char], start: usize) -> (r: (Cost, usize))
    requires
        start <= text@.len(),
    ensures
        static_ability::additional_cost(text@, start as int) == Outcome::Match(r.0, r.1 as int),
        start <= r.1 <= text@.len(),
{
    match by_cost(text, start) {
        Ok(found) => found,
        Err(_) => (Cost::NoCost, start),
    }
}

/// Reads ". if you do," and a standard effect.
fn then_effect(text: &[char], start: usize) -> (r: Parsed<Effect>)
    requires
        start <= text@.len(),
    ensures
        outcome(r) == static_ability::then_effect(text@, start as int),
        outcome(r).within(text@, start as int),
{
    let q1 = phrase(text, start, ". if you do,")?;
    let (effect, q2) = standard_effect_parser::parser(text, q1)?;
    Ok((Effect::Effect(effect), q2))
}

/// Reads the effect that ". if you do, ..." adds, if it stands there.
fn if_you_do(text: &[char], start: usize) -> (r: (Option<Effect>, usize))
    requires
        start <= text@.len(),
    ensures
        static_ability::if_you_do(text@, start as int) == Outcome::Match(r.0, r.1 as int),
        start <= r.1 <= text@.len(),
{
    match then_effect(text, start) {
        Ok((effect, next)) => (Some(effect), next),
        Err(_) => (None, start),
    }
}

fn once_per_turn_play_from_void(text: &[char], start: usize) -> (r: Parsed<StaticAbility>)
    requires
        start <= text@.len(),
    ensures
        outcome(r) == static_ability::once_per_turn_play_from_void(text@, start as int),
        outcome(r).within(text@, start as int),
{
    let (matching, next) = qualified(
        text,
        start,
        phrase(text, start, "once per turn, you may play a"),
        "from your void",
    )?;
    Ok((StaticAbility::OncePerTurnPlayFromVoid { matching }, next))
}

fn enemy_added_cost_to_play(text: &[char], start: usize) -> (r: Parsed<StaticAbility>)
    requires
        start <= text@.len(),
    ensures
        outcome(r) == static_ability::enemy_added_cost_to_play(text@, start as int),
        outcome(r).within(text@, start as int),
{
    let (matching, q1) = qualified(text, start, phrase(text, start, "the enemy's"), "")?;
    let (increase, q2) = energy(text, q1, "cost $", "more")?;
    Ok((StaticAbility::EnemyCardsCostIncrease { matching, increase }, q2))
}

fn disable_enemy_materialized_abilities(text: &[char], start: usize) -> (r: Parsed<StaticAbility>)
    requires
        start <= text@.len(),
    ensures
        outcome(r) == static_ability::disable_enemy_materialized_abilities(text@, start as int),
        outcome(r).within(text@, start as int),
{
    let q1 = phrase(text, start, "disable the \"$materialized\" abilities of")?;
    let q2 = either_phrase(text, q1, "the enemy's characters", "enemy characters")?;
    Ok((StaticAbility::DisableEnemyMaterializedAbilities, q2))
}

fn other_spark_bonus(text: &[char], start: usize) -> (r: Parsed<StaticAbility>)
    requires
        start <= text@.len(),
    ensures
        outcome(r) == static_ability::other_spark_bonus(text@, start as int),
        outcome(r).within(text@, start as int),
{
    let (matching, q1) = qualified(text, start, phrase(text, start, "other"), "")?;
    let (added_spark, q2) = spark(text, q1, "you control have +", "spark")?;
    Ok((StaticAbility::OtherCharactersSparkBonus { matching, added_spark }, q2))
}

fn has_all_character_types(text: &[char], start: usize) -> (r: Parsed<StaticAbility>)
    requires
        start <= text@.len(),
    ensures
        outcome(r) == static_ability::has_all_character_types(text@, start as int),
        outcome(r).within(text@, start as int),
{
    keyword(
        text,
        start,
        "this character has all character types",
        StaticAbility::HasAllCharacterTypes,
    )
}

fn cost_increase(text: &[char], start: usize) -> (r: Parsed<StaticAbility>)
    requires
        start <= text@.len(),
    ensures
        outcome(r) == static_ability::cost_increase(text@, start as int),
        outcome(r).within(text@, start as int),
{
    let (matching, q1) = card_predicate_parser::parser(text, start)?;
    let (reduction, q2) = energy(text, q1, "cost you $", "more")?;
    Ok((StaticAbility::YourCardsCostIncrease { matching, reduction }, q2))
}

fn cost_reduction(text: &[char], start: usize) -> (r: Parsed<StaticAbility>)
    requires
        start <= text@.len(),
    ensures
        outcome(r) == static_ability::cost_reduction(text@, start as int),
        outcome(r).within(text@, start as int),
{
    let (matching, q1) = card_predicate_parser::parser(text, start)?;
    let (reduction, q2) = energy(text, q1, "cost you $", "less")?;
    Ok((StaticAbility::YourCardsCostReduction { matching, reduction }, q2))
}

fn play_from_void(text: &[char], start: usize) -> (r: Parsed<StaticAbility>)
    requires
        start <= text@.len(),
    ensures
        outcome(r) == static_ability::play_from_void(text@, start as int),
        outcome(r).within(text@, start as int),
{
    let (condition, q1) = optional_gate(text, start);
    let q2 = phrase(text, q1, "you may play")?;
    let q3 = this(text, q2)?;
    let q4 = phrase(text, q3, "from your void")?;
    let (energy_cost, q5) = optional_energy(text, q4);
    let (additional_cost, q6) = additional_cost(text, q5);
    let (if_you_do, q7) = if_you_do(text, q6);
    Ok(
        (
            StaticAbility::PlayFromVoid(
                PlayFromVoid { condition, energy_cost, additional_cost, if_you_do },
            ),
            q7,
        ),
    )
}

fn play_for_alternate_cost(text: &[char], start: usize) -> (r: Parsed<StaticAbility>)
    requires
        start <= text@.len(),
    ensures
        outcome(r) == static_ability::play_for_alternate_cost(text@, start as int),
        outcome(r).within(text@, start as int),
{
    let (condition, q1) = optional_gate(text, start);
    let q2 = phrase(text, q1, "you may play")?;
    let q3 = this(text, q2)?;
    let (energy_cost, q4) = energy(text, q3, "for $", "")?;
    let (additional_cost, q5) = additional_cost(text, q4);
    let (if_you_do, q6) = if_you_do(text, q5);
    Ok(
        (
            StaticAbility::PlayForAlternateCost(
                AlternateCost { condition, energy_cost, additional_cost, if_you_do },
            ),
            q6,
        ),
    )
}

fn simple_alternate_cost(text: &[char], start: usize) -> (r: Parsed<StaticAbility>)
    requires
        start <= text@.len(),
    ensures
        outcome(r) == static_ability::simple_alternate_cost(text@, start as int),
        outcome(r).within(text@, start as int),
{
    let (condition, q1) = gate(text, start)?;
    let q2 = this(text, q1)?;
    let (energy_cost, q3) = energy(text, q2, "costs $", "")?;
    Ok(
        (
            StaticAbility::PlayForAlternateCost(
                AlternateCost {
                    condition: Some(condition),
                    energy_cost,
                    additional_cost: Cost::NoCost,
                    if_you_do: None,
                },
            ),
            q3,
        ),
    )
}

fn reclaim(text: &[char], start: usize) -> (r: Parsed<StaticAbility>)
    requires
        start <= text@.len(),
    ensures
        outcome(r) == static_ability::reclaim(text@, start as int),
        outcome(r).within(text@, start as int),
{
    let q1 = phrase(text, start, "{kw: reclaim}")?;
    match energy(text, q1, "$", "") {
        Ok((amount, q2)) => Ok((StaticAbility::Reclaim { cost: Some(Cost::Energy(amount)) }, q2)),
        Err(_) => Ok((StaticAbility::Reclaim { cost: None }, q1)),
    }
}

fn spark_equal_to_predicate_count(text: &[char], start: usize) -> (r: Parsed<StaticAbility>)
    requires
        start <= text@.len(),
    ensures
        outcome(r) == static_ability::spark_equal_to_predicate_count(text@, start as int),
        outcome(r).within(text@, start as int),
{
    let q1 = phrase(text, start, "this character's spark is equal to the number of")?;
    let (predicate, q2) = counted_parser(text, q1)?;
    Ok((StaticAbility::SparkEqualToPredicateCount { predicate }, q2))
}

fn characters_in_hand_have_fast(text: &[char], start: usize) -> (r: Parsed<StaticAbility>)
    requires
        start <= text@.len(),
    ensures
        outcome(r) == static_ability::characters_in_hand_have_fast(text@, start as int),
        outcome(r).within(text@, start as int),
{
    keyword(
        text,
        start,
        "characters in your hand have '$fast'",
        StaticAbility::CharactersInHandHaveFast,
    )
}

fn judgment_triggers_when_materialized(text: &[char], start: usize) -> (r: Parsed<StaticAbility>)
    requires
        start <= text@.len(),
    ensures
        outcome(r) == static_ability::judgment_triggers_when_materialized(text@, start as int),
        outcome(r).within(text@, start as int),
{
    let q1 = phrase(text, start, "the '$judgment' ability of")?;
    let (predicate, q2) = counted_parser(text, q1)?;
    let q3 = phrase(text, q2, "triggers when you materialize them")?;
    Ok((StaticAbility::JudgmentTriggersWhenMaterialized { predicate }, q3))
}

fn look_at_top_card(text: &[char], start: usize) -> (r: Parsed<StaticAbility>)
    requires
        start <= text@.len(),
    ensures
        outcome(r) == static_ability::look_at_top_card(text@, start as int),
        outcome(r).within(text@, start as int),
{
    keyword(
        text,
        start,
        "you may look at the top card of your deck",
        StaticAbility::YouMayLookAtTopCardOfYourDeck,
    )
}

fn play_from_top_of_deck(text: &[char], start: usize) -> (r: Parsed<StaticAbility>)
    requires
        start <= text@.len(),
    ensures
        outcome(r) == static_ability::play_from_top_of_deck(text@, start as int),
        outcome(r).within(text@, start as int),
{
    let (matching, next) = qualified(
        text,
        start,
        phrase(text, start, "you may play"),
        "from the top of your deck",
    )?;
    Ok((StaticAbility::YouMayPlayFromTopOfDeck { matching }, next))
}

fn play_only_from_void(text: &[char], start: usize) -> (r: Parsed<StaticAbility>)
    requires
        start <= text@.len(),
    ensures
        outcome(r) == static_ability::play_only_from_void(text@, start as int),
        outcome(r).within(text@, start as int),
{
    keyword(
        text,
        start,
        "you may only play this character from your void",
        StaticAbility::PlayOnlyFromVoid,
    )
}

} // verus!
