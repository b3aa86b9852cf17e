use crate::ability_data::effect::Effect;
use crate::ability_data::predicate::Predicate;
use crate::ability_data::standard_effect::StandardEffect;
use crate::ability_data::triggered_ability::{TriggeredAbility, TriggeredAbilityOptions};
use crate::core_data::numerics::{Points, Spark};
use crate::grammar::standard_effect;
use crate::parser::card_predicate_parser;
use crate::parser::cost_parser;
use crate::parser::counting_expression_parser;
use crate::parser::determiner_parser::{
    acting, counted_parser, for_each_parser, qualified, target_parser, targeting,
};
use crate::parser::parser_utils::{
    a_or_count, article_after, count, energy, keyword, maybe, number_of_times, outcome, phrase,
    points, spark, text_number, Parsed,
};
use crate::parser::quantity_expression_parser;
use crate::parser::trigger_event_parser;
use vstd::prelude::*;

verus! {

/// Reads any standard effect at `start`.
pub fn parser(text: &[char], start: usize) -> (r: Parsed<StandardEffect>)
    requires
        start <= text@.len(),
    ensures
        outcome(r) == standard_effect::standard_effect(text@, start as int),
        outcome(r).within(text@, start as int),
{
    proof {
        reveal(standard_effect::standard_effect);
    }
    let failure = match non_recursive_effects(text, start) {
        Ok(found) => return Ok(found),
        Err(failure) => failure,
    };
    match create_trigger_until_end_of_turn(text, start) {
        Ok(found) => Ok(found),
        Err(other) => Err(failure.merge(other)),
    }
}

/// Reads an effect that holds no other effect.
fn non_recursive_effects(text: &[char], start: usize) -> (r: Parsed<StandardEffect>)
    requires
        start <= text@.len(),
    ensures
        outcome(r) == standard_effect::non_recursive_effects(text@, start as int),
        outcome(r).within(text@, start as int),
{
    proof {
        reveal(standard_effect::non_recursive_effects);
    }
    let failure = match card_effects(text, start) {
        Ok(found) => return Ok(found),
        Err(failure) => failure,
    };
    let failure = match spark_effects(text, start) {
        Ok(found) => return Ok(found),
        Err(other) => failure.merge(other),
    };
    let failure = match game_effects(text, start) {
        Ok(found) => return Ok(found),
        Err(other) => failure.merge(other),
    };
    match pay_cost(text, start) {
        Ok(found) => Ok(found),
        Err(other) => Err(failure.merge(other)),
    }
}

fn card_effects(text: &[char], start: usize) -> (r: Parsed<StandardEffect>)
    requires
        start <= text@.len(),
    ensures
        outcome(r) == standard_effect::card_effects(text@, start as int),
        outcome(r).within(text@, start as int),
{
    proof {
        reveal(standard_effect::card_effects);
    }
    let failure = match draw_matching_card(text, start) {
        Ok(found) => return Ok(found),
        Err(failure) => failure,
    };
    let failure = match draw_cards_for_each(text, start) {
        Ok(found) => return Ok(found),
        Err(other) => failure.merge(other),
    };
    let failure = match draw_cards(text, start) {
        Ok(found) => return Ok(found),
        Err(other) => failure.merge(other),
    };
    let failure = match discard_cards(text, start) {
        Ok(found) => return Ok(found),
        Err(other) => failure.merge(other),
    };
    let failure = match banish_card_from_enemy_void(text, start) {
        Ok(found) => return Ok(found),
        Err(other) => failure.merge(other),
    };
    let failure = match discard_card_from_enemy_hand(text, start) {
        Ok(found) => return Ok(found),
        Err(other) => failure.merge(other),
    };
    let failure = match return_all_but_one_character_draw_card_for_each(text, start) {
        Ok(found) => return Ok(found),
        Err(other) => failure.merge(other),
    };
    let failure = match put_on_top_of_deck(text, start) {
        Ok(found) => return Ok(found),
        Err(other) => failure.merge(other),
    };
    let failure = match spend_all_energy_draw_and_discard(text, start) {
        Ok(found) => return Ok(found),
        Err(other) => failure.merge(other),
    };
    let failure = match materialize_character_from_void(text, start) {
        Ok(found) => return Ok(found),
        Err(other) => failure.merge(other),
    };
    let failure = match materialize_character(text, start) {
        Ok(found) => return Ok(found),
        Err(other) => failure.merge(other),
    };
    let failure = match dissolve_characters_count(text, start) {
        Ok(found) => return Ok(found),
        Err(other) => failure.merge(other),
    };
    let failure = match return_to_hand(text, start) {
        Ok(found) => return Ok(found),
        Err(other) => failure.merge(other),
    };
    let failure = match copy(text, start) {
        Ok(found) => return Ok(found),
        Err(other) => failure.merge(other),
    };
    match copy_next_played(text, start) {
        Ok(found) => Ok(found),
        Err(other) => Err(failure.merge(other)),
    }
}

fn spark_effects(text: &[char], start: usize) -> (r: Parsed<StandardEffect>)
    requires
        start <= text@.len(),
    ensures
        outcome(r) == standard_effect::spark_effects(text@, start as int),
        outcome(r).within(text@, start as int),
{
    proof {
        reveal(standard_effect::spark_effects);
    }
    let failure = match gain_spark_until_next_main_for_each(text, start) {
        Ok(found) => return Ok(found),
        Err(failure) => failure,
    };
    let failure = match gain_spark(text, start) {
        Ok(found) => return Ok(found),
        Err(other) => failure.merge(other),
    };
    let failure = match abandon_and_gain_energy_for_spark(text, start) {
        Ok(found) => return Ok(found),
        Err(other) => failure.merge(other),
    };
    let failure = match each_matching_gains_spark_for_each(text, start) {
        Ok(found) => return Ok(found),
        Err(other) => failure.merge(other),
    };
    match kindle(text, start) {
        Ok(found) => Ok(found),
        Err(other) => Err(failure.merge(other)),
    }
}

fn game_effects(text: &[char], start: usize) -> (r: Parsed<StandardEffect>)
    requires
        start <= text@.len(),
    ensures
        outcome(r) == standard_effect::game_effects(text@, start as int),
        outcome(r).within(text@, start as int),
{
    proof {
        reveal(standard_effect::game_effects);
    }
    let failure = match dissolve_character(text, start) {
        Ok(found) => return Ok(found),
        Err(failure) => failure,
    };
    let failure = match gains_aegis_this_turn(text, start) {
        Ok(found) => return Ok(found),
        Err(other) => failure.merge(other),
    };
    let failure = match gain_energy_for_each(text, start) {
        Ok(found) => return Ok(found),
        Err(other) => failure.merge(other),
    };
    let failure = match gain_energy(text, start) {
        Ok(found) => return Ok(found),
        Err(other) => failure.merge(other),
    };
    let failure = match gain_points_for_each(text, start) {
        Ok(found) => return Ok(found),
        Err(other) => failure.merge(other),
    };
    let failure = match gain_points(text, start) {
        Ok(found) => return Ok(found),
        Err(other) => failure.merge(other),
    };
    let failure = match gain_control(text, start) {
        Ok(found) => return Ok(found),
        Err(other) => failure.merge(other),
    };
    let failure = match lose_points(text, start) {
        Ok(found) => return Ok(found),
        Err(other) => failure.merge(other),
    };
    let failure = match enemy_gains_points_equal_to_its_spark(text, start) {
        Ok(found) => return Ok(found),
        Err(other) => failure.merge(other),
    };
    let failure = match enemy_gains_points(text, start) {
        Ok(found) => return Ok(found),
        Err(other) => failure.merge(other),
    };
    let failure = match enemy_loses_points(text, start) {
        Ok(found) => return Ok(found),
        Err(other) => failure.merge(other),
    };
    let failure = match disable_activated_abilities(text, start) {
        Ok(found) => return Ok(found),
        Err(other) => failure.merge(other),
    };
    let failure = match discover_and_then_materialize(text, start) {
        Ok(found) => return Ok(found),
        Err(other) => failure.merge(other),
    };
    let failure = match discover(text, start) {
        Ok(found) => return Ok(found),
        Err(other) => failure.merge(other),
    };
    let failure = match materialize_random_characters(text, start) {
        Ok(found) => return Ok(found),
        Err(other) => failure.merge(other),
    };
    let failure = match return_from_void_to_hand(text, start) {
        Ok(found) => return Ok(found),
        Err(other) => failure.merge(other),
    };
    let failure = match return_from_void_to_play(text, start) {
        Ok(found) => return Ok(found),
        Err(other) => failure.merge(other),
    };
    let failure = match gains_reclaim_until_end_of_turn(text, start) {
        Ok(found) => return Ok(found),
        Err(other) => failure.merge(other),
    };
    let failure = match negate(text, start) {
        Ok(found) => return Ok(found),
        Err(other) => failure.merge(other),
    };
    let failure = match abandon_at_end_of_turn(text, start) {
        Ok(found) => return Ok(found),
        Err(other) => failure.merge(other),
    };
    let failure = match banish_then_materialize(text, start) {
        Ok(found) => return Ok(found),
        Err(other) => failure.merge(other),
    };
    let failure = match banish_any_number_then_materialize(text, start) {
        Ok(found) => return Ok(found),
        Err(other) => failure.merge(other),
    };
    let failure = match banish_character(text, start) {
        Ok(found) => return Ok(found),
        Err(other) => failure.merge(other),
    };
    match foresee(text, start) {
        Ok(found) => Ok(found),
        Err(other) => Err(failure.merge(other)),
    }
}

fn card_count(text: &[char], start: usize) -> (r: Parsed<u64>)
    requires
        start <= text@.len(),
    ensures
        outcome(r) == standard_effect::card_count(text@, start as int),
        outcome(r).within(text@, start as int),
{
    let failure = match keyword(text, start, "a card", 1u64) {
        Ok(found) => return Ok(found),
        Err(failure) => failure,
    };
    match count(text, start, "", "cards") {
        Ok(found) => Ok(found),
        Err(other) => Err(failure.merge(other)),
    }
}

fn points_amount(text: &[char], start: usize, before: &'static str) -> (r: Parsed<Points>)
    requires
        start <= text@.len(),
    ensures
        outcome(r) == standard_effect::points_amount(text@, start as int, before),
        outcome(r).within(text@, start as int),
{
    let (amount, q1) = points(text, start, before, "$point")?;
    Ok((amount, maybe(text, q1, "s")))
}

fn points_count(text: &[char], start: usize, before: &'static str) -> (r: Parsed<u64>)
    requires
        start <= text@.len(),
    ensures
        outcome(r) == standard_effect::points_count(text@, start as int, before),
        outcome(r).within(text@, start as int),
{
    let (amount, q1) = count(text, start, before, "$point")?;
    Ok((amount, maybe(text, q1, "s")))
}

fn draw_cards(text: &[char], start: usize) -> (r: Parsed<StandardEffect>)
    requires
        start <= text@.len(),
    ensures
        outcome(r) == standard_effect::draw_cards(text@, start as int),
        outcome(r).within(text@, start as int),
{
    let q1 = phrase(text, start, "draw")?;
    let (count, q2) = card_count(text, q1)?;
    Ok((StandardEffect::DrawCards { count }, q2))
}

fn discard_cards(text: &[char], start: usize) -> (r: Parsed<StandardEffect>)
    requires
        start <= text@.len(),
    ensures
        outcome(r) == standard_effect::discard_cards(text@, start as int),
        outcome(r).within(text@, start as int),
{
    let q1 = phrase(text, start, "discard")?;
    let (count, q2) = card_count(text, q1)?;
    Ok((StandardEffect::DiscardCards { count }, q2))
}

fn gain_spark(text: &[char], start: usize) -> (r: Parsed<StandardEffect>)
    requires
        start <= text@.len(),
    ensures
        outcome(r) == standard_effect::gain_spark(text@, start as int),
        outcome(r).within(text@, start as int),
{
    let (target, q1) = target_parser(text, start)?;
    let (gains, q2) = spark(text, q1, "gains +", "spark")?;
    Ok((StandardEffect::GainsSpark { target, gains }, q2))
}

fn gain_energy(text: &[char], start: usize) -> (r: Parsed<StandardEffect>)
    requires
        start <= text@.len(),
    ensures
        outcome(r) == standard_effect::gain_energy(text@, start as int),
        outcome(r).within(text@, start as int),
{
    let (gains, next) = energy(text, start, "gain $", "")?;
    Ok((StandardEffect::GainEnergy { gains }, next))
}

fn gain_spark_until_next_main_for_each(text: &[char], start: usize) -> (r: Parsed<StandardEffect>)
    requires
        start <= text@.len(),
    ensures
        outcome(r) == standard_effect::gain_spark_until_next_main_for_each(text@, start as int),
        outcome(r).within(text@, start as int),
{
    let (target, q1) = target_parser(text, start)?;
    let (gains, q2) = spark(text, q1, "gains +", "spark until your next main phase for each")?;
    let (counted, q3) = card_predicate_parser::parser(text, q2)?;
    let q4 = phrase(text, q3, "you control")?;
    Ok(
        (
            StandardEffect::GainsSparkUntilYourNextMainForEach {
                target,
                gains,
                for_each: Predicate::Your(counted),
            },
            q4,
        ),
    )
}

fn dissolve_character(text: &[char], start: usize) -> (r: Parsed<StandardEffect>)
    requires
        start <= text@.len(),
    ensures
        outcome(r) == standard_effect::dissolve_character(text@, start as int),
        outcome(r).within(text@, start as int),
{
    let (target, next) = targeting(text, start, "dissolve", "")?;
    Ok((StandardEffect::DissolveCharacter { target }, next))
}

fn gains_aegis_this_turn(text: &[char], start: usize) -> (r: Parsed<StandardEffect>)
    requires
        start <= text@.len(),
    ensures
        outcome(r) == standard_effect::gains_aegis_this_turn(text@, start as int),
        outcome(r).within(text@, start as int),
{
    let (target, next) = targeting(text, start, "", "gains {kw: aegis} this turn")?;
    Ok((StandardEffect::GainsAegisThisTurn { target }, next))
}

fn draw_matching_card(text: &[char], start: usize) -> (r: Parsed<StandardEffect>)
    requires
        start <= text@.len(),
    ensures
        outcome(r) == standard_effect::draw_matching_card(text@, start as int),
        outcome(r).within(text@, start as int),
{
    let (predicate, next) = qualified(
        text,
        start,
        phrase(text, start, "draw a"),
        "from your deck",
    )?;
    Ok((StandardEffect::DrawMatchingCard { predicate }, next))
}

fn banish_card_from_enemy_void(text: &[char], start: usize) -> (r: Parsed<StandardEffect>)
    requires
        start <= text@.len(),
    ensures
        outcome(r) == standard_effect::banish_card_from_enemy_void(text@, start as int),
        outcome(r).within(text@, start as int),
{
    let q1 = phrase(text, start, "banish")?;
    let (count, q2) = card_count(text, q1)?;
    let q3 = phrase(text, q2, "from the enemy's void")?;
    Ok((StandardEffect::BanishCardsFromEnemyVoid { count }, q3))
}

fn disable_activated_abilities(text: &[char], start: usize) -> (r: Parsed<StandardEffect>)
    requires
        start <= text@.len(),
    ensures
        outcome(r) == standard_effect::disable_activated_abilities(text@, start as int),
        outcome(r).within(text@, start as int),
{
    let (target, next) = targeting(
        text,
        start,
        "disable the activated abilities of",
        "while this character is in play",
    )?;
    Ok((StandardEffect::DisableActivatedAbilitiesWhileInPlay { target }, next))
}

fn abandon_and_gain_energy_for_spark(text: &[char], start: usize) -> (r: Parsed<StandardEffect>)
    requires
        start <= text@.len(),
    ensures
        outcome(r) == standard_effect::abandon_and_gain_energy_for_spark(text@, start as int),
        outcome(r).within(text@, start as int),
{
    let (target, q1) = acting(text, start, "abandon", "")?;
    let (energy_per_spark, q2) = energy(text, q1, "and gain $", "")?;
    let q3 = phrase(text, q2, "for each point of spark that character had")?;
    Ok((StandardEffect::AbandonAndGainEnergyForSpark { target, energy_per_spark }, q3))
}

fn gain_energy_for_each(text: &[char], start: usize) -> (r: Parsed<StandardEffect>)
    requires
        start <= text@.len(),
    ensures
        outcome(r) == standard_effect::gain_energy_for_each(text@, start as int),
        outcome(r).within(text@, start as int),
{
    let (gains, q1) = energy(text, start, "gain $", "")?;
    let (for_each, q2) = for_each_parser(text, q1)?;
    Ok((StandardEffect::GainEnergyForEach { gains, for_each }, q2))
}

/// Reads "until end of turn, whenever ..." and the effect that it announces.
fn create_trigger_until_end_of_turn(text: &[char], start: usize) -> (r: Parsed<StandardEffect>)
    requires
        start <= text@.len(),
    ensures
        outcome(r) == standard_effect::create_trigger_until_end_of_turn(text@, start as int),
        outcome(r).within(text@, start as int),
{
    let q1 = phrase(text, start, "until end of turn, whenever")?;
    let (trigger, q2) = trigger_event_parser::event_parser(text, q1)?;
    let q3 = phrase(text, q2, ",")?;
    let (effect, q4) = non_recursive_effects(text, q3)?;
    let created = TriggeredAbility {
        trigger,
        effect: Effect::Effect(effect),
        options: Some(TriggeredAbilityOptions { once_per_turn: false, until_end_of_turn: true }),
    };
    Ok((StandardEffect::CreateTriggerUntilEndOfTurn { trigger: Box::new(created) }, q4))
}

/// Reads a number word and "random".
fn numbered_random(text: &[char], start: usize) -> (r: Parsed<u64>)
    requires
        start <= text@.len(),
    ensures
        outcome(r) == standard_effect::numbered_random(text@, start as int),
        outcome(r).within(text@, start as int),
{
    let (n, q1) = text_number(text, start)?;
    let q2 = phrase(text, q1, "random")?;
    Ok((n, q2))
}

fn discover(text: &[char], start: usize) -> (r: Parsed<StandardEffect>)
    requires
        start <= text@.len(),
    ensures
        outcome(r) == standard_effect::discover(text@, start as int),
        outcome(r).within(text@, start as int),
{
    let (predicate, next) = qualified(
        text,
        start,
        article_after(text, start, "{kw: discover}"),
        "",
    )?;
    Ok((StandardEffect::Discover { predicate }, next))
}

fn discover_and_then_materialize(text: &[char], start: usize) -> (r: Parsed<StandardEffect>)
    requires
        start <= text@.len(),
    ensures
        outcome(r) == standard_effect::discover_and_then_materialize(text@, start as int),
        outcome(r).within(text@, start as int),
{
    let (predicate, next) = qualified(
        text,
        start,
        article_after(text, start, "{kw: discover}"),
        "and materialize it",
    )?;
    Ok((StandardEffect::DiscoverAndThenMaterialize { predicate }, next))
}

fn random_count(text: &[char], start: usize) -> (r: Parsed<u64>)
    requires
        start <= text@.len(),
    ensures
        outcome(r) == standard_effect::random_count(text@, start as int),
        outcome(r).within(text@, start as int),
{
    let failure = match keyword(text, start, "a random", 1u64) {
        Ok(found) => return Ok(found),
        Err(failure) => failure,
    };
    match numbered_random(text, start) {
        Ok(found) => Ok(found),
        Err(other) => Err(failure.merge(other)),
    }
}

fn materialize_random_characters(text: &[char], start: usize) -> (r: Parsed<StandardEffect>)
    requires
        start <= text@.len(),
    ensures
        outcome(r) == standard_effect::materialize_random_characters(text@, start as int),
        outcome(r).within(text@, start as int),
{
    let q1 = phrase(text, start, "materialize")?;
    let (count, q2) = random_count(text, q1)?;
    let (predicate, q3) = card_predicate_parser::parser(text, q2)?;
    let q4 = phrase(text, q3, "from your deck")?;
    Ok((StandardEffect::MaterializeRandomFromDeck { count, predicate }, q4))
}

fn return_from_void_to_hand(text: &[char], start: usize) -> (r: Parsed<StandardEffect>)
    requires
        start <= text@.len(),
    ensures
        outcome(r) == standard_effect::return_from_void_to_hand(text@, start as int),
        outcome(r).within(text@, start as int),
{
    let (target, next) = acting(text, start, "return", "from your void to your hand")?;
    Ok((StandardEffect::ReturnFromYourVoidToHand { target }, next))
}

fn return_from_void_to_play(text: &[char], start: usize) -> (r: Parsed<StandardEffect>)
    requires
        start <= text@.len(),
    ensures
        outcome(r) == standard_effect::return_from_void_to_play(text@, start as int),
        outcome(r).within(text@, start as int),
{
    let (target, next) = acting(text, start, "return", "from your void to play")?;
    Ok((StandardEffect::ReturnFromYourVoidToPlay { target }, next))
}

fn gains_reclaim_until_end_of_turn(text: &[char], start: usize) -> (r: Parsed<StandardEffect>)
    requires
        start <= text@.len(),
    ensures
        outcome(r) == standard_effect::gains_reclaim_until_end_of_turn(text@, start as int),
        outcome(r).within(text@, start as int),
{
    let (target, next) = targeting(text, start, "", "gains {kw: reclaim} until end of turn")?;
    Ok((StandardEffect::GainsReclaimUntilEndOfTurn { target, cost: None }, next))
}

fn kindle(text: &[char], start: usize) -> (r: Parsed<StandardEffect>)
    requires
        start <= text@.len(),
    ensures
        outcome(r) == standard_effect::kindle(text@, start as int),
        outcome(r).within(text@, start as int),
{
    let (amount, next) = spark(text, start, "{kw: kindle}", "")?;
    Ok((StandardEffect::Kindle { amount }, next))
}

fn negate(text: &[char], start: usize) -> (r: Parsed<StandardEffect>)
    requires
        start <= text@.len(),
    ensures
        outcome(r) == standard_effect::negate(text@, start as int),
        outcome(r).within(text@, start as int),
{
    let (target, next) = targeting(text, start, "negate", "")?;
    Ok((StandardEffect::Negate { target }, next))
}

fn discard_card_from_enemy_hand(text: &[char], start: usize) -> (r: Parsed<StandardEffect>)
    requires
        start <= text@.len(),
    ensures
        outcome(r) == standard_effect::discard_card_from_enemy_hand(text@, start as int),
        outcome(r).within(text@, start as int),
{
    let (predicate, next) = qualified(
        text,
        start,
        article_after(text, start, "look at the enemy's hand. choose"),
        "from it. the enemy discards that card",
    )?;
    Ok((StandardEffect::DiscardCardFromEnemyHand { predicate }, next))
}

fn abandon_at_end_of_turn(text: &[char], start: usize) -> (r: Parsed<StandardEffect>)
    requires
        start <= text@.len(),
    ensures
        outcome(r) == standard_effect::abandon_at_end_of_turn(text@, start as int),
        outcome(r).within(text@, start as int),
{
    let (target, next) = targeting(text, start, "abandon", "at end of turn")?;
    Ok((StandardEffect::AbandonAtEndOfTurn { target }, next))
}

fn spend_all_energy_draw_and_discard(text: &[char], start: usize) -> (r: Parsed<StandardEffect>)
    requires
        start <= text@.len(),
    ensures
        outcome(r) == standard_effect::spend_all_energy_draw_and_discard(text@, start as int),
        outcome(r).within(text@, start as int),
{
    keyword(
        text,
        start,
        standard_effect::SPEND_ALL_ENERGY,
        StandardEffect::SpendAllEnergyDrawAndDiscard,
    )
}

fn put_on_top_of_deck(text: &[char], start: usize) -> (r: Parsed<StandardEffect>)
    requires
        start <= text@.len(),
    ensures
        outcome(r) == standard_effect::put_on_top_of_deck(text@, start as int),
        outcome(r).within(text@, start as int),
{
    let (target, next) = targeting(text, start, "put", "on top of the enemy's deck")?;
    Ok((StandardEffect::PutOnTopOfEnemyDeck { target }, next))
}

fn each_matching_gains_spark_for_each(text: &[char], start: usize) -> (r: Parsed<StandardEffect>)
    requires
        start <= text@.len(),
    ensures
        outcome(r) == standard_effect::each_matching_gains_spark_for_each(text@, start as int),
        outcome(r).within(text@, start as int),
{
    let (each, q1) = qualified(
        text,
        start,
        phrase(text, start, "each"),
        "you control gains +x spark, where x is the number of",
    )?;
    let (for_each, q2) = qualified(text, q1, phrase(text, q1, ""), "you control")?;
    Ok((StandardEffect::EachMatchingGainsSparkForEach { each, gains: Spark(1), for_each }, q2))
}

fn return_all_but_one_character_draw_card_for_each(
    text: &[char],
    start: usize,
) -> (r: Parsed<StandardEffect>)
    requires
        start <= text@.len(),
    ensures
        outcome(r) == standard_effect::return_all_but_one_character_draw_card_for_each(
            text@,
            start as int,
        ),
        outcome(r).within(text@, start as int),
{
    let q1 = phrase(text, start, "return")?;
    let (count, q2) = counting_expression_parser::parser(text, q1)?;
    let q3 = phrase(
        text,
        q2,
        "character you control to hand. draw a card for each character returned",
    )?;
    Ok((StandardEffect::ReturnCharactersToHandDrawCardForEach { count }, q3))
}

fn banish_character(text: &[char], start: usize) -> (r: Parsed<StandardEffect>)
    requires
        start <= text@.len(),
    ensures
        outcome(r) == standard_effect::banish_character(text@, start as int),
        outcome(r).within(text@, start as int),
{
    let (target, next) = targeting(text, start, "banish", "")?;
    Ok((StandardEffect::BanishCharacter { target }, next))
}

fn banish_then_materialize(text: &[char], start: usize) -> (r: Parsed<StandardEffect>)
    requires
        start <= text@.len(),
    ensures
        outcome(r) == standard_effect::banish_then_materialize(text@, start as int),
        outcome(r).within(text@, start as int),
{
    let (target, next) = targeting(text, start, "banish", ", then materialize it")?;
    Ok((StandardEffect::BanishThenMaterialize { target }, next))
}

fn banish_any_number_then_materialize(text: &[char], start: usize) -> (r: Parsed<StandardEffect>)
    requires
        start <= text@.len(),
    ensures
        outcome(r) == standard_effect::banish_any_number_then_materialize(text@, start as int),
        outcome(r).within(text@, start as int),
{
    let q1 = phrase(text, start, "banish")?;
    let (count, q2) = counting_expression_parser::parser(text, q1)?;
    let (target, q3) = counted_parser(text, q2)?;
    let q4 = phrase(text, q3, ", then materialize them")?;
    Ok((StandardEffect::BanishThenMaterializeCount { target, count }, q4))
}

fn materialize_character_from_void(text: &[char], start: usize) -> (r: Parsed<StandardEffect>)
    requires
        start <= text@.len(),
    ensures
        outcome(r) == standard_effect::materialize_character_from_void(text@, start as int),
        outcome(r).within(text@, start as int),
{
    let (target, next) = qualified(
        text,
        start,
        article_after(text, start, "materialize"),
        "from your void",
    )?;
    Ok((StandardEffect::MaterializeCharacterFromVoid { target }, next))
}

fn materialize_character(text: &[char], start: usize) -> (r: Parsed<StandardEffect>)
    requires
        start <= text@.len(),
    ensures
        outcome(r) == standard_effect::materialize_character(text@, start as int),
        outcome(r).within(text@, start as int),
{
    let (target, next) = targeting(text, start, "materialize", "")?;
    Ok((StandardEffect::MaterializeCharacter { target }, next))
}

fn gain_points(text: &[char], start: usize) -> (r: Parsed<StandardEffect>)
    requires
        start <= text@.len(),
    ensures
        outcome(r) == standard_effect::gain_points(text@, start as int),
        outcome(r).within(text@, start as int),
{
    let (gains, next) = points_amount(text, start, "gain")?;
    Ok((StandardEffect::GainPoints { gains }, next))
}

fn foresee(text: &[char], start: usize) -> (r: Parsed<StandardEffect>)
    requires
        start <= text@.len(),
    ensures
        outcome(r) == standard_effect::foresee(text@, start as int),
        outcome(r).within(text@, start as int),
{
    let (count, next) = count(text, start, "{kw: foresee}", "")?;
    Ok((StandardEffect::Foresee { count }, next))
}

fn lose_points(text: &[char], start: usize) -> (r: Parsed<StandardEffect>)
    requires
        start <= text@.len(),
    ensures
        outcome(r) == standard_effect::lose_points(text@, start as int),
        outcome(r).within(text@, start as int),
{
    let (loses, next) = points_amount(text, start, "you lose")?;
    Ok((StandardEffect::LosePoints { loses }, next))
}

fn dissolve_characters_count(text: &[char], start: usize) -> (r: Parsed<StandardEffect>)
    requires
        start <= text@.len(),
    ensures
        outcome(r) == standard_effect::dissolve_characters_count(text@, start as int),
        outcome(r).within(text@, start as int),
{
    let q1 = phrase(text, start, "dissolve")?;
    let (count, q2) = counting_expression_parser::parser(text, q1)?;
    let (target, q3) = counted_parser(text, q2)?;
    Ok((StandardEffect::DissolveCharactersCount { target, count }, q3))
}

fn enemy_gains_points(text: &[char], start: usize) -> (r: Parsed<StandardEffect>)
    requires
        start <= text@.len(),
    ensures
        outcome(r) == standard_effect::enemy_gains_points(text@, start as int),
        outcome(r).within(text@, start as int),
{
    let (count, next) = points_count(text, start, "the enemy gains")?;
    Ok((StandardEffect::EnemyGainsPoints { count }, next))
}

fn enemy_gains_points_equal_to_its_spark(text: &[char], start: usize) -> (r: Parsed<StandardEffect>)
    requires
        start <= text@.len(),
    ensures
        outcome(r) == standard_effect::enemy_gains_points_equal_to_its_spark(text@, start as int),
        outcome(r).within(text@, start as int),
{
    keyword(
        text,
        start,
        "the enemy gains $points equal to its spark",
        StandardEffect::EnemyGainsPointsEqualToItsSpark,
    )
}

fn enemy_loses_points(text: &[char], start: usize) -> (r: Parsed<StandardEffect>)
    requires
        start <= text@.len(),
    ensures
        outcome(r) == standard_effect::enemy_loses_points(text@, start as int),
        outcome(r).within(text@, start as int),
{
    let (count, next) = points_count(text, start, "the enemy loses")?;
    Ok((StandardEffect::EnemyLosesPoints { count }, next))
}

fn pay_cost(text: &[char], start: usize) -> (r: Parsed<StandardEffect>)
    requires
        start <= text@.len(),
    ensures
        outcome(r) == standard_effect::pay_cost(text@, start as int),
        outcome(r).within(text@, start as int),
{
    let (cost, next) = cost_parser::parser(text, start)?;
    Ok((StandardEffect::PayCost { cost }, next))
}

fn gain_control(text: &[char], start: usize) -> (r: Parsed<StandardEffect>)
    requires
        start <= text@.len(),
    ensures
        outcome(r) == standard_effect::gain_control(text@, start as int),
        outcome(r).within(text@, start as int),
{
    let (target, next) = targeting(text, start, "gain control of", "")?;
    Ok((StandardEffect::GainControl { target }, next))
}

fn return_to_hand(text: &[char], start: usize) -> (r: Parsed<StandardEffect>)
    requires
        start <= text@.len(),
    ensures
        outcome(r) == standard_effect::return_to_hand(text@, start as int),
        outcome(r).within(text@, start as int),
{
    let (target, next) = targeting(text, start, "return", "to hand")?;
    Ok((StandardEffect::ReturnToHand { target }, next))
}

fn gain_points_for_each(text: &[char], start: usize) -> (r: Parsed<StandardEffect>)
    requires
        start <= text@.len(),
    ensures
        outcome(r) == standard_effect::gain_points_for_each(text@, start as int),
        outcome(r).within(text@, start as int),
{
    let (gain, q1) = points_amount(text, start, "gain")?;
    let q2 = phrase(text, q1, "for each")?;
    let (for_count, q3) = quantity_expression_parser::parser(text, q2)?;
    Ok((StandardEffect::GainPointsForEach { gain, for_count }, q3))
}

fn draw_cards_for_each(text: &[char], start: usize) -> (r: Parsed<StandardEffect>)
    requires
        start <= text@.len(),
    ensures
        outcome(r) == standard_effect::draw_cards_for_each(text@, start as int),
        outcome(r).within(text@, start as int),
{
    let q1 = phrase(text, start, "draw")?;
    let (count, q2) = a_or_count(text, q1, "card", "cards")?;
    let q3 = phrase(text, q2, "for each")?;
    let (for_each, q4) = quantity_expression_parser::parser(text, q3)?;
    Ok((StandardEffect::DrawCardsForEach { count, for_each }, q4))
}

fn copy(text: &[char], start: usize) -> (r: Parsed<StandardEffect>)
    requires
        start <= text@.len(),
    ensures
        outcome(r) == standard_effect::copy(text@, start as int),
        outcome(r).within(text@, start as int),
{
    let (target, next) = targeting(text, start, "copy", "")?;
    Ok((StandardEffect::Copy { target }, next))
}

fn copy_next_played(text: &[char], start: usize) -> (r: Parsed<StandardEffect>)
    requires
        start <= text@.len(),
    ensures
        outcome(r) == standard_effect::copy_next_played(text@, start as int),
        outcome(r).within(text@, start as int),
{
    let (matching, q1) = qualified(text, start, phrase(text, start, "copy the next"), "you play")?;
    let (times, q2) = number_of_times(text, q1)?;
    Ok((StandardEffect::CopyNextPlayed { matching: Predicate::Your(matching), times }, q2))
}

} // verus!
