use crate::ability_data::cost::Cost;
use crate::ability_data::counting_expression::CountingExpression;
use crate::ability_data::effect::Effect;
use crate::ability_data::predicate::{CardPredicate, Predicate};
use crate::ability_data::quantity_expression::QuantityExpression;
use crate::ability_data::standard_effect::StandardEffect;
use crate::ability_data::trigger_event::TriggerEvent;
use crate::ability_data::triggered_ability::{TriggeredAbility, TriggeredAbilityOptions};
use crate::core_data::numerics::{Energy, Points, Spark};
use crate::grammar::card_predicate::card_predicate;
use crate::grammar::cost::cost;
use crate::grammar::counting_expression::counting_expression;
use crate::grammar::determiner::{acting, counted, for_each, qualified, target, targeting};
use crate::grammar::primitives::{
    a_or_count, article_after, count, energy, number_of_times, phrase, points, spark, text_number,
    Outcome,
};
use crate::grammar::quantity_expression::quantity_expression;
use crate::grammar::trigger_event::event;
use vstd::prelude::*;

verus! {

/// The wording of the effect that spends all energy to draw and discard.
pub const SPEND_ALL_ENERGY: &'static str =
    "spend all your remaining energy. draw x cards then discard x cards, \
     where x is the energy spent this way";

/// "a card", or a count and "cards".
pub open spec fn card_count(s: Seq<char>, p: int) -> Outcome<u64> {
    phrase(s, p, "a card").to(1u64).or(count(s, p, "", "cards"))
}

/// A number of points after `before`: "2 $points", "1 $point".
pub open spec fn points_amount(s: Seq<char>, p: int, before: &'static str) -> Outcome<Points> {
    points(s, p, before, "$point").maybe(s, "s")
}

/// A count of points after `before`.
pub open spec fn points_count(s: Seq<char>, p: int, before: &'static str) -> Outcome<u64> {
    count(s, p, before, "$point").maybe(s, "s")
}

/// "draw a character from your deck".
pub open spec fn draw_matching_card(s: Seq<char>, p: int) -> Outcome<StandardEffect> {
    qualified(s, phrase(s, p, "draw a"), "from your deck").map(
        |predicate: CardPredicate| StandardEffect::DrawMatchingCard { predicate },
    )
}

/// "draw a card for each character you control".
pub open spec fn draw_cards_for_each(s: Seq<char>, p: int) -> Outcome<StandardEffect> {
    phrase(s, p, "draw").keep(|q: int| a_or_count(s, q, "card", "cards")).skip(s, "for each").pair(
        |q: int| quantity_expression(s, q),
    ).map(
        |v: (u64, QuantityExpression)|
            StandardEffect::DrawCardsForEach { count: v.0, for_each: v.1 },
    )
}

/// "draw a card", "draw 2 cards".
pub open spec fn draw_cards(s: Seq<char>, p: int) -> Outcome<StandardEffect> {
    phrase(s, p, "draw").keep(|q: int| card_count(s, q)).map(
        |count: u64| StandardEffect::DrawCards { count },
    )
}

/// "discard a card", "discard 2 cards".
pub open spec fn discard_cards(s: Seq<char>, p: int) -> Outcome<StandardEffect> {
    phrase(s, p, "discard").keep(|q: int| card_count(s, q)).map(
        |count: u64| StandardEffect::DiscardCards { count },
    )
}

/// "banish 3 cards from the enemy's void".
pub open spec fn banish_card_from_enemy_void(s: Seq<char>, p: int) -> Outcome<StandardEffect> {
    phrase(s, p, "banish").keep(|q: int| card_count(s, q)).skip(s, "from the enemy's void").map(
        |count: u64| StandardEffect::BanishCardsFromEnemyVoid { count },
    )
}

/// "look at the enemy's hand. choose an event from it. the enemy discards
/// that card".
pub open spec fn discard_card_from_enemy_hand(s: Seq<char>, p: int) -> Outcome<StandardEffect> {
    qualified(
        s,
        article_after(s, p, "look at the enemy's hand. choose"),
        "from it. the enemy discards that card",
    ).map(|predicate: CardPredicate| StandardEffect::DiscardCardFromEnemyHand { predicate })
}

/// "return all but one character you control to hand. draw a card for each
/// character returned".
pub open spec fn return_all_but_one_character_draw_card_for_each(s: Seq<char>, p: int) -> Outcome<
    StandardEffect,
> {
    phrase(s, p, "return").keep(|q: int| counting_expression(s, q)).skip(
        s,
        "character you control to hand. draw a card for each character returned",
    ).map(
        |count: CountingExpression| StandardEffect::ReturnCharactersToHandDrawCardForEach { count },
    )
}

/// "put an enemy character on top of the enemy's deck".
pub open spec fn put_on_top_of_deck(s: Seq<char>, p: int) -> Outcome<StandardEffect> {
    targeting(s, p, "put", "on top of the enemy's deck").map(
        |target: Predicate| StandardEffect::PutOnTopOfEnemyDeck { target },
    )
}

/// The effect that spends all energy, in its one fixed wording.
pub open spec fn spend_all_energy_draw_and_discard(s: Seq<char>, p: int) -> Outcome<
    StandardEffect,
> {
    phrase(s, p, SPEND_ALL_ENERGY).to(StandardEffect::SpendAllEnergyDrawAndDiscard)
}

/// "materialize a character from your void".
pub open spec fn materialize_character_from_void(s: Seq<char>, p: int) -> Outcome<StandardEffect> {
    qualified(s, article_after(s, p, "materialize"), "from your void").map(
        |target: CardPredicate| StandardEffect::MaterializeCharacterFromVoid { target },
    )
}

/// "materialize that character".
pub open spec fn materialize_character(s: Seq<char>, p: int) -> Outcome<StandardEffect> {
    targeting(s, p, "materialize", "").map(
        |target: Predicate| StandardEffect::MaterializeCharacter { target },
    )
}

/// "dissolve up to two enemy characters".
pub open spec fn dissolve_characters_count(s: Seq<char>, p: int) -> Outcome<StandardEffect> {
    phrase(s, p, "dissolve").keep(|q: int| counting_expression(s, q)).pair(
        |q: int| counted(s, q),
    ).map(
        |v: (CountingExpression, Predicate)|
            StandardEffect::DissolveCharactersCount { target: v.1, count: v.0 },
    )
}

/// "return an enemy character to hand".
pub open spec fn return_to_hand(s: Seq<char>, p: int) -> Outcome<StandardEffect> {
    targeting(s, p, "return", "to hand").map(
        |target: Predicate| StandardEffect::ReturnToHand { target },
    )
}

/// "copy an event".
pub open spec fn copy(s: Seq<char>, p: int) -> Outcome<StandardEffect> {
    targeting(s, p, "copy", "").map(|target: Predicate| StandardEffect::Copy { target })
}

/// "copy the next event you play three times".
pub open spec fn copy_next_played(s: Seq<char>, p: int) -> Outcome<StandardEffect> {
    qualified(s, phrase(s, p, "copy the next"), "you play").pair(
        |q: int| number_of_times(s, q),
    ).map(
        |v: (CardPredicate, Option<u64>)|
            StandardEffect::CopyNextPlayed { matching: Predicate::Your(v.0), times: v.1 },
    )
}

/// The effects that move cards. An effect that ends in a phrase of its own
/// stands before the effect that its start would match.
#[verifier::opaque]
pub open spec fn card_effects(s: Seq<char>, p: int) -> Outcome<StandardEffect> {
    draw_matching_card(s, p)
        .or(draw_cards_for_each(s, p))
        .or(draw_cards(s, p))
        .or(discard_cards(s, p))
        .or(banish_card_from_enemy_void(s, p))
        .or(discard_card_from_enemy_hand(s, p))
        .or(return_all_but_one_character_draw_card_for_each(s, p))
        .or(put_on_top_of_deck(s, p))
        .or(spend_all_energy_draw_and_discard(s, p))
        .or(materialize_character_from_void(s, p))
        .or(materialize_character(s, p))
        .or(dissolve_characters_count(s, p))
        .or(return_to_hand(s, p))
        .or(copy(s, p))
        .or(copy_next_played(s, p))
}

/// "this character gains +1 spark until your next main phase for each
/// character you control".
pub open spec fn gain_spark_until_next_main_for_each(s: Seq<char>, p: int) -> Outcome<
    StandardEffect,
> {
    target(s, p).pair(
        |q: int| spark(s, q, "gains +", "spark until your next main phase for each"),
    ).pair(|q: int| card_predicate(s, q)).skip(s, "you control").map(
        |v: ((Predicate, Spark), CardPredicate)|
            StandardEffect::GainsSparkUntilYourNextMainForEach {
                target: v.0.0,
                gains: v.0.1,
                for_each: Predicate::Your(v.1),
            },
    )
}

/// "this character gains +1 spark".
pub open spec fn gain_spark(s: Seq<char>, p: int) -> Outcome<StandardEffect> {
    target(s, p).pair(|q: int| spark(s, q, "gains +", "spark")).map(
        |v: (Predicate, Spark)| StandardEffect::GainsSpark { target: v.0, gains: v.1 },
    )
}

/// "abandon a character and gain $1 for each point of spark that character
/// had".
pub open spec fn abandon_and_gain_energy_for_spark(s: Seq<char>, p: int) -> Outcome<
    StandardEffect,
> {
    acting(s, p, "abandon", "").pair(|q: int| energy(s, q, "and gain $", "")).skip(
        s,
        "for each point of spark that character had",
    ).map(
        |v: (Predicate, Energy)|
            StandardEffect::AbandonAndGainEnergyForSpark { target: v.0, energy_per_spark: v.1 },
    )
}

/// "each character you control gains +x spark, where x is the number of
/// characters you control".
pub open spec fn each_matching_gains_spark_for_each(s: Seq<char>, p: int) -> Outcome<
    StandardEffect,
> {
    qualified(
        s,
        phrase(s, p, "each"),
        "you control gains +x spark, where x is the number of",
    ).pair(|q: int| qualified(s, phrase(s, q, ""), "you control")).map(
        |v: (CardPredicate, CardPredicate)|
            StandardEffect::EachMatchingGainsSparkForEach {
                each: v.0,
                gains: Spark(1),
                for_each: v.1,
            },
    )
}

/// "{kw: kindle} 2".
pub open spec fn kindle(s: Seq<char>, p: int) -> Outcome<StandardEffect> {
    spark(s, p, "{kw: kindle}", "").map(|amount: Spark| StandardEffect::Kindle { amount })
}

/// The effects that change spark.
#[verifier::opaque]
pub open spec fn spark_effects(s: Seq<char>, p: int) -> Outcome<StandardEffect> {
    gain_spark_until_next_main_for_each(s, p)
        .or(gain_spark(s, p))
        .or(abandon_and_gain_energy_for_spark(s, p))
        .or(each_matching_gains_spark_for_each(s, p))
        .or(kindle(s, p))
}

/// "dissolve an enemy character".
pub open spec fn dissolve_character(s: Seq<char>, p: int) -> Outcome<StandardEffect> {
    targeting(s, p, "dissolve", "").map(
        |target: Predicate| StandardEffect::DissolveCharacter { target },
    )
}

/// "this character gains {kw: aegis} this turn".
pub open spec fn gains_aegis_this_turn(s: Seq<char>, p: int) -> Outcome<StandardEffect> {
    targeting(s, p, "", "gains {kw: aegis} this turn").map(
        |target: Predicate| StandardEffect::GainsAegisThisTurn { target },
    )
}

/// "gain $1 for each other character you control".
pub open spec fn gain_energy_for_each(s: Seq<char>, p: int) -> Outcome<StandardEffect> {
    energy(s, p, "gain $", "").pair(|q: int| for_each(s, q)).map(
        |v: (Energy, Predicate)| StandardEffect::GainEnergyForEach { gains: v.0, for_each: v.1 },
    )
}

/// "gain $3".
pub open spec fn gain_energy(s: Seq<char>, p: int) -> Outcome<StandardEffect> {
    energy(s, p, "gain $", "").map(|gains: Energy| StandardEffect::GainEnergy { gains })
}

/// "gain 1 $point for each card you have discarded this turn".
pub open spec fn gain_points_for_each(s: Seq<char>, p: int) -> Outcome<StandardEffect> {
    points_amount(s, p, "gain").skip(s, "for each").pair(|q: int| quantity_expression(s, q)).map(
        |v: (Points, QuantityExpression)|
            StandardEffect::GainPointsForEach { gain: v.0, for_count: v.1 },
    )
}

/// "gain 2 $points".
pub open spec fn gain_points(s: Seq<char>, p: int) -> Outcome<StandardEffect> {
    points_amount(s, p, "gain").map(|gains: Points| StandardEffect::GainPoints { gains })
}

/// "gain control of an enemy character".
pub open spec fn gain_control(s: Seq<char>, p: int) -> Outcome<StandardEffect> {
    targeting(s, p, "gain control of", "").map(
        |target: Predicate| StandardEffect::GainControl { target },
    )
}

/// "you lose 2 $points".
pub open spec fn lose_points(s: Seq<char>, p: int) -> Outcome<StandardEffect> {
    points_amount(s, p, "you lose").map(|loses: Points| StandardEffect::LosePoints { loses })
}

/// "the enemy gains $points equal to its spark".
pub open spec fn enemy_gains_points_equal_to_its_spark(s: Seq<char>, p: int) -> Outcome<
    StandardEffect,
> {
    phrase(s, p, "the enemy gains $points equal to its spark").to(
        StandardEffect::EnemyGainsPointsEqualToItsSpark,
    )
}

/// "the enemy gains 2 $points".
pub open spec fn enemy_gains_points(s: Seq<char>, p: int) -> Outcome<StandardEffect> {
    points_count(s, p, "the enemy gains").map(
        |count: u64| StandardEffect::EnemyGainsPoints { count },
    )
}

/// "the enemy loses 1 $point".
pub open spec fn enemy_loses_points(s: Seq<char>, p: int) -> Outcome<StandardEffect> {
    points_count(s, p, "the enemy loses").map(
        |count: u64| StandardEffect::EnemyLosesPoints { count },
    )
}

/// "disable the activated abilities of an enemy character while this
/// character is in play".
pub open spec fn disable_activated_abilities(s: Seq<char>, p: int) -> Outcome<StandardEffect> {
    targeting(s, p, "disable the activated abilities of", "while this character is in play").map(
        |target: Predicate| StandardEffect::DisableActivatedAbilitiesWhileInPlay { target },
    )
}

/// "{kw: discover} a character and materialize it".
pub open spec fn discover_and_then_materialize(s: Seq<char>, p: int) -> Outcome<StandardEffect> {
    qualified(
        s,
        article_after(s, p, "{kw: discover}"),
        "and materialize it",
    ).map(|predicate: CardPredicate| StandardEffect::DiscoverAndThenMaterialize { predicate })
}

/// "{kw: discover} an event".
pub open spec fn discover(s: Seq<char>, p: int) -> Outcome<StandardEffect> {
    qualified(s, article_after(s, p, "{kw: discover}"), "").map(
        |predicate: CardPredicate| StandardEffect::Discover { predicate },
    )
}

/// A number word and "random".
pub open spec fn numbered_random(s: Seq<char>, p: int) -> Outcome<u64> {
    text_number(s, p).skip(s, "random")
}

/// "a random", or a number word and "random".
pub open spec fn random_count(s: Seq<char>, p: int) -> Outcome<u64> {
    phrase(s, p, "a random").to(1u64).or(numbered_random(s, p))
}

/// "materialize two random characters from your deck".
pub open spec fn materialize_random_characters(s: Seq<char>, p: int) -> Outcome<StandardEffect> {
    phrase(s, p, "materialize").keep(|q: int| random_count(s, q)).pair(
        |q: int| card_predicate(s, q),
    ).skip(s, "from your deck").map(
        |v: (u64, CardPredicate)|
            StandardEffect::MaterializeRandomFromDeck { count: v.0, predicate: v.1 },
    )
}

/// "return a character from your void to your hand".
pub open spec fn return_from_void_to_hand(s: Seq<char>, p: int) -> Outcome<StandardEffect> {
    acting(s, p, "return", "from your void to your hand").map(
        |target: Predicate| StandardEffect::ReturnFromYourVoidToHand { target },
    )
}

/// "return this character from your void to play".
pub open spec fn return_from_void_to_play(s: Seq<char>, p: int) -> Outcome<StandardEffect> {
    acting(s, p, "return", "from your void to play").map(
        |target: Predicate| StandardEffect::ReturnFromYourVoidToPlay { target },
    )
}

/// "this event gains {kw: reclaim} until end of turn".
pub open spec fn gains_reclaim_until_end_of_turn(s: Seq<char>, p: int) -> Outcome<StandardEffect> {
    targeting(s, p, "", "gains {kw: reclaim} until end of turn").map(
        |target: Predicate| StandardEffect::GainsReclaimUntilEndOfTurn { target, cost: None },
    )
}

/// "negate an enemy event".
pub open spec fn negate(s: Seq<char>, p: int) -> Outcome<StandardEffect> {
    targeting(s, p, "negate", "").map(|target: Predicate| StandardEffect::Negate { target })
}

/// "abandon a character you control at end of turn".
pub open spec fn abandon_at_end_of_turn(s: Seq<char>, p: int) -> Outcome<StandardEffect> {
    targeting(s, p, "abandon", "at end of turn").map(
        |target: Predicate| StandardEffect::AbandonAtEndOfTurn { target },
    )
}

/// "banish an enemy character, then materialize it".
pub open spec fn banish_then_materialize(s: Seq<char>, p: int) -> Outcome<StandardEffect> {
    targeting(s, p, "banish", ", then materialize it").map(
        |target: Predicate| StandardEffect::BanishThenMaterialize { target },
    )
}

/// "banish any number of other characters you control, then materialize
/// them".
pub open spec fn banish_any_number_then_materialize(s: Seq<char>, p: int) -> Outcome<
    StandardEffect,
> {
    phrase(s, p, "banish").keep(|q: int| counting_expression(s, q)).pair(
        |q: int| counted(s, q),
    ).skip(s, ", then materialize them").map(
        |v: (CountingExpression, Predicate)|
            StandardEffect::BanishThenMaterializeCount { target: v.1, count: v.0 },
    )
}

/// "banish an enemy character".
pub open spec fn banish_character(s: Seq<char>, p: int) -> Outcome<StandardEffect> {
    targeting(s, p, "banish", "").map(
        |target: Predicate| StandardEffect::BanishCharacter { target },
    )
}

/// "{kw: foresee} 2".
pub open spec fn foresee(s: Seq<char>, p: int) -> Outcome<StandardEffect> {
    count(s, p, "{kw: foresee}", "").map(|count: u64| StandardEffect::Foresee { count })
}

/// The other effects on the game. As everywhere, the longer form of two
/// effects that start alike stands first.
#[verifier::opaque]
pub open spec fn game_effects(s: Seq<char>, p: int) -> Outcome<StandardEffect> {
    dissolve_character(s, p)
        .or(gains_aegis_this_turn(s, p))
        .or(gain_energy_for_each(s, p))
        .or(gain_energy(s, p))
        .or(gain_points_for_each(s, p))
        .or(gain_points(s, p))
        .or(gain_control(s, p))
        .or(lose_points(s, p))
        .or(enemy_gains_points_equal_to_its_spark(s, p))
        .or(enemy_gains_points(s, p))
        .or(enemy_loses_points(s, p))
        .or(disable_activated_abilities(s, p))
        .or(discover_and_then_materialize(s, p))
        .or(discover(s, p))
        .or(materialize_random_characters(s, p))
        .or(return_from_void_to_hand(s, p))
        .or(return_from_void_to_play(s, p))
        .or(gains_reclaim_until_end_of_turn(s, p))
        .or(negate(s, p))
        .or(abandon_at_end_of_turn(s, p))
        .or(banish_then_materialize(s, p))
        .or(banish_any_number_then_materialize(s, p))
        .or(banish_character(s, p))
        .or(foresee(s, p))
}

/// Paying a cost as an effect.
pub open spec fn pay_cost(s: Seq<char>, p: int) -> Outcome<StandardEffect> {
    cost(s, p).map(|cost: Cost| StandardEffect::PayCost { cost })
}

/// The effects that hold no other effect. The order of the groups and of
/// the effects in them is one flat order of priority.
#[verifier::opaque]
pub open spec fn non_recursive_effects(s: Seq<char>, p: int) -> Outcome<StandardEffect> {
    card_effects(s, p).or(spark_effects(s, p)).or(game_effects(s, p)).or(pay_cost(s, p))
}

/// The triggered ability that "until end of turn, whenever ..." creates.
pub open spec fn created_trigger(trigger: TriggerEvent, effect: StandardEffect) -> StandardEffect {
    StandardEffect::CreateTriggerUntilEndOfTurn {
        trigger: Box::new(
            TriggeredAbility {
                trigger,
                effect: Effect::Effect(effect),
                options: Some(
                    TriggeredAbilityOptions { once_per_turn: false, until_end_of_turn: true },
                ),
            },
        ),
    }
}

/// "until end of turn, whenever you play an event, draw a card". The
/// effect inside holds no further effect.
pub open spec fn create_trigger_until_end_of_turn(s: Seq<char>, p: int) -> Outcome<
    StandardEffect,
> {
    phrase(s, p, "until end of turn, whenever").keep(|q: int| event(s, q)).skip(s, ",").pair(
        |q: int| non_recursive_effects(s, q),
    ).map(|v: (TriggerEvent, StandardEffect)| created_trigger(v.0, v.1))
}

/// Any standard effect.
#[verifier::opaque]
pub open spec fn standard_effect(s: Seq<char>, p: int) -> Outcome<StandardEffect> {
    non_recursive_effects(s, p).or(create_trigger_until_end_of_turn(s, p))
}

} // verus!
