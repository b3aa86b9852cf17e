use crate::ability_data::condition::Condition;
use crate::ability_data::cost::Cost;
use crate::ability_data::effect::Effect;
use crate::ability_data::predicate::{CardPredicate, Predicate};
use crate::ability_data::standard_effect::StandardEffect;
use crate::ability_data::static_ability::{AlternateCost, PlayFromVoid, StaticAbility};
use crate::core_data::numerics::{Energy, Spark};
use crate::grammar::card_predicate::card_predicate;
use crate::grammar::condition::condition;
use crate::grammar::cost::inflected_additional_cost;
use crate::grammar::determiner::{counted, qualified};
use crate::grammar::primitives::{energy, phrase, spark, this, Outcome};
use crate::grammar::standard_effect::standard_effect;
use vstd::prelude::*;

verus! {

/// "if", a condition and a comma.
pub open spec fn gate(s: Seq<char>, p: int) -> Outcome<Condition> {
    phrase(s, p, "if").keep(|q: int| condition(s, q)).skip(s, ",")
}

/// "by" and a cost in the wording of static abilities.
pub open spec fn by_cost(s: Seq<char>, p: int) -> Outcome<Cost> {
    phrase(s, p, "by").keep(|q: int| inflected_additional_cost(s, q))
}

/// The cost that "by ..." adds, or no cost where no "by" stands.
pub open spec fn additional_cost(s: Seq<char>, p: int) -> Outcome<Cost> {
    by_cost(s, p).or(Outcome::Match(Cost::NoCost, p))
}

/// ". if you do," and a standard effect.
pub open spec fn then_effect(s: Seq<char>, p: int) -> Outcome<Effect> {
    phrase(s, p, ". if you do,").keep(|q: int| standard_effect(s, q)).map(
        |e: StandardEffect| Effect::Effect(e),
    )
}

/// The effect that ". if you do, ..." adds, if it stands there.
pub open spec fn if_you_do(s: Seq<char>, p: int) -> Outcome<Option<Effect>> {
    then_effect(s, p).or_not(p)
}

/// "for $" and an amount of energy, if they stand there.
pub open spec fn optional_energy(s: Seq<char>, p: int) -> Outcome<Option<Energy>> {
    energy(s, p, "for $", "").or_not(p)
}

/// "characters cost you $2 more".
pub open spec fn cost_increase(s: Seq<char>, p: int) -> Outcome<StaticAbility> {
    card_predicate(s, p).pair(|q: int| energy(s, q, "cost you $", "more")).map(
        |v: (CardPredicate, Energy)|
            StaticAbility::YourCardsCostIncrease { matching: v.0, reduction: v.1 },
    )
}

/// "events cost you $1 less".
pub open spec fn cost_reduction(s: Seq<char>, p: int) -> Outcome<StaticAbility> {
    card_predicate(s, p).pair(|q: int| energy(s, q, "cost you $", "less")).map(
        |v: (CardPredicate, Energy)|
            StaticAbility::YourCardsCostReduction { matching: v.0, reduction: v.1 },
    )
}

/// "disable the "$materialized" abilities of enemy characters".
pub open spec fn disable_enemy_materialized_abilities(s: Seq<char>, p: int) -> Outcome<
    StaticAbility,
> {
    phrase(s, p, "disable the \"$materialized\" abilities of").keep(
        |q: int| phrase(s, q, "the enemy's characters").or(phrase(s, q, "enemy characters")),
    ).to(StaticAbility::DisableEnemyMaterializedAbilities)
}

/// "once per turn, you may play a character from your void".
pub open spec fn once_per_turn_play_from_void(s: Seq<char>, p: int) -> Outcome<StaticAbility> {
    qualified(s, phrase(s, p, "once per turn, you may play a"), "from your void").map(
        |matching: CardPredicate| StaticAbility::OncePerTurnPlayFromVoid { matching },
    )
}

/// "the enemy's events cost $1 more".
pub open spec fn enemy_added_cost_to_play(s: Seq<char>, p: int) -> Outcome<StaticAbility> {
    qualified(s, phrase(s, p, "the enemy's"), "").pair(
        |q: int| energy(s, q, "cost $", "more"),
    ).map(
        |v: (CardPredicate, Energy)|
            StaticAbility::EnemyCardsCostIncrease { matching: v.0, increase: v.1 },
    )
}

/// "other characters you control have +1 spark".
pub open spec fn other_spark_bonus(s: Seq<char>, p: int) -> Outcome<StaticAbility> {
    qualified(s, phrase(s, p, "other"), "").pair(
        |q: int| spark(s, q, "you control have +", "spark"),
    ).map(
        |v: (CardPredicate, Spark)|
            StaticAbility::OtherCharactersSparkBonus { matching: v.0, added_spark: v.1 },
    )
}

/// "this character has all character types".
pub open spec fn has_all_character_types(s: Seq<char>, p: int) -> Outcome<StaticAbility> {
    phrase(s, p, "this character has all character types").to(StaticAbility::HasAllCharacterTypes)
}

/// "you may play this character from your void for $2 by banishing another
/// card from your void. if you do, draw a card", each part after "from your
/// void" being optional, and a condition being allowed in front.
pub open spec fn play_from_void(s: Seq<char>, p: int) -> Outcome<StaticAbility> {
    gate(s, p).or_not(p).skip(s, "you may play").omit(|q: int| this(s, q)).skip(
        s,
        "from your void",
    ).pair(|q: int| optional_energy(s, q)).pair(|q: int| additional_cost(s, q)).pair(
        |q: int| if_you_do(s, q),
    ).map(
        |v: (((Option<Condition>, Option<Energy>), Cost), Option<Effect>)|
            StaticAbility::PlayFromVoid(
                PlayFromVoid {
                    condition: v.0.0.0,
                    energy_cost: v.0.0.1,
                    additional_cost: v.0.1,
                    if_you_do: v.1,
                },
            ),
    )
}

/// "you may play this event for $0 by abandoning 2 characters", with the
/// same optional parts as playing from the void.
pub open spec fn play_for_alternate_cost(s: Seq<char>, p: int) -> Outcome<StaticAbility> {
    gate(s, p).or_not(p).skip(s, "you may play").omit(|q: int| this(s, q)).pair(
        |q: int| energy(s, q, "for $", ""),
    ).pair(|q: int| additional_cost(s, q)).pair(|q: int| if_you_do(s, q)).map(
        |v: (((Option<Condition>, Energy), Cost), Option<Effect>)|
            StaticAbility::PlayForAlternateCost(
                AlternateCost {
                    condition: v.0.0.0,
                    energy_cost: v.0.0.1,
                    additional_cost: v.0.1,
                    if_you_do: v.1,
                },
            ),
    )
}

/// "if you control 2 other characters, this character costs $1".
pub open spec fn simple_alternate_cost(s: Seq<char>, p: int) -> Outcome<StaticAbility> {
    gate(s, p).omit(|q: int| this(s, q)).pair(|q: int| energy(s, q, "costs $", "")).map(
        |v: (Condition, Energy)|
            StaticAbility::PlayForAlternateCost(
                AlternateCost {
                    condition: Some(v.0),
                    energy_cost: v.1,
                    additional_cost: Cost::NoCost,
                    if_you_do: None,
                },
            ),
    )
}

/// "you may only play this character from your void".
pub open spec fn play_only_from_void(s: Seq<char>, p: int) -> Outcome<StaticAbility> {
    phrase(s, p, "you may only play this character from your void").to(
        StaticAbility::PlayOnlyFromVoid,
    )
}

/// The cost of reclaiming, where the text names one.
pub open spec fn reclaim_cost(amount: Option<Energy>) -> Option<Cost> {
    match amount {
        Some(e) => Some(Cost::Energy(e)),
        None => None,
    }
}

/// "{kw: reclaim}", "{kw: reclaim} $2".
pub open spec fn reclaim(s: Seq<char>, p: int) -> Outcome<StaticAbility> {
    phrase(s, p, "{kw: reclaim}").keep(|q: int| energy(s, q, "$", "").or_not(q)).map(
        |amount: Option<Energy>| StaticAbility::Reclaim { cost: reclaim_cost(amount) },
    )
}

/// "this character's spark is equal to the number of cards in your void".
pub open spec fn spark_equal_to_predicate_count(s: Seq<char>, p: int) -> Outcome<StaticAbility> {
    phrase(s, p, "this character's spark is equal to the number of").keep(
        |q: int| counted(s, q),
    ).map(|predicate: Predicate| StaticAbility::SparkEqualToPredicateCount { predicate })
}

/// "characters in your hand have '$fast'".
pub open spec fn characters_in_hand_have_fast(s: Seq<char>, p: int) -> Outcome<StaticAbility> {
    phrase(s, p, "characters in your hand have '$fast'").to(
        StaticAbility::CharactersInHandHaveFast,
    )
}

/// "the '$judgment' ability of characters you control triggers when you
/// materialize them".
pub open spec fn judgment_triggers_when_materialized(s: Seq<char>, p: int) -> Outcome<
    StaticAbility,
> {
    phrase(s, p, "the '$judgment' ability of").keep(|q: int| counted(s, q)).skip(
        s,
        "triggers when you materialize them",
    ).map(|predicate: Predicate| StaticAbility::JudgmentTriggersWhenMaterialized { predicate })
}

/// "you may look at the top card of your deck".
pub open spec fn look_at_top_card(s: Seq<char>, p: int) -> Outcome<StaticAbility> {
    phrase(s, p, "you may look at the top card of your deck").to(
        StaticAbility::YouMayLookAtTopCardOfYourDeck,
    )
}

/// "you may play characters from the top of your deck".
pub open spec fn play_from_top_of_deck(s: Seq<char>, p: int) -> Outcome<StaticAbility> {
    qualified(s, phrase(s, p, "you may play"), "from the top of your deck").map(
        |matching: CardPredicate| StaticAbility::YouMayPlayFromTopOfDeck { matching },
    )
}

/// A static ability: the longest menu of the grammar, in one order of
/// priority.
#[verifier::opaque]
pub open spec fn static_ability(s: Seq<char>, p: int) -> Outcome<StaticAbility> {
    cost_increase(s, p)
        .or(cost_reduction(s, p))
        .or(disable_enemy_materialized_abilities(s, p))
        .or(once_per_turn_play_from_void(s, p))
        .or(enemy_added_cost_to_play(s, p))
        .or(other_spark_bonus(s, p))
        .or(has_all_character_types(s, p))
        .or(play_from_void(s, p))
        .or(simple_alternate_cost(s, p))
        .or(play_for_alternate_cost(s, p))
        .or(play_only_from_void(s, p))
        .or(reclaim(s, p))
        .or(spark_equal_to_predicate_count(s, p))
        .or(characters_in_hand_have_fast(s, p))
        .or(judgment_triggers_when_materialized(s, p))
        .or(look_at_top_card(s, p))
        .or(play_from_top_of_deck(s, p))
}

} // verus!
