use dreamcaller::ability_data::ability::Ability;
use dreamcaller::ability_data::cost::Cost;
use dreamcaller::ability_data::effect::Effect;
use dreamcaller::ability_data::predicate::{CardPredicate, Predicate};
use dreamcaller::ability_data::standard_effect::StandardEffect;
use dreamcaller::ability_data::static_ability::{PlayFromVoid, StaticAbility};
use dreamcaller::core_data::character_type::CharacterType;
use dreamcaller::core_data::numerics::{Energy, Spark};
use dreamcaller::parser::ability_parser::parse;
use dreamcaller::parser::static_ability_parser;

fn rule(text: &str) -> StaticAbility {
    match parse(text) {
        Ok(Ability::Static(found)) => found,
        other => panic!("no static ability: {:?}", other),
    }
}

#[test]
fn static_parser_reads_at_an_offset() {
    let text: Vec<char> = ": {kw: reclaim} $3 and more".chars().collect();
    let (found, next) = static_ability_parser::parser(&text, 1).unwrap();
    assert_eq!(found, StaticAbility::Reclaim { cost: Some(Cost::Energy(Energy(3))) });
    assert_eq!(next, 19);
}

#[test]
fn rules_without_operands() {
    assert_eq!(
        rule("Disable the \"$materialized\" abilities of the enemy's characters."),
        StaticAbility::DisableEnemyMaterializedAbilities
    );
    assert_eq!(
        rule("Disable the \"$materialized\" abilities of enemy characters."),
        StaticAbility::DisableEnemyMaterializedAbilities
    );
    assert_eq!(
        rule("This character has all character types."),
        StaticAbility::HasAllCharacterTypes
    );
    assert_eq!(
        rule("You may only play this character from your void."),
        StaticAbility::PlayOnlyFromVoid
    );
    assert_eq!(
        rule("Characters in your hand have '$fast'."),
        StaticAbility::CharactersInHandHaveFast
    );
    assert_eq!(
        rule("You may look at the top card of your deck."),
        StaticAbility::YouMayLookAtTopCardOfYourDeck
    );
}

#[test]
fn rules_with_a_predicate() {
    assert_eq!(
        rule("Once per turn, you may play a character from your void."),
        StaticAbility::OncePerTurnPlayFromVoid { matching: CardPredicate::Character }
    );
    assert_eq!(
        rule("The enemy's events cost $1 more."),
        StaticAbility::EnemyCardsCostIncrease {
            matching: CardPredicate::Event,
            increase: Energy(1)
        }
    );
    assert_eq!(
        rule("Other {cardtype: warriors} you control have +1 spark."),
        StaticAbility::OtherCharactersSparkBonus {
            matching: CardPredicate::CharacterType(CharacterType::Warrior),
            added_spark: Spark(1),
        }
    );
    assert_eq!(
        rule("This character's spark is equal to the number of cards in your void."),
        StaticAbility::SparkEqualToPredicateCount {
            predicate: Predicate::YourVoid(CardPredicate::Card)
        }
    );
    assert_eq!(
        rule(
            "The '$judgment' ability of characters you control triggers when you materialize \
             them."
        ),
        StaticAbility::JudgmentTriggersWhenMaterialized {
            predicate: Predicate::Your(CardPredicate::Character)
        }
    );
    assert_eq!(
        rule("You may play characters from the top of your deck."),
        StaticAbility::YouMayPlayFromTopOfDeck { matching: CardPredicate::Character }
    );
}

#[test]
fn play_from_void_parts_are_independent() {
    assert_eq!(
        rule("You may play this character from your void for $3."),
        StaticAbility::PlayFromVoid(PlayFromVoid {
            condition: None,
            energy_cost: Some(Energy(3)),
            additional_cost: Cost::NoCost,
            if_you_do: None,
        })
    );
    assert_eq!(
        rule(
            "You may play this character from your void by banishing all other cards from your \
             void."
        ),
        StaticAbility::PlayFromVoid(PlayFromVoid {
            condition: None,
            energy_cost: None,
            additional_cost: Cost::BanishAllCardsFromYourVoid,
            if_you_do: None,
        })
    );
    assert_eq!(
        rule("You may play this character from your void by banishing all cards from your void."),
        StaticAbility::PlayFromVoid(PlayFromVoid {
            condition: None,
            energy_cost: None,
            additional_cost: Cost::BanishAllCardsFromYourVoid,
            if_you_do: None,
        })
    );
    assert_eq!(
        rule("You may play this event from your void. If you do, gain $1."),
        StaticAbility::PlayFromVoid(PlayFromVoid {
            condition: None,
            energy_cost: None,
            additional_cost: Cost::NoCost,
            if_you_do: Some(Effect::Effect(StandardEffect::GainEnergy { gains: Energy(1) })),
        })
    );
}
