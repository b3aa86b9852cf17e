use dreamcaller::ability_data::ability::Ability;
use dreamcaller::ability_data::cost::Cost;
use dreamcaller::ability_data::counting_expression::CountingExpression;
use dreamcaller::ability_data::effect::Effect;
use dreamcaller::ability_data::predicate::{CardPredicate, Operator, Predicate};
use dreamcaller::ability_data::quantity_expression::QuantityExpression;
use dreamcaller::ability_data::standard_effect::StandardEffect;
use dreamcaller::ability_data::trigger_event::TriggerEvent;
use dreamcaller::ability_data::triggered_ability::{TriggeredAbility, TriggeredAbilityOptions};
use dreamcaller::core_data::character_type::CharacterType;
use dreamcaller::core_data::numerics::{Energy, Points, Spark};
use dreamcaller::parser::ability_parser::parse;
use dreamcaller::parser::standard_effect_parser;

fn event(text: &str) -> StandardEffect {
    match parse(text) {
        Ok(Ability::Event(Effect::Effect(effect))) => effect,
        other => panic!("no single effect: {:?}", other),
    }
}

fn enemy_character() -> Predicate {
    Predicate::Enemy(CardPredicate::Character)
}

#[test]
fn standard_effect_parser_reads_at_an_offset() {
    let text: Vec<char> = "xx draw 3 cards. rest".chars().collect();
    let (effect, next) = standard_effect_parser::parser(&text, 2).unwrap();
    assert_eq!(effect, StandardEffect::DrawCards { count: 3 });
    assert_eq!(next, 15);
    let failure = standard_effect_parser::parser(&text, 0).unwrap_err();
    assert_eq!(failure.at, 0);
    assert!(!failure.errors.is_empty());
}

#[test]
fn draw_effects() {
    assert_eq!(event("Draw a card."), StandardEffect::DrawCards { count: 1 });
    assert_eq!(event("Draw 4 cards."), StandardEffect::DrawCards { count: 4 });
    assert_eq!(
        event("Draw a {cardtype: warrior} from your deck."),
        StandardEffect::DrawMatchingCard {
            predicate: CardPredicate::CharacterType(CharacterType::Warrior)
        }
    );
    assert_eq!(
        event("Draw a card for each character you control."),
        StandardEffect::DrawCardsForEach {
            count: 1,
            for_each: QuantityExpression::Matching(Predicate::Your(CardPredicate::Character)),
        }
    );
    assert_eq!(
        event("Draw 2 cards for each card you have drawn this turn."),
        StandardEffect::DrawCardsForEach {
            count: 2,
            for_each: QuantityExpression::CardsDrawnThisTurn(CardPredicate::Card),
        }
    );
}

#[test]
fn discard_and_banish_from_void_effects() {
    assert_eq!(event("Discard a card."), StandardEffect::DiscardCards { count: 1 });
    assert_eq!(event("Discard 2 cards."), StandardEffect::DiscardCards { count: 2 });
    assert_eq!(
        event("Banish a card from the enemy's void."),
        StandardEffect::BanishCardsFromEnemyVoid { count: 1 }
    );
    assert_eq!(
        event("Banish 3 cards from the enemy's void."),
        StandardEffect::BanishCardsFromEnemyVoid { count: 3 }
    );
    assert_eq!(
        event("Look at the enemy's hand. Choose an event from it. The enemy discards that card."),
        StandardEffect::DiscardCardFromEnemyHand { predicate: CardPredicate::Event }
    );
}

#[test]
fn effects_with_sentences_inside() {
    assert_eq!(
        event(
            "Return all but one character you control to hand. Draw a card for each character \
             returned."
        ),
        StandardEffect::ReturnCharactersToHandDrawCardForEach {
            count: CountingExpression::AllButOne
        }
    );
    assert_eq!(
        event(
            "Spend all your remaining energy. Draw X cards then discard X cards, where X is the \
             energy spent this way."
        ),
        StandardEffect::SpendAllEnergyDrawAndDiscard
    );
}

#[test]
fn materialize_effects() {
    assert_eq!(
        event("Materialize a character from your void."),
        StandardEffect::MaterializeCharacterFromVoid { target: CardPredicate::Character }
    );
    assert_eq!(
        event("Materialize that character."),
        StandardEffect::MaterializeCharacter { target: Predicate::That }
    );
    assert_eq!(
        event("Materialize a random character from your deck."),
        StandardEffect::MaterializeRandomFromDeck { count: 1, predicate: CardPredicate::Character }
    );
    assert_eq!(
        event("Materialize two random characters from your deck."),
        StandardEffect::MaterializeRandomFromDeck { count: 2, predicate: CardPredicate::Character }
    );
}

#[test]
fn dissolve_effects() {
    assert_eq!(
        event("Dissolve an enemy character."),
        StandardEffect::DissolveCharacter { target: enemy_character() }
    );
    assert_eq!(
        event("Dissolve all characters."),
        StandardEffect::DissolveCharactersCount {
            target: Predicate::Any(CardPredicate::Character),
            count: CountingExpression::All,
        }
    );
    assert_eq!(
        event("Dissolve up to two enemy characters."),
        StandardEffect::DissolveCharactersCount {
            target: enemy_character(),
            count: CountingExpression::UpTo(2),
        }
    );
    assert_eq!(
        event("Dissolve up to 12 enemy characters."),
        StandardEffect::DissolveCharactersCount {
            target: enemy_character(),
            count: CountingExpression::UpTo(12),
        }
    );
    assert_eq!(
        event("Dissolve exactly 2 other characters you control."),
        StandardEffect::DissolveCharactersCount {
            target: Predicate::Another(CardPredicate::Character),
            count: CountingExpression::Exactly(2),
        }
    );
    assert_eq!(
        event("Dissolve 3 or more characters in your void."),
        StandardEffect::DissolveCharactersCount {
            target: Predicate::YourVoid(CardPredicate::Character),
            count: CountingExpression::OrMore(3),
        }
    );
    assert_eq!(
        event("Dissolve any number of characters in the enemy's void."),
        StandardEffect::DissolveCharactersCount {
            target: Predicate::EnemyVoid(CardPredicate::Character),
            count: CountingExpression::AnyNumberOf,
        }
    );
}

#[test]
fn all_but_one_is_not_read_as_all() {
    assert_eq!(
        event("Dissolve all but one enemy character."),
        StandardEffect::DissolveCharactersCount {
            target: enemy_character(),
            count: CountingExpression::AllButOne,
        }
    );
}

#[test]
fn return_and_copy_effects() {
    assert_eq!(
        event("Return an enemy character to hand."),
        StandardEffect::ReturnToHand { target: enemy_character() }
    );
    assert_eq!(
        event("Return a character from your void to your hand."),
        StandardEffect::ReturnFromYourVoidToHand {
            target: Predicate::Your(CardPredicate::Character)
        }
    );
    assert_eq!(
        event("Return this character from your void to play."),
        StandardEffect::ReturnFromYourVoidToPlay { target: Predicate::This }
    );
    assert_eq!(
        event("Copy an event."),
        StandardEffect::Copy { target: Predicate::Any(CardPredicate::Event) }
    );
    assert_eq!(
        event("Copy it."),
        StandardEffect::Copy { target: Predicate::It }
    );
    assert_eq!(
        event("Copy the next event you play twice."),
        StandardEffect::CopyNextPlayed {
            matching: Predicate::Your(CardPredicate::Event),
            times: Some(2),
        }
    );
    assert_eq!(
        event("Copy the next event you play three times."),
        StandardEffect::CopyNextPlayed {
            matching: Predicate::Your(CardPredicate::Event),
            times: Some(3),
        }
    );
    assert_eq!(
        event("Copy the next character you play."),
        StandardEffect::CopyNextPlayed {
            matching: Predicate::Your(CardPredicate::Character),
            times: None,
        }
    );
    assert_eq!(
        event("Put an enemy character on top of the enemy's deck."),
        StandardEffect::PutOnTopOfEnemyDeck { target: enemy_character() }
    );
}

#[test]
fn spark_effects() {
    assert_eq!(
        event("This character gains +2 spark."),
        StandardEffect::GainsSpark { target: Predicate::This, gains: Spark(2) }
    );
    assert_eq!(
        event("Another character you control gains +1 spark."),
        StandardEffect::GainsSpark {
            target: Predicate::Another(CardPredicate::Character),
            gains: Spark(1),
        }
    );
    assert_eq!(
        event(
            "This character gains +2 spark until your next main phase for each {cardtype: \
             warrior} you control."
        ),
        StandardEffect::GainsSparkUntilYourNextMainForEach {
            target: Predicate::This,
            gains: Spark(2),
            for_each: Predicate::Your(CardPredicate::CharacterType(CharacterType::Warrior)),
        }
    );
    assert_eq!(
        event("Abandon a character and gain $1 for each point of spark that character had."),
        StandardEffect::AbandonAndGainEnergyForSpark {
            target: Predicate::Your(CardPredicate::Character),
            energy_per_spark: Energy(1),
        }
    );
    assert_eq!(
        event(
            "Each {cardtype: spirit animal} you control gains +X spark, where X is the number of \
             {cardtype: spirit animals} you control."
        ),
        StandardEffect::EachMatchingGainsSparkForEach {
            each: CardPredicate::CharacterType(CharacterType::SpiritAnimal),
            gains: Spark(1),
            for_each: CardPredicate::CharacterType(CharacterType::SpiritAnimal),
        }
    );
    assert_eq!(event("{kw: kindle} 2."), StandardEffect::Kindle { amount: Spark(2) });
}

#[test]
fn energy_and_points_effects() {
    assert_eq!(event("Gain $3."), StandardEffect::GainEnergy { gains: Energy(3) });
    assert_eq!(event("Gain $0."), StandardEffect::GainEnergy { gains: Energy(0) });
    assert_eq!(
        event("Gain $2 for each other character you control."),
        StandardEffect::GainEnergyForEach {
            gains: Energy(2),
            for_each: Predicate::Another(CardPredicate::Character),
        }
    );
    assert_eq!(event("Gain 2 $points."), StandardEffect::GainPoints { gains: Points(2) });
    assert_eq!(event("Gain 1 $point."), StandardEffect::GainPoints { gains: Points(1) });
    assert_eq!(
        event("Gain 1 $point for each card you have discarded this turn."),
        StandardEffect::GainPointsForEach {
            gain: Points(1),
            for_count: QuantityExpression::DiscardedThisTurn(CardPredicate::Card),
        }
    );
    assert_eq!(event("You lose 2 $points."), StandardEffect::LosePoints { loses: Points(2) });
    assert_eq!(
        event("The enemy gains $points equal to its spark."),
        StandardEffect::EnemyGainsPointsEqualToItsSpark
    );
    assert_eq!(
        event("The enemy gains 2 $points."),
        StandardEffect::EnemyGainsPoints { count: 2 }
    );
    assert_eq!(
        event("The enemy loses 1 $point."),
        StandardEffect::EnemyLosesPoints { count: 1 }
    );
}

#[test]
fn quantity_expressions() {
    let gain = |text: &str| match event(text) {
        StandardEffect::GainPointsForEach { for_count, .. } => for_count,
        other => panic!("{:?}", other),
    };
    assert_eq!(
        gain("Gain 1 $point for each event you have played this turn."),
        QuantityExpression::PlayedThisTurn(CardPredicate::Event)
    );
    assert_eq!(
        gain("Gain 1 $point for each character which dissolved this turn."),
        QuantityExpression::DissolvedThisTurn(CardPredicate::Character)
    );
    assert_eq!(
        gain("Gain 1 $point for each character you abandoned this turn."),
        QuantityExpression::AbandonedThisTurn(CardPredicate::Character)
    );
    assert_eq!(
        gain("Gain 1 $point for each character abandoned this way."),
        QuantityExpression::AbandonedThisWay(CardPredicate::Character)
    );
    assert_eq!(
        gain("Gain 1 $point for each enemy character."),
        QuantityExpression::Matching(Predicate::Enemy(CardPredicate::Character))
    );
    assert_eq!(
        gain("Gain 1 $point for each other character."),
        QuantityExpression::Matching(Predicate::AnyOther(CardPredicate::Character))
    );
}

#[test]
fn effects_on_a_target() {
    assert_eq!(
        event("This character gains {kw: aegis} this turn."),
        StandardEffect::GainsAegisThisTurn { target: Predicate::This }
    );
    assert_eq!(
        event("This event gains {kw: reclaim} until end of turn."),
        StandardEffect::GainsReclaimUntilEndOfTurn { target: Predicate::This, cost: None }
    );
    assert_eq!(
        event("Gain control of an enemy character."),
        StandardEffect::GainControl { target: enemy_character() }
    );
    assert_eq!(
        event(
            "Disable the activated abilities of an enemy character while this character is in \
             play."
        ),
        StandardEffect::DisableActivatedAbilitiesWhileInPlay { target: enemy_character() }
    );
    assert_eq!(
        event("Negate an enemy event."),
        StandardEffect::Negate { target: Predicate::Enemy(CardPredicate::Event) }
    );
    assert_eq!(
        event("Abandon a character you control at end of turn."),
        StandardEffect::AbandonAtEndOfTurn { target: Predicate::Your(CardPredicate::Character) }
    );
    assert_eq!(
        event("Banish an enemy character."),
        StandardEffect::BanishCharacter { target: enemy_character() }
    );
    assert_eq!(
        event("Banish an enemy character, then materialize it."),
        StandardEffect::BanishThenMaterialize { target: enemy_character() }
    );
    assert_eq!(
        event("Banish any number of other characters you control, then materialize them."),
        StandardEffect::BanishThenMaterializeCount {
            target: Predicate::Another(CardPredicate::Character),
            count: CountingExpression::AnyNumberOf,
        }
    );
    assert_eq!(
        event("Dissolve them."),
        StandardEffect::DissolveCharacter { target: Predicate::Them }
    );
    assert_eq!(
        event("Dissolve another character."),
        StandardEffect::DissolveCharacter { target: Predicate::AnyOther(CardPredicate::Character) }
    );
    assert_eq!(
        event("Dissolve a character in your void."),
        StandardEffect::DissolveCharacter { target: Predicate::YourVoid(CardPredicate::Character) }
    );
    assert_eq!(
        event("Dissolve a character in the enemy's void."),
        StandardEffect::DissolveCharacter {
            target: Predicate::EnemyVoid(CardPredicate::Character)
        }
    );
}

#[test]
fn keyword_effects() {
    assert_eq!(
        event("{kw: discover} a character and materialize it."),
        StandardEffect::DiscoverAndThenMaterialize { predicate: CardPredicate::Character }
    );
    assert_eq!(
        event("{kw: discover} a card."),
        StandardEffect::Discover { predicate: CardPredicate::Card }
    );
    assert_eq!(event("{kw: foresee} 2."), StandardEffect::Foresee { count: 2 });
}

#[test]
fn the_article_an_is_not_read_as_a() {
    assert_eq!(
        event("{kw: discover} an event."),
        StandardEffect::Discover { predicate: CardPredicate::Event }
    );
}

#[test]
fn paying_a_cost_is_an_effect() {
    assert_eq!(event("Discard your hand."), StandardEffect::PayCost { cost: Cost::DiscardHand });
    assert_eq!(
        event("Abandon a character."),
        StandardEffect::PayCost {
            cost: Cost::AbandonCharacters(Predicate::Your(CardPredicate::Character), 1)
        }
    );
    assert_eq!(
        event("Banish 2 cards from your void."),
        StandardEffect::PayCost { cost: Cost::BanishCardsFromYourVoid(2) }
    );
    assert_eq!(event("$2."), StandardEffect::PayCost { cost: Cost::Energy(Energy(2)) });
}

#[test]
fn create_trigger_until_end_of_turn() {
    assert_eq!(
        event("Until end of turn, whenever you play a character, draw a card."),
        StandardEffect::CreateTriggerUntilEndOfTurn {
            trigger: Box::new(TriggeredAbility {
                trigger: TriggerEvent::Play(Predicate::Your(CardPredicate::Character)),
                effect: Effect::Effect(StandardEffect::DrawCards { count: 1 }),
                options: Some(TriggeredAbilityOptions {
                    once_per_turn: false,
                    until_end_of_turn: true,
                }),
            }),
        }
    );
}

#[test]
fn created_trigger_holds_no_further_trigger() {
    let result = parse(
        "Until end of turn, whenever you play a character, until end of turn, whenever you play \
         an event, draw a card.",
    );
    assert!(result.is_err());
}

#[test]
fn predicates_with_values() {
    let dissolved = |text: &str| match event(text) {
        StandardEffect::DissolveCharacter { target: Predicate::Enemy(found) } => found,
        other => panic!("{:?}", other),
    };
    assert_eq!(
        dissolved("Dissolve an enemy character with cost $2 or less."),
        CardPredicate::CharacterWithCost(Energy(2), Operator::OrLess)
    );
    assert_eq!(
        dissolved("Dissolve an enemy character with cost $3 or more."),
        CardPredicate::CharacterWithCost(Energy(3), Operator::OrMore)
    );
    assert_eq!(
        dissolved("Dissolve an enemy character with spark 3 or more."),
        CardPredicate::CharacterWithSpark(Spark(3), Operator::OrMore)
    );
    assert_eq!(
        dissolved("Dissolve an enemy character with spark 1 or less."),
        CardPredicate::CharacterWithSpark(Spark(1), Operator::OrLess)
    );
    assert_eq!(
        dissolved("Dissolve an enemy character with a $materialized ability."),
        CardPredicate::CharacterWithMaterializedAbility
    );
    assert_eq!(
        dissolved("Dissolve an enemy {cardtype: survivor}."),
        CardPredicate::CharacterType(CharacterType::Survivor)
    );
}

#[test]
fn predicates_that_compare_costs() {
    let dissolved = |text: &str| match event(text) {
        StandardEffect::DissolveCharacter { target: Predicate::Enemy(found) } => found,
        other => panic!("{:?}", other),
    };
    assert_eq!(
        dissolved(
            "Dissolve an enemy character with cost less than or equal to the number of \
             {cardtype: warriors} you control."
        ),
        CardPredicate::CharacterWithCostComparedToControlled {
            target: Box::new(CardPredicate::Character),
            cost_operator: Operator::OrLess,
            count_matching: Box::new(CardPredicate::CharacterType(CharacterType::Warrior)),
        }
    );
    assert_eq!(
        dissolved(
            "Dissolve an enemy character with cost equal to the number of characters you control."
        ),
        CardPredicate::CharacterWithCostComparedToControlled {
            target: Box::new(CardPredicate::Character),
            cost_operator: Operator::Exactly,
            count_matching: Box::new(CardPredicate::Character),
        }
    );
    assert_eq!(
        dissolved(
            "Dissolve an enemy character with cost greater than or equal to the number of cards \
             you control."
        ),
        CardPredicate::CharacterWithCostComparedToControlled {
            target: Box::new(CardPredicate::Character),
            cost_operator: Operator::OrMore,
            count_matching: Box::new(CardPredicate::Card),
        }
    );
    assert_eq!(
        dissolved("Dissolve an enemy character with cost $2 higher than the abandoned character."),
        CardPredicate::CharacterWithCostComparedToAbandoned {
            target: Box::new(CardPredicate::Character),
            cost_operator: Operator::HigherBy(Energy(2)),
        }
    );
    assert_eq!(
        dissolved("Dissolve an enemy character with cost $1 lower than the abandoned character."),
        CardPredicate::CharacterWithCostComparedToAbandoned {
            target: Box::new(CardPredicate::Character),
            cost_operator: Operator::LowerBy(Energy(1)),
        }
    );
    assert_eq!(
        dissolved("Dissolve an enemy character with cost greater than the abandoned character."),
        CardPredicate::CharacterWithCostComparedToAbandoned {
            target: Box::new(CardPredicate::Character),
            cost_operator: Operator::OrMore,
        }
    );
    assert_eq!(
        dissolved("Dissolve an enemy character with cost less than the abandoned character."),
        CardPredicate::CharacterWithCostComparedToAbandoned {
            target: Box::new(CardPredicate::Character),
            cost_operator: Operator::OrLess,
        }
    );
    assert_eq!(
        dissolved("Dissolve an enemy character with cost equal to the abandoned character."),
        CardPredicate::CharacterWithCostComparedToAbandoned {
            target: Box::new(CardPredicate::Character),
            cost_operator: Operator::Exactly,
        }
    );
}
