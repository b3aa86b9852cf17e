use dreamcaller::ability_data::ability::Ability;
use dreamcaller::ability_data::activated_ability::{ActivatedAbility, ActivatedAbilityOptions};
use dreamcaller::ability_data::condition::Condition;
use dreamcaller::ability_data::cost::Cost;
use dreamcaller::ability_data::effect::{Effect, EffectWithOptions};
use dreamcaller::ability_data::predicate::{CardPredicate, Predicate};
use dreamcaller::ability_data::standard_effect::StandardEffect;
use dreamcaller::ability_data::static_ability::{AlternateCost, PlayFromVoid, StaticAbility};
use dreamcaller::ability_data::trigger_event::{TriggerEvent, TriggerKeyword};
use dreamcaller::ability_data::triggered_ability::TriggeredAbility;
use dreamcaller::core_data::numerics::{Energy, Spark};
use dreamcaller::parser::ability_parser::{characters, parse, parse_characters};
use dreamcaller::parser::parser_utils::{ErrorKind, ParseError, Span};

fn draw(count: u64) -> StandardEffect {
    StandardEffect::DrawCards { count }
}

fn plain(effect: StandardEffect) -> EffectWithOptions {
    EffectWithOptions { effect, optional: false, condition: None }
}

#[test]
fn materialize_trigger_gains_spark() {
    let result = parse("Whenever you materialize a character, this character gains +1 spark.");
    assert_eq!(
        result,
        Ok(Ability::Triggered(TriggeredAbility {
            trigger: TriggerEvent::Materialize(Predicate::Your(CardPredicate::Character)),
            effect: Effect::Effect(StandardEffect::GainsSpark {
                target: Predicate::This,
                gains: Spark(1),
            }),
            options: None,
        }))
    );
}

#[test]
fn when_and_whenever_give_the_same_ability() {
    let when = parse("When you play an event, draw a card.");
    let whenever = parse("Whenever you play an event, draw a card.");
    assert_eq!(
        when,
        Ok(Ability::Triggered(TriggeredAbility {
            trigger: TriggerEvent::Play(Predicate::Your(CardPredicate::Event)),
            effect: Effect::Effect(draw(1)),
            options: None,
        }))
    );
    assert_eq!(when, whenever);
}

#[test]
fn keyword_trigger_keeps_the_order_of_its_keywords() {
    let result = parse("$materialized, $judgment: draw 2 cards.");
    assert_eq!(
        result,
        Ok(Ability::Triggered(TriggeredAbility {
            trigger: TriggerEvent::Keywords(vec![
                TriggerKeyword::Materialized,
                TriggerKeyword::Judgment,
            ]),
            effect: Effect::Effect(draw(2)),
            options: None,
        }))
    );
    let single = parse("$dissolved: gain $1.");
    assert_eq!(
        single,
        Ok(Ability::Triggered(TriggeredAbility {
            trigger: TriggerEvent::Keywords(vec![TriggerKeyword::Dissolved]),
            effect: Effect::Effect(StandardEffect::GainEnergy { gains: Energy(1) }),
            options: None,
        }))
    );
}

#[test]
fn activated_ability_without_options() {
    let result = parse("$activated $2: draw a card.");
    assert_eq!(
        result,
        Ok(Ability::Activated(ActivatedAbility {
            costs: vec![Cost::Energy(Energy(2))],
            effect: Effect::Effect(draw(1)),
            options: None,
        }))
    );
}

#[test]
fn activated_ability_with_several_costs() {
    let result = parse("$fastactivated $1, discard your hand, abandon a character: gain $2.");
    assert_eq!(
        result,
        Ok(Ability::Activated(ActivatedAbility {
            costs: vec![
                Cost::Energy(Energy(1)),
                Cost::DiscardHand,
                Cost::AbandonCharacters(Predicate::Your(CardPredicate::Character), 1),
            ],
            effect: Effect::Effect(StandardEffect::GainEnergy { gains: Energy(2) }),
            options: Some(ActivatedAbilityOptions {
                is_fast: true,
                is_immediate: false,
                is_multi: false,
            }),
        }))
    );
}

#[test]
fn activated_ability_flags_combine() {
    let all = parse("$immediate $fastmultiactivated: draw a card.");
    assert_eq!(
        all,
        Ok(Ability::Activated(ActivatedAbility {
            costs: vec![],
            effect: Effect::Effect(draw(1)),
            options: Some(ActivatedAbilityOptions {
                is_fast: true,
                is_immediate: true,
                is_multi: true,
            }),
        }))
    );
    let multi = parse("$multiactivated banish 3 cards from your void: draw a card.");
    assert_eq!(
        multi,
        Ok(Ability::Activated(ActivatedAbility {
            costs: vec![Cost::BanishCardsFromYourVoid(3)],
            effect: Effect::Effect(draw(1)),
            options: Some(ActivatedAbilityOptions {
                is_fast: false,
                is_immediate: false,
                is_multi: true,
            }),
        }))
    );
    let fast_multi = parse("$fastmultiactivated $0: draw a card.");
    assert_eq!(
        fast_multi,
        Ok(Ability::Activated(ActivatedAbility {
            costs: vec![Cost::Energy(Energy(0))],
            effect: Effect::Effect(draw(1)),
            options: Some(ActivatedAbilityOptions {
                is_fast: true,
                is_immediate: false,
                is_multi: true,
            }),
        }))
    );
    let immediate = parse("$immediate $activated: draw a card.");
    assert_eq!(
        immediate,
        Ok(Ability::Activated(ActivatedAbility {
            costs: vec![],
            effect: Effect::Effect(draw(1)),
            options: Some(ActivatedAbilityOptions {
                is_fast: false,
                is_immediate: true,
                is_multi: false,
            }),
        }))
    );
}

#[test]
fn single_unit_is_a_bare_effect() {
    assert_eq!(parse("Draw a card."), Ok(Ability::Event(Effect::Effect(draw(1)))));
}

#[test]
fn effect_list_preserves_order() {
    let result = parse("Draw a card. Discard a card.");
    assert_eq!(
        result,
        Ok(Ability::Event(Effect::List(vec![
            plain(draw(1)),
            plain(StandardEffect::DiscardCards { count: 1 }),
        ])))
    );
    let reversed = parse("Discard a card. Draw a card.");
    assert_eq!(
        reversed,
        Ok(Ability::Event(Effect::List(vec![
            plain(StandardEffect::DiscardCards { count: 1 }),
            plain(draw(1)),
        ])))
    );
}

#[test]
fn effect_list_of_three_units() {
    let result = parse("Draw 2 cards. You may discard 3 cards. Gain $1.");
    assert_eq!(
        result,
        Ok(Ability::Event(Effect::List(vec![
            plain(draw(2)),
            EffectWithOptions {
                effect: StandardEffect::DiscardCards { count: 3 },
                optional: true,
                condition: None,
            },
            plain(StandardEffect::GainEnergy { gains: Energy(1) }),
        ])))
    );
}

#[test]
fn conditional_effect_carries_its_condition() {
    let result = parse("If you control 2 other characters, draw a card.");
    assert_eq!(
        result,
        Ok(Ability::Event(Effect::WithOptions(EffectWithOptions {
            effect: draw(1),
            optional: false,
            condition: Some(Condition::PredicateCount {
                count: 2,
                predicate: Predicate::Your(CardPredicate::Character),
            }),
        })))
    );
}

#[test]
fn optional_effect_has_no_condition() {
    let result = parse("You may draw a card.");
    assert_eq!(
        result,
        Ok(Ability::Event(Effect::WithOptions(EffectWithOptions {
            effect: draw(1),
            optional: true,
            condition: None,
        })))
    );
}

#[test]
fn condition_and_option_do_not_combine() {
    let result = parse("If you control 2 other characters, you may draw a card.");
    assert!(result.is_err());
}

#[test]
fn static_cost_reduction() {
    let result = parse("Events cost you $1 less.");
    assert_eq!(
        result,
        Ok(Ability::Static(StaticAbility::YourCardsCostReduction {
            matching: CardPredicate::Event,
            reduction: Energy(1),
        }))
    );
    let increase = parse("Characters cost you $2 more.");
    assert_eq!(
        increase,
        Ok(Ability::Static(StaticAbility::YourCardsCostIncrease {
            matching: CardPredicate::Character,
            reduction: Energy(2),
        }))
    );
}

#[test]
fn static_ability_may_end_without_a_period() {
    let with = parse("{kw: reclaim} $2.");
    let without = parse("{kw: reclaim} $2");
    assert_eq!(
        with,
        Ok(Ability::Static(StaticAbility::Reclaim { cost: Some(Cost::Energy(Energy(2))) }))
    );
    assert_eq!(with, without);
    assert_eq!(parse("{kw: reclaim}"), Ok(Ability::Static(StaticAbility::Reclaim { cost: None })));
}

#[test]
fn play_from_void_with_all_parts() {
    let result = parse(
        "If you control 3 other characters, you may play this character from your void for $2 by \
         banishing another card from your void. If you do, draw a card.",
    );
    assert_eq!(
        result,
        Ok(Ability::Static(StaticAbility::PlayFromVoid(PlayFromVoid {
            condition: Some(Condition::PredicateCount {
                count: 3,
                predicate: Predicate::Your(CardPredicate::Character),
            }),
            energy_cost: Some(Energy(2)),
            additional_cost: Cost::BanishCardsFromYourVoid(1),
            if_you_do: Some(Effect::Effect(draw(1))),
        })))
    );
}

#[test]
fn play_from_void_without_optional_parts() {
    let result = parse("You may play this event from your void.");
    assert_eq!(
        result,
        Ok(Ability::Static(StaticAbility::PlayFromVoid(PlayFromVoid {
            condition: None,
            energy_cost: None,
            additional_cost: Cost::NoCost,
            if_you_do: None,
        })))
    );
}

#[test]
fn play_for_alternate_cost() {
    let result = parse("You may play this event for $0 by abandoning 2 characters.");
    assert_eq!(
        result,
        Ok(Ability::Static(StaticAbility::PlayForAlternateCost(AlternateCost {
            condition: None,
            energy_cost: Energy(0),
            additional_cost: Cost::AbandonCharacters(
                Predicate::Your(CardPredicate::Character),
                2
            ),
            if_you_do: None,
        })))
    );
    let simple = parse("If you control 2 other characters, this character costs $1.");
    assert_eq!(
        simple,
        Ok(Ability::Static(StaticAbility::PlayForAlternateCost(AlternateCost {
            condition: Some(Condition::PredicateCount {
                count: 2,
                predicate: Predicate::Your(CardPredicate::Character),
            }),
            energy_cost: Energy(1),
            additional_cost: Cost::NoCost,
            if_you_do: None,
        })))
    );
}

#[test]
fn numeric_bounds_give_a_value_range_error() {
    let errors = parse("gain $999999999999").unwrap_err();
    assert!(!errors.is_empty());
    assert!(errors.iter().any(|e| e.kind == ErrorKind::ValueRange));
    for error in &errors {
        assert_eq!(error.span.start, 6);
    }
    let range = errors.iter().find(|e| e.kind == ErrorKind::ValueRange).unwrap();
    assert_eq!(range.span, Span { start: 6, end: 18 });
}

#[test]
fn largest_energy_is_accepted_and_the_next_number_is_not() {
    assert_eq!(
        parse("Gain $4294967295."),
        Ok(Ability::Event(Effect::Effect(StandardEffect::GainEnergy {
            gains: Energy(4294967295)
        })))
    );
    let errors = parse("Gain $4294967296.").unwrap_err();
    assert!(errors.iter().any(|e| e.kind == ErrorKind::ValueRange));
}

#[test]
fn largest_count_is_accepted_and_the_next_number_is_not() {
    assert_eq!(
        parse("Draw 18446744073709551615 cards."),
        Ok(Ability::Event(Effect::Effect(draw(18446744073709551615))))
    );
    let errors = parse("Draw 18446744073709551616 cards.").unwrap_err();
    assert!(errors.iter().any(|e| e.kind == ErrorKind::ValueRange));
    let longer = parse("Draw 99999999999999999999999999 cards.").unwrap_err();
    assert!(longer.iter().any(|e| e.kind == ErrorKind::ValueRange));
}

#[test]
fn error_is_located_at_the_malformed_clause() {
    let text = "Whenever you materialize a charcter, draw a card.";
    let errors = parse(text).unwrap_err();
    assert!(!errors.is_empty());
    for error in &errors {
        assert_eq!(error.span, Span { start: 31, end: 32 });
        assert_eq!(error.kind, ErrorKind::Expectation);
        assert!(error.span.end <= text.chars().count());
    }
    let expected: Vec<&str> = errors.iter().map(|e| e.expected).collect();
    assert_eq!(expected, vec!["characters", "character"]);
}

#[test]
fn error_after_a_complete_unit_starts_after_it() {
    let errors = parse("Draw a card. Discard a crad.").unwrap_err();
    assert_eq!(
        errors,
        vec![ParseError {
            span: Span { start: 13, end: 14 },
            kind: ErrorKind::Expectation,
            expected: "end of text",
        }]
    );
}

#[test]
fn missing_period_is_reported_at_the_end() {
    let errors = parse("draw a card").unwrap_err();
    assert!(errors.contains(&ParseError {
        span: Span { start: 11, end: 11 },
        kind: ErrorKind::Expectation,
        expected: ".",
    }));
    for error in &errors {
        assert_eq!(error.span.start, 11);
    }
}

#[test]
fn empty_text_is_no_ability() {
    let errors = parse("").unwrap_err();
    assert!(errors.iter().any(|e| e.kind == ErrorKind::Exhaustion));
    for error in &errors {
        assert_eq!(error.span, Span { start: 0, end: 0 });
    }
}

#[test]
fn parsing_twice_gives_equal_results() {
    let texts = [
        "Whenever you materialize a character, this character gains +1 spark.",
        "Draw a card. Discard a card.",
        "gain $999999999999",
        "not an ability at all",
        "",
    ];
    for text in texts {
        assert_eq!(parse(text), parse(text));
    }
}

#[test]
fn blanks_and_letter_case_are_tolerated() {
    let tidy = parse("Draw a card. Discard a card.");
    let untidy = parse("  DRAW   a\tcard .\n discard  A  card.  ");
    assert!(tidy.is_ok());
    assert_eq!(tidy, untidy);
    assert!(parse("Draw acard.").is_err());
}

#[test]
fn characters_are_those_of_the_text() {
    assert_eq!(characters("héllo."), vec!['h', 'é', 'l', 'l', 'o', '.']);
    assert_eq!(characters(""), Vec::<char>::new());
    let text: Vec<char> = "Draw a card.".chars().collect();
    assert_eq!(parse_characters(&text), parse("Draw a card."));
}

#[test]
fn spans_count_characters() {
    let errors = parse("Dräw").unwrap_err();
    for error in &errors {
        assert!(error.span.end <= 4);
    }
}
