use dreamcaller::ability_data::predicate::{CardPredicate, Predicate};
use dreamcaller::ability_data::trigger_event::{TriggerEvent, TriggerKeyword};
use dreamcaller::core_data::numerics::{Energy, Points, Spark};
use dreamcaller::parser::card_predicate_parser;
use dreamcaller::parser::condition_parser;
use dreamcaller::parser::cost_parser;
use dreamcaller::parser::determiner_parser;
use dreamcaller::parser::effect_parser;
use dreamcaller::parser::activated_ability_parser;
use dreamcaller::parser::parser_utils::{
    a_or_an, a_or_count, count, either_phrase, energy, integer, maybe, number_of_times, numeric,
    phrase, points, skip, spark, text_number, this, ErrorKind, Failure, ParseError, Span,
};
use dreamcaller::parser::trigger_event_parser;
use dreamcaller::ability_data::condition::Condition;
use dreamcaller::ability_data::cost::Cost;
use dreamcaller::ability_data::effect::Effect;
use dreamcaller::ability_data::standard_effect::StandardEffect;

fn chars(text: &str) -> Vec<char> {
    text.chars().collect()
}

#[test]
fn skip_passes_over_blanks_only() {
    let text = chars("  \t\n x  ");
    assert_eq!(skip(&text, 0), 5);
    assert_eq!(skip(&text, 5), 5);
    assert_eq!(skip(&text, 6), 8);
    assert_eq!(skip(&text, 8), 8);
}

#[test]
fn phrase_is_tolerant_of_blanks() {
    let text = chars("   draw   a \t card   now");
    assert_eq!(phrase(&text, 0, "draw a card").unwrap(), 21);
    let tight = chars("draw a card");
    assert_eq!(phrase(&tight, 0, "draw a card").unwrap(), 11);
    let glued = chars("drawa card");
    let failure = phrase(&glued, 0, "draw a card").unwrap_err();
    assert_eq!(failure.at, 4);
    assert_eq!(
        failure.errors,
        vec![ParseError {
            span: Span { start: 4, end: 5 },
            kind: ErrorKind::Expectation,
            expected: "draw a card",
        }]
    );
}

#[test]
fn phrase_ignores_the_case_of_the_text() {
    let text = chars("DrAw A CARD");
    assert_eq!(phrase(&text, 0, "draw a card").unwrap(), 11);
    let other = chars("drbw");
    assert_eq!(phrase(&other, 0, "draw").unwrap_err().at, 2);
}

#[test]
fn phrase_fails_at_the_end_with_an_empty_span() {
    let text = chars("dra");
    let failure = phrase(&text, 0, "draw").unwrap_err();
    assert_eq!(failure.at, 3);
    assert_eq!(failure.errors[0].span, Span { start: 3, end: 3 });
}

#[test]
fn empty_phrase_matches_anywhere() {
    let text = chars("  x");
    assert_eq!(phrase(&text, 0, "").unwrap(), 2);
    assert_eq!(phrase(&text, 3, "").unwrap(), 3);
}

#[test]
fn blank_at_the_end_of_a_phrase_needs_a_blank() {
    let spaced = chars("{cardtype: warrior}");
    assert_eq!(phrase(&spaced, 0, "{cardtype: ").unwrap(), 11);
    let tight = chars("{cardtype:warrior}");
    assert_eq!(phrase(&tight, 0, "{cardtype: ").unwrap_err().at, 10);
}

#[test]
fn shorter_phrase_matches_where_the_longer_one_does() {
    let text = chars("characters");
    assert_eq!(phrase(&text, 0, "character").unwrap(), 9);
    assert_eq!(phrase(&text, 0, "characters").unwrap(), 10);
    assert_eq!(either_phrase(&text, 0, "characters", "character").unwrap(), 10);
    assert_eq!(either_phrase(&text, 0, "character", "characters").unwrap(), 9);
}

#[test]
fn card_predicate_does_not_stop_inside_a_plural() {
    let text = chars("characters");
    assert_eq!(card_predicate_parser::parser(&text, 0).unwrap(), (CardPredicate::Character, 10));
    let cards = chars("cards you control");
    assert_eq!(card_predicate_parser::parser(&cards, 0).unwrap(), (CardPredicate::Card, 6));
    let events = chars("events");
    assert_eq!(card_predicate_parser::parser(&events, 0).unwrap(), (CardPredicate::Event, 6));
}

#[test]
fn either_phrase_merges_failures_at_the_same_offset() {
    let text = chars("chxr");
    let failure = either_phrase(&text, 0, "characters", "character").unwrap_err();
    assert_eq!(failure.at, 2);
    let expected: Vec<&str> = failure.errors.iter().map(|e| e.expected).collect();
    assert_eq!(expected, vec!["characters", "character"]);
}

#[test]
fn merge_keeps_the_furthest_failure() {
    let at = |at: usize, expected: &'static str| Failure {
        at,
        errors: vec![ParseError {
            span: Span { start: at, end: at + 1 },
            kind: ErrorKind::Expectation,
            expected,
        }],
    };
    let later = at(3, "a").merge(at(5, "b"));
    assert_eq!(later.at, 5);
    assert_eq!(later.errors.len(), 1);
    assert_eq!(later.errors[0].expected, "b");
    let earlier = at(7, "a").merge(at(5, "b"));
    assert_eq!(earlier.at, 7);
    assert_eq!(earlier.errors[0].expected, "a");
    let tie = at(4, "a").merge(at(4, "b"));
    assert_eq!(tie.at, 4);
    let expected: Vec<&str> = tie.errors.iter().map(|e| e.expected).collect();
    assert_eq!(expected, vec!["a", "b"]);
}

#[test]
fn exhausted_adds_a_diagnostic_at_the_same_offset() {
    let failure = Failure {
        at: 4,
        errors: vec![ParseError {
            span: Span { start: 4, end: 5 },
            kind: ErrorKind::Expectation,
            expected: "x",
        }],
    };
    let more = failure.exhausted("an effect");
    assert_eq!(more.at, 4);
    assert_eq!(more.errors.len(), 2);
    assert_eq!(
        more.errors[1],
        ParseError {
            span: Span { start: 4, end: 4 },
            kind: ErrorKind::Exhaustion,
            expected: "an effect",
        }
    );
}

#[test]
fn integer_reads_digits() {
    let text = chars("123abc");
    assert_eq!(integer(&text, 0, u64::MAX).unwrap(), (123, 3));
    assert_eq!(integer(&text, 1, u64::MAX).unwrap(), (23, 3));
    let failure = integer(&text, 3, u64::MAX).unwrap_err();
    assert_eq!(failure.at, 3);
    assert_eq!(failure.errors[0].kind, ErrorKind::Expectation);
    assert_eq!(failure.errors[0].expected, "a number");
    let blank = chars(" 12");
    assert!(integer(&blank, 0, u64::MAX).is_err());
}

#[test]
fn integer_that_starts_with_zero_is_zero() {
    let text = chars("007");
    assert_eq!(integer(&text, 0, u64::MAX).unwrap(), (0, 1));
    let zero = chars("0");
    assert_eq!(integer(&zero, 0, 5).unwrap(), (0, 1));
}

#[test]
fn integer_over_the_limit_is_a_value_range_failure() {
    let text = chars("256 ");
    assert_eq!(integer(&text, 0, 256).unwrap(), (256, 3));
    let failure = integer(&text, 0, 255).unwrap_err();
    assert_eq!(failure.at, 0);
    assert_eq!(
        failure.errors,
        vec![ParseError {
            span: Span { start: 0, end: 3 },
            kind: ErrorKind::ValueRange,
            expected: "a number within range",
        }]
    );
    let huge = chars("184467440737095516150");
    let failure = integer(&huge, 0, u64::MAX).unwrap_err();
    assert_eq!(failure.errors[0].kind, ErrorKind::ValueRange);
    assert_eq!(failure.errors[0].span, Span { start: 0, end: 21 });
}

#[test]
fn numeric_with_affixes() {
    let text = chars("gain $3 now");
    assert_eq!(numeric(&text, 0, "gain $", 10, "").unwrap(), (3, 8));
    assert_eq!(numeric(&text, 0, "gain $", 10, "now").unwrap(), (3, 11));
    assert_eq!(numeric(&text, 0, "gain $", 10, "later").unwrap_err().at, 8);
    let over = numeric(&text, 0, "gain $", 2, "").unwrap_err();
    assert_eq!(over.errors[0].kind, ErrorKind::ValueRange);
    assert_eq!(energy(&text, 0, "gain $", "").unwrap(), (Energy(3), 8));
    assert_eq!(spark(&text, 0, "gain $", "").unwrap(), (Spark(3), 8));
    assert_eq!(points(&text, 0, "gain $", "").unwrap(), (Points(3), 8));
    assert_eq!(count(&text, 0, "gain $", "").unwrap(), (3, 8));
    let large = chars("$4294967296");
    assert_eq!(count(&large, 0, "$", "").unwrap(), (4294967296, 11));
    assert!(energy(&large, 0, "$", "").is_err());
    assert!(spark(&large, 0, "$", "").is_err());
    assert!(points(&large, 0, "$", "").is_err());
}

#[test]
fn words_for_numbers() {
    let words = [
        "one", "two", "three", "four", "five", "six", "seven", "eight", "nine", "ten",
    ];
    for (i, word) in words.iter().enumerate() {
        let text = chars(word);
        assert_eq!(text_number(&text, 0).unwrap(), (i as u64 + 1, word.len()));
    }
    let none = chars("eleven");
    assert!(text_number(&none, 0).is_err());
}

#[test]
fn number_of_times_is_optional() {
    let twice = chars("twice.");
    assert_eq!(number_of_times(&twice, 0).unwrap(), (Some(2), 5));
    let four = chars("four times.");
    assert_eq!(number_of_times(&four, 0).unwrap(), (Some(4), 10));
    let none = chars("four.");
    assert_eq!(number_of_times(&none, 0).unwrap(), (None, 0));
}

#[test]
fn small_words() {
    let text = chars("this event");
    assert_eq!(this(&text, 0).unwrap(), 10);
    let character = chars("this character");
    assert_eq!(this(&character, 0).unwrap(), 14);
    let an = chars("an event");
    assert_eq!(a_or_an(&an, 0).unwrap(), 3);
    let a = chars("a card");
    assert_eq!(a_or_an(&a, 0).unwrap(), 2);
    assert_eq!(a_or_count(&a, 0, "card", "cards").unwrap(), (1, 6));
    let many = chars("3 cards");
    assert_eq!(a_or_count(&many, 0, "card", "cards").unwrap(), (3, 7));
    assert_eq!(maybe(&many, 0, "3"), 2);
    assert_eq!(maybe(&many, 0, "4"), 0);
}

#[test]
fn determiners() {
    let parse = |text: &str| determiner_parser::target_parser(&chars(text), 0).unwrap().0;
    assert_eq!(parse("this character"), Predicate::This);
    assert_eq!(parse("this event"), Predicate::This);
    assert_eq!(parse("that character"), Predicate::That);
    assert_eq!(parse("that event"), Predicate::That);
    assert_eq!(parse("an enemy event"), Predicate::Enemy(CardPredicate::Event));
    assert_eq!(
        parse("another character you control"),
        Predicate::Another(CardPredicate::Character)
    );
    assert_eq!(parse("a character you control"), Predicate::Your(CardPredicate::Character));
    assert_eq!(parse("a character"), Predicate::Any(CardPredicate::Character));
    let acting = |text: &str| determiner_parser::your_action(&chars(text), 0).unwrap().0;
    assert_eq!(acting("a character"), Predicate::Your(CardPredicate::Character));
    assert_eq!(acting("another character"), Predicate::Another(CardPredicate::Character));
    assert_eq!(acting("an enemy character"), Predicate::Enemy(CardPredicate::Character));
    assert_eq!(acting("that event"), Predicate::That);
    let counted = |text: &str| determiner_parser::counted_parser(&chars(text), 0).unwrap().0;
    assert_eq!(counted("characters"), Predicate::Any(CardPredicate::Character));
    assert_eq!(counted("characters you control"), Predicate::Your(CardPredicate::Character));
    let each = determiner_parser::for_each_parser(&chars("for each enemy event"), 0).unwrap();
    assert_eq!(each, (Predicate::Enemy(CardPredicate::Event), 20));
}

#[test]
fn conditions_and_costs() {
    let text = chars("you control 2 other characters,");
    assert_eq!(
        condition_parser::parser(&text, 0).unwrap(),
        (
            Condition::PredicateCount {
                count: 2,
                predicate: Predicate::Your(CardPredicate::Character)
            },
            30
        )
    );
    let cost = |text: &str| cost_parser::parser(&chars(text), 0).unwrap().0;
    assert_eq!(cost("$3"), Cost::Energy(Energy(3)));
    assert_eq!(cost("banish 2 cards from your void"), Cost::BanishCardsFromYourVoid(2));
    assert_eq!(cost("abandon this character"), Cost::AbandonCharacters(Predicate::This, 1));
    assert_eq!(cost("discard your hand"), Cost::DiscardHand);
    assert!(cost_parser::parser(&chars("$4294967296"), 0).is_err());
    let inflected = |text: &str| cost_parser::inflected_additional_cost(&chars(text), 0).unwrap().0;
    assert_eq!(
        inflected("banishing another card from your void"),
        Cost::BanishCardsFromYourVoid(1)
    );
    assert_eq!(
        inflected("abandoning 2 characters"),
        Cost::AbandonCharacters(Predicate::Your(CardPredicate::Character), 2)
    );
}

#[test]
fn trigger_events() {
    let text = chars("you materialize another character,");
    assert_eq!(
        trigger_event_parser::event_parser(&text, 0).unwrap(),
        (TriggerEvent::Materialize(Predicate::Another(CardPredicate::Character)), 33)
    );
    let keywords = chars("$judgment, $dissolved, $materialized, draw");
    assert_eq!(
        trigger_event_parser::keyword_parser(&keywords, 0).unwrap(),
        (
            TriggerEvent::Keywords(vec![
                TriggerKeyword::Judgment,
                TriggerKeyword::Dissolved,
                TriggerKeyword::Materialized,
            ]),
            36
        )
    );
    let none = chars("draw");
    let failure = trigger_event_parser::keyword_parser(&none, 0).unwrap_err();
    assert_eq!(failure.at, 0);
    assert_eq!(failure.errors.last().unwrap().kind, ErrorKind::Exhaustion);
    assert_eq!(failure.errors.len(), 4);
}

#[test]
fn effect_and_activated_parsers_read_at_an_offset() {
    let text = chars(": draw a card. gain $1. rest");
    let (effect, next) = effect_parser::effect(&text, 1).unwrap();
    assert!(matches!(effect, Effect::List(ref units) if units.len() == 2));
    assert_eq!(next, 24);
    let activated = chars("x $activated: {kw: foresee} 1. y");
    let (found, next) = activated_ability_parser::parser(&activated, 1).unwrap();
    assert_eq!(found.effect, Effect::Effect(StandardEffect::Foresee { count: 1 }));
    assert!(found.costs.is_empty());
    assert_eq!(found.options, None);
    assert_eq!(next, 31);
}

#[test]
fn messages_say_what_was_expected() {
    let at = |kind: ErrorKind, expected: &'static str| ParseError {
        span: Span { start: 0, end: 1 },
        kind,
        expected,
    };
    assert_eq!(at(ErrorKind::Expectation, "draw a card").message(), "expected draw a card");
    assert_eq!(
        at(ErrorKind::ValueRange, "a number within range").message(),
        "number out of range, expected a number within range"
    );
    assert_eq!(
        at(ErrorKind::Exhaustion, "an effect").message(),
        "nothing found, expected an effect"
    );
}

#[test]
fn repeated_keywords_count_once() {
    let text = chars("$judgment, $dissolved, $judgment, $materialized, $dissolved:");
    assert_eq!(
        trigger_event_parser::keyword_parser(&text, 0).unwrap(),
        (
            TriggerEvent::Keywords(vec![
                TriggerKeyword::Judgment,
                TriggerKeyword::Dissolved,
                TriggerKeyword::Materialized,
            ]),
            59
        )
    );
}
