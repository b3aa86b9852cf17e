use crate::ability_data::predicate::{CardPredicate, Predicate};
use crate::grammar::card_predicate::card_predicate;
use crate::grammar::primitives::{a_or_an, phrase, Outcome};
use vstd::prelude::*;

verus! {

/// A card predicate between a head that has been tried already and the
/// phrase `tail`. The empty phrase asks for nothing, so `""` as tail, or
/// the outcome of the empty phrase as head, leaves that side open.
pub open spec fn qualified(s: Seq<char>, head: Outcome<()>, tail: &'static str) -> Outcome<
    CardPredicate,
> {
    head.keep(|q: int| card_predicate(s, q)).skip(s, tail)
}

/// The object that an effect acts on, as in "dissolve an enemy character".
/// Longer phrases stand before the phrases that are their prefixes: "an
/// enemy" and "another" before the article, a predicate with "you control"
/// before the same predicate alone.
#[verifier::opaque]
pub open spec fn target(s: Seq<char>, p: int) -> Outcome<Predicate> {
    phrase(s, p, "this character").to(Predicate::This)
        .or(phrase(s, p, "this event").to(Predicate::This))
        .or(phrase(s, p, "that character").to(Predicate::That))
        .or(phrase(s, p, "that event").to(Predicate::That))
        .or(phrase(s, p, "them").to(Predicate::Them))
        .or(phrase(s, p, "it").to(Predicate::It))
        .or(qualified(s, phrase(s, p, "an enemy"), "").map(|c: CardPredicate| Predicate::Enemy(c)))
        .or(
            qualified(s, phrase(s, p, "another"), "you control").map(
                |c: CardPredicate| Predicate::Another(c),
            ),
        )
        .or(
            qualified(s, phrase(s, p, "another"), "").map(
                |c: CardPredicate| Predicate::AnyOther(c),
            ),
        )
        .or(qualified(s, a_or_an(s, p), "you control").map(|c: CardPredicate| Predicate::Your(c)))
        .or(
            qualified(s, a_or_an(s, p), "in your void").map(
                |c: CardPredicate| Predicate::YourVoid(c),
            ),
        )
        .or(
            qualified(s, a_or_an(s, p), "in the enemy's void").map(
                |c: CardPredicate| Predicate::EnemyVoid(c),
            ),
        )
        .or(qualified(s, a_or_an(s, p), "").map(|c: CardPredicate| Predicate::Any(c)))
}

/// The object of something that the text has already said you do, as in
/// "whenever you materialize a character": the controller is understood.
#[verifier::opaque]
pub open spec fn your_action(s: Seq<char>, p: int) -> Outcome<Predicate> {
    phrase(s, p, "this character").to(Predicate::This)
        .or(phrase(s, p, "this event").to(Predicate::This))
        .or(phrase(s, p, "that character").to(Predicate::That))
        .or(phrase(s, p, "that event").to(Predicate::That))
        .or(qualified(s, phrase(s, p, "an enemy"), "").map(|c: CardPredicate| Predicate::Enemy(c)))
        .or(
            qualified(s, phrase(s, p, "another"), "").map(
                |c: CardPredicate| Predicate::Another(c),
            ),
        )
        .or(qualified(s, a_or_an(s, p), "").map(|c: CardPredicate| Predicate::Your(c)))
}

/// The objects that are counted, as in "the number of other characters you
/// control". No article stands before them.
#[verifier::opaque]
pub open spec fn counted(s: Seq<char>, p: int) -> Outcome<Predicate> {
    qualified(s, phrase(s, p, "other"), "you control").map(
        |c: CardPredicate| Predicate::Another(c),
    )
        .or(qualified(s, phrase(s, p, "enemy"), "").map(|c: CardPredicate| Predicate::Enemy(c)))
        .or(qualified(s, phrase(s, p, "other"), "").map(|c: CardPredicate| Predicate::AnyOther(c)))
        .or(
            qualified(s, phrase(s, p, ""), "you control").map(
                |c: CardPredicate| Predicate::Your(c),
            ),
        )
        .or(
            qualified(s, phrase(s, p, ""), "in your void").map(
                |c: CardPredicate| Predicate::YourVoid(c),
            ),
        )
        .or(
            qualified(s, phrase(s, p, ""), "in the enemy's void").map(
                |c: CardPredicate| Predicate::EnemyVoid(c),
            ),
        )
        .or(qualified(s, phrase(s, p, ""), "").map(|c: CardPredicate| Predicate::Any(c)))
}

/// "for each" and the objects that are counted.
pub open spec fn for_each(s: Seq<char>, p: int) -> Outcome<Predicate> {
    phrase(s, p, "for each").keep(|q: int| counted(s, q))
}

/// The object of an effect between the phrases `before` and `after`.
pub open spec fn targeting(
    s: Seq<char>,
    p: int,
    before: &'static str,
    after: &'static str,
) -> Outcome<Predicate> {
    phrase(s, p, before).keep(|q: int| target(s, q)).skip(s, after)
}

/// The object of something that you do, between the phrases `before` and
/// `after`.
pub open spec fn acting(
    s: Seq<char>,
    p: int,
    before: &'static str,
    after: &'static str,
) -> Outcome<Predicate> {
    phrase(s, p, before).keep(|q: int| your_action(s, q)).skip(s, after)
}

} // verus!
