use crate::ability_data::predicate::{CardPredicate, Operator};
use crate::core_data::character_type::CharacterType;
use crate::core_data::numerics::{Energy, Spark};
use crate::grammar::primitives::{energy, phrase, spark, Outcome};
use vstd::prelude::*;

verus! {

/// "characters" or "character": the plural is tried first, because the
/// singular is a prefix of it.
pub open spec fn character(s: Seq<char>, p: int) -> Outcome<()> {
    phrase(s, p, "characters").or(phrase(s, p, "character"))
}

/// "or less" or "or more", after a cost.
pub open spec fn cost_bound(s: Seq<char>, p: int) -> Outcome<Operator<Energy>> {
    phrase(s, p, "or less").to(Operator::<Energy>::OrLess).or(
        phrase(s, p, "or more").to(Operator::<Energy>::OrMore),
    )
}

/// "or less" or "or more", after a spark value.
pub open spec fn spark_bound(s: Seq<char>, p: int) -> Outcome<Operator<Spark>> {
    phrase(s, p, "or less").to(Operator::<Spark>::OrLess).or(
        phrase(s, p, "or more").to(Operator::<Spark>::OrMore),
    )
}

/// "character with cost $3 or less".
pub open spec fn character_with_cost(s: Seq<char>, p: int) -> Outcome<CardPredicate> {
    character(s, p).keep(|q: int| energy(s, q, "with cost $", "")).pair(
        |q: int| cost_bound(s, q),
    ).map(|v: (Energy, Operator<Energy>)| CardPredicate::CharacterWithCost(v.0, v.1))
}

/// "character with spark 2 or more".
pub open spec fn character_with_spark(s: Seq<char>, p: int) -> Outcome<CardPredicate> {
    character(s, p).keep(|q: int| spark(s, q, "with spark", "")).pair(
        |q: int| spark_bound(s, q),
    ).map(|v: (Spark, Operator<Spark>)| CardPredicate::CharacterWithSpark(v.0, v.1))
}

/// "character with a $materialized ability".
pub open spec fn character_with_materialized_ability(s: Seq<char>, p: int) -> Outcome<
    CardPredicate,
> {
    character(s, p).skip(s, "with a $materialized ability").to(
        CardPredicate::CharacterWithMaterializedAbility,
    )
}

/// The name of a character type, plural before singular.
pub open spec fn character_type_name(s: Seq<char>, p: int) -> Outcome<CharacterType> {
    phrase(s, p, "warriors").or(phrase(s, p, "warrior")).to(CharacterType::Warrior).or(
        phrase(s, p, "survivors").or(phrase(s, p, "survivor")).to(CharacterType::Survivor),
    ).or(
        phrase(s, p, "spirit animals").or(phrase(s, p, "spirit animal")).to(
            CharacterType::SpiritAnimal,
        ),
    )
}

/// "{cardtype: warrior}".
pub open spec fn character_type(s: Seq<char>, p: int) -> Outcome<CharacterType> {
    phrase(s, p, "{cardtype: ").keep(|q: int| character_type_name(s, q)).skip(s, "}")
}

/// The predicates that hold no other predicate.
#[verifier::opaque]
pub open spec fn non_recursive_predicate(s: Seq<char>, p: int) -> Outcome<CardPredicate> {
    character_with_cost(s, p)
        .or(character_with_spark(s, p))
        .or(character_with_materialized_ability(s, p))
        .or(character_type(s, p).map(|t: CharacterType| CardPredicate::CharacterType(t)))
        .or(phrase(s, p, "cards").or(phrase(s, p, "card")).to(CardPredicate::Card))
        .or(character(s, p).to(CardPredicate::Character))
        .or(phrase(s, p, "events").or(phrase(s, p, "event")).to(CardPredicate::Event))
}

/// How a cost is compared with a number of controlled cards. "equal to"
/// cannot shadow the two longer phrases: it is a prefix of neither.
pub open spec fn controlled_comparison(s: Seq<char>, p: int) -> Outcome<Operator<Energy>> {
    phrase(s, p, "less than or equal to").to(Operator::<Energy>::OrLess)
        .or(phrase(s, p, "equal to").to(Operator::<Energy>::Exactly))
        .or(phrase(s, p, "greater than or equal to").to(Operator::<Energy>::OrMore))
}

/// "the number of <predicate> you control".
pub open spec fn number_controlled(s: Seq<char>, p: int) -> Outcome<CardPredicate> {
    phrase(s, p, "the number of").keep(|q: int| non_recursive_predicate(s, q)).skip(
        s,
        "you control",
    )
}

/// "character with cost equal to the number of characters you control". Both
/// sides are predicates that hold no other predicate.
pub open spec fn character_with_cost_compared_to_controlled(s: Seq<char>, p: int) -> Outcome<
    CardPredicate,
> {
    non_recursive_predicate(s, p).skip(s, "with cost").pair(
        |q: int| controlled_comparison(s, q),
    ).pair(|q: int| number_controlled(s, q)).map(
        |v: ((CardPredicate, Operator<Energy>), CardPredicate)|
            CardPredicate::CharacterWithCostComparedToControlled {
                target: Box::new(v.0.0),
                cost_operator: v.0.1,
                count_matching: Box::new(v.1),
            },
    )
}

/// How a cost is compared with that of the abandoned character.
pub open spec fn abandoned_comparison(s: Seq<char>, p: int) -> Outcome<Operator<Energy>> {
    energy(s, p, "$", "higher than").map(|e: Energy| Operator::HigherBy(e))
        .or(energy(s, p, "$", "lower than").map(|e: Energy| Operator::LowerBy(e)))
        .or(phrase(s, p, "greater than").to(Operator::<Energy>::OrMore))
        .or(phrase(s, p, "less than").to(Operator::<Energy>::OrLess))
        .or(phrase(s, p, "equal to").to(Operator::<Energy>::Exactly))
}

/// "character with cost $2 higher than the abandoned character".
pub open spec fn character_with_cost_compared_to_abandoned(s: Seq<char>, p: int) -> Outcome<
    CardPredicate,
> {
    non_recursive_predicate(s, p).skip(s, "with cost").pair(
        |q: int| abandoned_comparison(s, q),
    ).skip(s, "the abandoned character").map(
        |v: (CardPredicate, Operator<Energy>)|
            CardPredicate::CharacterWithCostComparedToAbandoned {
                target: Box::new(v.0),
                cost_operator: v.1,
            },
    )
}

/// A card predicate: the two comparisons first, because each of them starts
/// with a predicate that would match alone.
#[verifier::opaque]
pub open spec fn card_predicate(s: Seq<char>, p: int) -> Outcome<CardPredicate> {
    character_with_cost_compared_to_controlled(s, p)
        .or(character_with_cost_compared_to_abandoned(s, p))
        .or(non_recursive_predicate(s, p))
}

} // verus!
