use crate::core_data::character_type::CharacterType;
use crate::core_data::numerics::{Energy, Spark};
use vstd::prelude::*;

verus! {

/// How a value on a card is compared with a reference value.
#[derive(Debug, Copy, Clone, PartialEq, Eq)]
pub enum Operator<T> {
    LowerBy(T),
    OrLess,
    Exactly,
    OrMore,
    HigherBy(T),
}

/// Selects cards by what they are, without saying who controls them.
#[derive(Debug, PartialEq, Eq)]
pub enum CardPredicate {
    Card,
    Character,
    Event,
    CharacterType(CharacterType),
    CharacterWithCost(Energy, Operator<Energy>),
    CharacterWithSpark(Spark, Operator<Spark>),
    CharacterWithMaterializedAbility,
    CharacterWithCostComparedToControlled {
        target: Box<CardPredicate>,
        cost_operator: Operator<Energy>,
        count_matching: Box<CardPredicate>,
    },
    CharacterWithCostComparedToAbandoned {
        target: Box<CardPredicate>,
        cost_operator: Operator<Energy>,
    },
}

/// Specifies which game object an effect, a cost or a trigger speaks of.
#[derive(Debug, PartialEq, Eq)]
pub enum Predicate {
    /// The card that owns the ability.
    This,
    /// The card that caused the ability to trigger.
    That,
    /// The card that the preceding sentence acted on.
    It,
    /// The cards that the preceding sentence acted on.
    Them,
    /// A card controlled by the enemy.
    Enemy(CardPredicate),
    /// A card controlled by the owner, other than the owning card.
    Another(CardPredicate),
    /// A card controlled by the owner.
    Your(CardPredicate),
    /// A card controlled by either player.
    Any(CardPredicate),
    /// A card controlled by either player, other than the owning card.
    AnyOther(CardPredicate),
    /// A card in the owner's void.
    YourVoid(CardPredicate),
    /// A card in the enemy's void.
    EnemyVoid(CardPredicate),
}

impl CardPredicate {
    /// True if the predicate compares no costs, so that it holds no other
    /// predicate.
    pub open spec fn is_simple(self) -> bool {
        !(self is CharacterWithCostComparedToControlled) && !(self
            is CharacterWithCostComparedToAbandoned)
    }

    /// True if the predicates inside a comparison of costs are simple:
    /// the recursion of predicates ends after one step.
    pub open spec fn well_formed(self) -> bool {
        match self {
            CardPredicate::CharacterWithCostComparedToControlled {
                target,
                count_matching,
                ..
            } => target.is_simple() && count_matching.is_simple(),
            CardPredicate::CharacterWithCostComparedToAbandoned { target, .. } => {
                target.is_simple()
            },
            _ => true,
        }
    }
}

impl Clone for CardPredicate {
    /// A copy of the predicate, equal to it.
    fn clone(&self) -> (copy: Self)
        ensures
            copy == *self,
        decreases *self,
    {
        match self {
            CardPredicate::Card => CardPredicate::Card,
            CardPredicate::Character => CardPredicate::Character,
            CardPredicate::Event => CardPredicate::Event,
            CardPredicate::CharacterType(kind) => CardPredicate::CharacterType(*kind),
            CardPredicate::CharacterWithCost(cost, operator) => CardPredicate::CharacterWithCost(
                *cost,
                *operator,
            ),
            CardPredicate::CharacterWithSpark(spark, operator) => CardPredicate::CharacterWithSpark(
                *spark,
                *operator,
            ),
            CardPredicate::CharacterWithMaterializedAbility => {
                CardPredicate::CharacterWithMaterializedAbility
            },
            CardPredicate::CharacterWithCostComparedToControlled {
                target,
                cost_operator,
                count_matching,
            } => CardPredicate::CharacterWithCostComparedToControlled {
                target: Box::new(CardPredicate::clone(&**target)),
                cost_operator: *cost_operator,
                count_matching: Box::new(CardPredicate::clone(&**count_matching)),
            },
            CardPredicate::CharacterWithCostComparedToAbandoned { target, cost_operator } => {
                CardPredicate::CharacterWithCostComparedToAbandoned {
                    target: Box::new(CardPredicate::clone(&**target)),
                    cost_operator: *cost_operator,
                }
            },
        }
    }
}

impl Clone for Predicate {
    /// A copy of the predicate, equal to it.
    fn clone(&self) -> (copy: Self)
        ensures
            copy == *self,
    {
        match self {
            Predicate::This => Predicate::This,
            Predicate::That => Predicate::That,
            Predicate::It => Predicate::It,
            Predicate::Them => Predicate::Them,
            Predicate::Enemy(a) => Predicate::Enemy(a.clone()),
            Predicate::Another(a) => Predicate::Another(a.clone()),
            Predicate::Your(a) => Predicate::Your(a.clone()),
            Predicate::Any(a) => Predicate::Any(a.clone()),
            Predicate::AnyOther(a) => Predicate::AnyOther(a.clone()),
            Predicate::YourVoid(a) => Predicate::YourVoid(a.clone()),
            Predicate::EnemyVoid(a) => Predicate::EnemyVoid(a.clone()),
        }
    }
}

} // verus!
