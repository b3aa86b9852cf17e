use crate::ability_data::condition::Condition;
use crate::ability_data::cost::Cost;
use crate::ability_data::effect::Effect;
use crate::ability_data::predicate::{CardPredicate, Predicate};
use crate::core_data::numerics::{Energy, Spark};
use vstd::prelude::*;

verus! {

/// The right to play a card from the void.
#[derive(Debug, Clone, PartialEq, Eq)]
pub struct PlayFromVoid {
    /// The right exists only while this holds.
    pub condition: Option<Condition>,
    /// The energy to pay in place of the card's cost, if the text names one.
    pub energy_cost: Option<Energy>,
    /// What must be paid besides energy.
    pub additional_cost: Cost,
    /// What happens if the card is played this way.
    pub if_you_do: Option<Effect>,
}

/// The right to play a card for another cost than its own.
#[derive(Debug, Clone, PartialEq, Eq)]
pub struct AlternateCost {
    /// The right exists only while this holds.
    pub condition: Option<Condition>,
    /// The energy to pay in place of the card's cost.
    pub energy_cost: Energy,
    /// What must be paid besides energy.
    pub additional_cost: Cost,
    /// What happens if the card is played this way.
    pub if_you_do: Option<Effect>,
}

/// A static ability represents something which modifies the rules of the
/// game, either for this specific card or globally. Static abilities do
/// not 'happen', they're just something that is always true.
#[derive(Debug, Clone, PartialEq, Eq)]
pub enum StaticAbility {
    CharactersInHandHaveFast,
    DisableEnemyMaterializedAbilities,
    EnemyCardsCostIncrease { matching: CardPredicate, increase: Energy },
    HasAllCharacterTypes,
    JudgmentTriggersWhenMaterialized { predicate: Predicate },
    OncePerTurnPlayFromVoid { matching: CardPredicate },
    OtherCharactersSparkBonus { matching: CardPredicate, added_spark: Spark },
    PlayForAlternateCost(AlternateCost),
    PlayFromVoid(PlayFromVoid),
    PlayOnlyFromVoid,
    Reclaim { cost: Option<Cost> },
    SparkEqualToPredicateCount { predicate: Predicate },
    YouMayLookAtTopCardOfYourDeck,
    YouMayPlayFromTopOfDeck { matching: CardPredicate },
    YourCardsCostIncrease { matching: CardPredicate, reduction: Energy },
    YourCardsCostReduction { matching: CardPredicate, reduction: Energy },
}

} // verus!
