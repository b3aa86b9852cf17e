use crate::ability_data::collection_expression::CollectionExpression;
use crate::ability_data::cost::Cost;
use crate::ability_data::counting_expression::CountingExpression;
use crate::ability_data::effect::Effect;
use crate::ability_data::predicate::{CardPredicate, Predicate};
use crate::ability_data::quantity_expression::QuantityExpression;
use crate::ability_data::triggered_ability::TriggeredAbility;
use crate::core_data::numerics::{Energy, Points, Spark};
use vstd::prelude::*;

verus! {

/// Effects are the primary way in which cards modify the game state. This can
/// be as part of the resolution of an event card, or via the effect text of a
/// triggered or activated ability on a character card.
#[derive(Debug, PartialEq, Eq)]
pub enum StandardEffect {
    AbandonAndGainEnergyForSpark { target: Predicate, energy_per_spark: Energy },
    AbandonAtEndOfTurn { target: Predicate },
    BanishCardsFromEnemyVoid { count: u64 },
    BanishEnemyVoid,
    BanishCharacter { target: Predicate },
    BanishCharacterUntilLeavesPlay { target: Predicate, until_leaves: Predicate },
    BanishUntilNextMain { target: Predicate },
    BanishCollection { target: Predicate, count: CollectionExpression },
    BanishThenMaterialize { target: Predicate },
    BanishThenMaterializeCount { target: Predicate, count: CountingExpression },
    CardsInVoidGainReclaimThisTurn { count: CollectionExpression, predicate: CardPredicate },
    Copy { target: Predicate },
    CopyNextPlayed { matching: Predicate, times: Option<u64> },
    CreateTriggerUntilEndOfTurn { trigger: Box<TriggeredAbility> },
    DisableActivatedAbilitiesWhileInPlay { target: Predicate },
    DiscardCardFromEnemyHand { predicate: CardPredicate },
    DiscardCardFromEnemyHandThenTheyDraw { predicate: CardPredicate },
    DiscardCards { count: u64 },
    Discover { predicate: CardPredicate },
    DiscoverAndThenMaterialize { predicate: CardPredicate },
    DissolveCharacter { target: Predicate },
    DissolveCharactersCount { target: Predicate, count: CountingExpression },
    DissolveCharactersQuantity { target: Predicate, quantity: QuantityExpression },
    DoubleYourEnergy,
    DrawCards { count: u64 },
    DrawMatchingCard { predicate: CardPredicate },
    DrawCardsForEach { count: u64, for_each: QuantityExpression },
    EachMatchingGainsSparkUntilNextMain { each: CardPredicate, gains: Spark },
    EachMatchingGainsSparkForEach { each: CardPredicate, gains: Spark, for_each: CardPredicate },
    EachPlayerAbandonsCharacters { matching: CardPredicate, count: u64 },
    EachPlayerDiscardCards { count: u64 },
    EnemyGainsPoints { count: u64 },
    EnemyGainsPointsEqualToItsSpark,
    EnemyLosesPoints { count: u64 },
    Foresee { count: u64 },
    GainControl { target: Predicate },
    GainEnergy { gains: Energy },
    GainEnergyForEach { gains: Energy, for_each: Predicate },
    GainPoints { gains: Points },
    GainPointsForEach { gain: Points, for_count: QuantityExpression },
    GainsAegisThisTurn { target: Predicate },
    GainsReclaimUntilEndOfTurn { target: Predicate, cost: Option<Energy> },
    GainsSpark { target: Predicate, gains: Spark },
    GainsSparkForQuantity { target: Predicate, gains: Spark, for_quantity: QuantityExpression },
    GainsSparkUntilYourNextMainForEach { target: Predicate, gains: Spark, for_each: Predicate },
    GainTwiceThatMuchEnergyInstead,
    Kindle { amount: Spark },
    LosePoints { loses: Points },
    MaterializeCharacter { target: Predicate },
    MaterializeCharacterAtEndOfTurn { target: Predicate },
    MaterializeCharacterFromVoid { target: CardPredicate },
    MaterializeRandomFromDeck { count: u64, predicate: CardPredicate },
    MaterializeSilentCopy { target: Predicate, count: u64, quantity: QuantityExpression },
    Negate { target: Predicate },
    PayCost { cost: Cost },
    PutCardsFromYourDeckIntoVoid { count: u64 },
    PutCardsFromVoidOnTopOfDeck { count: u64, matching: CardPredicate },
    PutOnTopOfEnemyDeck { target: Predicate },
    ReturnCharactersToHandDrawCardForEach { count: CountingExpression },
    ReturnFromYourVoidToHand { target: Predicate },
    ReturnFromYourVoidToPlay { target: Predicate },
    ReturnToHand { target: Predicate },
    ShuffleHandAndDeckAndDraw { count: u64 },
    SparkBecomes { collection: CollectionExpression, matching: CardPredicate, spark: Spark },
    SpendAllEnergyDrawAndDiscard,
    SpendAllEnergyDissolveEnemy,
    TakeExtraTurn,
    ThenMaterializeIt,
    TriggerJudgmentAbility { matching: Predicate, collection: CollectionExpression },
    YouWinTheGame,
}

impl StandardEffect {
    /// True if the effect holds no list. Every effect does, but one that
    /// creates a trigger does only if the trigger is no list of keywords
    /// and its effect is a single effect that holds no list.
    pub open spec fn holds_no_list(self) -> bool
        decreases self,
    {
        match self {
            StandardEffect::CreateTriggerUntilEndOfTurn { trigger } => {
                &&& !(trigger.trigger is Keywords)
                &&& match trigger.effect {
                    Effect::Effect(effect) => effect.holds_no_list(),
                    Effect::WithOptions(unit) => unit.effect.holds_no_list(),
                    Effect::List(_) => false,
                }
            },
            _ => true,
        }
    }
}

impl Clone for StandardEffect {
    /// A copy of the effect. It is equal to the effect if the effect holds no
    /// list; a list is copied item by item.
    fn clone(&self) -> (copy: Self)
        ensures
            self.holds_no_list() ==> copy == *self,
        decreases *self,
    {
        match self {
            StandardEffect::AbandonAndGainEnergyForSpark { target, energy_per_spark } => {
                StandardEffect::AbandonAndGainEnergyForSpark {
                    target: target.clone(),
                    energy_per_spark: *energy_per_spark,
                }
            },
            StandardEffect::AbandonAtEndOfTurn { target } => {
                StandardEffect::AbandonAtEndOfTurn { target: target.clone() }
            },
            StandardEffect::BanishCardsFromEnemyVoid { count } => {
                StandardEffect::BanishCardsFromEnemyVoid { count: *count }
            },
            StandardEffect::BanishEnemyVoid => StandardEffect::BanishEnemyVoid,
            StandardEffect::BanishCharacter { target } => {
                StandardEffect::BanishCharacter { target: target.clone() }
            },
            StandardEffect::BanishCharacterUntilLeavesPlay { target, until_leaves } => {
                StandardEffect::BanishCharacterUntilLeavesPlay {
                    target: target.clone(),
                    until_leaves: until_leaves.clone(),
                }
            },
            StandardEffect::BanishUntilNextMain { target } => {
                StandardEffect::BanishUntilNextMain { target: target.clone() }
            },
            StandardEffect::BanishCollection { target, count } => {
                StandardEffect::BanishCollection { target: target.clone(), count: *count }
            },
            StandardEffect::BanishThenMaterialize { target } => {
                StandardEffect::BanishThenMaterialize { target: target.clone() }
            },
            StandardEffect::BanishThenMaterializeCount { target, count } => {
                StandardEffect::BanishThenMaterializeCount { target: target.clone(), count: *count }
            },
            StandardEffect::CardsInVoidGainReclaimThisTurn { count, predicate } => {
                StandardEffect::CardsInVoidGainReclaimThisTurn {
                    count: *count,
                    predicate: predicate.clone(),
                }
            },
            StandardEffect::Copy { target } => StandardEffect::Copy { target: target.clone() },
            StandardEffect::CopyNextPlayed { matching, times } => {
                StandardEffect::CopyNextPlayed { matching: matching.clone(), times: *times }
            },
            StandardEffect::CreateTriggerUntilEndOfTurn { trigger } => {
                StandardEffect::CreateTriggerUntilEndOfTurn {
                    trigger: Box::new(TriggeredAbility::clone(&**trigger)),
                }
            },
            StandardEffect::DisableActivatedAbilitiesWhileInPlay { target } => {
                StandardEffect::DisableActivatedAbilitiesWhileInPlay { target: target.clone() }
            },
            StandardEffect::DiscardCardFromEnemyHand { predicate } => {
                StandardEffect::DiscardCardFromEnemyHand { predicate: predicate.clone() }
            },
            StandardEffect::DiscardCardFromEnemyHandThenTheyDraw { predicate } => {
                StandardEffect::DiscardCardFromEnemyHandThenTheyDraw {
                    predicate: predicate.clone(),
                }
            },
            StandardEffect::DiscardCards { count } => {
                StandardEffect::DiscardCards { count: *count }
            },
            StandardEffect::Discover { predicate } => {
                StandardEffect::Discover { predicate: predicate.clone() }
            },
            StandardEffect::DiscoverAndThenMaterialize { predicate } => {
                StandardEffect::DiscoverAndThenMaterialize { predicate: predicate.clone() }
            },
            StandardEffect::DissolveCharacter { target } => {
                StandardEffect::DissolveCharacter { target: target.clone() }
            },
            StandardEffect::DissolveCharactersCount { target, count } => {
                StandardEffect::DissolveCharactersCount { target: target.clone(), count: *count }
            },
            StandardEffect::DissolveCharactersQuantity { target, quantity } => {
                StandardEffect::DissolveCharactersQuantity {
                    target: target.clone(),
                    quantity: quantity.clone(),
                }
            },
            StandardEffect::DoubleYourEnergy => StandardEffect::DoubleYourEnergy,
            StandardEffect::DrawCards { count } => StandardEffect::DrawCards { count: *count },
            StandardEffect::DrawMatchingCard { predicate } => {
                StandardEffect::DrawMatchingCard { predicate: predicate.clone() }
            },
            StandardEffect::DrawCardsForEach { count, for_each } => {
                StandardEffect::DrawCardsForEach { count: *count, for_each: for_each.clone() }
            },
            StandardEffect::EachMatchingGainsSparkUntilNextMain { each, gains } => {
                StandardEffect::EachMatchingGainsSparkUntilNextMain {
                    each: each.clone(),
                    gains: *gains,
                }
            },
            StandardEffect::EachMatchingGainsSparkForEach { each, gains, for_each } => {
                StandardEffect::EachMatchingGainsSparkForEach {
                    each: each.clone(),
                    gains: *gains,
                    for_each: for_each.clone(),
                }
            },
            StandardEffect::EachPlayerAbandonsCharacters { matching, count } => {
                StandardEffect::EachPlayerAbandonsCharacters {
                    matching: matching.clone(),
                    count: *count,
                }
            },
            StandardEffect::EachPlayerDiscardCards { count } => {
                StandardEffect::EachPlayerDiscardCards { count: *count }
            },
            StandardEffect::EnemyGainsPoints { count } => {
                StandardEffect::EnemyGainsPoints { count: *count }
            },
            StandardEffect::EnemyGainsPointsEqualToItsSpark => {
                StandardEffect::EnemyGainsPointsEqualToItsSpark
            },
            StandardEffect::EnemyLosesPoints { count } => {
                StandardEffect::EnemyLosesPoints { count: *count }
            },
            StandardEffect::Foresee { count } => StandardEffect::Foresee { count: *count },
            StandardEffect::GainControl { target } => {
                StandardEffect::GainControl { target: target.clone() }
            },
            StandardEffect::GainEnergy { gains } => StandardEffect::GainEnergy { gains: *gains },
            StandardEffect::GainEnergyForEach { gains, for_each } => {
                StandardEffect::GainEnergyForEach { gains: *gains, for_each: for_each.clone() }
            },
            StandardEffect::GainPoints { gains } => StandardEffect::GainPoints { gains: *gains },
            StandardEffect::GainPointsForEach { gain, for_count } => {
                StandardEffect::GainPointsForEach { gain: *gain, for_count: for_count.clone() }
            },
            StandardEffect::GainsAegisThisTurn { target } => {
                StandardEffect::GainsAegisThisTurn { target: target.clone() }
            },
            StandardEffect::GainsReclaimUntilEndOfTurn { target, cost } => {
                StandardEffect::GainsReclaimUntilEndOfTurn { target: target.clone(), cost: *cost }
            },
            StandardEffect::GainsSpark { target, gains } => {
                StandardEffect::GainsSpark { target: target.clone(), gains: *gains }
            },
            StandardEffect::GainsSparkForQuantity { target, gains, for_quantity } => {
                StandardEffect::GainsSparkForQuantity {
                    target: target.clone(),
                    gains: *gains,
                    for_quantity: for_quantity.clone(),
                }
            },
            StandardEffect::GainsSparkUntilYourNextMainForEach { target, gains, for_each } => {
                StandardEffect::GainsSparkUntilYourNextMainForEach {
                    target: target.clone(),
                    gains: *gains,
                    for_each: for_each.clone(),
                }
            },
            StandardEffect::GainTwiceThatMuchEnergyInstead => {
                StandardEffect::GainTwiceThatMuchEnergyInstead
            },
            StandardEffect::Kindle { amount } => StandardEffect::Kindle { amount: *amount },
            StandardEffect::LosePoints { loses } => StandardEffect::LosePoints { loses: *loses },
            StandardEffect::MaterializeCharacter { target } => {
                StandardEffect::MaterializeCharacter { target: target.clone() }
            },
            StandardEffect::MaterializeCharacterAtEndOfTurn { target } => {
                StandardEffect::MaterializeCharacterAtEndOfTurn { target: target.clone() }
            },
            StandardEffect::MaterializeCharacterFromVoid { target } => {
                StandardEffect::MaterializeCharacterFromVoid { target: target.clone() }
            },
            StandardEffect::MaterializeRandomFromDeck { count, predicate } => {
                StandardEffect::MaterializeRandomFromDeck {
                    count: *count,
                    predicate: predicate.clone(),
                }
            },
            StandardEffect::MaterializeSilentCopy { target, count, quantity } => {
                StandardEffect::MaterializeSilentCopy {
                    target: target.clone(),
                    count: *count,
                    quantity: quantity.clone(),
                }
            },
            StandardEffect::Negate { target } => StandardEffect::Negate { target: target.clone() },
            StandardEffect::PayCost { cost } => StandardEffect::PayCost { cost: cost.clone() },
            StandardEffect::PutCardsFromYourDeckIntoVoid { count } => {
                StandardEffect::PutCardsFromYourDeckIntoVoid { count: *count }
            },
            StandardEffect::PutCardsFromVoidOnTopOfDeck { count, matching } => {
                StandardEffect::PutCardsFromVoidOnTopOfDeck {
                    count: *count,
                    matching: matching.clone(),
                }
            },
            StandardEffect::PutOnTopOfEnemyDeck { target } => {
                StandardEffect::PutOnTopOfEnemyDeck { target: target.clone() }
            },
            StandardEffect::ReturnCharactersToHandDrawCardForEach { count } => {
                StandardEffect::ReturnCharactersToHandDrawCardForEach { count: *count }
            },
            StandardEffect::ReturnFromYourVoidToHand { target } => {
                StandardEffect::ReturnFromYourVoidToHand { target: target.clone() }
            },
            StandardEffect::ReturnFromYourVoidToPlay { target } => {
                StandardEffect::ReturnFromYourVoidToPlay { target: target.clone() }
            },
            StandardEffect::ReturnToHand { target } => {
                StandardEffect::ReturnToHand { target: target.clone() }
            },
            StandardEffect::ShuffleHandAndDeckAndDraw { count } => {
                StandardEffect::ShuffleHandAndDeckAndDraw { count: *count }
            },
            StandardEffect::SparkBecomes { collection, matching, spark } => {
                StandardEffect::SparkBecomes {
                    collection: *collection,
                    matching: matching.clone(),
                    spark: *spark,
                }
            },
            StandardEffect::SpendAllEnergyDrawAndDiscard => {
                StandardEffect::SpendAllEnergyDrawAndDiscard
            },
            StandardEffect::SpendAllEnergyDissolveEnemy => {
                StandardEffect::SpendAllEnergyDissolveEnemy
            },
            StandardEffect::TakeExtraTurn => StandardEffect::TakeExtraTurn,
            StandardEffect::ThenMaterializeIt => StandardEffect::ThenMaterializeIt,
            StandardEffect::TriggerJudgmentAbility { matching, collection } => {
                StandardEffect::TriggerJudgmentAbility {
                    matching: matching.clone(),
                    collection: *collection,
                }
            },
            StandardEffect::YouWinTheGame => StandardEffect::YouWinTheGame,
        }
    }
}

} // verus!
