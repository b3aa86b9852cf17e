use crate::ability_data::cost::Cost;
use crate::ability_data::effect::{Effect, EffectModel};
use vstd::prelude::*;

verus! {

/// How an activated ability departs from the usual one. The three flags
/// are independent of each other.
#[derive(Debug, Copy, Clone, PartialEq, Eq, Structural)]
pub struct ActivatedAbilityOptions {
    /// True if the ability can be activated in response to the enemy.
    pub is_fast: bool,
    /// True if the ability can be activated in the turn its card was played.
    pub is_immediate: bool,
    /// True if the ability can be activated more than once in a turn.
    pub is_multi: bool,
}

/// An ability that the controlling player pays for to get its effect.
#[derive(Debug, Clone, PartialEq, Eq)]
pub struct ActivatedAbility {
    /// What must be paid, in the order written.
    pub costs: Vec<Cost>,
    pub effect: Effect,
    pub options: Option<ActivatedAbilityOptions>,
}

/// Mathematical model of an [`ActivatedAbility`]: the costs as a sequence.
pub struct ActivatedAbilityModel {
    pub costs: Seq<Cost>,
    pub effect: EffectModel,
    pub options: Option<ActivatedAbilityOptions>,
}

impl View for ActivatedAbility {
    type V = ActivatedAbilityModel;

    open spec fn view(&self) -> ActivatedAbilityModel {
        ActivatedAbilityModel { costs: self.costs@, effect: self.effect@, options: self.options }
    }
}

} // verus!
