use crate::ability_data::effect::{Effect, EffectModel};
use crate::ability_data::trigger_event::{TriggerEvent, TriggerEventModel};
use vstd::prelude::*;

verus! {

/// How a triggered ability departs from the usual one.
#[derive(Debug, Copy, Clone, PartialEq, Eq, Structural)]
pub struct TriggeredAbilityOptions {
    /// True if the ability triggers at most once in each turn.
    pub once_per_turn: bool,
    /// True if the ability lasts only until the end of the current turn.
    pub until_end_of_turn: bool,
}

/// An effect which happens when some triggering event occurs.
#[derive(Debug, PartialEq, Eq)]
pub struct TriggeredAbility {
    pub trigger: TriggerEvent,
    pub effect: Effect,
    pub options: Option<TriggeredAbilityOptions>,
}

/// Mathematical model of a [`TriggeredAbility`].
pub struct TriggeredAbilityModel {
    pub trigger: TriggerEventModel,
    pub effect: EffectModel,
    pub options: Option<TriggeredAbilityOptions>,
}

impl View for TriggeredAbility {
    type V = TriggeredAbilityModel;

    open spec fn view(&self) -> TriggeredAbilityModel {
        TriggeredAbilityModel {
            trigger: self.trigger@,
            effect: self.effect@,
            options: self.options,
        }
    }
}

impl Clone for TriggeredAbility {
    /// A copy of the ability, with copies of its trigger and its effect. It
    /// has the same model as the ability if no action of the effect holds a
    /// list.
    fn clone(&self) -> (copy: Self)
        ensures
            copy.trigger@ == self.trigger@,
            copy.options == self.options,
            self.effect.holds_no_inner_list() ==> copy@ == self@,
            !(self.trigger is Keywords) && (self.effect matches Effect::Effect(e)
                && e.holds_no_list()) ==> copy == *self,
        decreases *self,
    {
        TriggeredAbility {
            trigger: self.trigger.clone(),
            effect: Effect::clone(&self.effect),
            options: self.options,
        }
    }
}

impl TriggeredAbility {
    /// A triggered ability without options.
    pub fn new(trigger: TriggerEvent, effect: Effect) -> (ability: TriggeredAbility)
        ensures
            ability == (TriggeredAbility { trigger, effect, options: None }),
    {
        TriggeredAbility { trigger, effect, options: None }
    }
}

} // verus!
