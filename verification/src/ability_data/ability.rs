use crate::ability_data::activated_ability::{ActivatedAbility, ActivatedAbilityModel};
use crate::ability_data::effect::{Effect, EffectModel};
use crate::ability_data::static_ability::StaticAbility;
use crate::ability_data::triggered_ability::{TriggeredAbility, TriggeredAbilityModel};
use vstd::prelude::*;

verus! {

/// An 'ability' represents a paragraph of text present on a card or a specific
/// keyword which maps to text defined by the game rules. Abilities on cards are
/// evaluated from top to bottom in order to apply their game effects.
#[derive(Debug, Clone, PartialEq, Eq)]
pub enum Ability {
    /// An event ability happens immediately when an event card is played, and
    /// then the event card is discarded. Character cards cannot have
    /// 'event' abilities.
    Event(Effect),
    /// A static ability represents something which modifies the rules of the
    /// game, either for this specific card or globally. Static abilities do
    /// not 'happen', they're just something that is always true.
    Static(StaticAbility),
    /// An activated ability is present on a character card and allows the
    /// controlling player to pay some cost in order to achieve an effect.
    Activated(ActivatedAbility),
    /// A triggered ability is an effect which happens when some triggering
    /// event occurs, typically while its card is in play.
    Triggered(TriggeredAbility),
}

/// Mathematical model of an [`Ability`].
pub enum AbilityModel {
    Event(EffectModel),
    Static(StaticAbility),
    Activated(ActivatedAbilityModel),
    Triggered(TriggeredAbilityModel),
}

impl View for Ability {
    type V = AbilityModel;

    open spec fn view(&self) -> AbilityModel {
        match *self {
            Ability::Event(effect) => AbilityModel::Event(effect@),
            Ability::Static(ability) => AbilityModel::Static(ability),
            Ability::Activated(ability) => AbilityModel::Activated(ability@),
            Ability::Triggered(ability) => AbilityModel::Triggered(ability@),
        }
    }
}

} // verus!
