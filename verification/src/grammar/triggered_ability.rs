use crate::ability_data::effect::EffectModel;
use crate::ability_data::trigger_event::{TriggerEvent, TriggerEventModel, TriggerKeyword};
use crate::ability_data::triggered_ability::TriggeredAbilityModel;
use crate::grammar::effect::effect;
use crate::grammar::primitives::{phrase, Outcome};
use crate::grammar::trigger_event::{event, keywords};
use vstd::prelude::*;

verus! {

/// "$materialized, $judgment: draw a card."
pub open spec fn keyword_trigger(s: Seq<char>, p: int) -> Outcome<TriggeredAbilityModel> {
    keywords(s, p).skip(s, ":").pair(|q: int| effect(s, q)).map(
        |v: (Seq<TriggerKeyword>, EffectModel)|
            TriggeredAbilityModel {
                trigger: TriggerEventModel::Keywords(v.0),
                effect: v.1,
                options: None,
            },
    )
}

/// "whenever" or "when": the longer word first. Which of them stands in
/// the text makes no difference to the ability.
pub open spec fn trigger_word(s: Seq<char>, p: int) -> Outcome<()> {
    phrase(s, p, "whenever").or(phrase(s, p, "when"))
}

/// "whenever you materialize a character, draw a card."
pub open spec fn standard_trigger(s: Seq<char>, p: int) -> Outcome<TriggeredAbilityModel> {
    trigger_word(s, p).keep(|q: int| event(s, q)).skip(s, ",").pair(|q: int| effect(s, q)).map(
        |v: (TriggerEvent, EffectModel)|
            TriggeredAbilityModel { trigger: v.0@, effect: v.1, options: None },
    )
}

/// A triggered ability.
#[verifier::opaque]
pub open spec fn triggered_ability(s: Seq<char>, p: int) -> Outcome<TriggeredAbilityModel> {
    keyword_trigger(s, p).or(standard_trigger(s, p))
}

} // verus!
