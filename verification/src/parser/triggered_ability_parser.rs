use crate::ability_data::triggered_ability::TriggeredAbility;
use crate::grammar::triggered_ability;
use crate::parser::effect_parser;
use crate::parser::parser_utils::{either_phrase, phrase, viewed, Parsed};
use crate::parser::trigger_event_parser;
use vstd::prelude::*;

verus! {

/// Reads a triggered ability at `start`.
pub fn parser(text: &[char], start: usize) -> (r: Parsed<TriggeredAbility>)
    requires
        start <= text@.len(),
    ensures
        viewed(r) == triggered_ability::triggered_ability(text@, start as int),
        viewed(r).within(text@, start as int),
{
    proof {
        reveal(triggered_ability::triggered_ability);
    }
    let failure = match keyword_trigger(text, start) {
        Ok(found) => return Ok(found),
        Err(failure) => failure,
    };
    match standard_trigger(text, start) {
        Ok(found) => Ok(found),
        Err(other) => Err(failure.merge(other)),
    }
}

fn keyword_trigger(text: &[char], start: usize) -> (r: Parsed<TriggeredAbility>)
    requires
        start <= text@.len(),
    ensures
        viewed(r) == triggered_ability::keyword_trigger(text@, start as int),
        viewed(r).within(text@, start as int),
{
    let (trigger, q1) = trigger_event_parser::keyword_parser(text, start)?;
    let q2 = phrase(text, q1, ":")?;
    let (effect, q3) = effect_parser::effect(text, q2)?;
    Ok((TriggeredAbility::new(trigger, effect), q3))
}

fn standard_trigger(text: &[char], start: usize) -> (r: Parsed<TriggeredAbility>)
    requires
        start <= text@.len(),
    ensures
        viewed(r) == triggered_ability::standard_trigger(text@, start as int),
        viewed(r).within(text@, start as int),
{
    let q1 = either_phrase(text, start, "whenever", "when")?;
    let (trigger, q2) = trigger_event_parser::event_parser(text, q1)?;
    let q3 = phrase(text, q2, ",")?;
    let (effect, q4) = effect_parser::effect(text, q3)?;
    Ok((TriggeredAbility::new(trigger, effect), q4))
}

} // verus!
