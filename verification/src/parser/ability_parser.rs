use crate::ability_data::ability::{Ability, AbilityModel};
use crate::ability_data::static_ability::StaticAbility;
use crate::grammar::ability;
use crate::parser::activated_ability_parser;
use crate::parser::effect_parser;
use crate::parser::parser_utils::{expectation, maybe, outcome, viewed, Parsed, ParseError};
use crate::parser::static_ability_parser;
use crate::parser::triggered_ability_parser;
use vstd::prelude::*;
use vstd::std_specs::iter::IteratorSpec;

verus! {

/// What the result of parsing stands for: the model of the ability, or
/// the diagnostics as a sequence.
pub open spec fn stands_for(r: Result<Ability, Vec<ParseError>>) -> Result<
    AbilityModel,
    Seq<ParseError>,
> {
    match r {
        Ok(found) => Ok(found@),
        Err(errors) => Err(errors@),
    }
}

/// Takes a string containing card rules text and parses it into an [`Ability`]
/// data structure, or into the diagnostics that say why it is none.
pub fn parse(text: &str) -> (r: Result<Ability, Vec<ParseError>>)
    ensures
        stands_for(r) == ability::parse(text@),
        r matches Err(errors) ==> ability::well_located(errors@, text@),
{
    let characters = characters(text);
    parse_characters(characters.as_slice())
}

/// Parses card rules text that is given as characters.
pub fn parse_characters(text: &[char]) -> (r: Result<Ability, Vec<ParseError>>)
    ensures
        stands_for(r) == ability::parse(text@),
        r matches Err(errors) ==> ability::well_located(errors@, text@),
{
    match single_ability(text, 0) {
        Ok((found, end)) => {
            if end == text.len() {
                Ok(found)
            } else {
                Err(expectation(text, end, "end of text").errors)
            }
        },
        Err(failure) => Err(failure.errors),
    }
}

/// The characters of `text`, in order.
pub fn characters(text: &str) -> (found: Vec<char>)
    ensures
        found@ == text@,
{
    let mut found: Vec<char> = Vec::new();
    let mut it = text.chars();
    loop
        invariant
            it.obeys_prophetic_iter_laws(),
            found@ + it.remaining() == text@,
            it.decrease() is Some,
        decreases it.decrease()->0,
    {
        match it.next() {
            Some(c) => {
                proof {
                    let before = found@;
                    let rest = it.remaining();
                    assert(before.push(c) + rest =~= before + (seq![c] + rest));
                }
                found.push(c);
            },
            None => {
                proof {
                    assert(found@ + it.remaining() =~= found@);
                }
                return found;
            },
        }
    }
}

/// Reads one ability at `start`.
pub fn single_ability(text: &[char], start: usize) -> (r: Parsed<Ability>)
    requires
        start <= text@.len(),
    ensures
        viewed(r) == ability::ability(text@, start as int),
        viewed(r).within(text@, start as int),
{
    let failure = match triggered_ability_parser::parser(text, start) {
        Ok((found, next)) => return Ok((Ability::Triggered(found), next)),
        Err(failure) => failure,
    };
    let failure = match activated_ability_parser::parser(text, start) {
        Ok((found, next)) => return Ok((Ability::Activated(found), next)),
        Err(other) => failure.merge(other),
    };
    let failure = match effect_parser::effect(text, start) {
        Ok((found, next)) => return Ok((Ability::Event(found), next)),
        Err(other) => failure.merge(other),
    };
    match static_rule(text, start) {
        Ok((found, next)) => Ok((Ability::Static(found), next)),
        Err(other) => Err(failure.merge(other)),
    }
}

/// Reads a static ability and the period that may end it.
fn static_rule(text: &[char], start: usize) -> (r: Parsed<StaticAbility>)
    requires
        start <= text@.len(),
    ensures
        outcome(r) == ability::static_rule(text@, start as int),
        outcome(r).within(text@, start as int),
{
    let (found, q1) = static_ability_parser::parser(text, start)?;
    Ok((found, maybe(text, q1, ".")))
}

} // verus!
