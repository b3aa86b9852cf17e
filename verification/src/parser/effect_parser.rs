use crate::ability_data::effect::{Effect, EffectWithOptions};
use crate::grammar::effect;
use crate::grammar::primitives::{lemma_phrase_progress, Outcome};
use crate::parser::condition_parser;
use crate::parser::parser_utils::{lemma_length_fits, outcome, phrase, viewed, Parsed};
use crate::parser::standard_effect_parser;
use vstd::prelude::*;

verus! {

/// Reads a full effect at `start`: one or more units, each ended by a
/// period. A single unit yields the effect itself, several yield a list in
/// the order of the text.
pub fn effect(text: &[char], start: usize) -> (r: Parsed<Effect>)
    requires
        start <= text@.len(),
    ensures
        viewed(r) == effect::effect(text@, start as int),
        viewed(r).within(text@, start as int),
        r matches Ok((found, _)) ==> found@.well_formed(),
{
    let (first, after_first) = match single_effect(text, start) {
        Ok(found) => found,
        Err(failure) => return Err(failure.exhausted("an effect")),
    };
    let mut found: Vec<EffectWithOptions> = Vec::new();
    found.push(first);
    let mut p: usize = after_first;
    loop
        invariant
            start <= p <= text@.len(),
            found@.len() >= 1,
            forall|i: int| 0 <= i < found@.len() ==> (#[trigger] found@[i]).exclusive(),
            effect::units(text@, start as int) == Outcome::Match(
                found@ + effect::more_units(text@, p as int).0,
                effect::more_units(text@, p as int).1,
            ),
        decreases text@.len() - p,
    {
        match single_effect(text, p) {
            Ok((unit, q)) => {
                proof {
                    let rest = effect::more_units(text@, q as int);
                    assert(found@ + (seq![unit] + rest.0) =~= found@.push(unit) + rest.0);
                }
                found.push(unit);
                p = q;
            },
            Err(_) => {
                proof {
                    assert(found@ + Seq::<EffectWithOptions>::empty() =~= found@);
                }
                if found.len() == 1 {
                    let only = found.pop().unwrap();
                    return Ok((only.to_effect(), p));
                }
                return Ok((Effect::List(found), p));
            },
        }
    }
}

/// Reads one unit of an effect and the period that ends it.
fn single_effect(text: &[char], start: usize) -> (r: Parsed<EffectWithOptions>)
    requires
        start <= text@.len(),
    ensures
        outcome(r) == effect::single_effect(text@, start as int),
        outcome(r).within(text@, start as int),
        r matches Ok((unit, next)) ==> start < next && unit.exclusive(),
{
    proof {
        reveal(effect::single_effect);
    }
    let (unit, q1) = unit(text, start)?;
    let q2 = phrase(text, q1, ".")?;
    proof {
        reveal_strlit(".");
        lemma_length_fits(text);
        lemma_phrase_progress(text@, q1 as int, ".");
    }
    Ok((unit, q2))
}

fn unit(text: &[char], start: usize) -> (r: Parsed<EffectWithOptions>)
    requires
        start <= text@.len(),
    ensures
        outcome(r) == effect::conditional_effect(text@, start as int).or(
            effect::optional_effect(text@, start as int),
        ).or(effect::plain_effect(text@, start as int)),
        outcome(r).within(text@, start as int),
        r matches Ok((unit, _)) ==> unit.exclusive(),
{
    let failure = match conditional_effect(text, start) {
        Ok(found) => return Ok(found),
        Err(failure) => failure,
    };
    let failure = match optional_effect(text, start) {
        Ok(found) => return Ok(found),
        Err(other) => failure.merge(other),
    };
    match standard_effect_parser::parser(text, start) {
        Ok((effect, next)) => Ok((EffectWithOptions::new(effect), next)),
        Err(other) => Err(failure.merge(other)),
    }
}

fn optional_effect(text: &[char], start: usize) -> (r: Parsed<EffectWithOptions>)
    requires
        start <= text@.len(),
    ensures
        outcome(r) == effect::optional_effect(text@, start as int),
        outcome(r).within(text@, start as int),
{
    let q1 = phrase(text, start, "you may")?;
    let (effect, q2) = standard_effect_parser::parser(text, q1)?;
    Ok((EffectWithOptions { effect, optional: true, condition: None }, q2))
}

fn conditional_effect(text: &[char], start: usize) -> (r: Parsed<EffectWithOptions>)
    requires
        start <= text@.len(),
    ensures
        outcome(r) == effect::conditional_effect(text@, start as int),
        outcome(r).within(text@, start as int),
{
    let q1 = phrase(text, start, "if")?;
    let (condition, q2) = condition_parser::parser(text, q1)?;
    let q3 = phrase(text, q2, ",")?;
    let (effect, q4) = standard_effect_parser::parser(text, q3)?;
    Ok((EffectWithOptions::new(effect).with_condition(condition), q4))
}

} // verus!
