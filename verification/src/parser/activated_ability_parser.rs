use crate::ability_data::activated_ability::{ActivatedAbility, ActivatedAbilityOptions};
use crate::ability_data::cost::Cost;
use crate::grammar::activated_ability;
use crate::grammar::primitives::lemma_phrase_progress;
use crate::parser::cost_parser;
use crate::parser::effect_parser;
use crate::parser::parser_utils::{keyword, lemma_length_fits, outcome, phrase, viewed, Parsed};
use vstd::prelude::*;

verus! {

/// Reads an activated ability at `start`: the marker with its options, the
/// costs, a colon and the effect.
pub fn parser(text: &[char], start: usize) -> (r: Parsed<ActivatedAbility>)
    requires
        start <= text@.len(),
    ensures
        viewed(r) == activated_ability::activated_ability(text@, start as int),
        viewed(r).within(text@, start as int),
{
    proof {
        reveal(activated_ability::activated_ability);
    }
    let (options, q1) = modifiers(text, start)?;
    let (costs, q2) = costs(text, q1);
    let q3 = phrase(text, q2, ":")?;
    let (effect, q4) = effect_parser::effect(text, q3)?;
    Ok((ActivatedAbility { costs, effect, options }, q4))
}

fn flags(fast: bool, immediate: bool, multi: bool) -> (r: Option<ActivatedAbilityOptions>)
    ensures
        r == activated_ability::options(fast, immediate, multi),
{
    Some(ActivatedAbilityOptions { is_fast: fast, is_immediate: immediate, is_multi: multi })
}

fn modifiers(text: &[char], start: usize) -> (r: Parsed<Option<ActivatedAbilityOptions>>)
    requires
        start <= text@.len(),
    ensures
        outcome(r) == activated_ability::modifiers(text@, start as int),
        outcome(r).within(text@, start as int),
{
    let failure = match keyword(text, start, "$fastactivated", flags(true, false, false)) {
        Ok(found) => return Ok(found),
        Err(failure) => failure,
    };
    let failure = match keyword(text, start, "$fastmultiactivated", flags(true, false, true)) {
        Ok(found) => return Ok(found),
        Err(other) => failure.merge(other),
    };
    let failure = match keyword(text, start, "$multiactivated", flags(false, false, true)) {
        Ok(found) => return Ok(found),
        Err(other) => failure.merge(other),
    };
    let failure = match keyword(text, start, "$activated", None::<ActivatedAbilityOptions>) {
        Ok(found) => return Ok(found),
        Err(other) => failure.merge(other),
    };
    let failure = match keyword(text, start, "$immediate $activated", flags(false, true, false)) {
        Ok(found) => return Ok(found),
        Err(other) => failure.merge(other),
    };
    let failure = match keyword(
        text,
        start,
        "$immediate $multiactivated",
        flags(false, true, true),
    ) {
        Ok(found) => return Ok(found),
        Err(other) => failure.merge(other),
    };
    let failure = match keyword(
        text,
        start,
        "$immediate $fastactivated",
        flags(true, true, false),
    ) {
        Ok(found) => return Ok(found),
        Err(other) => failure.merge(other),
    };
    match keyword(text, start, "$immediate $fastmultiactivated", flags(true, true, true)) {
        Ok(found) => Ok(found),
        Err(other) => Err(failure.merge(other)),
    }
}

fn next_cost(text: &[char], start: usize) -> (r: Parsed<Cost>)
    requires
        start <= text@.len(),
    ensures
        outcome(r) == activated_ability::next_cost(text@, start as int),
        outcome(r).within(text@, start as int),
        r matches Ok((_, next)) ==> start < next,
{
    let q1 = phrase(text, start, ",")?;
    proof {
        reveal_strlit(",");
        lemma_length_fits(text);
        lemma_phrase_progress(text@, start as int, ",");
    }
    cost_parser::parser(text, q1)
}

/// Reads zero or more costs, separated by commas.
fn costs(text: &[char], start: usize) -> (r: (Vec<Cost>, usize))
    requires
        start <= text@.len(),
    ensures
        (r.0@, r.1 as int) == activated_ability::costs(text@, start as int),
        start <= r.1 <= text@.len(),
{
    let mut found: Vec<Cost> = Vec::new();
    let (first, after_first) = match cost_parser::parser(text, start) {
        Ok(found) => found,
        Err(_) => return (found, start),
    };
    found.push(first);
    let mut p: usize = after_first;
    loop
        invariant
            start <= p <= text@.len(),
            activated_ability::costs(text@, start as int) == (
                found@ + activated_ability::more_costs(text@, p as int).0,
                activated_ability::more_costs(text@, p as int).1,
            ),
        decreases text@.len() - p,
    {
        match next_cost(text, p) {
            Ok((c, q)) => {
                proof {
                    let rest = activated_ability::more_costs(text@, q as int);
                    assert(found@ + (seq![c] + rest.0) =~= found@.push(c) + rest.0);
                }
                found.push(c);
                p = q;
            },
            Err(_) => {
                proof {
                    assert(found@ + Seq::<Cost>::empty() =~= found@);
                }
                return (found, p);
            },
        }
    }
}

} // verus!
