use crate::ability_data::condition::Condition;
use crate::ability_data::predicate::Predicate;
use crate::grammar::condition;
use crate::parser::card_predicate_parser;
use crate::parser::parser_utils::{count, outcome, Parsed};
use vstd::prelude::*;

verus! {

/// Reads a condition at `start`.
pub fn parser(text: &[char], start: usize) -> (r: Parsed<Condition>)
    requires
        start <= text@.len(),
    ensures
        outcome(r) == condition::condition(text@, start as int),
        outcome(r).within(text@, start as int),
{
    let (count, q1) = count(text, start, "you control", "other")?;
    let (matching, q2) = card_predicate_parser::parser(text, q1)?;
    Ok((Condition::PredicateCount { count, predicate: Predicate::Your(matching) }, q2))
}

} // verus!
