use crate::ability_data::counting_expression::CountingExpression;
use crate::grammar::counting_expression;
use crate::parser::parser_utils::{count, keyword, outcome, phrase, text_number, Parsed};
use vstd::prelude::*;

verus! {

/// Reads a counting expression at `start`.
pub fn parser(text: &[char], start: usize) -> (r: Parsed<CountingExpression>)
    requires
        start <= text@.len(),
    ensures
        outcome(r) == counting_expression::counting_expression(text@, start as int),
        outcome(r).within(text@, start as int),
{
    proof {
        reveal(counting_expression::counting_expression);
    }
    let failure = match keyword(text, start, "all but one", CountingExpression::AllButOne) {
        Ok(found) => return Ok(found),
        Err(failure) => failure,
    };
    let failure = match keyword(text, start, "all", CountingExpression::All) {
        Ok(found) => return Ok(found),
        Err(other) => failure.merge(other),
    };
    let failure = match keyword(text, start, "any number of", CountingExpression::AnyNumberOf) {
        Ok(found) => return Ok(found),
        Err(other) => failure.merge(other),
    };
    let failure = match up_to_word(text, start) {
        Ok((n, next)) => return Ok((CountingExpression::UpTo(n), next)),
        Err(other) => failure.merge(other),
    };
    let failure = match count(text, start, "up to", "") {
        Ok((n, next)) => return Ok((CountingExpression::UpTo(n), next)),
        Err(other) => failure.merge(other),
    };
    let failure = match count(text, start, "exactly", "") {
        Ok((n, next)) => return Ok((CountingExpression::Exactly(n), next)),
        Err(other) => failure.merge(other),
    };
    match count(text, start, "", "or more") {
        Ok((n, next)) => Ok((CountingExpression::OrMore(n), next)),
        Err(other) => Err(failure.merge(other)),
    }
}

fn up_to_word(text: &[char], start: usize) -> (r: Parsed<u64>)
    requires
        start <= text@.len(),
    ensures
        outcome(r) == counting_expression::up_to_word(text@, start as int),
        outcome(r).within(text@, start as int),
{
    let q1 = phrase(text, start, "up to")?;
    text_number(text, q1)
}

} // verus!
