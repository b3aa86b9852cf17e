use crate::ability_data::quantity_expression::QuantityExpression;
use crate::grammar::quantity_expression;
use crate::parser::determiner_parser::{counted_parser, qualified};
use crate::parser::parser_utils::{outcome, phrase, Parsed};
use vstd::prelude::*;

verus! {

/// Reads what is counted after "for each".
pub fn parser(text: &[char], start: usize) -> (r: Parsed<QuantityExpression>)
    requires
        start <= text@.len(),
    ensures
        outcome(r) == quantity_expression::quantity_expression(text@, start as int),
        outcome(r).within(text@, start as int),
{
    proof {
        reveal(quantity_expression::quantity_expression);
    }
    let failure = match qualified(
        text,
        start,
        phrase(text, start, ""),
        "you have drawn this turn",
    ) {
        Ok((c, next)) => return Ok((QuantityExpression::CardsDrawnThisTurn(c), next)),
        Err(failure) => failure,
    };
    let failure = match qualified(
        text,
        start,
        phrase(text, start, ""),
        "you have discarded this turn",
    ) {
        Ok((c, next)) => return Ok((QuantityExpression::DiscardedThisTurn(c), next)),
        Err(other) => failure.merge(other),
    };
    let failure = match qualified(
        text,
        start,
        phrase(text, start, ""),
        "you have played this turn",
    ) {
        Ok((c, next)) => return Ok((QuantityExpression::PlayedThisTurn(c), next)),
        Err(other) => failure.merge(other),
    };
    let failure = match qualified(
        text,
        start,
        phrase(text, start, ""),
        "which dissolved this turn",
    ) {
        Ok((c, next)) => return Ok((QuantityExpression::DissolvedThisTurn(c), next)),
        Err(other) => failure.merge(other),
    };
    let failure = match qualified(text, start, phrase(text, start, ""), "you abandoned this turn") {
        Ok((c, next)) => return Ok((QuantityExpression::AbandonedThisTurn(c), next)),
        Err(other) => failure.merge(other),
    };
    let failure = match qualified(text, start, phrase(text, start, ""), "abandoned this way") {
        Ok((c, next)) => return Ok((QuantityExpression::AbandonedThisWay(c), next)),
        Err(other) => failure.merge(other),
    };
    match counted_parser(text, start) {
        Ok((t, next)) => Ok((QuantityExpression::Matching(t), next)),
        Err(other) => Err(failure.merge(other)),
    }
}

} // verus!
