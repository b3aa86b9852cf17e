use crate::ability_data::counting_expression::CountingExpression;
use crate::grammar::primitives::{count, phrase, text_number, Outcome};
use vstd::prelude::*;

verus! {

/// "up to" and a number word.
pub open spec fn up_to_word(s: Seq<char>, p: int) -> Outcome<u64> {
    phrase(s, p, "up to").keep(|q: int| text_number(s, q))
}

/// How many objects an effect applies to. "all but one" stands before
/// "all", which is a prefix of it; "up to" takes a number word or digits.
#[verifier::opaque]
pub open spec fn counting_expression(s: Seq<char>, p: int) -> Outcome<CountingExpression> {
    phrase(s, p, "all but one").to(CountingExpression::AllButOne)
        .or(phrase(s, p, "all").to(CountingExpression::All))
        .or(phrase(s, p, "any number of").to(CountingExpression::AnyNumberOf))
        .or(up_to_word(s, p).map(|n: u64| CountingExpression::UpTo(n)))
        .or(count(s, p, "up to", "").map(|n: u64| CountingExpression::UpTo(n)))
        .or(count(s, p, "exactly", "").map(|n: u64| CountingExpression::Exactly(n)))
        .or(count(s, p, "", "or more").map(|n: u64| CountingExpression::OrMore(n)))
}

} // verus!
