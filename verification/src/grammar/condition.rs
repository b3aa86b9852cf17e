use crate::ability_data::condition::Condition;
use crate::ability_data::predicate::{CardPredicate, Predicate};
use crate::grammar::card_predicate::card_predicate;
use crate::grammar::primitives::{count, Outcome};
use vstd::prelude::*;

verus! {

/// "you control 2 other characters".
pub open spec fn condition(s: Seq<char>, p: int) -> Outcome<Condition> {
    count(s, p, "you control", "other").pair(|q: int| card_predicate(s, q)).map(
        |v: (u64, CardPredicate)|
            Condition::PredicateCount { count: v.0, predicate: Predicate::Your(v.1) },
    )
}

} // verus!
