use crate::ability_data::activated_ability::{ActivatedAbilityModel, ActivatedAbilityOptions};
use crate::ability_data::cost::Cost;
use crate::ability_data::effect::EffectModel;
use crate::grammar::cost::cost;
use crate::grammar::effect::effect;
use crate::grammar::primitives::{phrase, Outcome};
use vstd::prelude::*;

verus! {

/// The options that a marker stands for.
pub open spec fn options(fast: bool, immediate: bool, multi: bool) -> Option<
    ActivatedAbilityOptions,
> {
    Some(ActivatedAbilityOptions { is_fast: fast, is_immediate: immediate, is_multi: multi })
}

/// The marker that opens an activated ability. The plain marker gives no
/// options; each other one gives the flags that it names.
pub open spec fn modifiers(s: Seq<char>, p: int) -> Outcome<Option<ActivatedAbilityOptions>> {
    phrase(s, p, "$fastactivated").to(options(true, false, false))
        .or(phrase(s, p, "$fastmultiactivated").to(options(true, false, true)))
        .or(phrase(s, p, "$multiactivated").to(options(false, false, true)))
        .or(phrase(s, p, "$activated").to(None::<ActivatedAbilityOptions>))
        .or(phrase(s, p, "$immediate $activated").to(options(false, true, false)))
        .or(phrase(s, p, "$immediate $multiactivated").to(options(false, true, true)))
        .or(phrase(s, p, "$immediate $fastactivated").to(options(true, true, false)))
        .or(phrase(s, p, "$immediate $fastmultiactivated").to(options(true, true, true)))
}

/// One more cost after a comma.
pub open spec fn next_cost(s: Seq<char>, p: int) -> Outcome<Cost> {
    phrase(s, p, ",").keep(|q: int| cost(s, q))
}

/// The costs that follow the first one, each after a comma, and the
/// offset after the last of them.
pub open spec fn more_costs(s: Seq<char>, p: int) -> (Seq<Cost>, int)
    decreases s.len() - p,
{
    match next_cost(s, p) {
        Outcome::Match(c, q) => if p < q <= s.len() {
            let rest = more_costs(s, q);
            (seq![c] + rest.0, rest.1)
        } else {
            (Seq::empty(), p)
        },
        Outcome::Reject(_) => (Seq::empty(), p),
    }
}

/// Zero or more costs, separated by commas, in the order written.
pub open spec fn costs(s: Seq<char>, p: int) -> (Seq<Cost>, int) {
    match cost(s, p) {
        Outcome::Match(c, q) => {
            let rest = more_costs(s, q);
            (seq![c] + rest.0, rest.1)
        },
        Outcome::Reject(_) => (Seq::empty(), p),
    }
}

/// "$fastactivated $2, discard your hand: draw a card."
#[verifier::opaque]
pub open spec fn activated_ability(s: Seq<char>, p: int) -> Outcome<ActivatedAbilityModel> {
    match modifiers(s, p) {
        Outcome::Reject(r) => Outcome::Reject(r),
        Outcome::Match(options, q) => {
            let paid = costs(s, q);
            phrase(s, paid.1, ":").keep(|q2: int| effect(s, q2)).map(
                |e: EffectModel| ActivatedAbilityModel { costs: paid.0, effect: e, options },
            )
        },
    }
}

} // verus!
