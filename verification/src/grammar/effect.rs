use crate::ability_data::condition::Condition;
use crate::ability_data::effect::{EffectModel, EffectWithOptions};
use crate::ability_data::standard_effect::StandardEffect;
use crate::grammar::condition::condition;
use crate::grammar::primitives::{exhausted, phrase, Outcome};
use crate::grammar::standard_effect::standard_effect;
use vstd::prelude::*;

verus! {

/// A standard effect alone: neither optional nor conditional.
pub open spec fn plain_effect(s: Seq<char>, p: int) -> Outcome<EffectWithOptions> {
    standard_effect(s, p).map(
        |effect: StandardEffect| EffectWithOptions { effect, optional: false, condition: None },
    )
}

/// "you may" and a standard effect.
pub open spec fn optional_effect(s: Seq<char>, p: int) -> Outcome<EffectWithOptions> {
    phrase(s, p, "you may").keep(|q: int| standard_effect(s, q)).map(
        |effect: StandardEffect| EffectWithOptions { effect, optional: true, condition: None },
    )
}

/// "if", a condition, a comma and a standard effect. No "you may" can
/// stand between the comma and the effect.
pub open spec fn conditional_effect(s: Seq<char>, p: int) -> Outcome<EffectWithOptions> {
    phrase(s, p, "if").keep(|q: int| condition(s, q)).skip(s, ",").pair(
        |q: int| standard_effect(s, q),
    ).map(
        |v: (Condition, StandardEffect)|
            EffectWithOptions { effect: v.1, optional: false, condition: Some(v.0) },
    )
}

/// One unit of an effect: a conditional, an optional or a plain standard
/// effect, and the period that ends it.
#[verifier::opaque]
pub open spec fn single_effect(s: Seq<char>, p: int) -> Outcome<EffectWithOptions> {
    conditional_effect(s, p).or(optional_effect(s, p)).or(plain_effect(s, p)).skip(s, ".")
}

/// The units that follow the first one, in the order written, and the
/// offset after the last of them.
pub open spec fn more_units(s: Seq<char>, p: int) -> (Seq<EffectWithOptions>, int)
    decreases s.len() - p,
{
    match single_effect(s, p) {
        Outcome::Match(unit, q) => if p < q <= s.len() {
            let rest = more_units(s, q);
            (seq![unit] + rest.0, rest.1)
        } else {
            (Seq::empty(), p)
        },
        Outcome::Reject(_) => (Seq::empty(), p),
    }
}

/// One or more units, in the order written.
pub open spec fn units(s: Seq<char>, p: int) -> Outcome<Seq<EffectWithOptions>> {
    match single_effect(s, p) {
        Outcome::Match(unit, q) => {
            let rest = more_units(s, q);
            Outcome::Match(seq![unit] + rest.0, rest.1)
        },
        Outcome::Reject(r) => Outcome::Reject(exhausted(r, "an effect")),
    }
}

/// The effect that a run of units stands for: a single unit is the effect
/// itself, several are a list in the order of the text.
pub open spec fn collapse(units: Seq<EffectWithOptions>) -> EffectModel {
    if units.len() == 1 {
        units[0].as_effect()
    } else {
        EffectModel::List(units)
    }
}

/// A full effect: one or more units.
pub open spec fn effect(s: Seq<char>, p: int) -> Outcome<EffectModel> {
    units(s, p).map(|found: Seq<EffectWithOptions>| collapse(found))
}

} // verus!
