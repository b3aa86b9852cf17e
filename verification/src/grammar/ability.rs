use crate::ability_data::ability::AbilityModel;
use crate::ability_data::activated_ability::ActivatedAbilityModel;
use crate::ability_data::effect::EffectModel;
use crate::ability_data::static_ability::StaticAbility;
use crate::ability_data::triggered_ability::TriggeredAbilityModel;
use crate::grammar::activated_ability::activated_ability;
use crate::grammar::effect::effect;
use crate::grammar::primitives::{expected_at, Outcome};
use crate::grammar::static_ability::static_ability;
use crate::grammar::triggered_ability::triggered_ability;
use crate::parser::parser_utils::ParseError;
use vstd::prelude::*;

verus! {

/// A static ability and the period that may end it.
pub open spec fn static_rule(s: Seq<char>, p: int) -> Outcome<StaticAbility> {
    static_ability(s, p).maybe(s, ".")
}

/// One ability at `p`. The surface of the text decides its kind: a trigger
/// word or keyword, an activation marker, bare effect text, or one of the
/// static rules, tried in this order. A period may end a static rule.
pub open spec fn ability(s: Seq<char>, p: int) -> Outcome<AbilityModel> {
    triggered_ability(s, p).map(|a: TriggeredAbilityModel| AbilityModel::Triggered(a))
        .or(activated_ability(s, p).map(|a: ActivatedAbilityModel| AbilityModel::Activated(a)))
        .or(effect(s, p).map(|e: EffectModel| AbilityModel::Event(e)))
        .or(static_rule(s, p).map(|a: StaticAbility| AbilityModel::Static(a)))
}

/// What parsing a whole text yields: the ability that the text is, or the
/// diagnostics. A text is an ability only if nothing but blanks follows it;
/// a failure gives no ability at all.
pub open spec fn parse(s: Seq<char>) -> Result<AbilityModel, Seq<ParseError>> {
    match ability(s, 0) {
        Outcome::Match(found, end) => if end == s.len() {
            Ok(found)
        } else {
            Err(expected_at(s, end, "end of text").errors)
        },
        Outcome::Reject(r) => Err(r.errors),
    }
}

/// What diagnostics of a failed parse are like: there is at least one; all
/// start at the same offset, the furthest that any alternative reached;
/// none ends before it starts or after the end of the text.
pub open spec fn well_located(errors: Seq<ParseError>, s: Seq<char>) -> bool {
    &&& errors.len() > 0
    &&& forall|i: int|
        0 <= i < errors.len() ==> {
            &&& (#[trigger] errors[i]).span.start == errors[0].span.start
            &&& errors[i].span.start <= errors[i].span.end <= s.len()
        }
}

} // verus!
