use crate::ability_data::condition::Condition;
use crate::ability_data::standard_effect::StandardEffect;
use vstd::prelude::*;

verus! {

/// One game action together with the two ways in which card text can
/// qualify it: "you may ..." and "if ..., ...".
#[derive(Debug, PartialEq, Eq)]
pub struct EffectWithOptions {
    /// The action.
    pub effect: StandardEffect,
    /// True if the controlling player chooses whether the action happens.
    pub optional: bool,
    /// The action happens only if this holds.
    pub condition: Option<Condition>,
}

/// What happens when an ability resolves.
#[derive(Debug, PartialEq, Eq)]
pub enum Effect {
    /// A single action without options.
    Effect(StandardEffect),
    /// A single action that is optional or conditional.
    WithOptions(EffectWithOptions),
    /// Several actions, performed in the order of the list.
    List(Vec<EffectWithOptions>),
}

/// Mathematical model of an [`Effect`]: the list as a sequence.
pub enum EffectModel {
    Effect(StandardEffect),
    WithOptions(EffectWithOptions),
    List(Seq<EffectWithOptions>),
}

impl EffectModel {
    /// True if the effect has the shape that card text gives it: a unit
    /// alone is wrapped only if it is optional or conditional, a list has
    /// at least two units, and no unit is both optional and conditional.
    pub open spec fn well_formed(self) -> bool {
        match self {
            EffectModel::Effect(_) => true,
            EffectModel::WithOptions(unit) => !unit.is_plain() && unit.exclusive(),
            EffectModel::List(units) => units.len() >= 2 && forall|i: int|
                0 <= i < units.len() ==> (#[trigger] units[i]).exclusive(),
        }
    }
}

impl View for Effect {
    type V = EffectModel;

    open spec fn view(&self) -> EffectModel {
        match *self {
            Effect::Effect(effect) => EffectModel::Effect(effect),
            Effect::WithOptions(effect) => EffectModel::WithOptions(effect),
            Effect::List(effects) => EffectModel::List(effects@),
        }
    }
}

impl Clone for EffectWithOptions {
    /// A copy of the unit, equal to it if its action holds no list.
    fn clone(&self) -> (copy: Self)
        ensures
            self.effect.holds_no_list() ==> copy == *self,
        decreases *self,
    {
        let condition = match &self.condition {
            Some(condition) => Some(condition.clone()),
            None => None,
        };
        EffectWithOptions {
            effect: StandardEffect::clone(&self.effect),
            optional: self.optional,
            condition,
        }
    }
}

impl Effect {
    /// True if no action of the effect holds a list.
    pub open spec fn holds_no_inner_list(self) -> bool {
        match self {
            Effect::Effect(effect) => effect.holds_no_list(),
            Effect::WithOptions(unit) => unit.effect.holds_no_list(),
            Effect::List(units) => forall|i: int|
                0 <= i < units@.len() ==> (#[trigger] units@[i]).effect.holds_no_list(),
        }
    }
}

impl Clone for Effect {
    /// A copy of the effect; a list is copied unit by unit, in order. The
    /// copy has the same model as the effect if no action holds a list.
    fn clone(&self) -> (copy: Self)
        ensures
            self.holds_no_inner_list() ==> copy@ == self@,
        decreases *self,
    {
        match self {
            Effect::Effect(effect) => Effect::Effect(StandardEffect::clone(effect)),
            Effect::WithOptions(unit) => Effect::WithOptions(EffectWithOptions::clone(unit)),
            Effect::List(units) => {
                let mut copies: Vec<EffectWithOptions> = Vec::new();
                let mut i: usize = 0;
                while i < units.len()
                    invariant
                        i <= units@.len(),
                        *self == Effect::List(*units),
                        copies@.len() == i,
                        self.holds_no_inner_list() ==> copies@ == units@.subrange(0, i as int),
                    decreases units@.len() - i,
                {
                    proof {
                        vstd::std_specs::vec::axiom_vec_index_decreases(*units, i as int);
                        assert(decreases_to!(*self => self->List_0));
                    }
                    let unit = EffectWithOptions::clone(&units[i]);
                    copies.push(unit);
                    proof {
                        if self.holds_no_inner_list() {
                            assert(copies@ =~= units@.subrange(0, i + 1));
                        }
                    }
                    i += 1;
                }
                proof {
                    assert(units@.subrange(0, units@.len() as int) =~= units@);
                }
                Effect::List(copies)
            },
        }
    }
}

impl EffectWithOptions {
    /// True if the action is neither optional nor conditional.
    pub open spec fn is_plain(self) -> bool {
        !self.optional && self.condition is None
    }

    /// True if the action is not both optional and conditional.
    pub open spec fn exclusive(self) -> bool {
        !(self.optional && self.condition is Some)
    }

    /// The effect that a single unit stands for: the bare action where
    /// there are no options.
    pub open spec fn as_effect(self) -> EffectModel {
        if self.is_plain() {
            EffectModel::Effect(self.effect)
        } else {
            EffectModel::WithOptions(self)
        }
    }

    /// An action that is neither optional nor conditional.
    pub fn new(effect: StandardEffect) -> (unit: EffectWithOptions)
        ensures
            unit == (EffectWithOptions { effect, optional: false, condition: None }),
    {
        EffectWithOptions { effect, optional: false, condition: None }
    }

    /// The same action under `condition`, which replaces an earlier one.
    pub fn with_condition(self, condition: Condition) -> (unit: EffectWithOptions)
        ensures
            unit == (EffectWithOptions {
                effect: self.effect,
                optional: self.optional,
                condition: Some(condition),
            }),
    {
        EffectWithOptions {
            effect: self.effect,
            optional: self.optional,
            condition: Some(condition),
        }
    }

    /// Turns a single unit into an effect, dropping the wrapper where it
    /// says nothing.
    pub fn to_effect(self) -> (effect: Effect)
        ensures
            effect@ == self.as_effect(),
    {
        if !self.optional && self.condition.is_none() {
            Effect::Effect(self.effect)
        } else {
            Effect::WithOptions(self)
        }
    }
}

} // verus!
