//! What holds of the grammar as a whole.

use crate::ability_data::effect::EffectModel;
use crate::grammar::ability::parse;
use crate::grammar::card_predicate::{card_predicate, non_recursive_predicate};
use crate::grammar::effect::{
    collapse, conditional_effect, effect, more_units, optional_effect, plain_effect,
    single_effect, units,
};
use crate::grammar::primitives::{
    lemma_literal_within, lemma_merge_located, lemma_skip_blanks_within, literal, phrase,
    skip_blanks, Outcome, Rejection,
};
use vstd::prelude::*;

verus! {

/// Determinism: what parsing yields depends on the characters of the text
/// and on nothing else. Two texts that hold the same characters are the
/// same ability, or fail with the same diagnostics.
pub proof fn law_parsing_is_deterministic(first: Seq<char>, second: Seq<char>)
    requires
        first =~= second,
    ensures
        parse(first) == parse(second),
        parse(first) is Ok <==> parse(second) is Ok,
{
}

/// True if `short` is the start of `long`.
pub open spec fn is_prefix(short: Seq<char>, long: Seq<char>) -> bool {
    short.len() <= long.len() && long.subrange(0, short.len() as int) == short
}

proof fn lemma_prefix_matches(
    s: Seq<char>,
    p: int,
    short: &'static str,
    long: &'static str,
    i: int,
)
    requires
        is_prefix(short@, long@),
        0 <= i,
        literal(s, p, long, i) is Match,
    ensures
        literal(s, p, short, i) is Match,
    decreases short@.len() - i,
{
    if i < short@.len() {
        assert(long@.subrange(0, short@.len() as int)[i] == long@[i]);
        if i > 0 {
            assert(long@.subrange(0, short@.len() as int)[i - 1] == long@[i - 1]);
        }
        if crate::grammar::primitives::is_blank(long@[i]) {
            if i == 0 || crate::grammar::primitives::is_blank(long@[i - 1]) {
                lemma_prefix_matches(s, p, short, long, i + 1);
            } else {
                lemma_prefix_matches(s, skip_blanks(s, p), short, long, i + 1);
            }
        } else {
            lemma_prefix_matches(s, p + 1, short, long, i + 1);
        }
    }
}

/// Ordered choice and prefixes: where a phrase matches, every phrase that
/// is a prefix of it matches too. So a choice that tries the shorter phrase
/// first never reaches the longer one, and a choice that tries the longer
/// phrase first reads a text that holds it to the end of the longer phrase.
pub proof fn law_prefix_shadows(s: Seq<char>, p: int, short: &'static str, long: &'static str)
    requires
        is_prefix(short@, long@),
        phrase(s, p, long) is Match,
    ensures
        phrase(s, p, short) is Match,
        phrase(s, p, short).or(phrase(s, p, long)) == phrase(s, p, short),
        phrase(s, p, long).or(phrase(s, p, short)) == phrase(s, p, long),
{
    lemma_prefix_matches(s, skip_blanks(s, p), short, long, 0);
}

/// Predicates end: a predicate that the grammar yields holds, inside a
/// comparison of costs, only predicates that compare no costs. So no
/// predicate is more than one comparison deep, however long the text.
pub proof fn law_comparisons_do_not_nest(s: Seq<char>, p: int)
    ensures
        non_recursive_predicate(s, p) matches Outcome::Match(found, _) ==> found.is_simple(),
        card_predicate(s, p) matches Outcome::Match(found, _) ==> found.well_formed(),
{
    reveal(card_predicate);
    reveal(non_recursive_predicate);
    assert forall|q: int|
        (#[trigger] non_recursive_predicate(s, q)) matches Outcome::Match(found, _)
            ==> found.is_simple() by {
        reveal(non_recursive_predicate);
    }
}

/// The offset at which the unit with index `i` of the effect at `p`
/// starts: each unit starts where the one before it ended.
pub open spec fn unit_start(s: Seq<char>, p: int, i: nat) -> int
    decreases i,
{
    if i == 0 {
        p
    } else {
        let before = unit_start(s, p, (i - 1) as nat);
        match single_effect(s, before) {
            Outcome::Match(_, q) => q,
            Outcome::Reject(_) => before,
        }
    }
}

proof fn lemma_unit_start_shift(s: Seq<char>, p: int, q: int, i: nat)
    requires
        single_effect(s, p) matches Outcome::Match(_, end) && end == q,
    ensures
        unit_start(s, p, i + 1) == unit_start(s, q, i),
    decreases i,
{
    if i > 0 {
        lemma_unit_start_shift(s, p, q, (i - 1) as nat);
    } else {
        assert(unit_start(s, p, 0) == p);
    }
}

proof fn lemma_more_units_in_text_order(s: Seq<char>, p: int)
    ensures
        more_units(s, p).1 == unit_start(s, p, more_units(s, p).0.len()),
        forall|i: nat|
            i < more_units(s, p).0.len() ==> single_effect(s, #[trigger] unit_start(s, p, i))
                == Outcome::Match(more_units(s, p).0[i as int], unit_start(s, p, i + 1)),
    decreases s.len() - p,
{
    match single_effect(s, p) {
        Outcome::Match(unit, q) => {
            if p < q <= s.len() {
                lemma_more_units_in_text_order(s, q);
                let rest = more_units(s, q);
                let all = more_units(s, p);
                assert(all.0 =~= seq![unit] + rest.0);
                lemma_unit_start_shift(s, p, q, rest.0.len());
                assert forall|i: nat| i < all.0.len() implies single_effect(
                    s,
                    #[trigger] unit_start(s, p, i),
                ) == Outcome::Match(all.0[i as int], unit_start(s, p, i + 1)) by {
                    if i == 0 {
                        assert(unit_start(s, p, 1) == q);
                    } else {
                        let j = (i - 1) as nat;
                        lemma_unit_start_shift(s, p, q, j);
                        lemma_unit_start_shift(s, p, q, i);
                        assert(single_effect(s, unit_start(s, q, j)) == Outcome::Match(
                            rest.0[j as int],
                            unit_start(s, q, j + 1),
                        ));
                    }
                }
            }
        },
        Outcome::Reject(_) => {},
    }
}

/// Effect lists keep the order of the text: the units of an effect are the
/// units that stand in the text one after the other, each read where the
/// one before it ended, in that order. An effect of two or more units is
/// the list of exactly these units.
pub proof fn law_units_in_text_order(s: Seq<char>, p: int)
    ensures
        units(s, p) matches Outcome::Match(found, end) ==> {
            &&& found.len() >= 1
            &&& end == unit_start(s, p, found.len())
            &&& forall|i: nat|
                i < found.len() ==> single_effect(s, #[trigger] unit_start(s, p, i))
                    == Outcome::Match(found[i as int], unit_start(s, p, i + 1))
            &&& effect(s, p) == Outcome::Match(collapse(found), end)
            &&& found.len() >= 2 ==> effect(s, p) == Outcome::Match(EffectModel::List(found), end)
        },
{
    match single_effect(s, p) {
        Outcome::Match(unit, q) => {
            lemma_more_units_in_text_order(s, q);
            let rest = more_units(s, q);
            let found = seq![unit] + rest.0;
            lemma_unit_start_shift(s, p, q, rest.0.len());
            assert forall|i: nat| i < found.len() implies single_effect(
                s,
                #[trigger] unit_start(s, p, i),
            ) == Outcome::Match(found[i as int], unit_start(s, p, i + 1)) by {
                if i == 0 {
                    assert(unit_start(s, p, 1) == q);
                } else {
                    let j = (i - 1) as nat;
                    lemma_unit_start_shift(s, p, q, j);
                    lemma_unit_start_shift(s, p, q, i);
                    assert(single_effect(s, unit_start(s, q, j)) == Outcome::Match(
                        rest.0[j as int],
                        unit_start(s, q, j + 1),
                    ));
                }
            }
        },
        Outcome::Reject(_) => {},
    }
}

/// A unit of an effect is conditional, or optional, or neither: never
/// both. A conditional unit comes from "if ...," and an optional one from
/// "you may".
pub proof fn law_condition_excludes_option(s: Seq<char>, p: int)
    ensures
        single_effect(s, p) matches Outcome::Match(unit, _) ==> {
            &&& unit.exclusive()
            &&& unit.condition is Some ==> conditional_effect(s, p) is Match
            &&& unit.optional ==> optional_effect(s, p) is Match
            &&& unit.is_plain() ==> plain_effect(s, p) is Match
        },
{
    reveal(single_effect);
}

/// No unit of an effect is both conditional and optional, and every
/// effect of the grammar has the shape that [`EffectModel::well_formed`]
/// describes.
pub proof fn law_units_exclusive(s: Seq<char>, p: int)
    ensures
        units(s, p) matches Outcome::Match(found, _) ==> forall|i: int|
            0 <= i < found.len() ==> (#[trigger] found[i]).exclusive(),
        effect(s, p) matches Outcome::Match(found, _) ==> found.well_formed(),
{
    law_units_in_text_order(s, p);
    if let Outcome::Match(found, _) = units(s, p) {
        assert forall|i: int| 0 <= i < found.len() implies (#[trigger] found[i]).exclusive() by {
            let start = unit_start(s, p, i as nat);
            law_condition_excludes_option(s, start);
        }
    }
}

/// Error locality in a choice: of two alternatives that fail, the one
/// that got further is reported, so an alternative that stopped early never
/// moves the diagnostics back towards the start of the text.
pub proof fn law_furthest_failure_is_reported(first: Rejection, second: Rejection, s: Seq<char>)
    requires
        first.located(s),
        second.located(s),
    ensures
        first.merge(second).located(s),
        first.merge(second).at >= first.at,
        first.merge(second).at >= second.at,
        first.merge(second).at == first.at || first.merge(second).at == second.at,
{
    lemma_merge_located(first, second, s);
}

/// Error locality in a sequence: where the start of a rule matched up to
/// an offset and the rest fails, the failure is that of the rest. With a
/// rest that fails at or after the offset where it was tried, the failure
/// lies at or after what was matched.
pub proof fn law_failure_follows_match<T, U>(
    first: Outcome<T>,
    next: spec_fn(int) -> Outcome<U>,
    s: Seq<char>,
)
    requires
        first matches Outcome::Match(_, q) && next(q).within(s, q),
    ensures
        first.keep(next) matches Outcome::Reject(r) ==> first matches Outcome::Match(_, q) && q
            <= r.at && next(q) == Outcome::<U>::Reject(r),
        first.pair(next) matches Outcome::Reject(r) ==> first matches Outcome::Match(_, q) && q
            <= r.at,
        first.omit(next) matches Outcome::Reject(r) ==> first matches Outcome::Match(_, q) && q
            <= r.at,
{
}

/// Error locality of a phrase: a phrase that does not match at `p` fails
/// at or after `p`, with one diagnostic, at the first character that is not
/// the one wanted.
pub proof fn law_phrase_fails_where_it_stops(s: Seq<char>, p: int, word: &'static str)
    requires
        0 <= p <= s.len() <= usize::MAX,
    ensures
        phrase(s, p, word).within(s, p),
        phrase(s, p, word) matches Outcome::Reject(r) ==> r.errors.len() == 1,
{
    lemma_skip_blanks_within(s, p);
    lemma_literal_within(s, skip_blanks(s, p), word, 0);
    lemma_one_diagnostic(s, skip_blanks(s, p), word, 0);
}

proof fn lemma_one_diagnostic(s: Seq<char>, p: int, word: &'static str, i: int)
    ensures
        literal(s, p, word, i) matches Outcome::Reject(r) ==> r.errors.len() == 1,
    decreases word@.len() - i,
{
    if 0 <= i < word@.len() {
        lemma_one_diagnostic(s, p, word, i + 1);
        lemma_one_diagnostic(s, p + 1, word, i + 1);
        lemma_one_diagnostic(s, skip_blanks(s, p), word, i + 1);
    }
}

/// No partial success: a text is an ability exactly if the ability rule
/// matches it from its first character to its last. Otherwise parsing
/// yields diagnostics and no ability.
pub proof fn law_no_ability_without_the_whole_text(s: Seq<char>)
    ensures
        parse(s) matches Ok(found) ==> crate::grammar::ability::ability(s, 0) == Outcome::Match(
            found,
            s.len() as int,
        ),
        parse(s) is Err <==> !(crate::grammar::ability::ability(s, 0) matches Outcome::Match(
            _,
            end,
        ) && end == s.len()),
{
}

} // verus!
