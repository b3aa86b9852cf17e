use crate::ability_data::trigger_event::{TriggerEvent, TriggerEventModel, TriggerKeyword};
use crate::grammar::primitives::{lemma_phrase_progress, Outcome};
use crate::grammar::trigger_event;
use crate::parser::determiner_parser;
use crate::parser::parser_utils::{keyword, lemma_length_fits, outcome, phrase, viewed, Parsed};
use vstd::prelude::*;

verus! {

/// Reads an event that the text describes in words.
pub fn event_parser(text: &[char], start: usize) -> (r: Parsed<TriggerEvent>)
    requires
        start <= text@.len(),
    ensures
        outcome(r) == trigger_event::event(text@, start as int),
        outcome(r).within(text@, start as int),
{
    let failure = match materialize(text, start) {
        Ok(found) => return Ok(found),
        Err(failure) => failure,
    };
    match play(text, start) {
        Ok(found) => Ok(found),
        Err(other) => Err(failure.merge(other)),
    }
}

/// Reads one or more trigger keywords, separated by commas, as an ordered
/// set: a keyword that the text repeats is read and counts once.
pub fn keyword_parser(text: &[char], start: usize) -> (r: Parsed<TriggerEvent>)
    requires
        start <= text@.len(),
    ensures
        viewed(r) == trigger_event::keywords(text@, start as int).map(
            |k: Seq<TriggerKeyword>| TriggerEventModel::Keywords(k),
        ),
        viewed(r).within(text@, start as int),
        r matches Ok((event, _)) ==> event is Keywords && event.well_formed(),
{
    let (first, after_first) = match single_keyword(text, start) {
        Ok(found) => found,
        Err(failure) => return Err(failure.exhausted("a trigger keyword")),
    };
    let mut found: Vec<TriggerKeyword> = Vec::new();
    found.push(first);
    let ghost mut written: Seq<TriggerKeyword> = seq![first];
    let mut p: usize = after_first;
    proof {
        reveal_with_fuel(trigger_event::once_each, 2);
        assert(written.drop_last() =~= Seq::<TriggerKeyword>::empty());
        assert(trigger_event::once_each(written) =~= seq![first]);
    }
    loop
        invariant
            start <= p <= text@.len(),
            written.len() > 0,
            found@ == trigger_event::once_each(written),
            trigger_event::written_keywords(text@, start as int) == Outcome::Match(
                written + trigger_event::more_keywords(text@, p as int).0,
                trigger_event::more_keywords(text@, p as int).1,
            ),
        decreases text@.len() - p,
    {
        match next_keyword(text, p) {
            Ok((k, q)) => {
                proof {
                    let rest = trigger_event::more_keywords(text@, q as int);
                    assert(written + (seq![k] + rest.0) =~= written.push(k) + rest.0);
                    assert(written.push(k).drop_last() =~= written);
                }
                if !holds(&found, k) {
                    found.push(k);
                }
                proof {
                    written = written.push(k);
                }
                p = q;
            },
            Err(_) => {
                proof {
                    assert(written + Seq::<TriggerKeyword>::empty() =~= written);
                    trigger_event::lemma_once_each_is_a_set(written);
                }
                return Ok((TriggerEvent::Keywords(found), p));
            },
        }
    }
}

/// True if `keyword` is one of `found`.
fn holds(found: &Vec<TriggerKeyword>, keyword: TriggerKeyword) -> (held: bool)
    ensures
        held == found@.contains(keyword),
{
    let mut i: usize = 0;
    while i < found.len()
        invariant
            i <= found@.len(),
            forall|j: int| 0 <= j < i ==> found@[j] != keyword,
        decreases found@.len() - i,
    {
        if found[i] == keyword {
            return true;
        }
        i += 1;
    }
    false
}

fn single_keyword(text: &[char], start: usize) -> (r: Parsed<TriggerKeyword>)
    requires
        start <= text@.len(),
    ensures
        outcome(r) == trigger_event::keyword(text@, start as int),
        outcome(r).within(text@, start as int),
{
    let failure = match keyword(text, start, "$materialized", TriggerKeyword::Materialized) {
        Ok(found) => return Ok(found),
        Err(failure) => failure,
    };
    let failure = match keyword(text, start, "$judgment", TriggerKeyword::Judgment) {
        Ok(found) => return Ok(found),
        Err(other) => failure.merge(other),
    };
    match keyword(text, start, "$dissolved", TriggerKeyword::Dissolved) {
        Ok(found) => Ok(found),
        Err(other) => Err(failure.merge(other)),
    }
}

fn next_keyword(text: &[char], start: usize) -> (r: Parsed<TriggerKeyword>)
    requires
        start <= text@.len(),
    ensures
        outcome(r) == trigger_event::next_keyword(text@, start as int),
        outcome(r).within(text@, start as int),
        r matches Ok((_, next)) ==> start < next,
{
    let q1 = phrase(text, start, ",")?;
    proof {
        reveal_strlit(",");
        lemma_length_fits(text);
        lemma_phrase_progress(text@, start as int, ",");
    }
    single_keyword(text, q1)
}

fn materialize(text: &[char], start: usize) -> (r: Parsed<TriggerEvent>)
    requires
        start <= text@.len(),
    ensures
        outcome(r) == trigger_event::materialize(text@, start as int),
        outcome(r).within(text@, start as int),
{
    let q1 = phrase(text, start, "you materialize")?;
    let (target, q2) = determiner_parser::your_action(text, q1)?;
    Ok((TriggerEvent::Materialize(target), q2))
}

fn play(text: &[char], start: usize) -> (r: Parsed<TriggerEvent>)
    requires
        start <= text@.len(),
    ensures
        outcome(r) == trigger_event::play(text@, start as int),
        outcome(r).within(text@, start as int),
{
    let q1 = phrase(text, start, "you play")?;
    let (target, q2) = determiner_parser::your_action(text, q1)?;
    Ok((TriggerEvent::Play(target), q2))
}

} // verus!
