use crate::ability_data::predicate::Predicate;
use crate::ability_data::trigger_event::{TriggerEvent, TriggerKeyword};
use crate::grammar::determiner::your_action;
use crate::grammar::primitives::{exhausted, phrase, Outcome};
use vstd::prelude::*;

verus! {

/// "you materialize a character".
pub open spec fn materialize(s: Seq<char>, p: int) -> Outcome<TriggerEvent> {
    phrase(s, p, "you materialize").keep(|q: int| your_action(s, q)).map(
        |t: Predicate| TriggerEvent::Materialize(t),
    )
}

/// "you play an event".
pub open spec fn play(s: Seq<char>, p: int) -> Outcome<TriggerEvent> {
    phrase(s, p, "you play").keep(|q: int| your_action(s, q)).map(
        |t: Predicate| TriggerEvent::Play(t),
    )
}

/// An event that the text describes in words.
pub open spec fn event(s: Seq<char>, p: int) -> Outcome<TriggerEvent> {
    materialize(s, p).or(play(s, p))
}

/// One trigger keyword.
pub open spec fn keyword(s: Seq<char>, p: int) -> Outcome<TriggerKeyword> {
    phrase(s, p, "$materialized").to(TriggerKeyword::Materialized)
        .or(phrase(s, p, "$judgment").to(TriggerKeyword::Judgment))
        .or(phrase(s, p, "$dissolved").to(TriggerKeyword::Dissolved))
}

/// One more keyword after a comma.
pub open spec fn next_keyword(s: Seq<char>, p: int) -> Outcome<TriggerKeyword> {
    phrase(s, p, ",").keep(|q: int| keyword(s, q))
}

/// The keywords that follow the first one, each after a comma, in the
/// order written, and the offset after the last of them. A comma that no
/// keyword follows is not consumed.
pub open spec fn more_keywords(s: Seq<char>, p: int) -> (Seq<TriggerKeyword>, int)
    decreases s.len() - p,
{
    match next_keyword(s, p) {
        Outcome::Match(k, q) => if p < q <= s.len() {
            let rest = more_keywords(s, q);
            (seq![k] + rest.0, rest.1)
        } else {
            (Seq::empty(), p)
        },
        Outcome::Reject(_) => (Seq::empty(), p),
    }
}

/// The keywords as they stand in the text: one or more, separated by
/// commas, in the order written.
pub open spec fn written_keywords(s: Seq<char>, p: int) -> Outcome<Seq<TriggerKeyword>> {
    match keyword(s, p) {
        Outcome::Match(k, q) => {
            let rest = more_keywords(s, q);
            Outcome::Match(seq![k] + rest.0, rest.1)
        },
        Outcome::Reject(r) => Outcome::Reject(exhausted(r, "a trigger keyword")),
    }
}

/// The keywords of `written`, each once, in the order in which they first
/// occur.
pub open spec fn once_each(written: Seq<TriggerKeyword>) -> Seq<TriggerKeyword>
    decreases written.len(),
{
    if written.len() == 0 {
        Seq::empty()
    } else {
        let before = once_each(written.drop_last());
        if before.contains(written.last()) {
            before
        } else {
            before.push(written.last())
        }
    }
}

/// One or more trigger keywords, separated by commas, as an ordered set: a
/// keyword that the text repeats counts once, where it stands first.
pub open spec fn keywords(s: Seq<char>, p: int) -> Outcome<Seq<TriggerKeyword>> {
    written_keywords(s, p).map(|written: Seq<TriggerKeyword>| once_each(written))
}

/// The keywords of a trigger are an ordered set: `once_each` yields no
/// keyword twice, yields every keyword that was written and no other, and
/// leaves a list without repetitions as it is.
pub proof fn lemma_once_each_is_a_set(written: Seq<TriggerKeyword>)
    ensures
        once_each(written).no_duplicates(),
        forall|k: TriggerKeyword| once_each(written).contains(k) <==> written.contains(k),
        written.no_duplicates() ==> once_each(written) == written,
        written.len() > 0 ==> once_each(written).len() > 0,
    decreases written.len(),
{
    if written.len() > 0 {
        let shorter = written.drop_last();
        let last = written.last();
        lemma_once_each_is_a_set(shorter);
        let before = once_each(shorter);
        assert forall|k: TriggerKeyword| once_each(written).contains(k) <==> written.contains(
            k,
        ) by {
            if written.contains(k) {
                let i = choose|i: int| 0 <= i < written.len() && written[i] == k;
                if i < shorter.len() {
                    assert(shorter[i] == k);
                    assert(shorter.contains(k));
                    assert(before.contains(k));
                    let j = choose|j: int| 0 <= j < before.len() && before[j] == k;
                    assert(once_each(written)[j] == k);
                } else if !before.contains(last) {
                    assert(once_each(written)[before.len() as int] == k);
                } else {
                    let j = choose|j: int| 0 <= j < before.len() && before[j] == k;
                    assert(once_each(written)[j] == k);
                }
            }
            if once_each(written).contains(k) {
                let j = choose|j: int| 0 <= j < once_each(written).len() && once_each(written)[j]
                    == k;
                if j < before.len() {
                    assert(before[j] == k);
                    assert(before.contains(k));
                    assert(shorter.contains(k));
                    let i = choose|i: int| 0 <= i < shorter.len() && shorter[i] == k;
                    assert(written[i] == k);
                } else {
                    assert(written[written.len() - 1] == k);
                }
            }
        }
        if written.no_duplicates() {
            assert(shorter.no_duplicates());
            if before.contains(last) {
                let i = choose|i: int| 0 <= i < shorter.len() && shorter[i] == last;
                assert(written[i] == written[written.len() - 1]);
            }
            assert(once_each(written) =~= written);
        }
    }
}

} // verus!
