use crate::core_data::numerics::{Energy, Points, Spark};
use crate::parser::parser_utils::{ErrorKind, ParseError, Span};
use vstd::prelude::*;

verus! {

/// Mathematical model of a [`Failure`].
pub struct Rejection {
    pub at: int,
    pub errors: Seq<ParseError>,
}

/// What a rule yields at an offset of a text: a value and the offset after
/// it, or the diagnostics of the failure.
pub enum Outcome<T> {
    Match(T, int),
    Reject(Rejection),
}

/// Two diagnostics say the same if they have the same span and kind and
/// expect the same text.
pub open spec fn same_error(a: ParseError, b: ParseError) -> bool {
    a.span == b.span && a.kind == b.kind && a.expected@ == b.expected@
}

/// True if `errors` holds a diagnostic that says the same as `e`.
pub open spec fn reported(errors: Seq<ParseError>, e: ParseError) -> bool {
    exists|i: int| 0 <= i < errors.len() && same_error(#[trigger] errors[i], e)
}

/// `errors`, followed by those of `more` that say something new, in their
/// order.
pub open spec fn union(errors: Seq<ParseError>, more: Seq<ParseError>) -> Seq<ParseError>
    decreases more.len(),
{
    if more.len() == 0 {
        errors
    } else {
        let before = union(errors, more.drop_last());
        if reported(before, more.last()) {
            before
        } else {
            before.push(more.last())
        }
    }
}

impl Rejection {
    /// True if the diagnostics are where a failure in `s` can be: there is
    /// at least one, each starts at `at`, and none ends before it starts or
    /// after the end of `s`.
    pub open spec fn located(self, s: Seq<char>) -> bool {
        &&& 0 <= self.at <= s.len() <= usize::MAX
        &&& self.errors.len() > 0
        &&& forall|i: int|
            0 <= i < self.errors.len() ==> {
                &&& (#[trigger] self.errors[i]).span.start == self.at
                &&& self.at <= self.errors[i].span.end <= s.len()
            }
    }

    /// Keeps the diagnostics that reached furthest. On a tie, those of
    /// `self` come first, and those of `other` follow that say something
    /// new.
    pub open spec fn merge(self, other: Rejection) -> Rejection {
        if self.at > other.at {
            self
        } else if other.at > self.at {
            other
        } else {
            Rejection { at: self.at, errors: union(self.errors, other.errors) }
        }
    }
}

impl<T> Outcome<T> {
    /// Ordered choice: the first of the two that matches wins; if neither
    /// does, their diagnostics are merged.
    pub open spec fn or(self, other: Outcome<T>) -> Outcome<T> {
        match self {
            Outcome::Match(_, _) => self,
            Outcome::Reject(first) => match other {
                Outcome::Match(_, _) => other,
                Outcome::Reject(second) => Outcome::Reject(first.merge(second)),
            },
        }
    }

    /// The same outcome with `value` in place of the matched value.
    pub open spec fn to<U>(self, value: U) -> Outcome<U> {
        match self {
            Outcome::Match(_, q) => Outcome::Match(value, q),
            Outcome::Reject(r) => Outcome::Reject(r),
        }
    }

    /// The same outcome with `f` applied to the matched value.
    pub open spec fn map<U>(self, f: spec_fn(T) -> U) -> Outcome<U> {
        match self {
            Outcome::Match(value, q) => Outcome::Match(f(value), q),
            Outcome::Reject(r) => Outcome::Reject(r),
        }
    }

    /// Sequence: `next` goes on where `self` ended; both values are kept.
    pub open spec fn pair<U>(self, next: spec_fn(int) -> Outcome<U>) -> Outcome<(T, U)> {
        match self {
            Outcome::Match(value, q) => match next(q) {
                Outcome::Match(second, q2) => Outcome::Match((value, second), q2),
                Outcome::Reject(r) => Outcome::Reject(r),
            },
            Outcome::Reject(r) => Outcome::Reject(r),
        }
    }

    /// Sequence: `next` goes on where `self` ended; only its value is kept.
    pub open spec fn keep<U>(self, next: spec_fn(int) -> Outcome<U>) -> Outcome<U> {
        match self {
            Outcome::Match(_, q) => next(q),
            Outcome::Reject(r) => Outcome::Reject(r),
        }
    }

    /// Sequence: `next` goes on where `self` ended; only the value of
    /// `self` is kept.
    pub open spec fn omit<U>(self, next: spec_fn(int) -> Outcome<U>) -> Outcome<T> {
        match self {
            Outcome::Match(value, q) => match next(q) {
                Outcome::Match(_, q2) => Outcome::Match(value, q2),
                Outcome::Reject(r) => Outcome::Reject(r),
            },
            Outcome::Reject(r) => Outcome::Reject(r),
        }
    }

    /// Sequence: the phrase `word` follows; the value of `self` is kept.
    pub open spec fn skip(self, s: Seq<char>, word: &'static str) -> Outcome<T> {
        match self {
            Outcome::Match(value, q) => match phrase(s, q, word) {
                Outcome::Match(_, q2) => Outcome::Match(value, q2),
                Outcome::Reject(r) => Outcome::Reject(r),
            },
            Outcome::Reject(r) => Outcome::Reject(r),
        }
    }

    /// Sequence: the phrase `word` may follow; the value of `self` is kept
    /// either way.
    pub open spec fn maybe(self, s: Seq<char>, word: &'static str) -> Outcome<T> {
        match self {
            Outcome::Match(value, q) => match phrase(s, q, word) {
                Outcome::Match(_, q2) => Outcome::Match(value, q2),
                Outcome::Reject(_) => Outcome::Match(value, q),
            },
            Outcome::Reject(r) => Outcome::Reject(r),
        }
    }

    /// Optional: where `self`, tried at `p`, does not match, nothing is
    /// consumed and the value is `None`.
    pub open spec fn or_not(self, p: int) -> Outcome<Option<T>> {
        match self {
            Outcome::Match(value, q) => Outcome::Match(Some(value), q),
            Outcome::Reject(_) => Outcome::Match(None, p),
        }
    }

    /// The offsets of a match lie between `p` and the end of `s`.
    pub open spec fn within(self, s: Seq<char>, p: int) -> bool {
        match self {
            Outcome::Match(_, q) => p <= q <= s.len(),
            Outcome::Reject(r) => p <= r.at && r.located(s),
        }
    }
}

/// The characters that count as blanks: space, tab, line feed and
/// carriage return.
pub open spec fn is_blank(c: char) -> bool {
    c == ' ' || c == '\t' || c == '\n' || c == '\r'
}

/// The first offset at or after `p` that holds no blank.
pub open spec fn skip_blanks(s: Seq<char>, p: int) -> int
    decreases s.len() - p,
{
    if 0 <= p < s.len() && is_blank(s[p]) {
        skip_blanks(s, p + 1)
    } else {
        p
    }
}

/// A character of the text matches a character of a phrase if they are
/// equal, or if the text holds the upper-case form of an ASCII letter.
pub open spec fn same_letter(found: char, wanted: char) -> bool {
    found == wanted || (65 <= found as u32 <= 90 && found as u32 + 32 == wanted as u32)
}

/// The span of the character at `p`, empty at the end of the text.
pub open spec fn span_at(s: Seq<char>, p: int) -> Span {
    Span { start: p as usize, end: (if p < s.len() { p + 1 } else { p }) as usize }
}

/// The diagnostic "`expected` was expected at `p`".
pub open spec fn expected_at(s: Seq<char>, p: int, expected: &'static str) -> Rejection {
    Rejection {
        at: p,
        errors: seq![ParseError { span: span_at(s, p), kind: ErrorKind::Expectation, expected }],
    }
}

/// Matches the characters of `word` from index `i` on against the text at
/// `p`. A run of blanks in the phrase stands for a run of one or more blanks
/// in the text; blanks at the start of the phrase ask for nothing. After the
/// last character, blanks in the text are passed over.
pub open spec fn literal(s: Seq<char>, p: int, word: &'static str, i: int) -> Outcome<()>
    decreases word@.len() - i,
{
    if i < 0 || i >= word@.len() {
        Outcome::Match((), skip_blanks(s, p))
    } else if is_blank(word@[i]) {
        if i == 0 || is_blank(word@[i - 1]) {
            literal(s, p, word, i + 1)
        } else if 0 <= p < s.len() && is_blank(s[p]) {
            literal(s, skip_blanks(s, p), word, i + 1)
        } else {
            Outcome::Reject(expected_at(s, p, word))
        }
    } else if 0 <= p < s.len() && same_letter(s[p], word@[i]) {
        literal(s, p + 1, word, i + 1)
    } else {
        Outcome::Reject(expected_at(s, p, word))
    }
}

/// The phrase matcher: passes over blanks, then matches `word`.
pub open spec fn phrase(s: Seq<char>, p: int, word: &'static str) -> Outcome<()> {
    literal(s, skip_blanks(s, p), word, 0)
}

/// The phrase `first` or, failing that, the phrase `second`.
pub open spec fn either(
    s: Seq<char>,
    p: int,
    first: &'static str,
    second: &'static str,
) -> Outcome<()> {
    phrase(s, p, first).or(phrase(s, p, second))
}

/// The decimal digits `0` to `9`.
pub open spec fn is_digit(c: char) -> bool {
    48 <= c as u32 <= 57
}

/// The first offset at or after `p` that holds no decimal digit.
pub open spec fn digits_end(s: Seq<char>, p: int) -> int
    decreases s.len() - p,
{
    if 0 <= p < s.len() && is_digit(s[p]) {
        digits_end(s, p + 1)
    } else {
        p
    }
}

/// The end of the integer that starts at `p`: a single `0`, or a run of
/// digits that does not start with `0`. Equal to `p` where no digit stands.
pub open spec fn integer_end(s: Seq<char>, p: int) -> int {
    if 0 <= p < s.len() && s[p] == '0' {
        p + 1
    } else {
        digits_end(s, p)
    }
}

/// The number that a run of decimal digits denotes.
pub open spec fn decimal(digits: Seq<char>) -> nat
    decreases digits.len(),
{
    if digits.len() == 0 {
        0
    } else {
        decimal(digits.drop_last()) * 10 + (digits.last() as u32 - 48) as nat
    }
}

/// The diagnostic "the number in `[p, end)` is too large".
pub open spec fn out_of_range(p: int, end: int) -> Rejection {
    Rejection {
        at: p,
        errors: seq![
            ParseError {
                span: Span { start: p as usize, end: end as usize },
                kind: ErrorKind::ValueRange,
                expected: "a number within range",
            },
        ],
    }
}

/// An integer at `p`, no blanks passed over, that is at most `limit`.
pub open spec fn integer(s: Seq<char>, p: int, limit: u64) -> Outcome<u64> {
    let end = integer_end(s, p);
    if end <= p {
        Outcome::Reject(expected_at(s, p, "a number"))
    } else if decimal(s.subrange(p, end)) > limit {
        Outcome::Reject(out_of_range(p, end))
    } else {
        Outcome::Match(decimal(s.subrange(p, end)) as u64, end)
    }
}

/// Numeric-with-affix: the phrase `before`, an integer of at most `limit`,
/// the phrase `after`. A number over the limit fails the whole rule.
pub open spec fn numeric(
    s: Seq<char>,
    p: int,
    before: &'static str,
    limit: u64,
    after: &'static str,
) -> Outcome<u64> {
    phrase(s, p, before).keep(|q: int| integer(s, q, limit)).skip(s, after)
}

/// The largest number that fits an energy, spark or points value.
pub open spec fn small_limit() -> u64 {
    0xffff_ffff
}

/// Numeric-with-affix for an amount of energy.
pub open spec fn energy(s: Seq<char>, p: int, before: &'static str, after: &'static str) -> Outcome<
    Energy,
> {
    numeric(s, p, before, small_limit(), after).map(|n: u64| Energy(n as u32))
}

/// Numeric-with-affix for an amount of spark.
pub open spec fn spark(s: Seq<char>, p: int, before: &'static str, after: &'static str) -> Outcome<
    Spark,
> {
    numeric(s, p, before, small_limit(), after).map(|n: u64| Spark(n as u32))
}

/// Numeric-with-affix for a number of points.
pub open spec fn points(s: Seq<char>, p: int, before: &'static str, after: &'static str) -> Outcome<
    Points,
> {
    numeric(s, p, before, small_limit(), after).map(|n: u64| Points(n as u32))
}

/// Numeric-with-affix for a plain count.
pub open spec fn count(s: Seq<char>, p: int, before: &'static str, after: &'static str) -> Outcome<
    u64,
> {
    numeric(s, p, before, u64::MAX, after)
}

/// "this character" or "this event".
pub open spec fn this(s: Seq<char>, p: int) -> Outcome<()> {
    either(s, p, "this character", "this event")
}

/// The article: "an" is tried before "a", which is a prefix of it.
pub open spec fn a_or_an(s: Seq<char>, p: int) -> Outcome<()> {
    either(s, p, "an", "a")
}

/// The phrase `word` and the article after it.
pub open spec fn article_after(s: Seq<char>, p: int, word: &'static str) -> Outcome<()> {
    phrase(s, p, word).keep(|q: int| a_or_an(s, q))
}

/// A number written as a word, from "one" to "ten".
#[verifier::opaque]
pub open spec fn text_number(s: Seq<char>, p: int) -> Outcome<u64> {
    phrase(s, p, "one").to(1u64)
        .or(phrase(s, p, "two").to(2u64))
        .or(phrase(s, p, "three").to(3u64))
        .or(phrase(s, p, "four").to(4u64))
        .or(phrase(s, p, "five").to(5u64))
        .or(phrase(s, p, "six").to(6u64))
        .or(phrase(s, p, "seven").to(7u64))
        .or(phrase(s, p, "eight").to(8u64))
        .or(phrase(s, p, "nine").to(9u64))
        .or(phrase(s, p, "ten").to(10u64))
}

/// A number word and "times".
pub open spec fn counted_times(s: Seq<char>, p: int) -> Outcome<u64> {
    text_number(s, p).skip(s, "times")
}

/// How often something happens: "twice", or a number word and "times".
/// Where neither stands, nothing is consumed and no number is given.
pub open spec fn number_of_times(s: Seq<char>, p: int) -> Outcome<Option<u64>> {
    phrase(s, p, "twice").to(2u64).or(counted_times(s, p)).or_not(p)
}

/// "a" and `singular`, which stand for one item.
pub open spec fn a_single(s: Seq<char>, p: int, singular: &'static str) -> Outcome<u64> {
    phrase(s, p, "a").skip(s, singular).to(1u64)
}

/// One item, written "a" and `singular`, or a count followed by `plural`.
pub open spec fn a_or_count(
    s: Seq<char>,
    p: int,
    singular: &'static str,
    plural: &'static str,
) -> Outcome<u64> {
    a_single(s, p, singular).or(count(s, p, "", plural))
}

/// The diagnostics of a repetition that needs at least one item and found
/// none: those of the item that failed, and one more, at the same offset,
/// that reports the exhaustion.
pub open spec fn exhausted(r: Rejection, expected: &'static str) -> Rejection {
    Rejection {
        at: r.at,
        errors: r.errors.push(
            ParseError {
                span: Span { start: r.at as usize, end: r.at as usize },
                kind: ErrorKind::Exhaustion,
                expected,
            },
        ),
    }
}

/// The union of two lists holds the first list at its start, and nothing
/// but diagnostics of the two lists.
pub proof fn lemma_union_members(errors: Seq<ParseError>, more: Seq<ParseError>)
    ensures
        union(errors, more).len() >= errors.len(),
        forall|i: int| 0 <= i < errors.len() ==> union(errors, more)[i] == errors[i],
        forall|i: int|
            0 <= i < union(errors, more).len() ==> errors.contains(
                #[trigger] union(errors, more)[i],
            ) || more.contains(union(errors, more)[i]),
    decreases more.len(),
{
    if more.len() > 0 {
        let shorter = more.drop_last();
        lemma_union_members(errors, shorter);
        let before = union(errors, shorter);
        assert forall|i: int| 0 <= i < union(errors, more).len() implies errors.contains(
            #[trigger] union(errors, more)[i],
        ) || more.contains(union(errors, more)[i]) by {
            if i < before.len() {
                let e = before[i];
                if !errors.contains(e) {
                    let j = choose|j: int| 0 <= j < shorter.len() && shorter[j] == e;
                    assert(more[j] == e);
                }
            } else {
                assert(union(errors, more)[i] == more[more.len() - 1]);
            }
        }
    }
}

/// Merging failures that are located in `s` gives a failure located in `s`,
/// at the further of the two offsets.
pub proof fn lemma_merge_located(first: Rejection, second: Rejection, s: Seq<char>)
    requires
        first.located(s),
        second.located(s),
    ensures
        first.merge(second).located(s),
        first.merge(second).at == if first.at >= second.at {
            first.at
        } else {
            second.at
        },
{
    if first.at == second.at {
        lemma_union_members(first.errors, second.errors);
        let merged = first.merge(second);
        assert forall|i: int| 0 <= i < merged.errors.len() implies {
            &&& (#[trigger] merged.errors[i]).span.start == merged.at
            &&& merged.at <= merged.errors[i].span.end <= s.len()
        } by {
            let e = merged.errors[i];
            if first.errors.contains(e) {
                let j = choose|j: int| 0 <= j < first.errors.len() && first.errors[j] == e;
                assert(first.errors[j].span.start == first.at);
            } else {
                let j = choose|j: int| 0 <= j < second.errors.len() && second.errors[j] == e;
                assert(second.errors[j].span.start == second.at);
            }
        }
    }
}

/// Passing over blanks stays within the text, and once done finds nothing
/// more to pass over.
pub proof fn lemma_skip_blanks_within(s: Seq<char>, p: int)
    requires
        0 <= p <= s.len(),
    ensures
        p <= skip_blanks(s, p) <= s.len(),
        skip_blanks(s, skip_blanks(s, p)) == skip_blanks(s, p),
    decreases s.len() - p,
{
    if p < s.len() && is_blank(s[p]) {
        lemma_skip_blanks_within(s, p + 1);
    }
}

/// A phrase ends, or fails, between the offset where it is tried and the
/// end of the text.
pub proof fn lemma_literal_within(s: Seq<char>, p: int, word: &'static str, i: int)
    requires
        0 <= p <= s.len() <= usize::MAX,
    ensures
        literal(s, p, word, i).within(s, p),
    decreases word@.len() - i,
{
    lemma_skip_blanks_within(s, p);
    if i < 0 || i >= word@.len() {
    } else if is_blank(word@[i]) {
        if i == 0 || is_blank(word@[i - 1]) {
            lemma_literal_within(s, p, word, i + 1);
        } else if p < s.len() && is_blank(s[p]) {
            lemma_literal_within(s, skip_blanks(s, p), word, i + 1);
        }
    } else if p < s.len() && same_letter(s[p], word@[i]) {
        lemma_literal_within(s, p + 1, word, i + 1);
    }
}

/// A phrase that starts with a character other than a blank consumes at
/// least that character.
pub proof fn lemma_phrase_progress(s: Seq<char>, p: int, word: &'static str)
    requires
        0 <= p <= s.len() <= usize::MAX,
        word@.len() > 0,
        !is_blank(word@[0]),
    ensures
        phrase(s, p, word) matches Outcome::Match(_, q) ==> p < q <= s.len(),
{
    lemma_skip_blanks_within(s, p);
    let first = skip_blanks(s, p);
    if first < s.len() && same_letter(s[first], word@[0]) {
        lemma_literal_within(s, first + 1, word, 1);
    }
}

} // verus!
