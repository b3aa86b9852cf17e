use crate::core_data::numerics::{Energy, Points, Spark};
use crate::grammar::primitives::{
    decimal, digits_end, exhausted, expected_at, is_blank, is_digit, lemma_literal_within,
    lemma_merge_located, literal, out_of_range, reported, same_error, same_letter, skip_blanks,
    union, Outcome, Rejection,
};
use crate::grammar::primitives;
use vstd::prelude::*;
use vstd::std_specs::iter::IteratorSpec;
use vstd::string::StringExecFns;

verus! {

/// A half-open range `[start, end)` of character offsets into the text.
#[derive(Debug, Copy, Clone, PartialEq, Eq, Structural)]
pub struct Span {
    pub start: usize,
    pub end: usize,
}

/// Why a rule could not go on.
#[derive(Debug, Copy, Clone, PartialEq, Eq, Structural)]
pub enum ErrorKind {
    /// The text does not continue with what the rule asks for.
    Expectation,
    /// A number was read but is too large for the value it stands for.
    ValueRange,
    /// A rule that needs at least one item found none.
    Exhaustion,
}

/// One diagnostic: where matching stopped and what was expected there.
#[derive(Debug, Copy, Clone, PartialEq, Eq)]
pub struct ParseError {
    pub span: Span,
    pub kind: ErrorKind,
    pub expected: &'static str,
}

/// The words that open the message of a diagnostic of the given kind.
pub open spec fn opening(kind: ErrorKind) -> Seq<char> {
    match kind {
        ErrorKind::Expectation => "expected "@,
        ErrorKind::ValueRange => "number out of range, expected "@,
        ErrorKind::Exhaustion => "nothing found, expected "@,
    }
}

impl ParseError {
    /// The message of the diagnostic in words: what kind of failure it is
    /// and what was expected.
    pub fn message(&self) -> (text: String)
        ensures
            text@ == opening(self.kind) + self.expected@,
    {
        let opening = match self.kind {
            ErrorKind::Expectation => "expected ",
            ErrorKind::ValueRange => "number out of range, expected ",
            ErrorKind::Exhaustion => "nothing found, expected ",
        };
        let mut text = String::from_str(opening);
        text.append(self.expected);
        text
    }
}

/// The diagnostics of a rule that did not match. All of them start at `at`,
/// the furthest offset that any alternative of the rule reached.
#[derive(Debug, Clone, PartialEq, Eq)]
pub struct Failure {
    pub at: usize,
    pub errors: Vec<ParseError>,
}

impl Failure {
    /// The failure as mathematics: the offset as an integer, the
    /// diagnostics as a sequence.
    pub open spec fn model(self) -> Rejection {
        Rejection { at: self.at as int, errors: self.errors@ }
    }

    /// Adds the diagnostic of a repetition that found no item.
    pub fn exhausted(self, expected: &'static str) -> (failure: Failure)
        ensures
            failure.model() == exhausted(self.model(), expected),
            forall|s: Seq<char>|
                self.model().located(s) ==> #[trigger] failure.model().located(s),
    {
        let at = self.at;
        let mut errors = self.errors;
        errors.push(
            ParseError { span: Span { start: at, end: at }, kind: ErrorKind::Exhaustion, expected },
        );
        Failure { at, errors }
    }

    /// Merges the diagnostics of two alternatives that both failed.
    pub fn merge(self, other: Failure) -> (merged: Failure)
        ensures
            merged.model() == self.model().merge(other.model()),
            forall|s: Seq<char>|
                self.model().located(s) && other.model().located(s)
                    ==> #[trigger] merged.model().located(s),
    {
        if self.at > other.at {
            self
        } else if other.at > self.at {
            other
        } else {
            let mut errors = self.errors;
            let more = other.errors;
            let mut i: usize = 0;
            while i < more.len()
                invariant
                    i <= more@.len(),
                    errors@ == union(self.errors@, more@.subrange(0, i as int)),
                decreases more@.len() - i,
            {
                proof {
                    let longer = more@.subrange(0, i + 1);
                    assert(longer.drop_last() =~= more@.subrange(0, i as int));
                    assert(longer.last() == more@[i as int]);
                }
                if !is_reported(&errors, &more[i]) {
                    errors.push(more[i]);
                }
                i += 1;
            }
            let merged = Failure { at: self.at, errors };
            proof {
                assert(more@.subrange(0, more@.len() as int) =~= more@);
                assert forall|s: Seq<char>|
                    self.model().located(s) && other.model().located(s)
                    implies #[trigger] merged.model().located(s) by {
                    lemma_merge_located(self.model(), other.model(), s);
                }
            }
            merged
        }
    }
}

/// True if the two texts hold the same characters.
fn same_text(a: &str, b: &str) -> (same: bool)
    ensures
        same == (a@ == b@),
{
    let mut left = a.chars();
    let mut right = b.chars();
    let ghost mut i: int = 0;
    loop
        invariant
            0 <= i <= a@.len(),
            i <= b@.len(),
            left.obeys_prophetic_iter_laws(),
            right.obeys_prophetic_iter_laws(),
            left.remaining() == a@.subrange(i, a@.len() as int),
            right.remaining() == b@.subrange(i, b@.len() as int),
            a@.subrange(0, i) == b@.subrange(0, i),
            left.decrease() is Some,
        decreases left.decrease()->0,
    {
        let x = left.next();
        let y = right.next();
        match (x, y) {
            (Some(c), Some(d)) => {
                assert(c == a@[i] && d == b@[i]);
                if c != d {
                    return false;
                }
                proof {
                    assert(a@.subrange(0, i + 1) =~= a@.subrange(0, i).push(c));
                    assert(b@.subrange(0, i + 1) =~= b@.subrange(0, i).push(d));
                    i = i + 1;
                }
            },
            (None, None) => {
                proof {
                    assert(a@.subrange(0, i) =~= a@);
                    assert(b@.subrange(0, i) =~= b@);
                }
                return true;
            },
            _ => {
                assert(a@.len() != b@.len());
                return false;
            },
        }
    }
}

/// True if the two diagnostics say the same.
fn says_the_same(a: &ParseError, b: &ParseError) -> (same: bool)
    ensures
        same == same_error(*a, *b),
{
    a.span.start == b.span.start && a.span.end == b.span.end && same_kind(a.kind, b.kind)
        && same_text(a.expected, b.expected)
}

/// True if the two kinds are the same.
fn same_kind(a: ErrorKind, b: ErrorKind) -> (same: bool)
    ensures
        same == (a == b),
{
    match (a, b) {
        (ErrorKind::Expectation, ErrorKind::Expectation) => true,
        (ErrorKind::ValueRange, ErrorKind::ValueRange) => true,
        (ErrorKind::Exhaustion, ErrorKind::Exhaustion) => true,
        _ => false,
    }
}

/// True if `errors` holds a diagnostic that says the same as `e`.
fn is_reported(errors: &Vec<ParseError>, e: &ParseError) -> (found: bool)
    ensures
        found == reported(errors@, *e),
{
    let mut i: usize = 0;
    while i < errors.len()
        invariant
            i <= errors@.len(),
            forall|j: int| 0 <= j < i ==> !same_error(#[trigger] errors@[j], *e),
        decreases errors@.len() - i,
    {
        if says_the_same(&errors[i], e) {
            return true;
        }
        i += 1;
    }
    false
}

/// What an executable rule returns: the value and the offset after it, or
/// the failure.
pub type Parsed<T> = Result<(T, usize), Failure>;

/// The outcome that an executable rule's result stands for, where the
/// value is plain data.
pub open spec fn outcome<T>(r: Parsed<T>) -> Outcome<T> {
    match r {
        Ok((value, next)) => Outcome::Match(value, next as int),
        Err(failure) => Outcome::Reject(failure.model()),
    }
}

/// The outcome that an executable rule's result stands for, where the
/// value has a model.
pub open spec fn viewed<T: View>(r: Parsed<T>) -> Outcome<T::V> {
    match r {
        Ok((value, next)) => Outcome::Match(value@, next as int),
        Err(failure) => Outcome::Reject(failure.model()),
    }
}

/// The outcome that the result of a rule without a value stands for.
pub open spec fn reached(r: Result<usize, Failure>) -> Outcome<()> {
    match r {
        Ok(next) => Outcome::Match((), next as int),
        Err(failure) => Outcome::Reject(failure.model()),
    }
}

/// The length of a text in memory fits in `usize`.
pub proof fn lemma_length_fits(text: &[char])
    ensures
        text@.len() <= usize::MAX,
{
    assert(text.len() == text@.len());
}

/// True if `c` is a blank.
fn blank(c: char) -> (b: bool)
    ensures
        b == is_blank(c),
{
    c == ' ' || c == '\t' || c == '\n' || c == '\r'
}

/// True if the character `found` in the text matches the character
/// `wanted` of a phrase.
fn letters_agree(found: char, wanted: char) -> (b: bool)
    ensures
        b == same_letter(found, wanted),
{
    let f: u32 = found as u32;
    found == wanted || (65 <= f && f <= 90 && f + 32 == wanted as u32)
}

/// Passes over the blanks at `start`.
pub fn skip(text: &[char], start: usize) -> (next: usize)
    requires
        start <= text@.len(),
    ensures
        next == skip_blanks(text@, start as int),
        start <= next <= text@.len(),
{
    let mut p: usize = start;
    while p < text.len() && blank(text[p])
        invariant
            start <= p <= text@.len(),
            skip_blanks(text@, start as int) == skip_blanks(text@, p as int),
        decreases text@.len() - p,
    {
        p += 1;
    }
    p
}

/// The failure "`expected` was expected at `at`".
pub fn expectation(text: &[char], at: usize, expected: &'static str) -> (failure: Failure)
    requires
        at <= text@.len(),
    ensures
        failure.model() == expected_at(text@, at as int, expected),
        failure.model().located(text@),
{
    let end: usize = if at < text.len() { at + 1 } else { at };
    let errors = vec![
        ParseError { span: Span { start: at, end }, kind: ErrorKind::Expectation, expected },
    ];
    proof {
        assert(errors@ =~= expected_at(text@, at as int, expected).errors);
    }
    Failure { at, errors }
}

/// Matches `word` at `start`, passing over blanks before and after it.
pub fn phrase(text: &[char], start: usize, word: &'static str) -> (r: Result<usize, Failure>)
    requires
        start <= text@.len(),
    ensures
        reached(r) == primitives::phrase(text@, start as int, word),
        reached(r).within(text@, start as int),
{
    let mut it = word.chars();
    let mut p: usize = skip(text, start);
    let mut after_blank: bool = true;
    let ghost mut i: int = 0;
    proof {
        lemma_length_fits(text);
        lemma_literal_within(text@, p as int, word, 0);
    }
    loop
        invariant
            start <= p <= text@.len(),
            0 <= i <= word@.len(),
            it.obeys_prophetic_iter_laws(),
            it.remaining() == word@.subrange(i, word@.len() as int),
            after_blank == (i == 0 || is_blank(word@[i - 1])),
            primitives::phrase(text@, start as int, word) == literal(
                text@,
                p as int,
                word,
                i,
            ),
        decreases word@.len() - i,
    {
        proof {
            lemma_length_fits(text);
            lemma_literal_within(text@, p as int, word, i);
        }
        match it.next() {
            None => {
                return Ok(skip(text, p));
            },
            Some(c) => {
                assert(c == word@[i]);
                if blank(c) {
                    if after_blank {
                    } else if p < text.len() && blank(text[p]) {
                        p = skip(text, p);
                    } else {
                        return Err(expectation(text, p, word));
                    }
                    after_blank = true;
                } else if p < text.len() && letters_agree(text[p], c) {
                    p += 1;
                    after_blank = false;
                } else {
                    return Err(expectation(text, p, word));
                }
                proof {
                    i = i + 1;
                }
            },
        }
    }
}

/// True if `c` is a decimal digit.
fn digit(c: char) -> (b: bool)
    ensures
        b == is_digit(c),
{
    let n: u32 = c as u32;
    48 <= n && n <= 57
}

/// The failure "the number in `[start, end)` is too large".
fn value_range(text: &[char], start: usize, end: usize) -> (failure: Failure)
    requires
        start <= end <= text@.len(),
    ensures
        failure.model() == out_of_range(start as int, end as int),
        failure.model().located(text@),
{
    let errors = vec![
        ParseError {
            span: Span { start, end },
            kind: ErrorKind::ValueRange,
            expected: "a number within range",
        },
    ];
    proof {
        lemma_length_fits(text);
        assert(errors@ =~= out_of_range(start as int, end as int).errors);
    }
    Failure { at: start, errors }
}

/// Reads an integer of at most `limit` at `start`, passing over no blanks.
pub fn integer(text: &[char], start: usize, limit: u64) -> (r: Parsed<u64>)
    requires
        start <= text@.len(),
    ensures
        outcome(r) == primitives::integer(text@, start as int, limit),
        outcome(r).within(text@, start as int),
        r matches Ok((n, _)) ==> n <= limit,
{
    if start < text.len() && text[start] == '0' {
        proof {
            let one = text@.subrange(start as int, start + 1);
            assert(one.drop_last().len() == 0);
            assert(decimal(one.drop_last()) == 0);
            assert(one.last() == '0');
            assert(decimal(one) == 0);
        }
        return Ok((0, start + 1));
    }
    let mut p: usize = start;
    let mut value: u64 = 0;
    let mut fits: bool = true;
    proof {
        assert(text@.subrange(start as int, start as int).len() == 0);
    }
    while p < text.len() && digit(text[p])
        invariant
            start <= p <= text@.len(),
            digits_end(text@, start as int) == digits_end(text@, p as int),
            fits ==> value == decimal(text@.subrange(start as int, p as int)),
            !fits ==> decimal(text@.subrange(start as int, p as int)) > u64::MAX,
        decreases text@.len() - p,
    {
        let d: u64 = (text[p] as u32 - 48) as u64;
        proof {
            let longer = text@.subrange(start as int, p + 1);
            assert(longer.drop_last() =~= text@.subrange(start as int, p as int));
            assert(longer.last() == text@[p as int]);
        }
        if fits && value <= (u64::MAX - d) / 10 {
            value = value * 10 + d;
        } else {
            fits = false;
        }
        p += 1;
    }
    if p == start {
        Err(expectation(text, start, "a number"))
    } else if !fits || value > limit {
        Err(value_range(text, start, p))
    } else {
        Ok((value, p))
    }
}

/// Numeric-with-affix: the phrase `before`, an integer of at most `limit`,
/// the phrase `after`.
pub fn numeric(
    text: &[char],
    start: usize,
    before: &'static str,
    limit: u64,
    after: &'static str,
) -> (r: Parsed<u64>)
    requires
        start <= text@.len(),
    ensures
        outcome(r) == primitives::numeric(text@, start as int, before, limit, after),
        outcome(r).within(text@, start as int),
        r matches Ok((n, _)) ==> n <= limit,
{
    let q1 = phrase(text, start, before)?;
    let (n, q2) = integer(text, q1, limit)?;
    let q3 = phrase(text, q2, after)?;
    Ok((n, q3))
}

/// Numeric-with-affix for an amount of energy.
pub fn energy(
    text: &[char],
    start: usize,
    before: &'static str,
    after: &'static str,
) -> (r: Parsed<Energy>)
    requires
        start <= text@.len(),
    ensures
        outcome(r) == primitives::energy(text@, start as int, before, after),
        outcome(r).within(text@, start as int),
{
    let (n, next) = numeric(text, start, before, 0xffff_ffff, after)?;
    Ok((Energy(n as u32), next))
}

/// Numeric-with-affix for an amount of spark.
pub fn spark(
    text: &[char],
    start: usize,
    before: &'static str,
    after: &'static str,
) -> (r: Parsed<Spark>)
    requires
        start <= text@.len(),
    ensures
        outcome(r) == primitives::spark(text@, start as int, before, after),
        outcome(r).within(text@, start as int),
{
    let (n, next) = numeric(text, start, before, 0xffff_ffff, after)?;
    Ok((Spark(n as u32), next))
}

/// Numeric-with-affix for a number of points.
pub fn points(
    text: &[char],
    start: usize,
    before: &'static str,
    after: &'static str,
) -> (r: Parsed<Points>)
    requires
        start <= text@.len(),
    ensures
        outcome(r) == primitives::points(text@, start as int, before, after),
        outcome(r).within(text@, start as int),
{
    let (n, next) = numeric(text, start, before, 0xffff_ffff, after)?;
    Ok((Points(n as u32), next))
}

/// Numeric-with-affix for a plain count.
pub fn count(
    text: &[char],
    start: usize,
    before: &'static str,
    after: &'static str,
) -> (r: Parsed<u64>)
    requires
        start <= text@.len(),
    ensures
        outcome(r) == primitives::count(text@, start as int, before, after),
        outcome(r).within(text@, start as int),
{
    numeric(text, start, before, u64::MAX, after)
}

/// Matches `word` and yields `value` for it.
pub fn keyword<T>(text: &[char], start: usize, word: &'static str, value: T) -> (r: Parsed<T>)
    requires
        start <= text@.len(),
    ensures
        outcome(r) == primitives::phrase(text@, start as int, word).to(value),
        outcome(r).within(text@, start as int),
{
    let next = phrase(text, start, word)?;
    Ok((value, next))
}

/// Matches `first` or, failing that, `second`.
pub fn either_phrase(
    text: &[char],
    start: usize,
    first: &'static str,
    second: &'static str,
) -> (r: Result<usize, Failure>)
    requires
        start <= text@.len(),
    ensures
        reached(r) == primitives::either(text@, start as int, first, second),
        reached(r).within(text@, start as int),
{
    let failure = match phrase(text, start, first) {
        Ok(next) => return Ok(next),
        Err(failure) => failure,
    };
    match phrase(text, start, second) {
        Ok(next) => Ok(next),
        Err(other) => Err(failure.merge(other)),
    }
}

/// "this character" or "this event".
pub fn this(text: &[char], start: usize) -> (r: Result<usize, Failure>)
    requires
        start <= text@.len(),
    ensures
        reached(r) == primitives::this(text@, start as int),
        reached(r).within(text@, start as int),
{
    either_phrase(text, start, "this character", "this event")
}

/// The article "an" or "a".
pub fn a_or_an(text: &[char], start: usize) -> (r: Result<usize, Failure>)
    requires
        start <= text@.len(),
    ensures
        reached(r) == primitives::a_or_an(text@, start as int),
        reached(r).within(text@, start as int),
{
    either_phrase(text, start, "an", "a")
}

/// Reads `word` and the article after it.
pub fn article_after(text: &[char], start: usize, word: &'static str) -> (r: Result<usize, Failure>)
    requires
        start <= text@.len(),
    ensures
        reached(r) == primitives::article_after(text@, start as int, word),
        reached(r).within(text@, start as int),
{
    let q1 = phrase(text, start, word)?;
    a_or_an(text, q1)
}

/// A number written as a word, from "one" to "ten".
pub fn text_number(text: &[char], start: usize) -> (r: Parsed<u64>)
    requires
        start <= text@.len(),
    ensures
        outcome(r) == primitives::text_number(text@, start as int),
        outcome(r).within(text@, start as int),
{
    proof {
        reveal(primitives::text_number);
    }
    let failure = match keyword(text, start, "one", 1u64) {
        Ok(found) => return Ok(found),
        Err(failure) => failure,
    };
    let failure = match keyword(text, start, "two", 2u64) {
        Ok(found) => return Ok(found),
        Err(other) => failure.merge(other),
    };
    let failure = match keyword(text, start, "three", 3u64) {
        Ok(found) => return Ok(found),
        Err(other) => failure.merge(other),
    };
    let failure = match keyword(text, start, "four", 4u64) {
        Ok(found) => return Ok(found),
        Err(other) => failure.merge(other),
    };
    let failure = match keyword(text, start, "five", 5u64) {
        Ok(found) => return Ok(found),
        Err(other) => failure.merge(other),
    };
    let failure = match keyword(text, start, "six", 6u64) {
        Ok(found) => return Ok(found),
        Err(other) => failure.merge(other),
    };
    let failure = match keyword(text, start, "seven", 7u64) {
        Ok(found) => return Ok(found),
        Err(other) => failure.merge(other),
    };
    let failure = match keyword(text, start, "eight", 8u64) {
        Ok(found) => return Ok(found),
        Err(other) => failure.merge(other),
    };
    let failure = match keyword(text, start, "nine", 9u64) {
        Ok(found) => return Ok(found),
        Err(other) => failure.merge(other),
    };
    match keyword(text, start, "ten", 10u64) {
        Ok(found) => Ok(found),
        Err(other) => Err(failure.merge(other)),
    }
}

/// "<number word> times".
fn counted_times(text: &[char], start: usize) -> (r: Parsed<u64>)
    requires
        start <= text@.len(),
    ensures
        outcome(r) == primitives::counted_times(text@, start as int),
        outcome(r).within(text@, start as int),
{
    let (n, q1) = text_number(text, start)?;
    let q2 = phrase(text, q1, "times")?;
    Ok((n, q2))
}

/// How often something happens, if the text says so at `start`.
pub fn number_of_times(text: &[char], start: usize) -> (r: Parsed<Option<u64>>)
    requires
        start <= text@.len(),
    ensures
        outcome(r) == primitives::number_of_times(text@, start as int),
        outcome(r).within(text@, start as int),
        r is Ok,
{
    match keyword(text, start, "twice", 2u64) {
        Ok((n, next)) => Ok((Some(n), next)),
        Err(_) => match counted_times(text, start) {
            Ok((n, next)) => Ok((Some(n), next)),
            Err(_) => Ok((None, start)),
        },
    }
}

/// "a" and `singular`, standing for one.
fn a_single(text: &[char], start: usize, singular: &'static str) -> (r: Parsed<u64>)
    requires
        start <= text@.len(),
    ensures
        outcome(r) == primitives::a_single(text@, start as int, singular),
        outcome(r).within(text@, start as int),
{
    let q1 = phrase(text, start, "a")?;
    let q2 = phrase(text, q1, singular)?;
    Ok((1, q2))
}

/// One item, written "a" and `singular`, or a count followed by `plural`.
pub fn a_or_count(
    text: &[char],
    start: usize,
    singular: &'static str,
    plural: &'static str,
) -> (r: Parsed<u64>)
    requires
        start <= text@.len(),
    ensures
        outcome(r) == primitives::a_or_count(text@, start as int, singular, plural),
        outcome(r).within(text@, start as int),
{
    let failure = match a_single(text, start, singular) {
        Ok(found) => return Ok(found),
        Err(failure) => failure,
    };
    match count(text, start, "", plural) {
        Ok(found) => Ok(found),
        Err(other) => Err(failure.merge(other)),
    }
}

/// Passes over `word` if it stands at `start`, and stays at `start` if not.
pub fn maybe(text: &[char], start: usize, word: &'static str) -> (next: usize)
    requires
        start <= text@.len(),
    ensures
        start <= next <= text@.len(),
        Outcome::Match((), start as int).maybe(text@, word) == Outcome::Match((), next as int),
{
    match phrase(text, start, word) {
        Ok(next) => next,
        Err(_) => start,
    }
}

} // verus!
