//! The numbers in a JSON text as they are spelled.
//!
//! `serde_json` reads the first digits of a number into 64 bits and counts the
//! digits that it leaves out, and the places after `0.`, in 32. Numbers with
//! thousands of millions of digits run over those counters, and are found here
//! before they are read.

use vstd::prelude::*;

use crate::text;

verus! {

/// Most digits of a whole number beyond those that fit into 64 bits.
pub const MAX_FURTHER_DIGITS: usize = 2_147_483_647;

/// Most places after `0.` that are read into 64 bits.
pub const MAX_PLACES: usize = 2_147_483_648;

/// Where a character of a JSON text stands.
#[derive(Debug, Clone, Copy, PartialEq, Eq, Structural)]
pub enum Place {
    /// Between strings and numbers.
    Between,
    /// In a string.
    Quoted,
    /// In a string, behind a backslash.
    Escaped,
    /// In a number, behind its first digit.
    Number,
}

/// A character that can stand in a number behind its first digit.
pub open spec fn continues_number(c: char) -> bool {
    text::is_ascii_digit(c) || c == '.' || c == 'e' || c == 'E' || c == '+' || c == '-'
}

/// Where the character behind `c` stands, when `c` stands at `place`.
pub open spec fn place_after(place: Place, c: char) -> Place {
    match place {
        Place::Escaped => Place::Quoted,
        Place::Quoted => if c == '\\' {
            Place::Escaped
        } else if c == '"' {
            Place::Between
        } else {
            Place::Quoted
        },
        Place::Between => if c == '"' {
            Place::Quoted
        } else if text::is_ascii_digit(c) {
            Place::Number
        } else {
            Place::Between
        },
        Place::Number => if c == '"' {
            Place::Quoted
        } else if continues_number(c) {
            Place::Number
        } else {
            Place::Between
        },
    }
}

/// The value of a decimal digit.
pub open spec fn digit_value(c: char) -> int {
    c as int - '0' as int
}

/// Where the digits from `at` on end that fit into 64 bits behind a number that
/// is `so_far`.
pub open spec fn fitting_end(s: Seq<char>, at: int, so_far: int) -> int
    decreases s.len() - at,
{
    if 0 <= at < s.len() && text::is_ascii_digit(s[at]) && so_far * 10 + digit_value(s[at])
        <= u64::MAX {
        fitting_end(s, at + 1, so_far * 10 + digit_value(s[at]))
    } else {
        at
    }
}

/// Where the digits from `at` on end.
pub open spec fn digits_end(s: Seq<char>, at: int) -> int
    decreases s.len() - at,
{
    if 0 <= at < s.len() && text::is_ascii_digit(s[at]) {
        digits_end(s, at + 1)
    } else {
        at
    }
}

/// The number whose first digit stands at `at` keeps within the counters. Only
/// behind `0.` are there many places to count: behind any other number 64 bits
/// are soon full.
pub open spec fn number_fits(s: Seq<char>, at: int) -> bool {
    if s[at] == '0' {
        at + 1 < s.len() && s[at + 1] == '.' ==> fitting_end(s, at + 2, 0) - (at + 2) <= MAX_PLACES
    } else {
        let rest = fitting_end(s, at, 0);
        digits_end(s, rest) - rest <= MAX_FURTHER_DIGITS
    }
}

/// Every number from `at` on, which stands at `place`, keeps within the
/// counters.
pub open spec fn numbers_fit_from(s: Seq<char>, at: int, place: Place) -> bool
    decreases s.len() - at,
{
    if 0 <= at < s.len() {
        &&& place is Between && text::is_ascii_digit(s[at]) ==> number_fits(s, at)
        &&& numbers_fit_from(s, at + 1, place_after(place, s[at]))
    } else {
        true
    }
}

/// Every number in the text keeps within the counters.
pub open spec fn numbers_fit(s: Seq<char>) -> bool {
    numbers_fit_from(s, 0, Place::Between)
}

fn is_digit(c: char) -> (yes: bool)
    ensures
        yes == text::is_ascii_digit(c),
{
    '0' <= c && c <= '9'
}

fn next_place(place: Place, c: char) -> (next: Place)
    ensures
        next == place_after(place, c),
{
    match place {
        Place::Escaped => Place::Quoted,
        Place::Quoted => if c == '\\' {
            Place::Escaped
        } else if c == '"' {
            Place::Between
        } else {
            Place::Quoted
        },
        Place::Between => if c == '"' {
            Place::Quoted
        } else if is_digit(c) {
            Place::Number
        } else {
            Place::Between
        },
        Place::Number => if c == '"' {
            Place::Quoted
        } else if is_digit(c) || c == '.' || c == 'e' || c == 'E' || c == '+' || c == '-' {
            Place::Number
        } else {
            Place::Between
        },
    }
}

fn past_fitting(s: &Vec<char>, from: usize) -> (at: usize)
    requires
        from <= s@.len(),
    ensures
        at == fitting_end(s@, from as int, 0),
        from <= at <= s@.len(),
{
    let mut so_far: u64 = 0;
    let mut at: usize = from;
    while at < s.len() && is_digit(s[at])
        invariant
            from <= at <= s@.len(),
            fitting_end(s@, from as int, 0) == fitting_end(s@, at as int, so_far as int),
        decreases s@.len() - at,
    {
        let digit: u64 = s[at] as u64 - 48;
        if so_far > (u64::MAX - digit) / 10 {
            return at;
        }
        so_far = so_far * 10 + digit;
        at += 1;
    }
    at
}

fn past_digits(s: &Vec<char>, from: usize) -> (at: usize)
    requires
        from <= s@.len(),
    ensures
        at == digits_end(s@, from as int),
        from <= at <= s@.len(),
{
    let mut at: usize = from;
    while at < s.len() && is_digit(s[at])
        invariant
            from <= at <= s@.len(),
            digits_end(s@, from as int) == digits_end(s@, at as int),
        decreases s@.len() - at,
    {
        at += 1;
    }
    at
}

/// `true` when the number whose first digit stands at `at` keeps within the
/// counters.
fn can_be_counted(s: &Vec<char>, at: usize) -> (yes: bool)
    requires
        at < s@.len(),
    ensures
        yes == number_fits(s@, at as int),
{
    if s[at] == '0' {
        if s.len() - at < 2 || s[at + 1] != '.' {
            return true;
        }
        past_fitting(s, at + 2) - (at + 2) <= MAX_PLACES
    } else {
        let rest = past_fitting(s, at);
        past_digits(s, rest) - rest <= MAX_FURTHER_DIGITS
    }
}

/// `true` when every number in the text keeps within the counters.
pub fn holds_countable_numbers(text: &str) -> (yes: bool)
    ensures
        yes == numbers_fit(text@),
{
    let chars = text::to_chars(text);
    let mut place = Place::Between;
    let mut at: usize = 0;
    while at < chars.len()
        invariant
            chars@ == text@,
            at <= chars@.len(),
            numbers_fit(text@) == numbers_fit_from(chars@, at as int, place),
        decreases chars@.len() - at,
    {
        let c = chars[at];
        if place == Place::Between && is_digit(c) && !can_be_counted(&chars, at) {
            return false;
        }
        place = next_place(place, c);
        at += 1;
    }
    true
}

// ---- laws -----------------------------------------------------------------

/// Where no run of digits is that long, every number keeps within the counters.
pub proof fn law_short_digit_runs_fit(s: Seq<char>, place: Place, at: int)
    requires
        0 <= at <= s.len(),
        forall|i: int| 0 <= i < s.len() ==> #[trigger] digits_end(s, i) - i <= MAX_FURTHER_DIGITS,
    ensures
        numbers_fit_from(s, at, place),
    decreases s.len() - at,
{
    if at < s.len() {
        law_short_digit_runs_fit(s, place_after(place, s[at]), at + 1);
        lemma_fitting_within_digits(s, at, 0);
        if at + 2 <= s.len() {
            lemma_fitting_within_digits(s, at + 2, 0);
        }
        let rest = fitting_end(s, at, 0);
        assert(rest < s.len() ==> digits_end(s, rest) - rest <= MAX_FURTHER_DIGITS);
        assert(at + 2 < s.len() ==> digits_end(s, at + 2) - (at + 2) <= MAX_FURTHER_DIGITS);
    }
}

proof fn lemma_fitting_within_digits(s: Seq<char>, at: int, so_far: int)
    requires
        0 <= at <= s.len(),
    ensures
        at <= fitting_end(s, at, so_far) <= digits_end(s, at) <= s.len(),
    decreases s.len() - at,
{
    if at < s.len() && text::is_ascii_digit(s[at]) {
        lemma_fitting_within_digits(s, at + 1, so_far * 10 + digit_value(s[at]));
    }
}

/// Digits in a string do not matter, however many there are.
pub proof fn law_strings_do_not_matter(s: Seq<char>, from: int, to: int)
    requires
        0 <= from <= to < s.len(),
        forall|i: int| from <= i < to ==> #[trigger] s[i] != '"' && s[i] != '\\',
        s[to] == '"',
    ensures
        numbers_fit_from(s, from, Place::Quoted) == numbers_fit_from(s, to + 1, Place::Between),
    decreases to - from,
{
    if from < to {
        law_strings_do_not_matter(s, from + 1, to);
    }
}

/// In a text of fewer than two thousand million characters every number keeps
/// within the counters.
pub proof fn law_short_texts_fit(s: Seq<char>)
    requires
        s.len() <= 2_147_483_647,
    ensures
        numbers_fit(s),
{
    assert forall|i: int| 0 <= i < s.len() implies #[trigger] digits_end(s, i) - i
        <= MAX_FURTHER_DIGITS by {
        lemma_fitting_within_digits(s, i, 0);
    }
    law_short_digit_runs_fit(s, Place::Between, 0);
}

/// Numbers that start with `0.` and zeros keep within the counters exactly when these are at
/// most 2,147,483,648.
pub proof fn law_leading_places(zeros: nat)
    ensures
        number_fits("0."@ + Seq::new(zeros, |i: int| '0'), 0) <==> zeros <= 2_147_483_648,
{
    reveal_strlit("0.");
    let s = "0."@ + Seq::new(zeros, |i: int| '0');
    assert(s[0] == '0' && s[1] == '.');
    lemma_zeros_fit(s, 2);
}

proof fn lemma_zeros_fit(s: Seq<char>, at: int)
    requires
        0 <= at <= s.len(),
        forall|i: int| at <= i < s.len() ==> #[trigger] s[i] == '0',
    ensures
        fitting_end(s, at, 0) == s.len(),
    decreases s.len() - at,
{
    if at < s.len() {
        assert(s[at] == '0');
        lemma_zeros_fit(s, at + 1);
    }
}

} // verus!
