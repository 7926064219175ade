//! Text primitives shared by every module: characters, trimming, searching,
//! ASCII case folding, decimal numbers and joining.
//!
//! Text is modelled as the sequence of its characters, `Seq<char>`.

use vstd::prelude::*;
use vstd::string::*;

verus! {

/// `String::push`: the character is appended to the text.
pub assume_specification[ String::push ](s: &mut String, c: char)
    ensures
        final(s)@ == old(s)@.push(c),
;

/// The characters of `s`, in order.
pub fn to_chars(s: &str) -> (chars: Vec<char>)
    ensures
        chars@ == s@,
{
    let mut chars: Vec<char> = Vec::new();
    for c in it: s.chars()
        invariant
            chars@ == it.seq().take(it.index()),
            it.seq() == s@,
    {
        chars.push(c);
        assert(it.seq().take(it.index() + 1) =~= it.seq().take(it.index()).push(c));
    }
    assert(s@.take(s@.len() as int) =~= s@);
    chars
}

/// The text made of the characters `from..to`.
pub fn from_chars(chars: &Vec<char>, from: usize, to: usize) -> (s: String)
    requires
        from <= to <= chars@.len(),
    ensures
        s@ == chars@.subrange(from as int, to as int),
{
    let mut s = String::new();
    let mut i: usize = from;
    while i < to
        invariant
            from <= i <= to <= chars@.len(),
            s@ == chars@.subrange(from as int, i as int),
        decreases to - i,
    {
        s.push(chars[i]);
        i += 1;
        assert(chars@.subrange(from as int, i as int) =~= chars@.subrange(
            from as int,
            i - 1,
        ).push(chars@[i - 1]));
    }
    s
}


// ---- character classes ----------------------------------------------------

pub open spec fn is_ascii_upper(c: char) -> bool {
    'A' <= c <= 'Z'
}

pub open spec fn is_ascii_lower(c: char) -> bool {
    'a' <= c <= 'z'
}

pub open spec fn is_ascii_digit(c: char) -> bool {
    '0' <= c <= '9'
}

/// The characters of the Unicode property `White_Space`.
pub open spec fn is_white_space(c: char) -> bool {
    ||| 0x09 <= c as int <= 0x0d
    ||| c as int == 0x20
    ||| c as int == 0x85
    ||| c as int == 0xa0
    ||| c as int == 0x1680
    ||| 0x2000 <= c as int <= 0x200a
    ||| c as int == 0x2028
    ||| c as int == 0x2029
    ||| c as int == 0x202f
    ||| c as int == 0x205f
    ||| c as int == 0x3000
}

pub fn white_space(c: char) -> (yes: bool)
    ensures
        yes == is_white_space(c),
{
    let code: u32 = c as u32;
    (0x09 <= code && code <= 0x0d) || code == 0x20 || code == 0x85 || code == 0xa0 || code
        == 0x1680 || (0x2000 <= code && code <= 0x200a) || code == 0x2028 || code == 0x2029 || code
        == 0x202f || code == 0x205f || code == 0x3000
}

// ---- equality and copies --------------------------------------------------

/// `true` when both texts have the same characters.
pub fn same_text(a: &str, b: &str) -> (same: bool)
    ensures
        same == (a@ == b@),
{
    a.to_owned() == b.to_owned()
}

/// The characters of an optional text.
pub open spec fn opt_text(text: Option<String>) -> Option<Seq<char>> {
    match text {
        Some(t) => Some(t@),
        None => None,
    }
}

/// The characters of each text of a list.
pub open spec fn texts(list: Seq<String>) -> Seq<Seq<char>> {
    list.map_values(|t: String| t@)
}

pub fn clone_opt_text(text: &Option<String>) -> (copy: Option<String>)
    ensures
        copy == text,
{
    match text {
        Some(t) => Some(t.clone()),
        None => None,
    }
}

/// `true` when `list` holds a text with the characters of `needle`.
pub fn list_contains(list: &Vec<String>, needle: &str) -> (found: bool)
    ensures
        found == texts(list@).contains(needle@),
{
    let mut i: usize = 0;
    while i < list.len()
        invariant
            i <= list@.len(),
            forall|j: int| 0 <= j < i ==> list@[j]@ != needle@,
        decreases list@.len() - i,
    {
        if same_text(list[i].as_str(), needle) {
            assert(texts(list@)[i as int] == needle@);
            return true;
        }
        i += 1;
    }
    assert forall|j: int| 0 <= j < texts(list@).len() implies texts(list@)[j] != needle@ by {
        assert(texts(list@)[j] == list@[j]@);
    }
    false
}

// ---- ASCII case -----------------------------------------------------------

/// ASCII capital letters become small ones; other characters stay.
pub open spec fn ascii_lower_char(c: char) -> char {
    if is_ascii_upper(c) {
        (c as int + 32) as char
    } else {
        c
    }
}

/// The text with its ASCII letters in small form.
pub open spec fn ascii_lower(s: Seq<char>) -> Seq<char> {
    s.map_values(|c: char| ascii_lower_char(c))
}

/// Equality up to the case of ASCII letters.
pub open spec fn equal_ignoring_case(a: Seq<char>, b: Seq<char>) -> bool {
    ascii_lower(a) == ascii_lower(b)
}

fn lower_char(c: char) -> (lower: char)
    ensures
        lower == ascii_lower_char(c),
{
    if 'A' <= c && c <= 'Z' {
        (c as u8 + 32) as char
    } else {
        c
    }
}

/// The characters of `s` with ASCII letters in small form.
pub fn lower_chars(s: &str) -> (chars: Vec<char>)
    ensures
        chars@ == ascii_lower(s@),
{
    let all = to_chars(s);
    let mut chars: Vec<char> = Vec::new();
    let mut i: usize = 0;
    while i < all.len()
        invariant
            i <= all@.len(),
            all@ == s@,
            chars@.len() == i,
            forall|j: int| 0 <= j < i ==> chars@[j] == ascii_lower_char(#[trigger] all@[j]),
        decreases all@.len() - i,
    {
        chars.push(lower_char(all[i]));
        i += 1;
    }
    assert(chars@ =~= ascii_lower(s@));
    chars
}

/// `s` with ASCII letters in small form.
pub fn to_ascii_lowercase(s: &str) -> (lower: String)
    ensures
        lower@ == ascii_lower(s@),
{
    let chars = lower_chars(s);
    let lower = from_chars(&chars, 0, chars.len());
    assert(chars@.subrange(0, chars@.len() as int) =~= chars@);
    lower
}

/// Equality up to the case of ASCII letters.
pub fn eq_ignore_ascii_case(a: &str, b: &str) -> (same: bool)
    ensures
        same == equal_ignoring_case(a@, b@),
{
    same_text(to_ascii_lowercase(a).as_str(), to_ascii_lowercase(b).as_str())
}

// ---- trimming -------------------------------------------------------------

/// `s` without its leading white space.
pub open spec fn trim_start(s: Seq<char>) -> Seq<char>
    decreases s.len(),
{
    if s.len() > 0 && is_white_space(s[0]) {
        trim_start(s.drop_first())
    } else {
        s
    }
}

/// `s` without its trailing white space.
pub open spec fn trim_end(s: Seq<char>) -> Seq<char>
    decreases s.len(),
{
    if s.len() > 0 && is_white_space(s.last()) {
        trim_end(s.drop_last())
    } else {
        s
    }
}

/// `s` without white space at either end.
pub open spec fn trimmed(s: Seq<char>) -> Seq<char> {
    trim_end(trim_start(s))
}

/// A text is blank when it holds nothing but white space.
pub open spec fn is_blank(s: Seq<char>) -> bool {
    trimmed(s).len() == 0
}

/// `s` without white space at either end.
pub fn trim(s: &str) -> (inner: String)
    ensures
        inner@ == trimmed(s@),
{
    let chars = to_chars(s);
    let mut from: usize = 0;
    assert(chars@.skip(0) =~= chars@);
    while from < chars.len() && white_space(chars[from])
        invariant
            from <= chars@.len(),
            trim_start(chars@) == trim_start(chars@.skip(from as int)),
        decreases chars@.len() - from,
    {
        assert(chars@.skip(from as int).drop_first() =~= chars@.skip(from + 1));
        from += 1;
    }
    let mut to: usize = chars.len();
    assert(chars@.subrange(from as int, to as int) =~= chars@.skip(from as int));
    while from < to && white_space(chars[to - 1])
        invariant
            from <= to <= chars@.len(),
            trim_end(chars@.skip(from as int)) == trim_end(chars@.subrange(from as int, to as int)),
        decreases to,
    {
        assert(chars@.subrange(from as int, to as int).drop_last() =~= chars@.subrange(
            from as int,
            to - 1,
        ));
        to -= 1;
    }
    from_chars(&chars, from, to)
}

// ---- searching ------------------------------------------------------------

/// `part` stands in `s` at position `at`.
pub open spec fn occurs_at(s: Seq<char>, part: Seq<char>, at: int) -> bool {
    0 <= at <= s.len() - part.len() && s.subrange(at, at + part.len()) == part
}

/// `part` stands somewhere in `s`.
pub open spec fn contains_text(s: Seq<char>, part: Seq<char>) -> bool {
    exists|at: int| occurs_at(s, part, at)
}

fn found_at(s: &Vec<char>, part: &Vec<char>, at: usize) -> (found: bool)
    requires
        at + part@.len() <= s@.len(),
    ensures
        found == occurs_at(s@, part@, at as int),
{
    let total: usize = s.len();
    let mut i: usize = 0;
    while i < part.len()
        invariant
            i <= part@.len(),
            at + part@.len() <= s@.len() == total,
            forall|j: int| 0 <= j < i ==> s@[at + j] == part@[j],
        decreases part@.len() - i,
    {
        if s[at + i] != part[i] {
            assert(s@.subrange(at as int, at + part@.len())[i as int] != part@[i as int]);
            return false;
        }
        i += 1;
    }
    assert(s@.subrange(at as int, at + part@.len()) =~= part@);
    true
}

/// `true` when `part` stands somewhere in `s`.
pub fn chars_contain(s: &Vec<char>, part: &str) -> (found: bool)
    ensures
        found == contains_text(s@, part@),
{
    let needle = to_chars(part);
    if needle.len() > s.len() {
        return false;
    }
    let last: usize = s.len() - needle.len();
    let mut at: usize = 0;
    loop
        invariant
            at <= last,
            needle@ == part@,
            last == s@.len() - needle@.len(),
            forall|k: int| 0 <= k < at ==> !occurs_at(s@, part@, k),
        decreases last - at,
    {
        if found_at(s, &needle, at) {
            return true;
        }
        if at == last {
            return false;
        }
        at += 1;
    }
}

/// Where `mark` first stands at or after `from`; the end of `s` where it does
/// not.
pub open spec fn index_from(s: Seq<char>, mark: char, from: int) -> int
    decreases s.len() - from,
{
    if from < 0 || from >= s.len() {
        s.len() as int
    } else if s[from] == mark {
        from
    } else {
        index_from(s, mark, from + 1)
    }
}

/// Where `mark` first stands at or after `from`; the end of `s` where it does
/// not.
pub fn find_from(s: &Vec<char>, mark: char, from: usize) -> (at: usize)
    ensures
        at == index_from(s@, mark, from as int),
        at <= s@.len(),
{
    if from >= s.len() {
        return s.len();
    }
    let mut at: usize = from;
    while at < s.len() && s[at] != mark
        invariant
            from <= at <= s@.len(),
            index_from(s@, mark, from as int) == index_from(s@, mark, at as int),
        decreases s@.len() - at,
    {
        at += 1;
    }
    at
}

/// What follows the last `mark` of `s`, if `s` holds `mark`.
pub open spec fn after_last(s: Seq<char>, mark: char) -> Option<Seq<char>>
    decreases s.len(),
{
    if s.len() == 0 {
        None
    } else if s.last() == mark {
        Some(Seq::empty())
    } else {
        match after_last(s.drop_last(), mark) {
            Some(rest) => Some(rest.push(s.last())),
            None => None,
        }
    }
}

/// [`after_last`] says what it is meant to: the part after the last mark holds
/// no mark and a mark stands right before it; without a mark there is none.
pub proof fn lemma_after_last(s: Seq<char>, mark: char)
    ensures
        after_last(s, mark) is None ==> !s.contains(mark),
        after_last(s, mark) matches Some(rest) ==> {
            &&& rest.len() < s.len()
            &&& !rest.contains(mark)
            &&& s[s.len() - rest.len() - 1] == mark
            &&& s.skip(s.len() - rest.len()) == rest
        },
    decreases s.len(),
{
    if s.len() > 0 && s.last() != mark {
        let front = s.drop_last();
        lemma_after_last(front, mark);
        match after_last(front, mark) {
            Some(rest) => {
                assert(s.skip(s.len() - rest.len() - 1) =~= rest.push(s.last()));
                assert forall|i: int| 0 <= i < rest.len() + 1 implies rest.push(s.last())[i]
                    != mark by {
                    if i < rest.len() {
                        assert(rest.contains(rest[i]));
                    }
                }
            },
            None => {
                assert forall|i: int| 0 <= i < s.len() implies s[i] != mark by {
                    if i < front.len() {
                        assert(front.contains(front[i]));
                    }
                }
            },
        }
    } else if s.len() > 0 {
        assert(s.skip(s.len() as int) =~= Seq::<char>::empty());
    }
}

/// What follows the last `mark` of `s`, if `s` holds `mark`.
pub fn split_last(s: &str, mark: char) -> (rest: Option<String>)
    ensures
        opt_text(rest) == after_last(s@, mark),
{
    let chars = to_chars(s);
    let mut i: usize = chars.len();
    while i > 0
        invariant
            i <= chars@.len(),
            chars@ == s@,
            forall|j: int| i <= j < chars@.len() ==> chars@[j] != mark,
        decreases i,
    {
        if chars[i - 1] == mark {
            proof {
                lemma_after_last(s@, mark);
                let rest = after_last(s@, mark)->0;
                assert(s@.contains(s@[i - 1]));
                if s@.len() - rest.len() < i {
                    assert(rest[i - 1 - (s@.len() - rest.len())] == s@[i - 1]);
                    assert(rest.contains(mark));
                }
            }
            return Some(from_chars(&chars, i, chars.len()));
        }
        i -= 1;
    }
    proof {
        lemma_after_last(s@, mark);
    }
    None
}

// ---- numbers --------------------------------------------------------------

pub open spec fn digit_char(digit: nat) -> char {
    (48 + digit) as char
}

/// The decimal form of `n`, without leading zeros.
pub open spec fn decimal(n: nat) -> Seq<char>
    decreases n,
{
    if n < 10 {
        seq![digit_char(n)]
    } else {
        decimal(n / 10).push(digit_char(n % 10))
    }
}

/// The decimal form of `n`.
pub fn decimal_text(n: u64) -> (s: String)
    ensures
        s@ == decimal(n as nat),
    decreases n,
{
    let digit: u8 = (n % 10) as u8;
    let mut s = if n < 10 {
        String::new()
    } else {
        decimal_text(n / 10)
    };
    s.push((48 + digit) as char);
    assert(n < 10 ==> s@ =~= seq![digit_char(n as nat)]);
    s
}

// ---- joining --------------------------------------------------------------

/// The texts of `list` with `separator` between each two.
pub open spec fn joined(list: Seq<Seq<char>>, separator: Seq<char>) -> Seq<char>
    decreases list.len(),
{
    if list.len() == 0 {
        Seq::empty()
    } else if list.len() == 1 {
        list[0]
    } else {
        joined(list.drop_last(), separator) + separator + list.last()
    }
}

/// The texts of `list` with `separator` between each two.
pub fn join(list: &Vec<String>, separator: &str) -> (all: String)
    ensures
        all@ == joined(texts(list@), separator@),
{
    let mut all = String::new();
    let mut i: usize = 0;
    while i < list.len()
        invariant
            i <= list@.len(),
            all@ == joined(texts(list@).take(i as int), separator@),
        decreases list@.len() - i,
    {
        if i > 0 {
            all.append(separator);
        }
        all.append(list[i].as_str());
        assert(texts(list@).take(i + 1).drop_last() =~= texts(list@).take(i as int));
        assert(Seq::<char>::empty() + list@[i as int]@ =~= list@[i as int]@);
        i += 1;
    }
    assert(texts(list@).take(i as int) =~= texts(list@));
    all
}

// ---- quoting --------------------------------------------------------------

/// The `{:?}` form of a text: in double quotes, with escapes.
pub uninterp spec fn quoted(text: Seq<char>) -> Seq<char>;

/// `std::fmt::Debug` of `str`: the text in double quotes, with quotes,
/// backslashes, control and unprintable characters escaped. Which characters
/// count as unprintable is not said; the result depends on the text alone.
#[verifier::external_body]
pub(crate) fn quote(text: &str) -> (quotation: String)
    ensures
        quotation@ == quoted(text@),
{
    format!("{text:?}")
}

// ---- order ----------------------------------------------------------------

/// Lexicographic order by character code, which is how texts are sorted.
pub open spec fn precedes(a: Seq<char>, b: Seq<char>) -> bool
    decreases b.len(),
{
    if b.len() == 0 {
        false
    } else if a.len() == 0 {
        true
    } else {
        a[0] < b[0] || (a[0] == b[0] && precedes(a.drop_first(), b.drop_first()))
    }
}

pub proof fn lemma_precedes_irreflexive(a: Seq<char>)
    ensures
        !precedes(a, a),
    decreases a.len(),
{
    if a.len() > 0 {
        lemma_precedes_irreflexive(a.drop_first());
    }
}

pub proof fn lemma_precedes_transitive(a: Seq<char>, b: Seq<char>, c: Seq<char>)
    requires
        precedes(a, b),
        precedes(b, c),
    ensures
        precedes(a, c),
    decreases c.len(),
{
    if a.len() > 0 && a[0] == b[0] && b[0] == c[0] {
        lemma_precedes_transitive(a.drop_first(), b.drop_first(), c.drop_first());
    }
}

pub proof fn lemma_precedes_total(a: Seq<char>, b: Seq<char>)
    ensures
        a == b || precedes(a, b) || precedes(b, a),
    decreases a.len(),
{
    if a.len() == 0 || b.len() == 0 {
        assert(a.len() == 0 && b.len() == 0 ==> a =~= b);
    } else if a[0] == b[0] {
        lemma_precedes_total(a.drop_first(), b.drop_first());
        if a.drop_first() == b.drop_first() {
            assert(a =~= seq![a[0]] + a.drop_first());
            assert(b =~= seq![b[0]] + b.drop_first());
        }
    }
}

/// `true` when `a` sorts strictly before `b`.
pub fn sorts_before(a: &str, b: &str) -> (yes: bool)
    ensures
        yes == precedes(a@, b@),
{
    let x = to_chars(a);
    let y = to_chars(b);
    let mut i: usize = 0;
    assert(x@.skip(0) =~= x@ && y@.skip(0) =~= y@);
    while i < x.len() && i < y.len()
        invariant
            i <= x@.len(),
            i <= y@.len(),
            x@ == a@,
            y@ == b@,
            precedes(a@, b@) == precedes(x@.skip(i as int), y@.skip(i as int)),
        decreases x@.len() - i,
    {
        if x[i] < y[i] {
            return true;
        }
        if y[i] < x[i] {
            return false;
        }
        assert(x@.skip(i as int).drop_first() =~= x@.skip(i + 1));
        assert(y@.skip(i as int).drop_first() =~= y@.skip(i + 1));
        i += 1;
    }
    i < y.len()
}

// ---- laws -----------------------------------------------------------------

/// The texts of a list are those of its items, one for one.
pub proof fn law_texts_are_the_items(list: Seq<String>)
    ensures
        texts(list).len() == list.len(),
        forall|i: int| 0 <= i < list.len() ==> #[trigger] texts(list)[i] == list[i]@,
{
}

/// An optional text is there when the string is, with its characters.
pub proof fn law_optional_text(text: Option<String>)
    ensures
        opt_text(text) is Some <==> text is Some,
        text matches Some(t) ==> opt_text(text) == Some(t@),
{
}

/// Folding case moves each of the letters `A` to `Z` by 32 places and leaves
/// every other character where it is.
pub proof fn law_lower_case(s: Seq<char>, i: int)
    requires
        0 <= i < s.len(),
    ensures
        ascii_lower(s).len() == s.len(),
        'A' <= s[i] <= 'Z' ==> ascii_lower(s)[i] as int == s[i] as int + 32,
        !('A' <= s[i] <= 'Z') ==> ascii_lower(s)[i] == s[i],
{
}

/// Two texts are equal but for case exactly when they are equally long and, place
/// by place, hold the same character or the capital and small form of a letter.
pub proof fn law_equal_but_for_case(a: Seq<char>, b: Seq<char>)
    ensures
        equal_ignoring_case(a, b) <==> (a.len() == b.len() && forall|i: int|
            0 <= i < a.len() ==> (#[trigger] a[i] == b[i] || ('A' <= a[i] <= 'Z' && b[i] as int
                == a[i] as int + 32) || ('A' <= b[i] <= 'Z' && a[i] as int == b[i] as int + 32))),
{
    let x = ascii_lower(a);
    let y = ascii_lower(b);
    if x == y {
        assert(x.len() == a.len() && y.len() == b.len());
        assert forall|i: int| 0 <= i < a.len() implies (#[trigger] a[i] == b[i] || ('A' <= a[i]
            <= 'Z' && b[i] as int == a[i] as int + 32) || ('A' <= b[i] <= 'Z' && a[i] as int
            == b[i] as int + 32)) by {
            assert(x[i] == y[i]);
            assert(x[i] == ascii_lower_char(a[i]));
            assert(y[i] == ascii_lower_char(b[i]));
        }
    }
    if a.len() == b.len() && forall|i: int|
        0 <= i < a.len() ==> (#[trigger] a[i] == b[i] || ('A' <= a[i] <= 'Z' && b[i] as int
            == a[i] as int + 32) || ('A' <= b[i] <= 'Z' && a[i] as int == b[i] as int + 32)) {
        assert forall|i: int| 0 <= i < a.len() implies x[i] == y[i] by {
            assert(x[i] == ascii_lower_char(a[i]));
            assert(y[i] == ascii_lower_char(b[i]));
            assert(a[i] == a[i]);
        }
        assert(x =~= y);
    }
}

proof fn lemma_trim_start(s: Seq<char>) -> (from: int)
    ensures
        0 <= from <= s.len(),
        trim_start(s) == s.skip(from),
        forall|i: int| 0 <= i < from ==> is_white_space(#[trigger] s[i]),
        from < s.len() ==> !is_white_space(s[from]),
    decreases s.len(),
{
    if s.len() > 0 && is_white_space(s[0]) {
        let rest = s.drop_first();
        let from = lemma_trim_start(rest);
        assert(rest.skip(from) =~= s.skip(from + 1));
        assert forall|i: int| 0 <= i < from + 1 implies is_white_space(#[trigger] s[i]) by {
            if i > 0 {
                assert(rest[i - 1] == s[i]);
            }
        }
        from + 1
    } else {
        assert(s.skip(0) =~= s);
        0
    }
}

proof fn lemma_trim_end(s: Seq<char>) -> (to: int)
    ensures
        0 <= to <= s.len(),
        trim_end(s) == s.take(to),
        forall|i: int| to <= i < s.len() ==> is_white_space(#[trigger] s[i]),
        to > 0 ==> !is_white_space(s[to - 1]),
    decreases s.len(),
{
    if s.len() > 0 && is_white_space(s.last()) {
        let rest = s.drop_last();
        let to = lemma_trim_end(rest);
        assert(rest.take(to) =~= s.take(to));
        assert forall|i: int| to <= i < s.len() implies is_white_space(#[trigger] s[i]) by {
            if i < rest.len() {
                assert(rest[i] == s[i]);
            }
        }
        to
    } else {
        assert(s.take(s.len() as int) =~= s);
        s.len() as int
    }
}

/// Trimming cuts a text to a stretch of it: what is cut off at either end is
/// white space, and the stretch neither starts nor ends with any.
pub proof fn law_trimming(s: Seq<char>) -> (ends: (int, int))
    ensures
        0 <= ends.0 <= ends.1 <= s.len(),
        trimmed(s) == s.subrange(ends.0, ends.1),
        forall|i: int| 0 <= i < s.len() && !(ends.0 <= i < ends.1) ==> is_white_space(#[trigger] s[i]),
        ends.0 < ends.1 ==> !is_white_space(s[ends.0]) && !is_white_space(s[ends.1 - 1]),
{
    let from = lemma_trim_start(s);
    let rest = s.skip(from);
    let length = lemma_trim_end(rest);
    let to = from + length;
    assert(rest.take(length) =~= s.subrange(from, to));
    assert forall|i: int| 0 <= i < s.len() && !(from <= i < to) implies is_white_space(
        #[trigger] s[i],
    ) by {
        if i >= to {
            assert(rest[i - from] == s[i]);
        }
    }
    if length > 0 {
        assert(rest[length - 1] == s[to - 1]);
    }
    (from, to)
}

/// White space is what Unicode calls so: these characters and no others.
pub proof fn law_white_space(c: char)
    ensures
        is_white_space(c) <==> (c == ' ' || ('\u{9}' <= c <= '\u{d}') || c == '\u{85}' || c
            == '\u{a0}' || c == '\u{1680}' || ('\u{2000}' <= c <= '\u{200a}') || c == '\u{2028}'
            || c == '\u{2029}' || c == '\u{202f}' || c == '\u{205f}' || c == '\u{3000}'),
{
}

/// A text is blank exactly when each of its characters is white space.
pub proof fn law_blank(s: Seq<char>)
    ensures
        is_blank(s) <==> (forall|i: int| 0 <= i < s.len() ==> is_white_space(#[trigger] s[i])),
{
    let (from, to) = law_trimming(s);
    if is_blank(s) {
        assert(from == to);
    } else if forall|i: int| 0 <= i < s.len() ==> is_white_space(#[trigger] s[i]) {
        assert(is_white_space(s[from]));
    }
}

/// A text without white space at either end stays as it is.
pub proof fn law_trimming_keeps_tight_texts(s: Seq<char>)
    requires
        s.len() > 0 ==> !is_white_space(s[0]) && !is_white_space(s.last()),
    ensures
        trimmed(s) == s,
{
}

/// A part is found exactly where each of its characters stands in its place.
pub proof fn law_search(s: Seq<char>, part: Seq<char>)
    ensures
        contains_text(s, part) <==> (exists|at: int|
            0 <= at <= s.len() - part.len() && #[trigger] s.skip(at).take(part.len() as int)
                == part),
{
    if contains_text(s, part) {
        let at = choose|at: int| occurs_at(s, part, at);
        assert(s.skip(at).take(part.len() as int) =~= s.subrange(at, at + part.len()));
    }
    if exists|at: int|
        0 <= at <= s.len() - part.len() && #[trigger] s.skip(at).take(part.len() as int) == part {
        let at = choose|at: int|
            0 <= at <= s.len() - part.len() && #[trigger] s.skip(at).take(part.len() as int)
                == part;
        assert(s.skip(at).take(part.len() as int) =~= s.subrange(at, at + part.len()));
        assert(occurs_at(s, part, at));
    }
}

/// A text holds every part that it is put together around.
pub proof fn law_search_finds_parts(before: Seq<char>, part: Seq<char>, after: Seq<char>)
    ensures
        contains_text(before + part + after, part),
{
    let s = before + part + after;
    assert(s.subrange(before.len() as int, (before.len() + part.len()) as int) =~= part);
    assert(occurs_at(s, part, before.len() as int));
}

/// The first place of a mark from `from` on: it stands there, and nowhere between.
pub proof fn law_first_mark(s: Seq<char>, mark: char, from: int)
    requires
        0 <= from <= s.len(),
    ensures
        from <= index_from(s, mark, from) <= s.len(),
        index_from(s, mark, from) < s.len() ==> s[index_from(s, mark, from)] == mark,
        forall|i: int| from <= i < index_from(s, mark, from) ==> s[i] != mark,
    decreases s.len() - from,
{
    if from < s.len() && s[from] != mark {
        law_first_mark(s, mark, from + 1);
    }
}

/// What follows the last mark of a text that is put together around it.
pub proof fn law_after_last_mark(before: Seq<char>, mark: char, after: Seq<char>)
    requires
        !after.contains(mark),
    ensures
        after_last(before.push(mark) + after, mark) == Some(after),
        after_last(after, mark) is None,
{
    let s = before.push(mark) + after;
    lemma_after_last(s, mark);
    lemma_after_last(after, mark);
    assert(s[before.len() as int] == mark);
    assert(s.contains(mark));
    let rest = after_last(s, mark)->0;
    if rest.len() > after.len() {
        let at = before.len() - (s.len() - rest.len());
        assert(rest[at] == s[before.len() as int]);
        assert(rest.contains(mark));
    }
    if rest.len() < after.len() {
        let at = s.len() - rest.len() - 1;
        assert(after[at - before.len() - 1] == s[at]);
        assert(after.contains(mark));
    }
    assert(rest =~= after);
    if after_last(after, mark) is Some {
        let inner = after_last(after, mark)->0;
        assert(after[after.len() - inner.len() - 1] == mark);
        assert(after.contains(mark));
    }
}

/// The number that a row of digits spells.
pub open spec fn spelled(digits: Seq<char>) -> int
    decreases digits.len(),
{
    if digits.len() == 0 {
        0
    } else {
        spelled(digits.drop_last()) * 10 + (digits.last() as int - '0' as int)
    }
}

/// The decimal form of a number spells it in the digits `0` to `9`, and only
/// that of zero starts with a zero.
pub proof fn law_decimal(n: nat)
    ensures
        spelled(decimal(n)) == n,
        decimal(n).len() > 0,
        forall|i: int| 0 <= i < decimal(n).len() ==> '0' <= #[trigger] decimal(n)[i] <= '9',
        decimal(n)[0] == '0' ==> n == 0,
    decreases n,
{
    reveal_with_fuel(spelled, 2);
    if n < 10 {
        assert(decimal(n).drop_last() =~= Seq::<char>::empty());
    } else {
        law_decimal(n / 10);
        assert(decimal(n).drop_last() =~= decimal(n / 10));
        assert(decimal(n)[0] == decimal(n / 10)[0]);
    }
}

/// Different numbers have different decimal forms.
pub proof fn law_decimals_differ(a: nat, b: nat)
    requires
        decimal(a) == decimal(b),
    ensures
        a == b,
{
    law_decimal(a);
    law_decimal(b);
}

/// A list of one is joined to that text; two lists joined one after the other have
/// one separator between them.
pub proof fn law_joining(a: Seq<Seq<char>>, b: Seq<Seq<char>>, separator: Seq<char>)
    ensures
        a.len() == 0 ==> joined(a, separator).len() == 0,
        a.len() == 1 ==> joined(a, separator) == a[0],
        a.len() > 0 && b.len() > 0 ==> joined(a + b, separator) == joined(a, separator) + separator
            + joined(b, separator),
    decreases b.len(),
{
    if a.len() > 0 && b.len() > 0 {
        assert((a + b).drop_last() =~= a + b.drop_last());
        assert((a + b).last() == b.last());
        if b.len() == 1 {
            assert(a + b.drop_last() =~= a);
        } else {
            law_joining(a, b.drop_last(), separator);
            assert(joined(a + b, separator) =~= joined(a, separator) + separator + joined(
                b,
                separator,
            ));
        }
    }
}

/// Texts are ordered by the first place at which they differ; a text comes before
/// those that it starts.
pub proof fn law_order(a: Seq<char>, b: Seq<char>, same: int)
    requires
        0 <= same <= a.len(),
        same <= b.len(),
        forall|i: int| 0 <= i < same ==> a[i] == b[i],
        same < a.len() && same < b.len() ==> a[same] != b[same],
    ensures
        precedes(a, b) <==> (same == a.len() && same < b.len()) || (same < a.len() && same < b.len()
            && (a[same] as int) < (b[same] as int)),
    decreases same,
{
    if same > 0 {
        assert(a[0] == b[0]);
        let x = a.drop_first();
        let y = b.drop_first();
        assert forall|i: int| 0 <= i < same - 1 implies x[i] == y[i] by {
            assert(a[i + 1] == b[i + 1]);
        }
        law_order(x, y, same - 1);
    }
}

/// White space around a text that neither starts nor ends with any is cut off, and
/// nothing else.
pub proof fn law_trimming_cuts_padding(before: Seq<char>, inner: Seq<char>, after: Seq<char>)
    requires
        forall|i: int| 0 <= i < before.len() ==> is_white_space(#[trigger] before[i]),
        forall|i: int| 0 <= i < after.len() ==> is_white_space(#[trigger] after[i]),
        inner.len() > 0,
        !is_white_space(inner[0]),
        !is_white_space(inner.last()),
    ensures
        trimmed(before + inner + after) == inner,
{
    let s = before + inner + after;
    let (from, to) = law_trimming(s);
    let first = before.len() as int;
    let last = before.len() + inner.len() - 1;
    assert(s[first] == inner[0]);
    assert(s[last] == inner.last());
    assert(from <= first && last < to);
    if from < first {
        assert(s[from] == before[from]);
    }
    if to - 1 > last {
        assert(s[to - 1] == after[to - 1 - last - 1]);
    }
    assert(s.subrange(from, to) =~= inner);
}

} // verus!
