//! The head of an address as it is spelled: its scheme, the slashes behind it
//! and its authority.
//!
//! The `url` crate counts the slashes and where the path starts in 32 bits, and
//! the characters of the authority in 31. Addresses that run over those counters
//! are found here before they are read.

use vstd::prelude::*;

use crate::text;

verus! {

/// Most slashes between the scheme and the authority.
pub const MAX_SLASHES: usize = 4_294_967_295;

/// Most characters of an authority.
pub const MAX_AUTHORITY: usize = 2_147_483_647;

/// Most characters of a scheme; a longer one is turned away before anything
/// behind it is read.
pub const MAX_SCHEME: usize = 4_294_967_295;

/// Most characters of a scheme behind which the path can be moved by two.
pub const MAX_SCHEME_BEFORE_PATH: usize = 4_294_967_292;

// ---- what is read ---------------------------------------------------------

/// White space and control characters around an address do not belong to it.
pub open spec fn is_margin(c: char) -> bool {
    c <= ' '
}

/// Tabs and line breaks are skipped wherever they stand.
pub open spec fn is_skipped(c: char) -> bool {
    c == '\t' || c == '\n' || c == '\r'
}

/// Where the margin that starts at `at` ends.
pub open spec fn margin_end(s: Seq<char>, at: int) -> int
    decreases s.len() - at,
{
    if 0 <= at < s.len() && is_margin(s[at]) {
        margin_end(s, at + 1)
    } else {
        at
    }
}

/// Where the margin that ends at `at` starts, but not before `from`.
pub open spec fn margin_start(s: Seq<char>, from: int, at: int) -> int
    decreases at - from,
{
    if from < at <= s.len() && is_margin(s[at - 1]) {
        margin_start(s, from, at - 1)
    } else {
        at
    }
}

/// The characters that are not skipped, in order.
pub open spec fn kept(s: Seq<char>) -> Seq<char>
    decreases s.len(),
{
    if s.len() == 0 {
        s
    } else if is_skipped(s.last()) {
        kept(s.drop_last())
    } else {
        kept(s.drop_last()).push(s.last())
    }
}

/// The characters of an address that are read.
pub open spec fn essence(text: Seq<char>) -> Seq<char> {
    let from = margin_end(text, 0);
    kept(text.subrange(from, margin_start(text, from, text.len() as int)))
}

// ---- its head -------------------------------------------------------------

/// A character of a scheme.
pub open spec fn is_scheme_char(c: char) -> bool {
    text::is_ascii_lower(c) || text::is_ascii_upper(c) || text::is_ascii_digit(c) || c == '+' || c
        == '-' || c == '.'
}

/// The characters before `colon` spell a scheme.
pub open spec fn spells_scheme(s: Seq<char>, colon: int) -> bool {
    &&& 0 < colon < s.len()
    &&& text::is_ascii_lower(s[0]) || text::is_ascii_upper(s[0])
    &&& forall|i: int| 0 <= i < colon ==> is_scheme_char(#[trigger] s[i])
}

/// Schemes behind which there is always a host.
pub open spec fn is_hosted(scheme: Seq<char>) -> bool {
    ||| text::equal_ignoring_case(scheme, "http"@)
    ||| text::equal_ignoring_case(scheme, "https"@)
    ||| text::equal_ignoring_case(scheme, "ws"@)
    ||| text::equal_ignoring_case(scheme, "wss"@)
    ||| text::equal_ignoring_case(scheme, "ftp"@)
}

/// The scheme of files, whose addresses are not counted at all.
pub open spec fn is_file(scheme: Seq<char>) -> bool {
    text::equal_ignoring_case(scheme, "file"@)
}

/// Where the slashes that start at `at` end.
pub open spec fn slashes_end(s: Seq<char>, at: int) -> int
    decreases s.len() - at,
{
    if 0 <= at < s.len() && (s[at] == '/' || s[at] == '\\') {
        slashes_end(s, at + 1)
    } else {
        at
    }
}

/// `c` ends an authority. A backslash does so behind a hosted scheme.
pub open spec fn ends_authority(c: char, hosted: bool) -> bool {
    c == '/' || c == '?' || c == '#' || (c == '\\' && hosted)
}

/// Where the authority that starts at `at` ends.
pub open spec fn authority_end(s: Seq<char>, at: int, hosted: bool) -> int
    decreases s.len() - at,
{
    if 0 <= at < s.len() && !ends_authority(s[at], hosted) {
        authority_end(s, at + 1, hosted)
    } else {
        at
    }
}

/// Two slashes stand at `at`.
pub open spec fn is_double_slash(s: Seq<char>, at: int) -> bool {
    0 <= at && at + 1 < s.len() && s[at] == '/' && s[at + 1] == '/'
}

/// Two slashes in a row stand at or behind `from`.
pub open spec fn has_double_slash(s: Seq<char>, from: int) -> bool {
    exists|at: int| from <= at && #[trigger] is_double_slash(s, at)
}

/// The slashes and the authority from `at` on, behind a hosted scheme, keep
/// within the counters.
pub open spec fn hosted_head_fits(s: Seq<char>, at: int) -> bool {
    let authority = slashes_end(s, at);
    &&& authority - at <= MAX_SLASHES
    &&& authority_end(s, authority, true) - authority <= MAX_AUTHORITY
}

/// What stands from `at` on, behind any other scheme, keeps within the counters:
/// its authority, where two slashes announce one. Else it is a path, which is
/// moved by two where it starts with two slashes once its dots are gone. Whether
/// it does is for the parser to say; behind a scheme too long for the move, of
/// one of two lengths, every path counts that holds two slashes in a row.
pub open spec fn other_head_fits(s: Seq<char>, at: int) -> bool {
    if is_double_slash(s, at) {
        authority_end(s, at + 2, false) - (at + 2) <= MAX_AUTHORITY
    } else {
        at - 1 <= MAX_SCHEME_BEFORE_PATH || at - 1 >= MAX_SCHEME || !(at < s.len() && s[at] == '/'
            && has_double_slash(s, at))
    }
}

/// The head of the address keeps within the counters.
pub open spec fn head_fits(text: Seq<char>) -> bool {
    let s = essence(text);
    let colon = text::index_from(s, ':', 0);
    let scheme = s.subrange(0, colon);
    if !spells_scheme(s, colon) || is_file(scheme) {
        true
    } else if is_hosted(scheme) {
        hosted_head_fits(s, colon + 1)
    } else {
        colon > MAX_SCHEME || other_head_fits(s, colon + 1)
    }
}

// ---- reading it -----------------------------------------------------------

fn read_essence(text: &str) -> (chars: Vec<char>)
    ensures
        chars@ == essence(text@),
{
    let all = text::to_chars(text);
    let mut from: usize = 0;
    while from < all.len() && all[from] <= ' '
        invariant
            from <= all@.len(),
            margin_end(all@, 0) == margin_end(all@, from as int),
        decreases all@.len() - from,
    {
        from += 1;
    }
    let mut to: usize = all.len();
    while to > from && all[to - 1] <= ' '
        invariant
            from <= to <= all@.len(),
            margin_start(all@, from as int, all@.len() as int) == margin_start(
                all@,
                from as int,
                to as int,
            ),
        decreases to - from,
    {
        to -= 1;
    }
    let mut chars: Vec<char> = Vec::new();
    let mut i: usize = from;
    while i < to
        invariant
            from <= i <= to <= all@.len(),
            chars@ == kept(all@.subrange(from as int, i as int)),
        decreases to - i,
    {
        let c = all[i];
        if c != '\t' && c != '\n' && c != '\r' {
            chars.push(c);
        }
        assert(all@.subrange(from as int, i + 1).drop_last() =~= all@.subrange(
            from as int,
            i as int,
        ));
        i += 1;
    }
    chars
}

fn starts_with_scheme(s: &Vec<char>, colon: usize) -> (yes: bool)
    requires
        colon <= s@.len(),
    ensures
        yes == spells_scheme(s@, colon as int),
{
    if colon == 0 || colon == s.len() {
        return false;
    }
    let first = s[0];
    if !(('a' <= first && first <= 'z') || ('A' <= first && first <= 'Z')) {
        return false;
    }
    let mut i: usize = 0;
    while i < colon
        invariant
            i <= colon < s@.len(),
            forall|j: int| 0 <= j < i ==> is_scheme_char(#[trigger] s@[j]),
        decreases colon - i,
    {
        let c = s[i];
        if !(('a' <= c && c <= 'z') || ('A' <= c && c <= 'Z') || ('0' <= c && c <= '9') || c == '+'
            || c == '-' || c == '.') {
            return false;
        }
        i += 1;
    }
    true
}

fn after_slashes(s: &Vec<char>, from: usize) -> (at: usize)
    requires
        from <= s@.len(),
    ensures
        at == slashes_end(s@, from as int),
        from <= at <= s@.len(),
{
    let mut at: usize = from;
    while at < s.len() && (s[at] == '/' || s[at] == '\\')
        invariant
            from <= at <= s@.len(),
            slashes_end(s@, from as int) == slashes_end(s@, at as int),
        decreases s@.len() - at,
    {
        at += 1;
    }
    at
}

fn after_authority(s: &Vec<char>, from: usize, hosted: bool) -> (at: usize)
    requires
        from <= s@.len(),
    ensures
        at == authority_end(s@, from as int, hosted),
        from <= at <= s@.len(),
{
    let mut at: usize = from;
    while at < s.len() && !(s[at] == '/' || s[at] == '?' || s[at] == '#' || (s[at] == '\\'
        && hosted))
        invariant
            from <= at <= s@.len(),
            authority_end(s@, from as int, hosted) == authority_end(s@, at as int, hosted),
        decreases s@.len() - at,
    {
        at += 1;
    }
    at
}

fn double_slash_at(s: &Vec<char>, at: usize) -> (yes: bool)
    ensures
        yes == is_double_slash(s@, at as int),
{
    at < s.len() && s.len() - at > 1 && s[at] == '/' && s[at + 1] == '/'
}

fn double_slash_from(s: &Vec<char>, from: usize) -> (found: bool)
    requires
        from <= s@.len(),
    ensures
        found == has_double_slash(s@, from as int),
{
    let mut at: usize = from;
    while at < s.len()
        invariant
            from <= at <= s@.len(),
            forall|k: int| from <= k < at ==> !#[trigger] is_double_slash(s@, k),
        decreases s@.len() - at,
    {
        if double_slash_at(s, at) {
            return true;
        }
        at += 1;
    }
    false
}

fn other_head_can_be_counted(s: &Vec<char>, colon: usize) -> (yes: bool)
    requires
        colon < s@.len(),
    ensures
        yes == other_head_fits(s@, colon + 1),
{
    let total: usize = s.len();
    let at: usize = colon + 1;
    if double_slash_at(s, at) {
        return after_authority(s, at + 2, false) - (at + 2) <= MAX_AUTHORITY;
    }
    colon <= MAX_SCHEME_BEFORE_PATH || colon >= MAX_SCHEME || !(at < total && s[at] == '/'
        && double_slash_from(s, at))
}

/// `true` when the head of the address keeps within the counters.
pub fn has_countable_head(text: &str) -> (yes: bool)
    ensures
        yes == head_fits(text@),
{
    let s = read_essence(text);
    let colon = text::find_from(&s, ':', 0);
    if colon == s.len() || !starts_with_scheme(&s, colon) {
        return true;
    }
    let scheme = text::from_chars(&s, 0, colon);
    if text::eq_ignore_ascii_case(scheme.as_str(), "file") {
        true
    } else if text::eq_ignore_ascii_case(scheme.as_str(), "http") || text::eq_ignore_ascii_case(
        scheme.as_str(),
        "https",
    ) || text::eq_ignore_ascii_case(scheme.as_str(), "ws") || text::eq_ignore_ascii_case(
        scheme.as_str(),
        "wss",
    ) || text::eq_ignore_ascii_case(scheme.as_str(), "ftp") {
        let authority = after_slashes(&s, colon + 1);
        authority - (colon + 1) <= MAX_SLASHES && after_authority(&s, authority, true) - authority
            <= MAX_AUTHORITY
    } else {
        colon > MAX_SCHEME || other_head_can_be_counted(&s, colon)
    }
}

// ---- laws -----------------------------------------------------------------

/// Every address of fewer than two thousand million characters keeps within the
/// counters.
pub proof fn law_short_addresses_fit(text: Seq<char>)
    requires
        text.len() <= MAX_AUTHORITY,
    ensures
        head_fits(text),
{
    let from = margin_end(text, 0);
    lemma_margins(text);
    let inner = text.subrange(from, margin_start(text, from, text.len() as int));
    lemma_kept_is_no_longer(inner);
    let s = essence(text);
    let colon = text::index_from(s, ':', 0);
    if spells_scheme(s, colon) {
        lemma_ends_are_within(s, colon + 1, true);
        lemma_ends_are_within(s, slashes_end(s, colon + 1), true);
        if is_double_slash(s, colon + 1) {
            lemma_ends_are_within(s, colon + 3, false);
        }
    }
}

proof fn lemma_margins(s: Seq<char>)
    ensures
        0 <= margin_end(s, 0) <= margin_start(s, margin_end(s, 0), s.len() as int) <= s.len(),
{
    lemma_margin_end(s, 0);
    lemma_margin_start(s, margin_end(s, 0), s.len() as int);
}

proof fn lemma_margin_end(s: Seq<char>, at: int)
    requires
        0 <= at <= s.len(),
    ensures
        at <= margin_end(s, at) <= s.len(),
    decreases s.len() - at,
{
    if at < s.len() && is_margin(s[at]) {
        lemma_margin_end(s, at + 1);
    }
}

proof fn lemma_margin_start(s: Seq<char>, from: int, at: int)
    requires
        0 <= from <= at <= s.len(),
    ensures
        from <= margin_start(s, from, at) <= at,
    decreases at - from,
{
    if from < at && is_margin(s[at - 1]) {
        lemma_margin_start(s, from, at - 1);
    }
}

proof fn lemma_kept_is_no_longer(s: Seq<char>)
    ensures
        kept(s).len() <= s.len(),
    decreases s.len(),
{
    if s.len() > 0 {
        lemma_kept_is_no_longer(s.drop_last());
    }
}

proof fn lemma_ends_are_within(s: Seq<char>, at: int, hosted: bool)
    requires
        0 <= at <= s.len(),
    ensures
        at <= slashes_end(s, at) <= s.len(),
        at <= authority_end(s, at, hosted) <= s.len(),
    decreases s.len() - at,
{
    if at < s.len() {
        lemma_ends_are_within(s, at + 1, hosted);
    }
}

/// Tabs and line breaks are skipped, and no other character, wherever they stand.
pub proof fn law_skipped_characters(a: Seq<char>, b: Seq<char>, c: char)
    ensures
        kept(a + b) == kept(a) + kept(b),
        c == '\t' || c == '\n' || c == '\r' ==> kept(seq![c]).len() == 0,
        c != '\t' && c != '\n' && c != '\r' ==> kept(seq![c]) == seq![c],
    decreases b.len(),
{
    reveal_with_fuel(kept, 2);
    assert(seq![c].drop_last() =~= Seq::<char>::empty());
    if b.len() == 0 {
        assert(a + b =~= a);
        assert(kept(a) + kept(b) =~= kept(a));
    } else {
        law_skipped_characters(a, b.drop_last(), c);
        assert((a + b).drop_last() =~= a + b.drop_last());
        assert(kept(a + b) =~= kept(a) + kept(b));
    }
    if c != '\t' && c != '\n' && c != '\r' {
        assert(kept(seq![c]) =~= seq![c]);
    }
}

proof fn lemma_kept_as_it_is(s: Seq<char>)
    requires
        forall|i: int| 0 <= i < s.len() ==> #[trigger] s[i] != '\t' && s[i] != '\n' && s[i] != '\r',
    ensures
        kept(s) == s,
    decreases s.len(),
{
    if s.len() > 0 {
        assert(s.last() == s[s.len() - 1]);
        lemma_kept_as_it_is(s.drop_last());
        assert(s.drop_last().push(s.last()) =~= s);
    }
}

/// An address without tabs, line breaks and margins is read as it stands.
pub proof fn law_plain_addresses_are_read_whole(text: Seq<char>)
    requires
        forall|i: int| 0 <= i < text.len() ==> #[trigger] text[i] > ' ',
    ensures
        essence(text) == text,
{
    if text.len() > 0 {
        assert(text[0] > ' ');
        assert(text[text.len() - 1] > ' ');
    }
    assert(text.subrange(0, text.len() as int) =~= text);
    assert forall|i: int| 0 <= i < text.len() implies #[trigger] text[i] != '\t' && text[i] != '\n'
        && text[i] != '\r' by {
        assert(text[i] > ' ');
    }
    lemma_kept_as_it_is(text);
}

proof fn lemma_slashes(s: Seq<char>, from: int, to: int)
    requires
        0 <= from <= to <= s.len(),
        forall|i: int| from <= i < to ==> #[trigger] s[i] == '/' || s[i] == '\\',
        to < s.len() ==> s[to] != '/' && s[to] != '\\',
    ensures
        slashes_end(s, from) == to,
    decreases to - from,
{
    if from < to {
        assert(s[from] == '/' || s[from] == '\\');
        lemma_slashes(s, from + 1, to);
    }
}

proof fn lemma_authority(s: Seq<char>, from: int, to: int)
    requires
        0 <= from <= to <= s.len(),
        forall|i: int|
            from <= i < to ==> #[trigger] s[i] != '/' && s[i] != '?' && s[i] != '#' && s[i] != '\\',
        to < s.len() ==> s[to] == '/' || s[to] == '?' || s[to] == '#' || s[to] == '\\',
    ensures
        authority_end(s, from, true) == to,
    decreases to - from,
{
    if from < to {
        assert(s[from] != '/' && s[from] != '?' && s[from] != '#' && s[from] != '\\');
        lemma_authority(s, from + 1, to);
    }
}

/// Behind `wss` an address keeps within the counters exactly when it has at most
/// 4,294,967,295 slashes before its authority and at most 2,147,483,647 characters in it.
pub proof fn law_heads_of_relay_addresses(
    text: Seq<char>,
    slashes: Seq<char>,
    authority: Seq<char>,
    rest: Seq<char>,
)
    requires
        text == "wss:"@ + slashes + authority + rest,
        forall|i: int| 0 <= i < text.len() ==> #[trigger] text[i] > ' ',
        forall|i: int| 0 <= i < slashes.len() ==> #[trigger] slashes[i] == '/' || slashes[i] == '\\',
        forall|i: int|
            0 <= i < authority.len() ==> #[trigger] authority[i] != '/' && authority[i] != '?'
                && authority[i] != '#' && authority[i] != '\\',
        rest.len() > 0 ==> rest[0] == '?' || rest[0] == '#' || (authority.len() > 0 && (rest[0]
            == '/' || rest[0] == '\\')),
    ensures
        head_fits(text) <==> slashes.len() <= 4_294_967_295 && authority.len() <= 2_147_483_647,
{
    reveal_strlit("wss:");
    reveal_strlit("wss");
    reveal_strlit("file");
    law_plain_addresses_are_read_whole(text);
    let colon = text::index_from(text, ':', 0);
    assert(text[0] == 'w' && text[1] == 's' && text[2] == 's' && text[3] == ':');
    text::law_first_mark(text, ':', 0);
    assert(colon == 3);
    let scheme = text.subrange(0, 3);
    assert(scheme =~= "wss"@);
    text::law_equal_but_for_case(scheme, "file"@);
    text::law_equal_but_for_case(scheme, "wss"@);
    assert(is_hosted(scheme));
    assert(spells_scheme(text, 3));
    let start = 4 + slashes.len();
    let end = start + authority.len();
    assert forall|i: int| 4 <= i < start implies #[trigger] text[i] == '/' || text[i] == '\\' by {
        assert(text[i] == slashes[i - 4]);
    }
    assert forall|i: int| start <= i < end implies #[trigger] text[i] != '/' && text[i] != '?'
        && text[i] != '#' && text[i] != '\\' by {
        assert(text[i] == authority[i - start]);
    }
    if end < text.len() {
        assert(text[end as int] == rest[0]);
    }
    lemma_slashes(text, 4, start as int);
    lemma_authority(text, start as int, end as int);
}

} // verus!
