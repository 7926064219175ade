//! Addresses of relays.
//!
//! The URL grammar itself is the business of the `url` crate. What the catalog
//! reads of an address is its normalised text, its scheme and its host, and a
//! [`RelayUrl`] holds those three.

use vstd::prelude::*;

use crate::address_text;
use crate::address_text::has_countable_head;
use crate::text;

verus! {

/// What is read of an address.
pub struct UrlView {
    /// The normalised text.
    pub href: Seq<char>,
    /// The scheme, without the colon.
    pub scheme: Seq<char>,
    /// The host, where the address has one.
    pub host: Option<Seq<char>>,
}

/// `url::Url`, which [`RelayUrl`] carries along.
#[verifier::external_type_specification]
#[verifier::external_body]
pub struct ExUrl(url::Url);

/// Furthest that the path, query or fragment of a WebSocket address may start
/// for the longer HTTP scheme to fit before it.
pub const MAX_MARK: usize = 4_294_967_293;

/// What the `url` crate makes of a text: the address, or the message that says
/// why the text is none.
pub uninterp spec fn parsed_url(text: Seq<char>) -> Result<UrlView, Seq<char>>;

/// `scheme` is the HTTP counterpart of the WebSocket scheme `ws_scheme`.
pub open spec fn http_counterpart(ws_scheme: Seq<char>, scheme: Seq<char>) -> bool {
    (ws_scheme == "ws"@ && scheme == "http"@) || (ws_scheme == "wss"@ && scheme == "https"@)
}

/// Where the last part of a WebSocket address starts: its fragment, else its
/// query, else its path.
pub open spec fn last_mark(url: UrlView) -> int {
    let fragment = text::index_from(url.href, '#', 0);
    let query = text::index_from(url.href, '?', 0);
    if fragment < url.href.len() {
        fragment
    } else if query < url.href.len() {
        query
    } else {
        text::index_from(url.href, '/', (url.scheme.len() + 3) as int)
    }
}

/// The longer HTTP scheme fits before the rest of a WebSocket address.
pub open spec fn is_rewritable(url: UrlView) -> bool {
    last_mark(url) <= MAX_MARK
}

/// The address with `scheme` in place of its own and all else kept.
pub open spec fn swap_scheme(url: UrlView, scheme: Seq<char>) -> UrlView {
    UrlView { href: scheme + url.href.skip(url.scheme.len() as int), scheme, host: url.host }
}

/// `url::Url::parse`, named by [`parsed_url`]: normalised text, scheme and host
/// of the address, or the error's text. An address whose head runs over the
/// counters of the parser (see [`crate::address_text`]) makes it overflow.
#[verifier::external_body]
fn parse_url(text: &str) -> (url: Result<RelayUrl, String>)
    requires
        address_text::head_fits(text@),
    ensures
        match url {
            Ok(u) => parsed_url(text@) == Ok::<UrlView, Seq<char>>(u@),
            Err(e) => parsed_url(text@) == Err::<UrlView, Seq<char>>(e@),
        },
{
    match url::Url::parse(text) {
        Ok(u) => Ok(RelayUrl {
            href: u.as_str().to_owned(),
            scheme: u.scheme().to_owned(),
            host: u.host_str().map(str::to_owned),
            inner: u,
        }),
        Err(e) => Err(e.to_string()),
    }
}

/// `url::Url::set_scheme` with the HTTP scheme that goes with the address's own.
/// It succeeds exactly where there is a host, and nothing else changes: both
/// schemes are special and share a default port. The crate keeps where the parts
/// of the (ASCII) text start in 32 bits; a part that would move past those makes
/// it overflow.
#[verifier::external_body]
fn replace_scheme(url: &RelayUrl, scheme: &str) -> (changed: Option<RelayUrl>)
    requires
        http_counterpart(url@.scheme, scheme@),
        is_rewritable(url@),
    ensures
        match changed {
            Some(u) => url@.host is Some && u@ == swap_scheme(url@, scheme@),
            None => url@.host is None,
        },
{
    let mut u = url.inner.clone();
    u.set_scheme(scheme).ok()?;
    Some(RelayUrl {
        href: u.as_str().to_owned(),
        scheme: u.scheme().to_owned(),
        host: u.host_str().map(str::to_owned),
        inner: u,
    })
}

/// An address: normalised text, scheme and host, read off what the `url` crate
/// made of it.
#[derive(Debug)]
pub struct RelayUrl {
    href: String,
    scheme: String,
    host: Option<String>,
    inner: url::Url,
}

/// `Clone` of `url::Url`: a copy is the same address.
#[verifier::external_body]
fn copy_url(original: &url::Url) -> (copy: url::Url)
    ensures
        copy == *original,
{
    original.clone()
}

impl Clone for RelayUrl {
    fn clone(&self) -> (copy: Self)
        ensures
            copy@ == self@,
    {
        RelayUrl {
            href: self.href.clone(),
            scheme: self.scheme.clone(),
            host: text::clone_opt_text(&self.host),
            inner: copy_url(&self.inner),
        }
    }
}

impl View for RelayUrl {
    type V = UrlView;

    closed spec fn view(&self) -> UrlView {
        UrlView {
            href: self.href@,
            scheme: self.scheme@,
            host: text::opt_text(self.host),
        }
    }
}

impl RelayUrl {
    /// The address that `text` spells, or why it spells none.
    pub fn parse(text: &str) -> (url: Result<RelayUrl, String>)
        ensures
            match url {
                Ok(u) => address_text::head_fits(text@) && parsed_url(text@) == Ok::<UrlView, Seq<char>>(u@),
                Err(e) => if address_text::head_fits(text@) {
                    parsed_url(text@) == Err::<UrlView, Seq<char>>(e@)
                } else {
                    e@ == "overlong address"@
                },
            },
    {
        if !has_countable_head(text) {
            return Err("overlong address".to_owned());
        }
        parse_url(text)
    }

    /// The normalised text.
    pub fn as_str(&self) -> (text: &str)
        ensures
            text@ == self@.href,
    {
        self.href.as_str()
    }

    /// The scheme, such as `wss`.
    pub fn scheme(&self) -> (scheme: &str)
        ensures
            scheme@ == self@.scheme,
    {
        self.scheme.as_str()
    }

    /// The host, where the address has one.
    pub fn host_str(&self) -> (host: Option<&str>)
        ensures
            match host {
                Some(h) => self@.host == Some(h@),
                None => self@.host is None,
            },
    {
        match &self.host {
            Some(h) => Some(h.as_str()),
            None => None,
        }
    }

    /// Where the last part of a WebSocket address starts.
    fn last_part(&self) -> (at: usize)
        requires
            self@.scheme == "ws"@ || self@.scheme == "wss"@,
        ensures
            at == last_mark(self@),
    {
        let chars = text::to_chars(self.href.as_str());
        let fragment = text::find_from(&chars, '#', 0);
        if fragment < chars.len() {
            return fragment;
        }
        let query = text::find_from(&chars, '?', 0);
        if query < chars.len() {
            return query;
        }
        let scheme = text::to_chars(self.scheme.as_str());
        proof {
            reveal_strlit("ws");
            reveal_strlit("wss");
        }
        text::find_from(&chars, '/', scheme.len() + 3)
    }

    /// The WebSocket address with the HTTP scheme that goes with it; nothing
    /// where there is no host or the longer scheme does not fit.
    pub(crate) fn with_http_scheme(&self, scheme: &str) -> (url: Option<RelayUrl>)
        requires
            http_counterpart(self@.scheme, scheme@),
        ensures
            match url {
                Some(u) => {
                    &&& self@.host is Some
                    &&& is_rewritable(self@)
                    &&& u@ == swap_scheme(self@, scheme@)
                },
                None => self@.host is None || !is_rewritable(self@),
            },
    {
        if self.last_part() > MAX_MARK {
            None
        } else {
            replace_scheme(self, scheme)
        }
    }
}

// ---- laws -----------------------------------------------------------------

/// An address of fewer than four thousand million characters can be rewritten.
pub proof fn law_ordinary_addresses_are_rewritable(url: UrlView)
    requires
        url.href.len() <= 4_294_967_293,
        url.scheme.len() + 3 <= url.href.len(),
    ensures
        is_rewritable(url),
{
    text::law_first_mark(url.href, '#', 0);
    text::law_first_mark(url.href, '?', 0);
    text::law_first_mark(url.href, '/', (url.scheme.len() + 3) as int);
}

/// Rewriting an address puts the new scheme in the place of the old one: all that
/// stands behind it stays, and so does the host.
pub proof fn law_rewriting_keeps_the_rest(
    old_scheme: Seq<char>,
    rest: Seq<char>,
    host: Option<Seq<char>>,
    scheme: Seq<char>,
)
    ensures
        swap_scheme(UrlView { href: old_scheme + rest, scheme: old_scheme, host }, scheme) == (
        UrlView { href: scheme + rest, scheme, host }),
{
    assert((old_scheme + rest).skip(old_scheme.len() as int) =~= rest);
}

/// The HTTP schemes that go with the WebSocket schemes.
pub proof fn law_counterparts(ws_scheme: Seq<char>, scheme: Seq<char>)
    ensures
        http_counterpart(ws_scheme, scheme) ==> (ws_scheme == "ws"@ && scheme == "http"@) || (
        ws_scheme == "wss"@ && scheme == "https"@),
        http_counterpart("ws"@, "http"@),
        http_counterpart("wss"@, "https"@),
{
}

/// Which addresses can be rewritten, by where their last part starts: the fragment, else
/// the query, else the path, which may start no later than two characters before the
/// most that 32 bits can count.
pub proof fn law_rewritable_addresses(
    before: Seq<char>,
    after: Seq<char>,
    scheme: Seq<char>,
    host: Option<Seq<char>>,
)
    requires
        !before.contains('#'),
        !before.contains('?'),
        scheme.len() + 3 <= before.len(),
        forall|i: int| scheme.len() + 3 <= i < before.len() ==> before[i] != '/',
    ensures
        is_rewritable(UrlView { href: before.push('#') + after, scheme, host }) <==> before.len()
            <= 4_294_967_293,
        !after.contains('#') ==> (is_rewritable(
            UrlView { href: before.push('?') + after, scheme, host },
        ) <==> before.len() <= 4_294_967_293),
        !after.contains('#') && !after.contains('?') ==> (is_rewritable(
            UrlView { href: before.push('/') + after, scheme, host },
        ) <==> before.len() <= 4_294_967_293),
{
    let n = before.len() as int;
    assert forall|i: int| 0 <= i < n implies #[trigger] before[i] != '#' && before[i] != '?' by {
        assert(before.contains(before[i]));
    }
    let fragment = before.push('#') + after;
    text::law_first_mark(fragment, '#', 0);
    assert(fragment[n] == '#');
    assert(text::index_from(fragment, '#', 0) == n) by {
        let at = text::index_from(fragment, '#', 0);
        if at < n {
            assert(fragment[at] == before[at]);
        }
    }
    let query = before.push('?') + after;
    text::law_first_mark(query, '#', 0);
    text::law_first_mark(query, '?', 0);
    assert(query[n] == '?');
    assert(text::index_from(query, '?', 0) == n) by {
        let at = text::index_from(query, '?', 0);
        if at < n {
            assert(query[at] == before[at]);
        }
    }
    let path = before.push('/') + after;
    text::law_first_mark(path, '#', 0);
    text::law_first_mark(path, '?', 0);
    let start = (scheme.len() + 3) as int;
    text::law_first_mark(path, '/', start);
    assert(path[n] == '/');
    assert(text::index_from(path, '/', start) == n) by {
        let at = text::index_from(path, '/', start);
        if at < n {
            assert(path[at] == before[at]);
        }
    }
    if !after.contains('#') {
        lemma_unmarked(query, before, '?', after, '#');
        lemma_unmarked(path, before, '/', after, '#');
    }
    if !after.contains('?') {
        lemma_unmarked(path, before, '/', after, '?');
    }
}

proof fn lemma_unmarked(
    href: Seq<char>,
    before: Seq<char>,
    between: char,
    after: Seq<char>,
    mark: char,
)
    requires
        href == before.push(between) + after,
        !before.contains(mark),
        !after.contains(mark),
        between != mark,
    ensures
        text::index_from(href, mark, 0) == href.len(),
{
    text::law_first_mark(href, mark, 0);
    let at = text::index_from(href, mark, 0);
    if at < href.len() {
        if at < before.len() {
            assert(before[at] == href[at]);
            assert(before.contains(mark));
        } else if at > before.len() {
            assert(after[at - before.len() - 1] == href[at]);
            assert(after.contains(mark));
        }
    }
}

} // verus!
