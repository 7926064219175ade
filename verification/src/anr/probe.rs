//! Nostr relay liveness probe of the first catalog layout.
//!
//! Each probe performs two parallel checks: the NIP-11 document request and the
//! WebSocket exchange (see [`crate::exchange`]). A single probe always runs
//! under a hard timeout so one misbehaving relay cannot stall the entire CI
//! job.

use vstd::prelude::*;

use crate::duration::Duration;
use crate::exchange;
use crate::exchange::{conclude, ExchangeEnd, Subscription};
use crate::probe;
use crate::relay_url;
use crate::relay_url::RelayUrl;
use crate::text;

pub use crate::exchange::{is_protocol_frame, ws_to_http};
pub use crate::probe::{millis_saturating, parse_frame_kind};
pub use crate::probe_types::Nip11;

verus! {

/// Outcome of a successful probe.
#[derive(Debug, Clone)]
pub struct ProbeSuccess {
    /// Round-trip time of the WebSocket exchange in milliseconds.
    pub rtt_ms: u64,
    /// Parsed NIP-11 Relay Information Document, if any was returned.
    pub nip11: Option<Nip11>,
}

/// The subscription that a probe opens.
pub fn subscription() -> (messages: Subscription)
    ensures
        messages.req@ == "[\"REQ\",\"anrelays-probe\",{\"kinds\":[1],\"limit\":1}]"@,
        messages.close@ == "[\"CLOSE\",\"anrelays-probe\"]"@,
{
    Subscription {
        req: "[\"REQ\",\"anrelays-probe\",{\"kinds\":[1],\"limit\":1}]",
        close: "[\"CLOSE\",\"anrelays-probe\"]",
    }
}

/// Per-relay probe configuration.
#[derive(Debug, Clone, Copy)]
pub struct ProbeConfig {
    /// Hard timeout for the entire probe (HTTP + WebSocket combined).
    pub timeout: Duration,
    /// Per-request timeout for the NIP-11 HTTP fetch.
    pub http_timeout: Duration,
}

impl Default for ProbeConfig {
    fn default() -> (config: Self)
        ensures
            config.timeout.whole_seconds() == 10,
            config.timeout.fraction() == 0,
            config.http_timeout.whole_seconds() == 8,
            config.http_timeout.fraction() == 0,
    {
        ProbeConfig { timeout: Duration::from_secs(10), http_timeout: Duration::from_secs(8) }
    }
}

/// The host ends in `.onion`, in any case.
pub open spec fn onion_ending(host: Seq<char>) -> bool {
    host.len() >= 6 && text::equal_ignoring_case(host.skip(host.len() - 6), ".onion"@)
}

/// `true` for `.onion` hosts.
pub fn is_onion_host(host: &str) -> (yes: bool)
    ensures
        yes == onion_ending(host@),
{
    let chars = text::to_chars(host);
    if chars.len() < 6 {
        return false;
    }
    let tail = text::from_chars(&chars, chars.len() - 6, chars.len());
    assert(tail@ =~= host@.skip(host@.len() - 6));
    onion_suffix(tail.as_str())
}

/// `true` for `.onion`, in any case.
pub fn onion_suffix(tail: &str) -> (yes: bool)
    ensures
        yes == text::equal_ignoring_case(tail@, ".onion"@),
{
    text::eq_ignore_ascii_case(tail, ".onion")
}

/// How long the two sides of a probe may take, the exchange and the document
/// request with its body. They run side by side, so a probe is over when the
/// hard timeout is.
pub fn limits(config: ProbeConfig) -> (limits: (Duration, Duration))
    ensures
        limits.0 == config.timeout,
        limits.1 == config.http_timeout.shorter(config.timeout),
        limits.0.total_nanos() <= config.timeout.total_nanos(),
        limits.1.total_nanos() <= config.timeout.total_nanos(),
        limits.1.total_nanos() <= config.http_timeout.total_nanos(),
{
    (config.timeout, config.http_timeout.min(config.timeout))
}

/// What a probe has to do first.
#[derive(Debug)]
pub enum ProbePlan {
    /// Nothing: onion relays cannot be reached without a Tor proxy, and are
    /// optimistically reported as alive so they are not flagged dead in CI.
    Report { success: ProbeSuccess },
    /// Fetch the document at `document_url` and run the exchange, side by side.
    Run { document_url: RelayUrl },
}

/// The host of the address is an onion host.
pub open spec fn has_onion_host(url: relay_url::UrlView) -> bool {
    url.host matches Some(host) && onion_ending(host)
}

/// What a probe of `url` has to do, or what is wrong with the address.
pub fn plan(url: &RelayUrl) -> (plan: Result<ProbePlan, String>)
    ensures
        match plan {
            Ok(ProbePlan::Report { success }) => has_onion_host(url@) && success == (ProbeSuccess {
                rtt_ms: 0,
                nip11: None,
            }),
            Ok(ProbePlan::Run { document_url }) => !has_onion_host(url@) && probe::http_address(
                url@,
            ) == Ok::<relay_url::UrlView, Seq<char>>(document_url@),
            Err(cause) => !has_onion_host(url@) && probe::http_address(url@) == Err::<
                relay_url::UrlView,
                Seq<char>,
            >(cause@),
        },
{
    if let Some(host) = url.host_str() {
        if is_onion_host(host) {
            return Ok(ProbePlan::Report { success: ProbeSuccess { rtt_ms: 0, nip11: None } });
        }
    }
    match ws_to_http(url) {
        Ok(document_url) => Ok(ProbePlan::Run { document_url }),
        Err(cause) => Err(cause),
    }
}

/// The outcome of a probe that ran.
pub fn outcome(end: ExchangeEnd, status: Option<u16>, document: Option<Nip11>) -> (outcome: Result<
    ProbeSuccess,
    String,
>)
    ensures
        match outcome {
            Ok(success) => {
                &&& exchange::round_trip(end) == Ok::<int, Seq<char>>(success.rtt_ms as int)
                &&& success.nip11 == exchange::document_of(status, document)
            },
            Err(cause) => exchange::round_trip(end) == Err::<int, Seq<char>>(cause@),
        },
{
    match conclude(end, status, document) {
        Ok((rtt_ms, nip11)) => Ok(ProbeSuccess { rtt_ms, nip11 }),
        Err(cause) => Err(cause),
    }
}

// ---- laws -----------------------------------------------------------------

/// A host ends in `.onion` exactly when its last label is `onion`, so every
/// catalog layout recognises the same onion hosts.
pub proof fn law_onion_tests_agree(host: Seq<char>)
    ensures
        onion_ending(host) <==> probe::onion_host(host),
{
    reveal_strlit(".onion");
    reveal_strlit("onion");
    text::lemma_after_last(host, '.');
    let tail = host.skip(host.len() - 6);
    if onion_ending(host) {
        let lower = text::ascii_lower(tail);
        assert(lower == text::ascii_lower(".onion"@));
        assert forall|i: int| 0 <= i < 6 implies text::ascii_lower_char(#[trigger] tail[i])
            == text::ascii_lower_char(".onion"@[i]) by {
            assert(lower[i] == text::ascii_lower(".onion"@)[i]);
        }
        assert(tail[0] == '.');
        assert forall|i: int| 1 <= i < 6 implies #[trigger] tail[i] != '.' by {}
        assert(host[host.len() - 6] == '.');
        assert forall|i: int| host.len() - 6 < i < host.len() implies #[trigger] host[i] != '.' by {
            assert(host[i] == tail[i - (host.len() - 6)]);
        }
        assert(host.contains('.'));
        let rest = text::after_last(host, '.')->0;
        if rest.len() > 5 {
            assert(rest[rest.len() - 6] == host[host.len() - 6]);
            assert(rest.contains('.'));
        }
        assert(rest.len() == 5);
        assert(text::ascii_lower(rest) =~= text::ascii_lower("onion"@)) by {
            assert forall|i: int| 0 <= i < 5 implies text::ascii_lower(rest)[i]
                == text::ascii_lower("onion"@)[i] by {
                assert(rest[i] == tail[i + 1]);
                assert("onion"@[i] == ".onion"@[i + 1]);
            }
        }
    }
    if probe::onion_host(host) {
        let rest = text::after_last(host, '.')->0;
        assert(text::ascii_lower(rest).len() == text::ascii_lower("onion"@).len());
        assert(text::ascii_lower(tail) =~= text::ascii_lower(".onion"@)) by {
            assert forall|i: int| 0 <= i < 6 implies text::ascii_lower(tail)[i]
                == text::ascii_lower(".onion"@)[i] by {
                if i > 0 {
                    assert(tail[i] == rest[i - 1]);
                    assert(text::ascii_lower(rest)[i - 1] == text::ascii_lower("onion"@)[i - 1]);
                    assert("onion"@[i - 1] == ".onion"@[i]);
                }
            }
        }
    }
}

/// A host ends in `.onion` exactly when what follows its last dot is `onion`, in
/// capital or small letters.
pub proof fn law_onion_hosts(before: Seq<char>, label: Seq<char>)
    requires
        !label.contains('.'),
    ensures
        onion_ending(before.push('.') + label) <==> crate::model::spells(label, "onion"@),
        !onion_ending(label),
{
    law_onion_tests_agree(before.push('.') + label);
    law_onion_tests_agree(label);
    probe::law_onion_hosts(before, label);
}

/// An address has an onion host when it has a host and that is one.
pub proof fn law_hosts_of_addresses(url: relay_url::UrlView)
    ensures
        url.host is None ==> !has_onion_host(url),
        url.host matches Some(host) ==> (has_onion_host(url) <==> onion_ending(host)),
{
}

/// Neither side of a probe outlasts the hard timeout, and the document request has no more
/// than its own.
pub proof fn law_both_sides_keep_to_the_timeout(config: ProbeConfig, bounds: (Duration, Duration))
    requires
        call_ensures(limits, (config,), bounds),
    ensures
        bounds.0 == config.timeout,
        bounds.1.total_nanos() <= config.timeout.total_nanos(),
        bounds.1.total_nanos() <= config.http_timeout.total_nanos(),
        bounds.1 == config.timeout || bounds.1 == config.http_timeout,
{
}

/// A document is requested at the HTTP address of the relay: all but the scheme stays.
pub proof fn law_plans_name_the_document(
    url: RelayUrl,
    rest: Seq<char>,
    document_url: RelayUrl,
)
    requires
        call_ensures(plan, (&url,), Ok(ProbePlan::Run { document_url })),
        url@.href == url@.scheme + rest,
        3 <= rest.len() <= 4_294_967_000,
    ensures
        url@.scheme == "wss"@ || url@.scheme == "ws"@,
        url@.scheme == "wss"@ ==> document_url@.href == "https"@ + rest,
        url@.scheme == "ws"@ ==> document_url@.href == "http"@ + rest,
        document_url@.host == url@.host,
{
    probe::law_http_addresses(url@.scheme, rest, url@.host);
    assert(url@ == (relay_url::UrlView { href: url@.scheme + rest, scheme: url@.scheme, host: url@.host }));
    reveal_strlit("ws");
    reveal_strlit("wss");
    assert("ws"@.len() != "wss"@.len());
}

} // verus!
