//! Nostr relay liveness probe of the second catalog layout.
//!
//! Each probe performs two parallel checks: the NIP-11 document request and the
//! WebSocket exchange (see [`crate::exchange`]).
//!
//! Tor / onion relays are reported as [`ProbeOutcome::Skipped`] because the
//! CI runners do not carry a Tor proxy. The downstream renderer shows them
//! with a dedicated icon so operators are not misled into thinking the probe
//! actually verified the relay.

use vstd::prelude::*;

use crate::duration::Duration;
use crate::exchange;
use crate::exchange::{conclude, ExchangeEnd, Subscription};
use crate::probe;
use crate::relay_url;
use crate::relay_url::RelayUrl;

pub use crate::exchange::{is_protocol_frame, ws_to_http};
pub use crate::probe::{is_onion_host, millis_saturating, parse_frame_kind};
pub use crate::probe_types::{Nip11, ProbeOutcome, ProbeSuccess, SkipReason};

verus! {

/// Seconds of the maximum per-request timeout for the NIP-11 HTTP fetch,
/// regardless of the caller-supplied overall probe timeout.
pub const DEFAULT_HTTP_TIMEOUT_SECS: u64 = 8;

/// Seconds of the default overall probe timeout when no caller override is
/// provided.
pub const DEFAULT_PROBE_TIMEOUT_SECS: u64 = 10;

/// The subscription that a probe opens.
pub fn subscription() -> (messages: Subscription)
    ensures
        messages.req@ == "[\"REQ\",\"relays-probe\",{\"kinds\":[1],\"limit\":1}]"@,
        messages.close@ == "[\"CLOSE\",\"relays-probe\"]"@,
{
    Subscription {
        req: "[\"REQ\",\"relays-probe\",{\"kinds\":[1],\"limit\":1}]",
        close: "[\"CLOSE\",\"relays-probe\"]",
    }
}

/// Per-relay probe configuration.
#[derive(Debug, Clone, Copy)]
pub struct ProbeConfig {
    /// Hard timeout for the entire probe (HTTP + WebSocket combined).
    pub timeout: Duration,
    /// Per-request timeout for the NIP-11 HTTP fetch.
    pub http_timeout: Duration,
}

/// The length of the HTTP budget beside an overall one: as long, but never over
/// [`DEFAULT_HTTP_TIMEOUT_SECS`].
pub open spec fn http_budget(overall: Duration) -> int {
    let most = DEFAULT_HTTP_TIMEOUT_SECS * crate::duration::SECOND;
    if overall.total_nanos() <= most {
        overall.total_nanos()
    } else {
        most
    }
}

impl ProbeConfig {
    /// Build a config from a single overall timeout. The NIP-11 HTTP request
    /// is capped at [`DEFAULT_HTTP_TIMEOUT_SECS`] so a flaky information
    /// document cannot consume the whole probe budget.
    pub fn from_timeout(timeout: Duration) -> (config: Self)
        ensures
            config.timeout == timeout,
            config.http_timeout.total_nanos() == http_budget(timeout),
    {
        ProbeConfig {
            timeout,
            http_timeout: timeout.min(Duration::from_secs(DEFAULT_HTTP_TIMEOUT_SECS)),
        }
    }
}

impl Default for ProbeConfig {
    fn default() -> (config: Self)
        ensures
            config.timeout.whole_seconds() == DEFAULT_PROBE_TIMEOUT_SECS,
            config.timeout.fraction() == 0,
            config.http_timeout.total_nanos() == DEFAULT_HTTP_TIMEOUT_SECS
                * crate::duration::SECOND,
    {
        ProbeConfig::from_timeout(Duration::from_secs(DEFAULT_PROBE_TIMEOUT_SECS))
    }
}

/// How long the two sides of a probe may take, the exchange and the document
/// request with its body. They run side by side, so a probe is over when the
/// hard timeout is.
pub fn limits(config: ProbeConfig) -> (limits: (Duration, Duration))
    ensures
        limits.0 == config.timeout,
        limits.1 == config.http_timeout.shorter(config.timeout),
        limits.0.total_nanos() <= config.timeout.total_nanos(),
        limits.1.total_nanos() <= config.timeout.total_nanos(),
        limits.1.total_nanos() <= config.http_timeout.total_nanos(),
{
    (config.timeout, config.http_timeout.min(config.timeout))
}

/// What a probe has to do first.
#[derive(Debug)]
pub enum ProbePlan {
    /// Nothing: the relay lies outside what the runner can verify.
    Skip { reason: SkipReason },
    /// Fetch the document at `document_url` and run the exchange, side by side.
    Run { document_url: RelayUrl },
}

/// What a probe of `url` has to do, or what is wrong with the address. Onion
/// hosts are skipped whatever their scheme.
pub fn plan(url: &RelayUrl) -> (plan: Result<ProbePlan, String>)
    ensures
        match plan {
            Ok(ProbePlan::Skip { reason }) => probe::is_onion(url@) && reason
                == SkipReason::OnionUnreachable,
            Ok(ProbePlan::Run { document_url }) => !probe::is_onion(url@) && probe::http_address(
                url@,
            ) == Ok::<relay_url::UrlView, Seq<char>>(document_url@),
            Err(cause) => !probe::is_onion(url@) && probe::http_address(url@) == Err::<
                relay_url::UrlView,
                Seq<char>,
            >(cause@),
        },
{
    if let Some(host) = url.host_str() {
        if is_onion_host(host) {
            return Ok(ProbePlan::Skip { reason: SkipReason::OnionUnreachable });
        }
    }
    match ws_to_http(url) {
        Ok(document_url) => Ok(ProbePlan::Run { document_url }),
        Err(cause) => Err(cause),
    }
}

/// The outcome of a probe that ran. The exchange does not tell which frame came
/// first.
pub fn outcome(end: ExchangeEnd, status: Option<u16>, document: Option<Nip11>) -> (outcome: Result<
    ProbeOutcome,
    String,
>)
    ensures
        match outcome {
            Ok(ProbeOutcome::Success(success)) => {
                &&& exchange::round_trip(end) == Ok::<int, Seq<char>>(success.rtt_ms as int)
                &&& success.first_frame is None
                &&& success.nip11 == exchange::document_of(status, document)
            },
            Ok(ProbeOutcome::Skipped(_)) => false,
            Err(cause) => exchange::round_trip(end) == Err::<int, Seq<char>>(cause@),
        },
{
    match conclude(end, status, document) {
        Ok((rtt_ms, nip11)) => Ok(
            ProbeOutcome::Success(ProbeSuccess { rtt_ms, first_frame: None, nip11 }),
        ),
        Err(cause) => Err(cause),
    }
}

// ---- laws -----------------------------------------------------------------

/// The HTTP budget beside an overall one: as long, but eight seconds at most.
pub proof fn law_http_budget(overall: Duration)
    ensures
        http_budget(overall) <= 8_000_000_000,
        http_budget(overall) <= overall.total_nanos(),
        http_budget(overall) == overall.total_nanos() || http_budget(overall) == 8_000_000_000,
        DEFAULT_PROBE_TIMEOUT_SECS == 10,
        DEFAULT_HTTP_TIMEOUT_SECS == 8,
{
}

/// Neither side of a probe outlasts the hard timeout, and the document request has no more
/// than its own.
pub proof fn law_both_sides_keep_to_the_timeout(config: ProbeConfig, bounds: (Duration, Duration))
    requires
        call_ensures(limits, (config,), bounds),
    ensures
        bounds.0 == config.timeout,
        bounds.1.total_nanos() <= config.timeout.total_nanos(),
        bounds.1.total_nanos() <= config.http_timeout.total_nanos(),
        bounds.1 == config.timeout || bounds.1 == config.http_timeout,
{
}

/// A document is requested at the HTTP address of the relay: all but the scheme stays.
pub proof fn law_plans_name_the_document(
    url: RelayUrl,
    rest: Seq<char>,
    document_url: RelayUrl,
)
    requires
        call_ensures(plan, (&url,), Ok(ProbePlan::Run { document_url })),
        url@.href == url@.scheme + rest,
        3 <= rest.len() <= 4_294_967_000,
    ensures
        url@.scheme == "wss"@ || url@.scheme == "ws"@,
        url@.scheme == "wss"@ ==> document_url@.href == "https"@ + rest,
        url@.scheme == "ws"@ ==> document_url@.href == "http"@ + rest,
        document_url@.host == url@.host,
{
    probe::law_http_addresses(url@.scheme, rest, url@.host);
    assert(url@ == (relay_url::UrlView { href: url@.scheme + rest, scheme: url@.scheme, host: url@.host }));
    reveal_strlit("ws");
    reveal_strlit("wss");
    assert("ws"@.len() != "wss"@.len());
}

} // verus!
