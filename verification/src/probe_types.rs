//! Probe result and configuration types.

use vstd::prelude::*;
use vstd::string::*;

use crate::duration::Duration;
use crate::text;

verus! {

/// Terminal outcome of a single probe attempt.
///
/// A [`Self::Skipped`] result is **not** a failure: it signals that the probe
/// could not meaningfully run (e.g. the target is an onion host and the CI
/// runner has no Tor route), and the health tracker must not penalise the
/// relay's failure counter.
///
/// Intentionally exhaustive: every probe either succeeds or is skipped; any
/// runtime error is returned via [`Result::Err`]. Callers may therefore
/// match this enum without a wildcard arm.
#[derive(Debug, Clone)]
pub enum ProbeOutcome {
    /// The WebSocket handshake completed. Optional frame-wait observations
    /// are attached via [`ProbeSuccess::first_frame`].
    Success(ProbeSuccess),
    /// The probe deliberately did not run; the caller should record the
    /// skip without altering liveness statistics.
    Skipped(SkipReason),
}

/// Reason why a probe was skipped rather than executed.
#[derive(Debug, Clone, Copy, PartialEq, Eq, Structural)]
pub enum SkipReason {
    /// The target is a `.onion` host and the runner has no Tor proxy.
    OnionUnreachable,
}

impl SkipReason {
    /// Short machine-readable label suitable for structured logs.
    pub fn as_str(self) -> (label: &'static str)
        ensures
            label@ == "onion-unreachable"@,
    {
        match self {
            SkipReason::OnionUnreachable => "onion-unreachable",
        }
    }
}

/// Outcome of a successful probe.
#[derive(Debug, Clone)]
pub struct ProbeSuccess {
    /// Time from probe start to completion of the WebSocket handshake.
    pub rtt_ms: u64,
    /// Kind of the first Nostr frame observed within the frame-wait budget
    /// after the handshake, if any (`EVENT` / `AUTH` / `NOTICE` / …).
    /// `None` means the handshake succeeded but no frame arrived in time;
    /// the relay is still considered healthy.
    pub first_frame: Option<String>,
    /// Parsed NIP-11 Relay Information Document, if any was returned.
    pub nip11: Option<Nip11>,
}

impl ProbeSuccess {
    /// Construct a successful probe result from its measured parts.
    pub fn new(rtt_ms: u64, first_frame: Option<String>, nip11: Option<Nip11>) -> (success: Self)
        ensures
            success == (ProbeSuccess { rtt_ms, first_frame, nip11 }),
    {
        ProbeSuccess { rtt_ms, first_frame, nip11 }
    }
}

/// Subset of the NIP-11 Relay Information Document we care about.
#[derive(Debug, Clone)]
pub struct Nip11 {
    /// Relay-advertised display name.
    pub name: Option<String>,
    /// Relay implementation string (`software` field in NIP-11).
    pub software: Option<String>,
    /// Free-form version string from the relay software.
    pub version: Option<String>,
    /// Supported NIP numbers as reported by the relay.
    pub supported_nips: Option<Vec<u16>>,
}

/// Classified probe failure.
///
/// The variant determines whether a failure is treated as a real service
/// outage via [`Self::counts_as_failure`]: environmental issues (DNS hiccups,
/// upstream WAF blocks) do not bump the relay's consecutive-failure counter.
#[derive(Debug)]
pub enum ProbeError {
    /// DNS lookup failed — usually transient or runner-side.
    Dns(String),
    /// Whole probe exceeded the configured hard timeout.
    Timeout(Duration),
    /// Server rejected with HTTP 4xx; usually Cloudflare / WAF bot protection.
    Forbidden {
        /// HTTP status code observed during the WebSocket upgrade attempt.
        status: u16,
    },
    /// Server responded with a non-101 HTTP status that isn't a bot block.
    UnexpectedStatus {
        /// HTTP status code observed during the WebSocket upgrade attempt.
        status: u16,
    },
    /// TLS handshake or certificate validation failed.
    Tls(String),
    /// WebSocket protocol violation (bad framing, attack attempt, etc.).
    Protocol(String),
    /// URL cannot be turned into a probe target (unsupported scheme, bad path).
    InvalidUrl(String),
    /// Any other error that doesn't fit the above categories.
    Other(String),
}

impl ProbeError {
    /// The error comes from the surroundings, not from the relay.
    pub open spec fn is_environmental(self) -> bool {
        self is Dns || self is Forbidden
    }

    pub open spec fn label(self) -> Seq<char> {
        match self {
            ProbeError::Dns(_) => "dns"@,
            ProbeError::Timeout(_) => "timeout"@,
            ProbeError::Forbidden { .. } => "forbidden"@,
            ProbeError::UnexpectedStatus { .. } => "http-status"@,
            ProbeError::Tls(_) => "tls"@,
            ProbeError::Protocol(_) => "protocol"@,
            ProbeError::InvalidUrl(_) => "invalid-url"@,
            ProbeError::Other(_) => "other"@,
        }
    }

    pub open spec fn description(self) -> Seq<char> {
        match self {
            ProbeError::Dns(cause) => "dns lookup failed: "@ + cause@,
            ProbeError::Timeout(limit) => "probe timed out after "@
                + crate::duration::duration_debug(limit.whole_seconds(), limit.fraction()),
            ProbeError::Forbidden { status } => "forbidden by upstream (HTTP "@ + text::decimal(
                status as nat,
            ) + ")"@,
            ProbeError::UnexpectedStatus { status } => "unexpected HTTP status "@ + text::decimal(
                status as nat,
            ) + " during WebSocket handshake"@,
            ProbeError::Tls(cause) => "tls error: "@ + cause@,
            ProbeError::Protocol(cause) => "protocol error: "@ + cause@,
            ProbeError::InvalidUrl(cause) => "invalid url: "@ + cause@,
            ProbeError::Other(cause) => "probe failed: "@ + cause@,
        }
    }

    /// Whether this error should bump `consecutive_failures` on the relay.
    ///
    /// Environmental issues (DNS, WAF 4xx) are recorded but don't accumulate
    /// towards the dead/warn thresholds since they don't reflect the relay's
    /// actual availability.
    pub fn counts_as_failure(&self) -> (counts: bool)
        ensures
            counts == !self.is_environmental(),
    {
        !matches!(self, ProbeError::Dns(_) | ProbeError::Forbidden { .. })
    }

    /// Short machine-readable classification label for structured logs.
    pub fn kind(&self) -> (label: &'static str)
        ensures
            label@ == self.label(),
    {
        match self {
            ProbeError::Dns(_) => "dns",
            ProbeError::Timeout(_) => "timeout",
            ProbeError::Forbidden { .. } => "forbidden",
            ProbeError::UnexpectedStatus { .. } => "http-status",
            ProbeError::Tls(_) => "tls",
            ProbeError::Protocol(_) => "protocol",
            ProbeError::InvalidUrl(_) => "invalid-url",
            ProbeError::Other(_) => "other",
        }
    }

    /// The error in words.
    pub fn message(&self) -> (message: String)
        ensures
            message@ == self.description(),
    {
        match self {
            ProbeError::Dns(cause) => prefixed("dns lookup failed: ", cause.as_str()),
            ProbeError::Timeout(limit) => prefixed(
                "probe timed out after ",
                limit.debug_text().as_str(),
            ),
            ProbeError::Forbidden { status } => {
                let mut message = prefixed(
                    "forbidden by upstream (HTTP ",
                    text::decimal_text(*status as u64).as_str(),
                );
                message.append(")");
                message
            },
            ProbeError::UnexpectedStatus { status } => {
                let mut message = prefixed(
                    "unexpected HTTP status ",
                    text::decimal_text(*status as u64).as_str(),
                );
                message.append(" during WebSocket handshake");
                message
            },
            ProbeError::Tls(cause) => prefixed("tls error: ", cause.as_str()),
            ProbeError::Protocol(cause) => prefixed("protocol error: ", cause.as_str()),
            ProbeError::InvalidUrl(cause) => prefixed("invalid url: ", cause.as_str()),
            ProbeError::Other(cause) => prefixed("probe failed: ", cause.as_str()),
        }
    }
}

fn prefixed(prefix: &str, rest: &str) -> (s: String)
    ensures
        s@ == prefix@ + rest@,
{
    let mut s = prefix.to_owned();
    s.append(rest);
    s
}

/// Result type returned by a probe.
pub type ProbeResult = Result<ProbeOutcome, ProbeError>;

/// Seconds of [`default_http_timeout`].
pub const DEFAULT_HTTP_TIMEOUT_SECS: u64 = 8;

/// Seconds of [`default_probe_timeout`].
pub const DEFAULT_PROBE_TIMEOUT_SECS: u64 = 15;

/// Maximum per-request timeout for the NIP-11 HTTP fetch, regardless of the
/// caller-supplied overall probe timeout.
pub fn default_http_timeout() -> (limit: Duration)
    ensures
        limit.whole_seconds() == DEFAULT_HTTP_TIMEOUT_SECS,
        limit.fraction() == 0,
{
    Duration::from_secs(DEFAULT_HTTP_TIMEOUT_SECS)
}

/// Default overall probe timeout when no caller override is provided.
///
/// Chosen to comfortably cover a cross-Atlantic TLS + WebSocket handshake
/// plus a short frame-wait window with headroom.
pub fn default_probe_timeout() -> (limit: Duration)
    ensures
        limit.whole_seconds() == DEFAULT_PROBE_TIMEOUT_SECS,
        limit.fraction() == 0,
{
    Duration::from_secs(DEFAULT_PROBE_TIMEOUT_SECS)
}

/// Per-relay probe configuration.
#[derive(Debug, Clone, Copy)]
pub struct ProbeConfig {
    /// Hard timeout for the entire probe (handshake + frame wait + NIP-11).
    pub timeout: Duration,
    /// Per-request timeout for the NIP-11 HTTP fetch.
    pub http_timeout: Duration,
}

/// The length of the HTTP budget beside an overall one: as long, but never over
/// [`DEFAULT_HTTP_TIMEOUT_SECS`].
pub open spec fn http_budget(overall: Duration) -> int {
    let most = DEFAULT_HTTP_TIMEOUT_SECS * crate::duration::SECOND;
    if overall.total_nanos() <= most {
        overall.total_nanos()
    } else {
        most
    }
}

impl ProbeConfig {
    /// Build a config from a single overall timeout. The NIP-11 HTTP request
    /// is capped at [`default_http_timeout`] so a flaky information document
    /// cannot consume the whole probe budget.
    pub fn from_timeout(timeout: Duration) -> (config: Self)
        ensures
            config.timeout == timeout,
            config.http_timeout.total_nanos() == http_budget(timeout),
    {
        ProbeConfig { timeout, http_timeout: timeout.min(default_http_timeout()) }
    }
}

impl Default for ProbeConfig {
    fn default() -> (config: Self)
        ensures
            config.timeout.whole_seconds() == DEFAULT_PROBE_TIMEOUT_SECS,
            config.timeout.fraction() == 0,
            config.http_timeout.total_nanos() == DEFAULT_HTTP_TIMEOUT_SECS
                * crate::duration::SECOND,
    {
        ProbeConfig::from_timeout(default_probe_timeout())
    }
}

// ---- laws -----------------------------------------------------------------

/// Failed lookups and refusals are not the relay's; every other failure counts.
pub proof fn law_what_counts(error: ProbeError)
    ensures
        error is Dns ==> error.is_environmental(),
        error is Forbidden ==> error.is_environmental(),
        error is Timeout || error is UnexpectedStatus || error is Tls || error is Protocol
            || error is InvalidUrl || error is Other ==> !error.is_environmental(),
{
}

/// The label of each class of failure.
pub proof fn law_labels(error: ProbeError)
    ensures
        error.label() == match error {
            ProbeError::Dns(_) => "dns"@,
            ProbeError::Timeout(_) => "timeout"@,
            ProbeError::Forbidden { .. } => "forbidden"@,
            ProbeError::UnexpectedStatus { .. } => "http-status"@,
            ProbeError::Tls(_) => "tls"@,
            ProbeError::Protocol(_) => "protocol"@,
            ProbeError::InvalidUrl(_) => "invalid-url"@,
            ProbeError::Other(_) => "other"@,
        },
{
}

/// A failure is described with its class in words and its cause, status or limit.
pub proof fn law_descriptions(error: ProbeError)
    ensures
        error matches ProbeError::Dns(cause) ==> error.description() == "dns lookup failed: "@
            + cause@,
        error matches ProbeError::Timeout(limit) ==> error.description()
            == "probe timed out after "@ + crate::duration::duration_debug(
            limit.whole_seconds(),
            limit.fraction(),
        ),
        error matches ProbeError::Forbidden { status } ==> error.description()
            == "forbidden by upstream (HTTP "@ + text::decimal(status as nat) + ")"@,
        error matches ProbeError::UnexpectedStatus { status } ==> error.description()
            == "unexpected HTTP status "@ + text::decimal(status as nat)
            + " during WebSocket handshake"@,
        error matches ProbeError::Tls(cause) ==> error.description() == "tls error: "@ + cause@,
        error matches ProbeError::Protocol(cause) ==> error.description() == "protocol error: "@
            + cause@,
        error matches ProbeError::InvalidUrl(cause) ==> error.description() == "invalid url: "@
            + cause@,
        error matches ProbeError::Other(cause) ==> error.description() == "probe failed: "@
            + cause@,
{
}

/// The HTTP budget beside an overall one: as long, but eight seconds at most.
pub proof fn law_http_budget(overall: Duration)
    ensures
        http_budget(overall) <= 8_000_000_000,
        http_budget(overall) <= overall.total_nanos(),
        http_budget(overall) == overall.total_nanos() || http_budget(overall) == 8_000_000_000,
        DEFAULT_PROBE_TIMEOUT_SECS == 15,
        DEFAULT_HTTP_TIMEOUT_SECS == 8,
{
}

/// A configuration made from one timeout keeps it, and its document request gets no more
/// than that and no more than eight seconds.
pub proof fn law_configurations(timeout: Duration, config: ProbeConfig)
    requires
        call_ensures(ProbeConfig::from_timeout, (timeout,), config),
    ensures
        config.timeout == timeout,
        config.http_timeout.total_nanos() <= timeout.total_nanos(),
        config.http_timeout.total_nanos() <= 8_000_000_000,
        config.http_timeout.total_nanos() == timeout.total_nanos()
            || config.http_timeout.total_nanos() == 8_000_000_000,
{
}

/// A success holds what it is made of.
pub proof fn law_successes_hold_their_parts(
    rtt_ms: u64,
    first_frame: Option<String>,
    nip11: Option<Nip11>,
    success: ProbeSuccess,
)
    requires
        call_ensures(ProbeSuccess::new, (rtt_ms, first_frame, nip11), success),
    ensures
        success.rtt_ms == rtt_ms,
        success.first_frame == first_frame,
        success.nip11 == nip11,
{
}

} // verus!
