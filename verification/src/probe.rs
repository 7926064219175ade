//! Nostr relay liveness probe.
//!
//! A probe performs, in order:
//!
//! 1. **WebSocket handshake** — the primary liveness signal. A successful
//!    handshake proves the relay is reachable and speaks the WebSocket
//!    protocol on the URL advertised in the catalog.
//! 2. **Best-effort first-frame wait** — we send a bounded `REQ` and wait up
//!    to [`FRAME_WAIT_BUDGET_SECS`] for any recognised Nostr frame
//!    (`EVENT` / `EOSE` / `NOTICE` / `AUTH` / `OK` / `CLOSED` / `COUNT`).
//!    Receiving a frame proves the server speaks Nostr, **but its absence is
//!    not a failure**: many popular relays (Damus, Primal, Nostr.Band, …)
//!    require NIP-42 AUTH and silently close anonymous subscriptions.
//! 3. **NIP-11 Relay Information Document** — HTTP GET *after* the WS path
//!    has succeeded; strictly metadata enrichment, never fatal.
//!
//! Failures are returned as typed [`ProbeError`] variants so the health
//! tracker can distinguish transient / environmental issues (DNS, WAF 403)
//! from real outages.
//!
//! Tor / onion relays are reported as [`ProbeOutcome::Skipped`] because CI
//! runners don't carry a Tor proxy; the README renderer uses a dedicated
//! icon so operators aren't misled into thinking the probe verified them.
//!
//! The order of the steps, the budgets and the verdict are decided here, by
//! [`probe_begin`] and [`probe_next`]. Whoever drives the probe performs each
//! [`ProbeAction`] and reports what came of it as a [`ProbeEvent`].

use vstd::prelude::*;
use vstd::string::*;

use crate::duration;
use crate::duration::Duration;
use crate::json;
use crate::json::Json;
use crate::model;
use crate::probe_types::{
    Nip11, ProbeConfig, ProbeError, ProbeOutcome, ProbeResult, ProbeSuccess, SkipReason,
};
use crate::relay_url;
use crate::relay_url::RelayUrl;
use crate::text;

verus! {

/// Mozilla-compatible `User-Agent` applied to both the HTTP (NIP-11) client
/// and the WebSocket handshake.
///
/// The `(compatible; <bot>/<ver>; +<url>)` format is the form Google, Bing
/// and similar crawlers use. Empirically it slips through Cloudflare's
/// default bot-fight rules far more reliably than a bare `relays/0.1` UA.
pub const USER_AGENT: &'static str = "Mozilla/5.0 (compatible; relays-monitor/0.2.0; +https://github.com/qntx/awesome-nostr-relays)";

/// Seconds reserved for the best-effort first-frame wait once the WebSocket
/// handshake has completed. Short enough to keep the probe snappy for healthy
/// relays while still giving AUTH-required relays a chance to send a
/// `["AUTH", ...]` challenge.
pub const FRAME_WAIT_BUDGET_SECS: u64 = 5;

/// Seconds allowed for the closing handshake.
pub const CLOSE_TIMEOUT_SECS: u64 = 1;

/// The subscription that a probe opens.
pub const REQ_MESSAGE: &'static str = "[\"REQ\",\"relays-probe\",{\"kinds\":[1],\"limit\":1}]";

/// The message that ends the subscription.
pub const CLOSE_MESSAGE: &'static str = "[\"CLOSE\",\"relays-probe\"]";

// ---- hosts and addresses --------------------------------------------------

/// The last label of the host is `onion`, in any case.
pub open spec fn onion_host(host: Seq<char>) -> bool {
    text::after_last(host, '.') matches Some(tld) && text::equal_ignoring_case(tld, "onion"@)
}

pub fn is_onion_host(host: &str) -> (yes: bool)
    ensures
        yes == onion_host(host@),
{
    match text::split_last(host, '.') {
        Some(tld) => text::eq_ignore_ascii_case(tld.as_str(), "onion"),
        None => false,
    }
}

/// The HTTP scheme that goes with a WebSocket scheme.
pub open spec fn http_scheme(scheme: Seq<char>) -> Option<Seq<char>> {
    if scheme == "wss"@ {
        Some("https"@)
    } else if scheme == "ws"@ {
        Some("http"@)
    } else {
        None
    }
}

/// The HTTP address that goes with a WebSocket address, or what is wrong with
/// it.
pub open spec fn http_address(
    url: relay_url::UrlView,
) -> Result<relay_url::UrlView, Seq<char>> {
    match http_scheme(url.scheme) {
        Some(scheme) => if url.host is Some && relay_url::is_rewritable(url) {
            Ok(relay_url::swap_scheme(url, scheme))
        } else {
            Err("cannot rewrite scheme for "@ + url.href)
        },
        None => Err("unsupported scheme: "@ + url.scheme),
    }
}

/// The HTTP address under which a relay publishes its NIP-11 document.
pub fn ws_to_http(url: &RelayUrl) -> (http: Result<RelayUrl, ProbeError>)
    ensures
        match http {
            Ok(h) => http_address(url@) == Ok::<relay_url::UrlView, Seq<char>>(h@),
            Err(ProbeError::InvalidUrl(cause)) => http_address(url@) == Err::<
                relay_url::UrlView,
                Seq<char>,
            >(cause@),
            Err(_) => false,
        },
        http matches Ok(h) ==> http_scheme(url@.scheme) == Some(h@.scheme),
{
    let scheme = url.scheme();
    let target = if text::same_text(scheme, "wss") {
        "https"
    } else if text::same_text(scheme, "ws") {
        "http"
    } else {
        let mut cause = "unsupported scheme: ".to_owned();
        cause.append(scheme);
        return Err(ProbeError::InvalidUrl(cause));
    };
    proof {
        reveal_strlit("ws");
        reveal_strlit("wss");
        assert("ws"@.len() != "wss"@.len());
    }
    match url.with_http_scheme(target) {
        Some(http) => Ok(http),
        None => {
            let mut cause = "cannot rewrite scheme for ".to_owned();
            cause.append(url.as_str());
            Err(ProbeError::InvalidUrl(cause))
        },
    }
}

/// `millis`, or the most that fits.
pub fn millis_saturating(millis: u128) -> (fitting: u64)
    ensures
        fitting == if millis <= u64::MAX {
            millis as int
        } else {
            u64::MAX as int
        },
{
    if millis <= u64::MAX as u128 {
        millis as u64
    } else {
        u64::MAX
    }
}

// ---- frames ---------------------------------------------------------------

pub open spec fn protocol_frame(kind: Seq<char>) -> bool {
    kind == "EVENT"@ || kind == "EOSE"@ || kind == "NOTICE"@ || kind == "AUTH"@ || kind == "OK"@
        || kind == "CLOSED"@ || kind == "COUNT"@
}

/// `true` when `kind` names a Nostr protocol frame: `EVENT`, `EOSE` and
/// `NOTICE`, `AUTH` (NIP-42 challenge), `OK` (NIP-20), `CLOSED` (NIP-01 close
/// notice), and `COUNT` (NIP-45).
pub fn is_protocol_frame(kind: &str) -> (yes: bool)
    ensures
        yes == protocol_frame(kind@),
{
    text::same_text(kind, "EVENT") || text::same_text(kind, "EOSE") || text::same_text(
        kind,
        "NOTICE",
    ) || text::same_text(kind, "AUTH") || text::same_text(kind, "OK") || text::same_text(
        kind,
        "CLOSED",
    ) || text::same_text(kind, "COUNT")
}

/// The kind of a frame: the text that an array starts with.
pub open spec fn kind_of(value: json::JsonView) -> Option<Seq<char>> {
    match value {
        json::JsonView::Array(items) => if items.len() > 0 {
            match items[0] {
                json::JsonView::Text(kind) => Some(kind),
                _ => None,
            }
        } else {
            None
        },
        _ => None,
    }
}

/// The kind of the frame that a message spells.
pub open spec fn frame_kind(message: Seq<char>) -> Option<Seq<char>> {
    match json::document(message) {
        Some(value) => kind_of(value),
        None => None,
    }
}

/// The kind of a frame: the text that an array starts with.
pub fn first_text(value: &Json) -> (kind: Option<String>)
    ensures
        text::opt_text(kind) == kind_of(value@),
{
    match value.element(0) {
        Some(first) => match first.as_str() {
            Some(kind) => Some(kind.to_owned()),
            None => None,
        },
        None => None,
    }
}

/// The kind of the frame that a message spells.
pub fn parse_frame_kind(message: &str) -> (kind: Option<String>)
    ensures
        text::opt_text(kind) == frame_kind(message@),
{
    match Json::parse(message) {
        Some(value) => first_text(&value),
        None => None,
    }
}

/// The kind of the frame, where it is a protocol frame.
pub open spec fn recognised(message: Seq<char>) -> Option<Seq<char>> {
    match frame_kind(message) {
        Some(kind) => if protocol_frame(kind) {
            Some(kind)
        } else {
            None
        },
        None => None,
    }
}

/// The kind of the frame that a message spells, where it is a protocol frame.
pub fn recognised_kind(message: &str) -> (kind: Option<String>)
    ensures
        text::opt_text(kind) == recognised(message@),
{
    match parse_frame_kind(message) {
        Some(kind) => if is_protocol_frame(kind.as_str()) {
            Some(kind)
        } else {
            None
        },
        None => None,
    }
}

// ---- failures -------------------------------------------------------------

/// How a WebSocket handshake failed, with the words of whoever reports it.
#[derive(Debug)]
pub enum WsFailure {
    /// The server answered the upgrade with this HTTP status.
    Http { status: u16 },
    /// Reading or writing failed.
    Io { message: String },
    /// The address is no WebSocket address.
    Url { message: String },
    /// The upgrade request could not be formed.
    HttpFormat { message: String },
    /// The peer broke the WebSocket protocol.
    Protocol { message: String },
    /// The peer seems to attack.
    AttackAttempt { message: String },
    /// Anything else.
    Other { message: String },
}

pub open spec fn dns_failure(message: Seq<char>) -> bool {
    let lower = text::ascii_lower(message);
    text::contains_text(lower, "lookup address"@) || text::contains_text(lower, "name resolution"@)
        || text::contains_text(lower, "failed to resolve"@) || text::contains_text(
        lower,
        "no address associated"@,
    )
}

pub fn is_dns_failure(msg: &str) -> (yes: bool)
    ensures
        yes == dns_failure(msg@),
{
    let lower = text::lower_chars(msg);
    text::chars_contain(&lower, "lookup address") || text::chars_contain(&lower, "name resolution")
        || text::chars_contain(&lower, "failed to resolve") || text::chars_contain(
        &lower,
        "no address associated",
    )
}

pub open spec fn tls_failure(message: Seq<char>) -> bool {
    let lower = text::ascii_lower(message);
    text::contains_text(lower, "certificate"@) || text::contains_text(lower, "tls"@)
        || text::contains_text(lower, "fatal alert"@)
}

pub fn is_tls_failure(msg: &str) -> (yes: bool)
    ensures
        yes == tls_failure(msg@),
{
    let lower = text::lower_chars(msg);
    text::chars_contain(&lower, "certificate") || text::chars_contain(&lower, "tls")
        || text::chars_contain(&lower, "fatal alert")
}

/// The class of a handshake failure.
pub open spec fn classified(failure: WsFailure) -> ProbeError {
    match failure {
        WsFailure::Http { status } => if 400 <= status < 500 {
            ProbeError::Forbidden { status }
        } else {
            ProbeError::UnexpectedStatus { status }
        },
        WsFailure::Io { message } => if dns_failure(message@) {
            ProbeError::Dns(message)
        } else if tls_failure(message@) {
            ProbeError::Tls(message)
        } else {
            ProbeError::Other(message)
        },
        WsFailure::Url { message } => ProbeError::InvalidUrl(message),
        WsFailure::HttpFormat { message } => ProbeError::InvalidUrl(message),
        WsFailure::Protocol { message } => ProbeError::Protocol(message),
        WsFailure::AttackAttempt { message } => ProbeError::Protocol(message),
        WsFailure::Other { message } => if tls_failure(message@) {
            ProbeError::Tls(message)
        } else {
            ProbeError::Other(message)
        },
    }
}

/// Map a handshake failure to a classified [`ProbeError`].
pub fn classify_ws_error(failure: WsFailure) -> (error: ProbeError)
    ensures
        error == classified(failure),
{
    match failure {
        WsFailure::Http { status } => if 400 <= status && status < 500 {
            ProbeError::Forbidden { status }
        } else {
            ProbeError::UnexpectedStatus { status }
        },
        WsFailure::Io { message } => if is_dns_failure(message.as_str()) {
            ProbeError::Dns(message)
        } else if is_tls_failure(message.as_str()) {
            ProbeError::Tls(message)
        } else {
            ProbeError::Other(message)
        },
        WsFailure::Url { message } | WsFailure::HttpFormat { message } => ProbeError::InvalidUrl(
            message,
        ),
        WsFailure::Protocol { message } | WsFailure::AttackAttempt { message } => {
            ProbeError::Protocol(message)
        },
        WsFailure::Other { message } => if is_tls_failure(message.as_str()) {
            ProbeError::Tls(message)
        } else {
            ProbeError::Other(message)
        },
    }
}

// ---- the probe ------------------------------------------------------------

/// How far a probe has come.
#[derive(Debug)]
pub enum ProbeState {
    /// The handshake is under way.
    Connecting,
    /// The subscription is being sent.
    Asking { rtt_ms: u64, budget: Duration },
    /// A frame is awaited.
    Listening { rtt_ms: u64, budget: Duration },
    /// A ping is being answered.
    Answering { rtt_ms: u64, budget: Duration },
    /// A frame was seen, and the subscription is being ended.
    Leaving { rtt_ms: u64, kind: String },
    /// The connection is being closed.
    Closing { rtt_ms: u64, first_frame: Option<String> },
    /// The NIP-11 document is being fetched.
    Fetching { rtt_ms: u64, first_frame: Option<String> },
    /// The verdict is in.
    Finished,
}

/// What whoever drives the probe has to do next, and for how long at most.
#[derive(Debug)]
pub enum ProbeAction {
    /// Open the WebSocket connection.
    Connect { limit: Duration },
    /// Send a text message.
    SendText { body: &'static str, limit: Duration },
    /// Wait for the next message.
    Receive { limit: Duration },
    /// Answer a ping with what it carried.
    SendPong { payload: Vec<u8>, limit: Duration },
    /// Close the connection.
    CloseSocket { limit: Duration },
    /// Fetch the NIP-11 document at `url`.
    FetchDocument { url: RelayUrl, limit: Duration },
    /// The probe is over, with this result. A connection that is still open is
    /// dropped.
    Finish { result: ProbeResult },
}

/// A message that arrived over the WebSocket.
#[derive(Debug)]
pub enum WsMessage {
    Text { body: String },
    Ping { payload: Vec<u8> },
    Close,
    /// Binary data, a pong or a raw frame.
    Other,
}

/// What came of an action. An action that is not done within its limit has
/// failed.
#[derive(Debug)]
pub enum ProbeEvent {
    /// The handshake completed, and how long it took.
    Connected { handshake: Duration },
    /// The handshake did not complete in time.
    ConnectTimedOut,
    /// The handshake failed.
    ConnectFailed { failure: WsFailure },
    /// The message went out, `waited` after the frame wait began.
    Sent { waited: Duration },
    /// The message did not go out.
    SendFailed,
    /// A message arrived, `waited` after the frame wait began.
    Received { message: WsMessage, waited: Duration },
    /// No message arrived in time, the stream ended or an error occurred.
    ReceiveEnded,
    /// The connection is closed, or closing it was given up.
    Closed,
    /// The answer to the document request: the HTTP status, where there was an
    /// answer, and the document, where the body was one.
    Document { status: Option<u16>, document: Option<Nip11> },
}

/// A state together with what has to be done in it.
#[derive(Debug)]
pub struct ProbeStep {
    pub state: ProbeState,
    pub action: ProbeAction,
}

/// The time that is left of `total` after `spent`, in nanoseconds.
pub open spec fn left_of(total: Duration, spent: Duration) -> int {
    if total.total_nanos() <= spent.total_nanos() {
        0
    } else {
        total.total_nanos() - spent.total_nanos()
    }
}

/// The lesser of two lengths.
pub open spec fn at_most(length: int, bound: int) -> int {
    if length <= bound {
        length
    } else {
        bound
    }
}

/// The frame budget in nanoseconds: what is left of the overall timeout, but no
/// more than [`FRAME_WAIT_BUDGET_SECS`].
pub open spec fn frame_budget(overall: Duration, elapsed: Duration) -> int {
    at_most(left_of(overall, elapsed), FRAME_WAIT_BUDGET_SECS * duration::SECOND)
}

/// The handshake time in milliseconds, as far as it fits.
pub open spec fn handshake_millis(handshake: Duration) -> int {
    let millis = handshake.total_nanos() / 1_000_000;
    if millis <= u64::MAX {
        millis
    } else {
        u64::MAX as int
    }
}

/// The probe is over with this result.
pub open spec fn reports(step: ProbeStep, result: ProbeResult) -> bool {
    step.state is Finished && step.action == (ProbeAction::Finish { result })
}

/// The probe is over and the relay was reached.
pub open spec fn reports_success(
    step: ProbeStep,
    rtt_ms: u64,
    first_frame: Option<Seq<char>>,
    nip11: Option<Nip11>,
) -> bool {
    &&& step.state is Finished
    &&& step.action matches ProbeAction::Finish { result: Ok(ProbeOutcome::Success(success)) }
    &&& success.rtt_ms == rtt_ms
    &&& text::opt_text(success.first_frame) == first_frame
    &&& success.nip11 == nip11
}

/// The probe sends its subscription after a handshake.
pub open spec fn asks(step: ProbeStep, handshake: Duration, overall: Duration, elapsed: Duration) -> bool {
    &&& step.state matches ProbeState::Asking { rtt_ms, budget }
    &&& rtt_ms == handshake_millis(handshake)
    &&& budget.total_nanos() == frame_budget(overall, elapsed)
    &&& step.action matches ProbeAction::SendText { body, limit }
    &&& body@ == REQ_MESSAGE@
    &&& limit.total_nanos() == left_of(overall, elapsed)
}

/// The probe listens on for what is left of the frame budget and of the overall
/// timeout.
pub open spec fn listens(
    step: ProbeStep,
    rtt_ms: u64,
    budget: Duration,
    waited: Duration,
    left: int,
) -> bool {
    &&& step.state == ProbeState::Listening { rtt_ms, budget }
    &&& step.action matches ProbeAction::Receive { limit }
    &&& limit.total_nanos() == at_most(left_of(budget, waited), left)
}

/// The probe answers a ping with what it carried.
pub open spec fn pongs(
    step: ProbeStep,
    rtt_ms: u64,
    budget: Duration,
    payload: Seq<u8>,
    left: int,
) -> bool {
    &&& step.state == ProbeState::Answering { rtt_ms, budget }
    &&& step.action matches ProbeAction::SendPong { payload: answer, limit }
    &&& answer@ == payload
    &&& limit.total_nanos() == left
}

/// The probe ends its subscription after a frame.
pub open spec fn leaves(step: ProbeStep, rtt_ms: u64, frame: Seq<char>, left: int) -> bool {
    &&& step.state matches ProbeState::Leaving { rtt_ms: rtt, kind }
    &&& rtt == rtt_ms
    &&& kind@ == frame
    &&& step.action matches ProbeAction::SendText { body, limit }
    &&& body@ == CLOSE_MESSAGE@
    &&& limit.total_nanos() == left
}

/// The probe closes the connection.
pub open spec fn closes(
    step: ProbeStep,
    rtt_ms: u64,
    first_frame: Option<Seq<char>>,
    left: int,
) -> bool {
    &&& step.state matches ProbeState::Closing { rtt_ms: rtt, first_frame: frame }
    &&& rtt == rtt_ms
    &&& text::opt_text(frame) == first_frame
    &&& step.action matches ProbeAction::CloseSocket { limit }
    &&& limit.total_nanos() == at_most(CLOSE_TIMEOUT_SECS * duration::SECOND, left)
}

/// The probe fetches the document.
pub open spec fn fetches(
    step: ProbeStep,
    rtt_ms: u64,
    first_frame: Option<Seq<char>>,
    address: relay_url::UrlView,
    http_timeout: Duration,
    left: int,
) -> bool {
    &&& step.state matches ProbeState::Fetching { rtt_ms: rtt, first_frame: frame }
    &&& rtt == rtt_ms
    &&& text::opt_text(frame) == first_frame
    &&& step.action matches ProbeAction::FetchDocument { url, limit }
    &&& url@ == address
    &&& limit.total_nanos() == at_most(http_timeout.total_nanos(), left)
}

/// HTTP statuses that mean success.
pub open spec fn success_status(status: u16) -> bool {
    200 <= status < 300
}

pub fn is_success_status(status: u16) -> (yes: bool)
    ensures
        yes == success_status(status),
{
    200 <= status && status < 300
}

/// The document, where the answer was a success.
pub open spec fn accepted_document(status: Option<u16>, document: Option<Nip11>) -> Option<Nip11> {
    match status {
        Some(code) => if success_status(code) {
            document
        } else {
            None
        },
        None => None,
    }
}

/// `event` can come of the action that goes with `state`.
pub open spec fn fits(state: ProbeState, event: ProbeEvent) -> bool {
    match state {
        ProbeState::Connecting => event is Connected || event is ConnectTimedOut
            || event is ConnectFailed,
        ProbeState::Asking { .. } => event is Sent || event is SendFailed,
        ProbeState::Listening { .. } => event is Received || event is ReceiveEnded,
        ProbeState::Answering { .. } => event is Sent || event is SendFailed,
        ProbeState::Leaving { .. } => event is Sent || event is SendFailed,
        ProbeState::Closing { .. } => event is Closed,
        ProbeState::Fetching { .. } => event is Document,
        ProbeState::Finished => false,
    }
}

/// The handshake time that a state carries.
pub open spec fn measured(state: ProbeState) -> Option<u64> {
    match state {
        ProbeState::Connecting => None,
        ProbeState::Asking { rtt_ms, .. } => Some(rtt_ms),
        ProbeState::Listening { rtt_ms, .. } => Some(rtt_ms),
        ProbeState::Answering { rtt_ms, .. } => Some(rtt_ms),
        ProbeState::Leaving { rtt_ms, .. } => Some(rtt_ms),
        ProbeState::Closing { rtt_ms, .. } => Some(rtt_ms),
        ProbeState::Fetching { rtt_ms, .. } => Some(rtt_ms),
        ProbeState::Finished => None,
    }
}

/// The frame that a state carries.
pub open spec fn seen_in(state: ProbeState) -> Option<Seq<char>> {
    match state {
        ProbeState::Leaving { kind, .. } => Some(kind@),
        ProbeState::Closing { first_frame, .. } => text::opt_text(first_frame),
        ProbeState::Fetching { first_frame, .. } => text::opt_text(first_frame),
        _ => None,
    }
}

/// The frame that is known once `event` has come in `state`.
pub open spec fn seen_after(state: ProbeState, event: ProbeEvent) -> Option<Seq<char>> {
    match event {
        ProbeEvent::Received { message: WsMessage::Text { body }, .. } => recognised(body@),
        _ => seen_in(state),
    }
}

/// The frame wait goes on, or the connection is closed once its budget is spent.
pub open spec fn listens_or_closes(
    step: ProbeStep,
    rtt_ms: u64,
    budget: Duration,
    waited: Duration,
    left: int,
) -> bool {
    if left_of(budget, waited) > 0 {
        listens(step, rtt_ms, budget, waited, left)
    } else {
        closes(step, rtt_ms, None, left)
    }
}

/// What the probe does about a message that arrived while there is time left.
pub open spec fn hears(
    step: ProbeStep,
    rtt_ms: u64,
    budget: Duration,
    message: WsMessage,
    waited: Duration,
    left: int,
) -> bool {
    match message {
        WsMessage::Text { body } => match recognised(body@) {
            Some(frame) => leaves(step, rtt_ms, frame, left),
            None => listens_or_closes(step, rtt_ms, budget, waited, left),
        },
        WsMessage::Ping { payload } => pongs(step, rtt_ms, budget, payload@, left),
        WsMessage::Close => closes(step, rtt_ms, None, left),
        WsMessage::Other => listens_or_closes(step, rtt_ms, budget, waited, left),
    }
}

/// The first step after a handshake: the subscription, or the verdict where the
/// timeout is spent.
pub open spec fn follows_handshake(
    step: ProbeStep,
    handshake: Duration,
    overall: Duration,
    elapsed: Duration,
) -> bool {
    if left_of(overall, elapsed) > 0 {
        asks(step, handshake, overall, elapsed)
    } else {
        &&& step.state is Finished
        &&& step.action matches ProbeAction::Finish { result: Ok(ProbeOutcome::Success(success)) }
        &&& success.rtt_ms == handshake_millis(handshake)
        &&& success.first_frame is None
        &&& success.nip11 is None
    }
}

/// What follows from `event` in a state after the handshake, with `left` of the
/// overall timeout.
pub open spec fn follows_connected(
    url: relay_url::UrlView,
    config: ProbeConfig,
    state: ProbeState,
    event: ProbeEvent,
    left: int,
    step: ProbeStep,
) -> bool {
    match (state, event) {
        (ProbeState::Fetching { rtt_ms, first_frame }, ProbeEvent::Document { status, document }) => {
            reports_success(
                step,
                rtt_ms,
                text::opt_text(first_frame),
                accepted_document(status, document),
            )
        },
        _ => if left <= 0 {
            measured(state) matches Some(rtt_ms) && reports_success(
                step,
                rtt_ms,
                seen_after(state, event),
                None,
            )
        } else {
            match (state, event) {
                (ProbeState::Asking { rtt_ms, budget }, ProbeEvent::Sent { waited }) => {
                    listens_or_closes(step, rtt_ms, budget, waited, left)
                },
                (ProbeState::Asking { rtt_ms, .. }, ProbeEvent::SendFailed) => {
                    closes(step, rtt_ms, None, left)
                },
                (
                    ProbeState::Listening { rtt_ms, budget },
                    ProbeEvent::Received { message, waited },
                ) => hears(step, rtt_ms, budget, message, waited, left),
                (ProbeState::Listening { rtt_ms, .. }, ProbeEvent::ReceiveEnded) => {
                    closes(step, rtt_ms, None, left)
                },
                (ProbeState::Answering { rtt_ms, budget }, ProbeEvent::Sent { waited }) => {
                    listens_or_closes(step, rtt_ms, budget, waited, left)
                },
                (ProbeState::Answering { rtt_ms, .. }, ProbeEvent::SendFailed) => {
                    closes(step, rtt_ms, None, left)
                },
                (ProbeState::Leaving { rtt_ms, kind }, _) => {
                    closes(step, rtt_ms, Some(kind@), left)
                },
                (ProbeState::Closing { rtt_ms, first_frame }, _) => match http_address(url) {
                    Ok(address) => fetches(
                        step,
                        rtt_ms,
                        text::opt_text(first_frame),
                        address,
                        config.http_timeout,
                        left,
                    ),
                    Err(_) => reports_success(step, rtt_ms, text::opt_text(first_frame), None),
                },
                _ => false,
            }
        },
    }
}

/// What follows from `event` in `state`, `elapsed` after the probe started.
///
/// The overall timeout is a hard one: once it is spent, a probe that got past
/// its handshake is over, with what it has seen so far.
pub open spec fn follows(
    url: relay_url::UrlView,
    config: ProbeConfig,
    state: ProbeState,
    event: ProbeEvent,
    elapsed: Duration,
    step: ProbeStep,
) -> bool {
    match (state, event) {
        (ProbeState::Connecting, ProbeEvent::Connected { handshake }) => {
            follows_handshake(step, handshake, config.timeout, elapsed)
        },
        (ProbeState::Connecting, ProbeEvent::ConnectTimedOut) => {
            reports(step, Err(ProbeError::Timeout(config.timeout)))
        },
        (ProbeState::Connecting, ProbeEvent::ConnectFailed { failure }) => {
            reports(step, Err(classified(failure)))
        },
        _ => follows_connected(url, config, state, event, left_of(config.timeout, elapsed), step),
    }
}

/// The host is an onion host.
pub open spec fn is_onion(url: relay_url::UrlView) -> bool {
    url.host matches Some(host) && onion_host(host)
}

/// What a probe of `url` starts with: the handshake, unless the host is an
/// onion host, which is skipped.
pub open spec fn starts(url: relay_url::UrlView, config: ProbeConfig, step: ProbeStep) -> bool {
    if is_onion(url) {
        reports(step, Ok(ProbeOutcome::Skipped(SkipReason::OnionUnreachable)))
    } else {
        &&& step.state is Connecting
        &&& step.action == (ProbeAction::Connect { limit: config.timeout })
    }
}

/// What a probe of `url` starts with: the handshake, unless the host is an
/// onion host, which is skipped.
pub fn probe_begin(url: &RelayUrl, config: ProbeConfig) -> (step: ProbeStep)
    ensures
        starts(url@, config, step),
{
    if let Some(host) = url.host_str() {
        if is_onion_host(host) {
            return finished(Ok(ProbeOutcome::Skipped(SkipReason::OnionUnreachable)));
        }
    }
    ProbeStep {
        state: ProbeState::Connecting,
        action: ProbeAction::Connect { limit: config.timeout },
    }
}

fn finished(result: ProbeResult) -> (step: ProbeStep)
    ensures
        reports(step, result),
{
    ProbeStep { state: ProbeState::Finished, action: ProbeAction::Finish { result } }
}

fn succeed(rtt_ms: u64, first_frame: Option<String>, nip11: Option<Nip11>) -> (step: ProbeStep)
    ensures
        reports_success(step, rtt_ms, text::opt_text(first_frame), nip11),
{
    finished(Ok(ProbeOutcome::Success(ProbeSuccess::new(rtt_ms, first_frame, nip11))))
}

fn close_socket(rtt_ms: u64, first_frame: Option<String>, left: Duration) -> (step: ProbeStep)
    ensures
        closes(step, rtt_ms, text::opt_text(first_frame), left.total_nanos()),
{
    ProbeStep {
        state: ProbeState::Closing { rtt_ms, first_frame },
        action: ProbeAction::CloseSocket {
            limit: Duration::from_secs(CLOSE_TIMEOUT_SECS).min(left),
        },
    }
}

fn listen(rtt_ms: u64, budget: Duration, waited: Duration, left: Duration) -> (step: ProbeStep)
    ensures
        listens_or_closes(step, rtt_ms, budget, waited, left.total_nanos()),
{
    let rest = budget.saturating_sub(waited);
    if rest.is_zero() {
        return close_socket(rtt_ms, None, left);
    }
    ProbeStep {
        state: ProbeState::Listening { rtt_ms, budget },
        action: ProbeAction::Receive { limit: rest.min(left) },
    }
}

fn connected(overall: Duration, handshake: Duration, elapsed: Duration) -> (step: ProbeStep)
    ensures
        follows_handshake(step, handshake, overall, elapsed),
{
    let rtt_ms: u64 = millis_saturating(handshake.as_millis());
    let remaining = overall.saturating_sub(elapsed);
    if remaining.is_zero() {
        return succeed(rtt_ms, None, None);
    }
    let budget = remaining.min(Duration::from_secs(FRAME_WAIT_BUDGET_SECS));
    ProbeStep {
        state: ProbeState::Asking { rtt_ms, budget },
        action: ProbeAction::SendText { body: REQ_MESSAGE, limit: remaining },
    }
}

fn received(
    rtt_ms: u64,
    budget: Duration,
    message: WsMessage,
    waited: Duration,
    left: Duration,
) -> (step: ProbeStep)
    ensures
        if left.total_nanos() > 0 {
            hears(step, rtt_ms, budget, message, waited, left.total_nanos())
        } else {
            reports_success(
                step,
                rtt_ms,
                match message {
                    WsMessage::Text { body } => recognised(body@),
                    _ => None,
                },
                None,
            )
        },
{
    match message {
        WsMessage::Text { body } => {
            let frame = recognised_kind(body.as_str());
            if left.is_zero() {
                return succeed(rtt_ms, frame, None);
            }
            match frame {
                Some(kind) => ProbeStep {
                    state: ProbeState::Leaving { rtt_ms, kind },
                    action: ProbeAction::SendText { body: CLOSE_MESSAGE, limit: left },
                },
                None => listen(rtt_ms, budget, waited, left),
            }
        },
        WsMessage::Ping { payload } => if left.is_zero() {
            succeed(rtt_ms, None, None)
        } else {
            ProbeStep {
                state: ProbeState::Answering { rtt_ms, budget },
                action: ProbeAction::SendPong { payload, limit: left },
            }
        },
        WsMessage::Close => if left.is_zero() {
            succeed(rtt_ms, None, None)
        } else {
            close_socket(rtt_ms, None, left)
        },
        WsMessage::Other => if left.is_zero() {
            succeed(rtt_ms, None, None)
        } else {
            listen(rtt_ms, budget, waited, left)
        },
    }
}

/// The frame wait goes on, unless the timeout is spent.
fn listen_on(rtt_ms: u64, budget: Duration, waited: Duration, left: Duration) -> (step: ProbeStep)
    ensures
        if left.total_nanos() > 0 {
            listens_or_closes(step, rtt_ms, budget, waited, left.total_nanos())
        } else {
            reports_success(step, rtt_ms, None, None)
        },
{
    if left.is_zero() {
        succeed(rtt_ms, None, None)
    } else {
        listen(rtt_ms, budget, waited, left)
    }
}

/// The connection is closed, unless the timeout is spent.
fn wind_up(rtt_ms: u64, first_frame: Option<String>, left: Duration) -> (step: ProbeStep)
    ensures
        if left.total_nanos() > 0 {
            closes(step, rtt_ms, text::opt_text(first_frame), left.total_nanos())
        } else {
            reports_success(step, rtt_ms, text::opt_text(first_frame), None)
        },
{
    if left.is_zero() {
        succeed(rtt_ms, first_frame, None)
    } else {
        close_socket(rtt_ms, first_frame, left)
    }
}

fn closed(
    url: &RelayUrl,
    http_timeout: Duration,
    rtt_ms: u64,
    first_frame: Option<String>,
    left: Duration,
) -> (step: ProbeStep)
    ensures
        match http_address(url@) {
            Ok(address) => if left.total_nanos() > 0 {
                fetches(
                    step,
                    rtt_ms,
                    text::opt_text(first_frame),
                    address,
                    http_timeout,
                    left.total_nanos(),
                )
            } else {
                reports_success(step, rtt_ms, text::opt_text(first_frame), None)
            },
            Err(_) => reports_success(step, rtt_ms, text::opt_text(first_frame), None),
        },
{
    match ws_to_http(url) {
        Ok(http) if !left.is_zero() => ProbeStep {
            state: ProbeState::Fetching { rtt_ms, first_frame },
            action: ProbeAction::FetchDocument { url: http, limit: http_timeout.min(left) },
        },
        _ => succeed(rtt_ms, first_frame, None),
    }
}

/// The step that follows when `event` comes of the action that goes with
/// `state`, `elapsed` after the probe started; nothing when the two do not go
/// together.
pub fn probe_next(
    url: &RelayUrl,
    config: ProbeConfig,
    state: ProbeState,
    event: ProbeEvent,
    elapsed: Duration,
) -> (next: Option<ProbeStep>)
    ensures
        match next {
            Some(step) => fits(state, event) && follows(url@, config, state, event, elapsed, step),
            None => !fits(state, event),
        },
{
    let left = config.timeout.saturating_sub(elapsed);
    match (state, event) {
        (ProbeState::Connecting, ProbeEvent::Connected { handshake }) => Some(
            connected(config.timeout, handshake, elapsed),
        ),
        (ProbeState::Connecting, ProbeEvent::ConnectTimedOut) => Some(
            finished(Err(ProbeError::Timeout(config.timeout))),
        ),
        (ProbeState::Connecting, ProbeEvent::ConnectFailed { failure }) => Some(
            finished(Err(classify_ws_error(failure))),
        ),
        (ProbeState::Asking { rtt_ms, budget }, ProbeEvent::Sent { waited }) => Some(
            listen_on(rtt_ms, budget, waited, left),
        ),
        (ProbeState::Asking { rtt_ms, .. }, ProbeEvent::SendFailed) => Some(
            wind_up(rtt_ms, None, left),
        ),
        (ProbeState::Listening { rtt_ms, budget }, ProbeEvent::Received { message, waited }) => {
            Some(received(rtt_ms, budget, message, waited, left))
        },
        (ProbeState::Listening { rtt_ms, .. }, ProbeEvent::ReceiveEnded) => Some(
            wind_up(rtt_ms, None, left),
        ),
        (ProbeState::Answering { rtt_ms, budget }, ProbeEvent::Sent { waited }) => Some(
            listen_on(rtt_ms, budget, waited, left),
        ),
        (ProbeState::Answering { rtt_ms, .. }, ProbeEvent::SendFailed) => Some(
            wind_up(rtt_ms, None, left),
        ),
        (ProbeState::Leaving { rtt_ms, kind }, ProbeEvent::Sent { .. }) => Some(
            wind_up(rtt_ms, Some(kind), left),
        ),
        (ProbeState::Leaving { rtt_ms, kind }, ProbeEvent::SendFailed) => Some(
            wind_up(rtt_ms, Some(kind), left),
        ),
        (ProbeState::Closing { rtt_ms, first_frame }, ProbeEvent::Closed) => Some(
            closed(url, config.http_timeout, rtt_ms, first_frame, left),
        ),
        (ProbeState::Fetching { rtt_ms, first_frame }, ProbeEvent::Document { status, document }) => {
            let nip11 = match status {
                Some(code) => if is_success_status(code) {
                    document
                } else {
                    None
                },
                None => None,
            };
            Some(succeed(rtt_ms, first_frame, nip11))
        },
        _ => None,
    }
}

// ---- laws -----------------------------------------------------------------

/// Once the handshake has completed, whatever happens next the probe ends in
/// success, with the handshake time that was measured: neither a missing frame
/// nor a missing document fails it.
pub proof fn law_connected_probe_succeeds(
    url: relay_url::UrlView,
    config: ProbeConfig,
    state: ProbeState,
    event: ProbeEvent,
    elapsed: Duration,
    step: ProbeStep,
)
    requires
        !(state is Connecting),
        fits(state, event),
        follows(url, config, state, event, elapsed, step),
    ensures
        !(step.state is Connecting),
        step.action matches ProbeAction::Finish { result } ==> (result matches Ok(
            ProbeOutcome::Success(success),
        ) && measured(state) == Some(success.rtt_ms)),
        !(step.action is Finish) ==> measured(step.state) == measured(state),
{
}

/// The frame budget that a state carries.
pub open spec fn awaiting(state: ProbeState) -> Option<Duration> {
    match state {
        ProbeState::Asking { budget, .. } => Some(budget),
        ProbeState::Listening { budget, .. } => Some(budget),
        ProbeState::Answering { budget, .. } => Some(budget),
        _ => None,
    }
}

/// The budget of the frame wait is set once, at the handshake, to no more than
/// what is left of the overall timeout and no more than the frame wait budget;
/// no single wait is longer.
pub proof fn law_frame_wait_is_bounded(
    url: relay_url::UrlView,
    config: ProbeConfig,
    state: ProbeState,
    event: ProbeEvent,
    elapsed: Duration,
    step: ProbeStep,
)
    requires
        fits(state, event),
        follows(url, config, state, event, elapsed, step),
    ensures
        state is Connecting ==> (awaiting(step.state) matches Some(budget) ==> budget.total_nanos()
            <= left_of(config.timeout, elapsed) && budget.total_nanos() <= FRAME_WAIT_BUDGET_SECS
            * duration::SECOND),
        !(state is Connecting) && awaiting(step.state) is Some ==> awaiting(step.state) == awaiting(
            state,
        ),
        step.action matches ProbeAction::Receive { limit } ==> (awaiting(state) matches Some(budget)
            && limit.total_nanos() <= budget.total_nanos()),
{
}

/// How long an action may take; a verdict takes no time.
pub open spec fn limit_of(action: ProbeAction) -> int {
    match action {
        ProbeAction::Connect { limit } => limit.total_nanos(),
        ProbeAction::SendText { limit, .. } => limit.total_nanos(),
        ProbeAction::Receive { limit } => limit.total_nanos(),
        ProbeAction::SendPong { limit, .. } => limit.total_nanos(),
        ProbeAction::CloseSocket { limit } => limit.total_nanos(),
        ProbeAction::FetchDocument { limit, .. } => limit.total_nanos(),
        ProbeAction::Finish { .. } => 0,
    }
}

/// No action is given more time than is left of the overall timeout when it is
/// decided on.
pub proof fn law_limits_are_within_what_is_left(
    url: relay_url::UrlView,
    config: ProbeConfig,
    state: ProbeState,
    event: ProbeEvent,
    elapsed: Duration,
    step: ProbeStep,
)
    requires
        fits(state, event),
        follows(url, config, state, event, elapsed, step),
    ensures
        limit_of(step.action) <= left_of(config.timeout, elapsed),
        left_of(config.timeout, elapsed) == 0 ==> step.action is Finish,
{
}

/// `steps` are the steps of a probe so far: `events[i]` came of the action of
/// `steps[i]` at `times[i]`, within the limit of that action, and led to
/// `steps[i + 1]`.
pub open spec fn is_run(
    url: relay_url::UrlView,
    config: ProbeConfig,
    steps: Seq<ProbeStep>,
    events: Seq<ProbeEvent>,
    times: Seq<Duration>,
) -> bool {
    &&& steps.len() == events.len() + 1
    &&& times.len() == events.len()
    &&& starts(url, config, steps[0])
    &&& forall|i: int|
        0 <= i < events.len() ==> {
            &&& fits(steps[i].state, #[trigger] events[i])
            &&& follows(url, config, steps[i].state, events[i], times[i], steps[i + 1])
            &&& times[i].total_nanos() <= begun_at(times, i) + limit_of(steps[i].action)
        }
}

/// When the action that `times[i]` ends was begun.
pub open spec fn begun_at(times: Seq<Duration>, i: int) -> int {
    if i <= 0 {
        0
    } else {
        times[i - 1].total_nanos()
    }
}

/// The overall timeout is a hard limit for the entire probe: where every action
/// keeps to its limit, no event, and so no verdict, comes after it.
pub proof fn law_probe_ends_within_the_timeout(
    url: relay_url::UrlView,
    config: ProbeConfig,
    steps: Seq<ProbeStep>,
    events: Seq<ProbeEvent>,
    times: Seq<Duration>,
    i: int,
)
    requires
        is_run(url, config, steps, events, times),
        0 <= i < events.len(),
    ensures
        times[i].total_nanos() <= config.timeout.total_nanos(),
    decreases i,
{
    assert(fits(steps[i].state, events[i]));
    if i > 0 {
        law_probe_ends_within_the_timeout(url, config, steps, events, times, i - 1);
        assert(fits(steps[i - 1].state, events[i - 1]));
        law_limits_are_within_what_is_left(
            url,
            config,
            steps[i - 1].state,
            events[i - 1],
            times[i - 1],
            steps[i],
        );
    }
}

/// A frame is reported only where a protocol frame was received, and it is
/// that one.
pub proof fn law_reported_frame_was_received(
    url: relay_url::UrlView,
    config: ProbeConfig,
    state: ProbeState,
    event: ProbeEvent,
    elapsed: Duration,
    step: ProbeStep,
)
    requires
        fits(state, event),
        follows(url, config, state, event, elapsed, step),
    ensures
        seen_frame(step) matches Some(kind) ==> seen_in(state) == Some(kind) || (
        event matches ProbeEvent::Received { message: WsMessage::Text { body }, .. } && recognised(
            body@,
        ) == Some(kind)),
        seen_in(state) matches Some(kind) ==> seen_frame(step) == Some(kind),
{
}

/// The frame that a step carries or reports.
pub open spec fn seen_frame(step: ProbeStep) -> Option<Seq<char>> {
    match step.action {
        ProbeAction::Finish { result: Ok(ProbeOutcome::Success(success)) } => text::opt_text(
            success.first_frame,
        ),
        _ => seen_in(step.state),
    }
}

/// Every pong repeats the payload of the ping that it answers.
pub proof fn law_pongs_repeat_the_payload(
    url: relay_url::UrlView,
    config: ProbeConfig,
    state: ProbeState,
    event: ProbeEvent,
    elapsed: Duration,
    step: ProbeStep,
)
    requires
        fits(state, event),
        follows(url, config, state, event, elapsed, step),
    ensures
        step.action matches ProbeAction::SendPong { payload: answer, .. } ==> (
        event matches ProbeEvent::Received { message: WsMessage::Ping { payload }, .. } && answer@
            == payload@),
{
}

/// How far a state is from the verdict.
pub open spec fn distance(state: ProbeState) -> nat {
    match state {
        ProbeState::Connecting => 7,
        ProbeState::Asking { .. } => 6,
        ProbeState::Listening { .. } => 5,
        ProbeState::Answering { .. } => 5,
        ProbeState::Leaving { .. } => 4,
        ProbeState::Closing { .. } => 3,
        ProbeState::Fetching { .. } => 2,
        ProbeState::Finished => 0,
    }
}

/// A finished step and no other carries the verdict. Every step brings the
/// verdict nearer, except that listening, with pings answered, can go on.
pub proof fn law_probe_moves_on(
    url: relay_url::UrlView,
    config: ProbeConfig,
    state: ProbeState,
    event: ProbeEvent,
    elapsed: Duration,
    step: ProbeStep,
)
    requires
        fits(state, event),
        follows(url, config, state, event, elapsed, step),
    ensures
        step.state is Finished <==> step.action is Finish,
        distance(step.state) < distance(state) || ((state is Listening || state is Answering) && (
        step.state is Listening || step.state is Answering)),
{
}

/// A handshake that the server refuses with a 4xx status, and one that fails on
/// a name lookup, never counts against the relay; any other status does.
pub proof fn law_environment_is_not_blamed(failure: WsFailure)
    ensures
        classified(failure).is_environmental() <==> (failure matches WsFailure::Http { status }
            && 400 <= status < 500) || (failure matches WsFailure::Io { message } && dns_failure(
            message@,
        )),
{
}

/// The hosts that are skipped are those on the Tor network.
pub proof fn law_onion_hosts_are_tor(host: Seq<char>)
    ensures
        onion_host(host) <==> model::network_of(Some(host)) == model::Network::Tor,
{
}

// ---- what a probe reports -------------------------------------------------

/// A fetched document is reported as it came: behind an answer with a status from
/// 200 to 299 that held one, each of its fields is the document's; behind any other
/// answer there is none. The round trip and the frame are those of the state.
pub proof fn law_documents_are_reported(
    url: relay_url::UrlView,
    config: ProbeConfig,
    state: ProbeState,
    event: ProbeEvent,
    elapsed: Duration,
    step: ProbeStep,
)
    requires
        fits(state, event),
        follows(url, config, state, event, elapsed, step),
        state is Fetching,
    ensures
        event matches ProbeEvent::Document { status, document } && state matches ProbeState::Fetching {
            rtt_ms,
            first_frame,
        } && step.action matches ProbeAction::Finish {
            result: Ok(ProbeOutcome::Success(success)),
        } && {
            &&& success.rtt_ms == rtt_ms
            &&& success.first_frame is Some <==> first_frame is Some
            &&& first_frame is Some ==> success.first_frame->0@ == first_frame->0@
            &&& status is Some && 200 <= status->0 <= 299 && document is Some ==> {
                &&& success.nip11 is Some
                &&& success.nip11->0.name == document->0.name
                &&& success.nip11->0.software == document->0.software
                &&& success.nip11->0.version == document->0.version
                &&& success.nip11->0.supported_nips == document->0.supported_nips
            }
            &&& !(status is Some && 200 <= status->0 <= 299 && document is Some)
                ==> success.nip11 is None
        },
{
}

/// A document is reported only behind the answer to its request.
pub proof fn law_documents_come_from_answers(
    url: relay_url::UrlView,
    config: ProbeConfig,
    state: ProbeState,
    event: ProbeEvent,
    elapsed: Duration,
    step: ProbeStep,
)
    requires
        fits(state, event),
        follows(url, config, state, event, elapsed, step),
    ensures
        step.action matches ProbeAction::Finish { result: Ok(ProbeOutcome::Success(success)) } ==> (
        success.nip11 is Some ==> state is Fetching && event is Document),
{
}

/// While there is time left, a completed handshake is followed by the subscription,
/// for which all the time that is left may be used; the round trip is the time of
/// the handshake in milliseconds, and the frame wait gets what is left, but at most
/// five seconds. Without time left the probe is over.
pub proof fn law_handshakes_are_followed_by_the_subscription(
    url: relay_url::UrlView,
    config: ProbeConfig,
    state: ProbeState,
    event: ProbeEvent,
    elapsed: Duration,
    step: ProbeStep,
)
    requires
        fits(state, event),
        follows(url, config, state, event, elapsed, step),
        state is Connecting,
        event is Connected,
    ensures
        ({
            let millis = event->handshake.total_nanos() / 1_000_000;
            let rtt = if millis <= 18_446_744_073_709_551_615 {
                millis
            } else {
                18_446_744_073_709_551_615
            };
            let left = config.timeout.total_nanos() - elapsed.total_nanos();
            &&& left > 0 ==> {
                &&& step.state is Asking
                &&& step.state->Asking_rtt_ms == rtt
                &&& step.state->Asking_budget.total_nanos() == if left <= 5_000_000_000 {
                    left
                } else {
                    5_000_000_000
                }
                &&& step.action is SendText
                &&& step.action->body@
                    == "[\"REQ\",\"relays-probe\",{\"kinds\":[1],\"limit\":1}]"@
                &&& step.action->SendText_limit.total_nanos() == left
            }
            &&& left <= 0 ==> (step.action matches ProbeAction::Finish {
                result: Ok(ProbeOutcome::Success(success)),
            } && success.rtt_ms == rtt && success.first_frame is None && success.nip11 is None)
        }),
{
}

/// A handshake that does not complete ends the probe with an error: one that took too
/// long with the limit of the probe, one that failed with the class of its failure.
pub proof fn law_failed_handshakes_are_the_verdict(
    url: relay_url::UrlView,
    config: ProbeConfig,
    state: ProbeState,
    event: ProbeEvent,
    elapsed: Duration,
    step: ProbeStep,
)
    requires
        fits(state, event),
        follows(url, config, state, event, elapsed, step),
        state is Connecting,
        !(event is Connected),
    ensures
        step.state is Finished,
        event is ConnectTimedOut ==> step.action == (ProbeAction::Finish {
            result: Err(ProbeError::Timeout(config.timeout)),
        }),
        event matches ProbeEvent::ConnectFailed { failure } ==> step.action == (
        ProbeAction::Finish { result: Err(classified(failure)) }),
{
}

/// `kind` names a frame of the protocol.
pub open spec fn names_frame(kind: Seq<char>) -> bool {
    kind == "EVENT"@ || kind == "EOSE"@ || kind == "NOTICE"@ || kind == "AUTH"@ || kind == "OK"@
        || kind == "CLOSED"@ || kind == "COUNT"@
}

/// A message is recognised exactly when it is a JSON array that starts with the
/// name of a protocol frame, and by that name.
pub proof fn law_recognised_messages(message: Seq<char>)
    ensures
        json::document(message) matches Some(json::JsonView::Array(items)) ==> (items.len() > 0 ==> (
        items[0] matches json::JsonView::Text(kind) ==> recognised(message) == if names_frame(
            kind,
        ) {
            Some(kind)
        } else {
            None
        })),
        recognised(message) matches Some(kind) ==> (json::document(message) matches Some(
            json::JsonView::Array(items),
        ) && items.len() > 0 && items[0] == json::JsonView::Text(kind) && names_frame(kind)),
{
}

/// The kind of a frame is the text that its array starts with.
pub proof fn law_frame_kinds(value: json::JsonView)
    ensures
        value matches json::JsonView::Array(items) ==> (items.len() > 0 ==> (
        items[0] matches json::JsonView::Text(kind) ==> kind_of(value) == Some(kind))),
        kind_of(value) matches Some(kind) ==> (value matches json::JsonView::Array(items)
            && items.len() > 0 && items[0] == json::JsonView::Text(kind)),
{
}

/// While there is time left: behind a recognised message the subscription is ended
/// and the kind is kept; a ping is answered with its payload; a close message closes
/// the connection; any other message is passed over, and the wait goes on for what
/// is left of the frame budget and of the timeout, or ends with the budget.
pub proof fn law_messages_are_heard(
    url: relay_url::UrlView,
    config: ProbeConfig,
    state: ProbeState,
    event: ProbeEvent,
    elapsed: Duration,
    step: ProbeStep,
)
    requires
        fits(state, event),
        follows(url, config, state, event, elapsed, step),
        state is Listening,
        event is Received,
        elapsed.total_nanos() < config.timeout.total_nanos(),
    ensures
        ({
            let rtt = state->Listening_rtt_ms;
            let message = event->message;
            let left = config.timeout.total_nanos() - elapsed.total_nanos();
            let rest = state->Listening_budget.total_nanos() - event->Received_waited.total_nanos();
            let heard = message is Text && recognised(message->Text_body@) is Some;
            let passed = (message is Text && recognised(message->Text_body@) is None)
                || message is Other;
            &&& heard ==> {
                &&& step.state is Leaving
                &&& step.state->Leaving_rtt_ms == rtt
                &&& Some(step.state->kind@) == recognised(message->Text_body@)
                &&& step.action is SendText
                &&& step.action->body@ == "[\"CLOSE\",\"relays-probe\"]"@
                &&& step.action->SendText_limit.total_nanos() == left
            }
            &&& message is Ping ==> {
                &&& step.state is Answering
                &&& step.state->Answering_rtt_ms == rtt
                &&& step.state->Answering_budget == state->Listening_budget
                &&& step.action is SendPong
                &&& step.action->payload@ == message->payload@
                &&& step.action->SendPong_limit.total_nanos() == left
            }
            &&& passed && rest > 0 ==> {
                &&& step.state == state
                &&& step.action is Receive
                &&& step.action->Receive_limit.total_nanos() == if rest <= left {
                    rest
                } else {
                    left
                }
            }
            &&& message is Close || (passed && rest <= 0) ==> {
                &&& step.state is Closing
                &&& step.state->Closing_rtt_ms == rtt
                &&& step.state->Closing_first_frame is None
                &&& step.action is CloseSocket
                &&& step.action->CloseSocket_limit.total_nanos() == if left <= 1_000_000_000 {
                    left
                } else {
                    1_000_000_000
                }
            }
        }),
{
}

/// While there is time left: once the subscription or a pong is out, the wait goes
/// on for what is left of the frame budget and of the timeout; when the message did
/// not go out, nothing more arrives or the budget is spent, the connection is closed
/// without a frame.
pub proof fn law_waits_go_on_until_the_budget_is_spent(
    url: relay_url::UrlView,
    config: ProbeConfig,
    state: ProbeState,
    event: ProbeEvent,
    elapsed: Duration,
    step: ProbeStep,
)
    requires
        fits(state, event),
        follows(url, config, state, event, elapsed, step),
        state is Asking || state is Answering || (state is Listening && event is ReceiveEnded),
        elapsed.total_nanos() < config.timeout.total_nanos(),
    ensures
        ({
            let left = config.timeout.total_nanos() - elapsed.total_nanos();
            let rtt = measured(state)->0;
            let budget = awaiting(state)->0;
            let rest = budget.total_nanos() - event->Sent_waited.total_nanos();
            &&& event is Sent && rest > 0 ==> {
                &&& step.state == (ProbeState::Listening { rtt_ms: rtt, budget })
                &&& step.action is Receive
                &&& step.action->Receive_limit.total_nanos() == if rest <= left {
                    rest
                } else {
                    left
                }
            }
            &&& !(event is Sent) || rest <= 0 ==> {
                &&& step.state is Closing
                &&& step.state->Closing_rtt_ms == rtt
                &&& step.state->Closing_first_frame is None
                &&& step.action is CloseSocket
                &&& step.action->CloseSocket_limit.total_nanos() == if left <= 1_000_000_000 {
                    left
                } else {
                    1_000_000_000
                }
            }
        }),
{
}

/// While there is time left: once a frame was heard, the connection is closed with
/// it, whether or not the goodbye went out.
pub proof fn law_heard_frames_are_kept(
    url: relay_url::UrlView,
    config: ProbeConfig,
    state: ProbeState,
    event: ProbeEvent,
    elapsed: Duration,
    step: ProbeStep,
)
    requires
        fits(state, event),
        follows(url, config, state, event, elapsed, step),
        state is Leaving,
        elapsed.total_nanos() < config.timeout.total_nanos(),
    ensures
        step.state is Closing,
        step.state->Closing_rtt_ms == state->Leaving_rtt_ms,
        step.state->Closing_first_frame is Some,
        step.state->Closing_first_frame->0@ == state->kind@,
        step.action is CloseSocket,
        step.action->CloseSocket_limit.total_nanos() <= 1_000_000_000,
{
}

/// While there is time left, a closed connection is followed by the request for the
/// document at the HTTP address of the relay: `https` for `wss` and `http` for `ws`,
/// and all that follows the scheme. It gets the HTTP timeout, but no more than is
/// left. Other addresses have no document.
pub proof fn law_documents_are_requested(
    scheme: Seq<char>,
    rest: Seq<char>,
    host: Option<Seq<char>>,
    config: ProbeConfig,
    state: ProbeState,
    event: ProbeEvent,
    elapsed: Duration,
    step: ProbeStep,
)
    requires
        fits(state, event),
        follows(
            relay_url::UrlView { href: scheme + rest, scheme, host },
            config,
            state,
            event,
            elapsed,
            step,
        ),
        state is Closing,
        elapsed.total_nanos() < config.timeout.total_nanos(),
        3 <= rest.len() <= 4_294_967_000,
    ensures
        ({
            let left = config.timeout.total_nanos() - elapsed.total_nanos();
            let frame = state->Closing_first_frame;
            &&& (scheme == "wss"@ || scheme == "ws"@) && host is Some ==> {
                &&& step.state is Fetching
                &&& step.state->Fetching_rtt_ms == state->Closing_rtt_ms
                &&& step.state->Fetching_first_frame is Some <==> frame is Some
                &&& frame is Some ==> step.state->Fetching_first_frame->0@ == frame->0@
                &&& step.action is FetchDocument
                &&& scheme == "wss"@ ==> step.action->url@.href == "https"@ + rest
                &&& scheme == "ws"@ ==> step.action->url@.href == "http"@ + rest
                &&& step.action->url@.host == host
                &&& step.action->FetchDocument_limit.total_nanos()
                    == if config.http_timeout.total_nanos() <= left {
                    config.http_timeout.total_nanos()
                } else {
                    left
                }
            }
            &&& (scheme != "wss"@ && scheme != "ws"@) || host is None ==> (
            step.action matches ProbeAction::Finish { result: Ok(ProbeOutcome::Success(success)) }
                && success.rtt_ms == state->Closing_rtt_ms && (success.first_frame is Some
                <==> frame is Some) && (frame is Some ==> success.first_frame->0@ == frame->0@)
                && success.nip11 is None)
        }),
{
    let url = relay_url::UrlView { href: scheme + rest, scheme, host };
    reveal_strlit("ws");
    reveal_strlit("wss");
    relay_url::law_rewriting_keeps_the_rest(scheme, rest, host, "https"@);
    relay_url::law_rewriting_keeps_the_rest(scheme, rest, host, "http"@);
    if scheme == "wss"@ || scheme == "ws"@ {
        relay_url::law_ordinary_addresses_are_rewritable(url);
        assert("ws"@.len() != "wss"@.len());
    }
}

/// When the timeout is spent, a probe that got past its handshake is over, and
/// reports its round trip and the frame that it heard last or before.
pub proof fn law_spent_timeouts_end_the_probe(
    url: relay_url::UrlView,
    config: ProbeConfig,
    state: ProbeState,
    event: ProbeEvent,
    elapsed: Duration,
    step: ProbeStep,
)
    requires
        fits(state, event),
        follows(url, config, state, event, elapsed, step),
        !(state is Connecting),
        !(state is Fetching),
        elapsed.total_nanos() >= config.timeout.total_nanos(),
    ensures
        step.state is Finished,
        step.action matches ProbeAction::Finish { result: Ok(ProbeOutcome::Success(success)) } && {
            &&& measured(state) == Some(success.rtt_ms)
            &&& success.nip11 is None
            &&& state is Asking || state is Answering ==> success.first_frame is None
            &&& state is Leaving ==> success.first_frame is Some && success.first_frame->0@
                == state->kind@
            &&& state is Closing ==> (success.first_frame is Some
                <==> state->Closing_first_frame is Some) && (success.first_frame is Some
                ==> success.first_frame->0@ == state->Closing_first_frame->0@)
            &&& state is Listening ==> {
                let heard = event is Received && event->message is Text && recognised(
                    event->message->Text_body@,
                ) is Some;
                &&& heard ==> success.first_frame is Some && Some(success.first_frame->0@)
                    == recognised(event->message->Text_body@)
                &&& !heard ==> success.first_frame is None
            }
        },
{
}

/// The round trip and the budget that a state carries are its own.
pub proof fn law_states_carry_their_measure(state: ProbeState)
    ensures
        state is Connecting || state is Finished ==> measured(state) is None,
        state matches ProbeState::Asking { rtt_ms, budget } ==> measured(state) == Some(rtt_ms)
            && awaiting(state) == Some(budget),
        state matches ProbeState::Listening { rtt_ms, budget } ==> measured(state) == Some(rtt_ms)
            && awaiting(state) == Some(budget),
        state matches ProbeState::Answering { rtt_ms, budget } ==> measured(state) == Some(rtt_ms)
            && awaiting(state) == Some(budget),
        state matches ProbeState::Leaving { rtt_ms, .. } ==> measured(state) == Some(rtt_ms),
        state matches ProbeState::Closing { rtt_ms, .. } ==> measured(state) == Some(rtt_ms),
        state matches ProbeState::Fetching { rtt_ms, .. } ==> measured(state) == Some(rtt_ms),
{
}

/// Each action has its own outcomes, and nothing comes after the verdict.
pub proof fn law_events_fit_their_actions(state: ProbeState, event: ProbeEvent)
    ensures
        event is Connected || event is ConnectTimedOut || event is ConnectFailed ==> (fits(
            state,
            event,
        ) <==> state is Connecting),
        event is Sent || event is SendFailed ==> (fits(state, event) <==> state is Asking
            || state is Answering || state is Leaving),
        event is Received || event is ReceiveEnded ==> (fits(state, event) <==> state is Listening),
        event is Closed ==> (fits(state, event) <==> state is Closing),
        event is Document ==> (fits(state, event) <==> state is Fetching),
{
}

/// A host is an onion host exactly when what follows its last dot is `onion`, in
/// capital or small letters.
pub proof fn law_onion_hosts(before: Seq<char>, label: Seq<char>)
    requires
        !label.contains('.'),
    ensures
        onion_host(before.push('.') + label) <==> model::spells(label, "onion"@),
        !onion_host(label),
{
    text::law_after_last_mark(before, '.', label);
    text::law_equal_but_for_case(label, "onion"@);
    reveal_strlit("onion");
}

/// A probe skips onion hosts and opens the connection to all others, for which it
/// has the whole timeout.
pub proof fn law_probes_start_with_the_handshake(
    url: relay_url::UrlView,
    before: Seq<char>,
    label: Seq<char>,
    config: ProbeConfig,
    step: ProbeStep,
)
    requires
        starts(url, config, step),
        !label.contains('.'),
    ensures
        url.host == Some(before.push('.') + label) && model::spells(label, "onion"@)
            ==> step.action == (ProbeAction::Finish {
            result: Ok(ProbeOutcome::Skipped(SkipReason::OnionUnreachable)),
        }),
        url.host == Some(before.push('.') + label) && !model::spells(label, "onion"@)
            ==> step.state is Connecting && step.action == (ProbeAction::Connect {
            limit: config.timeout,
        }),
        url.host == Some(label) || url.host is None ==> step.state is Connecting && step.action == (
        ProbeAction::Connect { limit: config.timeout }),
{
    law_onion_hosts(before, label);
}

/// The HTTP address of a relay keeps all but the scheme; addresses of other schemes
/// and without a host have none.
pub proof fn law_http_addresses(scheme: Seq<char>, rest: Seq<char>, host: Option<Seq<char>>)
    requires
        3 <= rest.len() <= 4_294_967_000,
    ensures
        ({
            let url = relay_url::UrlView { href: scheme + rest, scheme, host };
            &&& scheme == "wss"@ && host is Some ==> http_address(url) == Ok::<
                relay_url::UrlView,
                Seq<char>,
            >(relay_url::UrlView { href: "https"@ + rest, scheme: "https"@, host })
            &&& scheme == "ws"@ && host is Some ==> http_address(url) == Ok::<
                relay_url::UrlView,
                Seq<char>,
            >(relay_url::UrlView { href: "http"@ + rest, scheme: "http"@, host })
            &&& (scheme == "wss"@ || scheme == "ws"@) && host is None ==> http_address(url) == Err::<
                relay_url::UrlView,
                Seq<char>,
            >("cannot rewrite scheme for "@ + scheme + rest)
            &&& scheme != "wss"@ && scheme != "ws"@ ==> http_address(url) == Err::<
                relay_url::UrlView,
                Seq<char>,
            >("unsupported scheme: "@ + scheme)
        }),
{
    let url = relay_url::UrlView { href: scheme + rest, scheme, host };
    reveal_strlit("ws");
    reveal_strlit("wss");
    relay_url::law_rewriting_keeps_the_rest(scheme, rest, host, "https"@);
    relay_url::law_rewriting_keeps_the_rest(scheme, rest, host, "http"@);
    assert("cannot rewrite scheme for "@ + (scheme + rest) =~= "cannot rewrite scheme for "@ + scheme
        + rest);
    if scheme == "wss"@ || scheme == "ws"@ {
        relay_url::law_ordinary_addresses_are_rewritable(url);
        assert("ws"@.len() != "wss"@.len());
    }
}

/// `part` stands in `message`, in capital or small letters.
pub open spec fn mentions(message: Seq<char>, part: Seq<char>) -> bool {
    exists|at: int|
        0 <= at <= message.len() - part.len() && model::spells(
            #[trigger] message.subrange(at, at + part.len()),
            part,
        )
}

proof fn lemma_mentions(message: Seq<char>, part: Seq<char>)
    requires
        forall|i: int| 0 <= i < part.len() ==> !('A' <= #[trigger] part[i] <= 'Z'),
    ensures
        text::contains_text(text::ascii_lower(message), part) <==> mentions(message, part),
{
    let lower = text::ascii_lower(message);
    if text::contains_text(lower, part) {
        let at = choose|at: int| text::occurs_at(lower, part, at);
        let found = message.subrange(at, at + part.len());
        assert forall|i: int| 0 <= i < found.len() implies (#[trigger] found[i] == part[i] || ('A'
            <= found[i] <= 'Z' && found[i] as int + 32 == part[i] as int)) by {
            text::law_lower_case(message, at + i);
            assert(lower.subrange(at, at + part.len())[i] == part[i]);
        }
        assert(model::spells(message.subrange(at, at + part.len()), part));
    }
    if mentions(message, part) {
        let at = choose|at: int|
            0 <= at <= message.len() - part.len() && model::spells(
                #[trigger] message.subrange(at, at + part.len()),
                part,
            );
        let found = message.subrange(at, at + part.len());
        let low = lower.subrange(at, at + part.len());
        assert forall|i: int| 0 <= i < part.len() implies low[i] == part[i] by {
            text::law_lower_case(message, at + i);
            assert(found[i] == message[at + i]);
            assert(!('A' <= part[i] <= 'Z'));
        }
        assert(low =~= part);
        assert(text::occurs_at(lower, part, at));
    }
}

/// What tells a failed lookup: any of four turns of phrase, in capital or small
/// letters.
pub proof fn law_lookup_failures(message: Seq<char>)
    ensures
        dns_failure(message) <==> mentions(message, "lookup address"@) || mentions(
            message,
            "name resolution"@,
        ) || mentions(message, "failed to resolve"@) || mentions(message, "no address associated"@),
{
    reveal_strlit("lookup address");
    reveal_strlit("name resolution");
    reveal_strlit("failed to resolve");
    reveal_strlit("no address associated");
    lemma_mentions(message, "lookup address"@);
    lemma_mentions(message, "name resolution"@);
    lemma_mentions(message, "failed to resolve"@);
    lemma_mentions(message, "no address associated"@);
}

/// What tells a failed encryption: any of three turns of phrase, in capital or small
/// letters.
pub proof fn law_encryption_failures(message: Seq<char>)
    ensures
        tls_failure(message) <==> mentions(message, "certificate"@) || mentions(message, "tls"@)
            || mentions(message, "fatal alert"@),
{
    reveal_strlit("certificate");
    reveal_strlit("tls");
    reveal_strlit("fatal alert");
    lemma_mentions(message, "certificate"@);
    lemma_mentions(message, "tls"@);
    lemma_mentions(message, "fatal alert"@);
}

/// How a handshake failure is classified: refusals with a status from 400 to 499 and
/// failed lookups are the surroundings', anything else is told apart by what broke.
/// The status and the words are kept.
pub proof fn law_classes_of_failures(failure: WsFailure)
    ensures
        failure matches WsFailure::Http { status } ==> classified(failure) == if 400 <= status
            <= 499 {
            ProbeError::Forbidden { status }
        } else {
            ProbeError::UnexpectedStatus { status }
        },
        failure matches WsFailure::Io { message } ==> {
            let lookup = mentions(message@, "lookup address"@) || mentions(
                message@,
                "name resolution"@,
            ) || mentions(message@, "failed to resolve"@) || mentions(
                message@,
                "no address associated"@,
            );
            let encryption = mentions(message@, "certificate"@) || mentions(message@, "tls"@)
                || mentions(message@, "fatal alert"@);
            &&& lookup ==> classified(failure) == ProbeError::Dns(message)
            &&& !lookup && encryption ==> classified(failure) == ProbeError::Tls(message)
            &&& !lookup && !encryption ==> classified(failure) == ProbeError::Other(message)
        },
        failure matches WsFailure::Url { message } ==> classified(failure) == ProbeError::InvalidUrl(
            message,
        ),
        failure matches WsFailure::HttpFormat { message } ==> classified(failure)
            == ProbeError::InvalidUrl(message),
        failure matches WsFailure::Protocol { message } ==> classified(failure)
            == ProbeError::Protocol(message),
        failure matches WsFailure::AttackAttempt { message } ==> classified(failure)
            == ProbeError::Protocol(message),
        failure matches WsFailure::Other { message } ==> {
            let encryption = mentions(message@, "certificate"@) || mentions(message@, "tls"@)
                || mentions(message@, "fatal alert"@);
            &&& encryption ==> classified(failure) == ProbeError::Tls(message)
            &&& !encryption ==> classified(failure) == ProbeError::Other(message)
        },
{
    if let WsFailure::Io { message } = failure {
        law_lookup_failures(message@);
        law_encryption_failures(message@);
    }
    if let WsFailure::Other { message } = failure {
        law_encryption_failures(message@);
    }
}

/// The statuses that mean success are those from 200 to 299.
pub proof fn law_success_statuses(status: u16)
    ensures
        success_status(status) <==> 200 <= status <= 299,
{
}

/// A handshake time is counted in whole milliseconds, as far as they fit.
pub proof fn law_handshake_times(handshake: Duration)
    ensures
        handshake_millis(handshake) * 1_000_000 <= handshake.total_nanos(),
        handshake_millis(handshake) <= 18_446_744_073_709_551_615,
        handshake.total_nanos() < (handshake_millis(handshake) + 1) * 1_000_000
            || handshake_millis(handshake) == 18_446_744_073_709_551_615,
{
}

/// The kind of a message is that of the document that it spells; a message that spells
/// none has none.
pub proof fn law_kinds_of_messages(message: Seq<char>)
    ensures
        json::document(message) is None ==> frame_kind(message) is None,
        json::document(message) matches Some(value) ==> frame_kind(message) == kind_of(value),
{
}

} // verus!
