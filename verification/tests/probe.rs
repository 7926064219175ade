use awesome_nostr_relays::duration::Duration;
use awesome_nostr_relays::json::Json;
use awesome_nostr_relays::probe::{
    classify_ws_error, first_text, is_dns_failure, is_onion_host, is_protocol_frame,
    is_success_status, is_tls_failure, millis_saturating, parse_frame_kind, probe_begin,
    probe_next, recognised_kind, ws_to_http, ProbeAction, ProbeEvent, ProbeState, ProbeStep,
    WsFailure, WsMessage, CLOSE_MESSAGE, REQ_MESSAGE, USER_AGENT,
};
use awesome_nostr_relays::probe_types::{
    Nip11, ProbeConfig, ProbeError, ProbeOutcome, SkipReason,
};
use awesome_nostr_relays::relay_url::RelayUrl;

fn url(text: &str) -> RelayUrl {
    RelayUrl::parse(text).expect("valid url")
}

fn secs(n: u64) -> Duration {
    Duration::from_secs(n)
}

fn config() -> ProbeConfig {
    ProbeConfig::from_timeout(secs(10))
}

fn next_at(state: ProbeState, event: ProbeEvent, elapsed: Duration) -> ProbeStep {
    probe_next(&url("wss://example.com/x"), config(), state, event, elapsed).expect("event fits")
}

fn next(state: ProbeState, event: ProbeEvent) -> ProbeStep {
    next_at(state, event, secs(1))
}

#[test]
fn is_onion_host_detects_tld() {
    assert!(is_onion_host("abc.onion"));
    assert!(is_onion_host("ABC.ONION"));
    assert!(is_onion_host("sub.abc.onion"));
}

#[test]
fn is_onion_host_rejects_non_tor() {
    assert!(!is_onion_host("example.com"));
    assert!(!is_onion_host("onion.example.com"));
    assert!(!is_onion_host(""));
    assert!(!is_onion_host("onion"));
}

#[test]
fn ws_to_http_rewrites_scheme() {
    let ws = RelayUrl::parse("ws://example.com/").expect("valid ws url");
    let wss = RelayUrl::parse("wss://example.com/").expect("valid wss url");
    assert_eq!(ws_to_http(&ws).expect("rewrite ws").scheme(), "http");
    assert_eq!(ws_to_http(&wss).expect("rewrite wss").scheme(), "https");
}

#[test]
fn ws_to_http_keeps_everything_but_the_scheme() {
    let http = ws_to_http(&url("wss://user@Example.com:8443/a/b?q=1#f")).expect("rewrite");
    assert_eq!(http.as_str(), "https://user@example.com:8443/a/b?q=1#f");
    assert_eq!(http.host_str(), Some("example.com"));
    let http = ws_to_http(&url("ws://example.com:80/")).expect("rewrite");
    assert_eq!(http.as_str(), "http://example.com/");
}

#[test]
fn ws_to_http_rejects_unsupported_scheme() {
    let url = RelayUrl::parse("https://example.com/").expect("valid https url");
    let err = ws_to_http(&url).expect_err("https must not be accepted");
    assert!(matches!(err, ProbeError::InvalidUrl(_)));
}

#[test]
fn ws_to_http_names_the_unsupported_scheme() {
    let err = ws_to_http(&url("https://example.com/")).expect_err("https");
    assert_eq!(err.message(), "invalid url: unsupported scheme: https");
}

#[test]
fn is_protocol_frame_covers_full_nip_set() {
    for kind in ["EVENT", "EOSE", "NOTICE", "AUTH", "OK", "CLOSED", "COUNT"] {
        assert!(is_protocol_frame(kind), "{kind} should be recognised");
    }
}

#[test]
fn is_protocol_frame_rejects_unknown_kinds() {
    assert!(!is_protocol_frame("REQ"));
    assert!(!is_protocol_frame("CLOSE"));
    assert!(!is_protocol_frame(""));
    assert!(!is_protocol_frame("event"));
}

#[test]
fn parse_frame_kind_extracts_first_element() {
    assert_eq!(
        parse_frame_kind(r#"["AUTH","challenge-abc"]"#).as_deref(),
        Some("AUTH")
    );
    assert_eq!(
        parse_frame_kind(r#"["EOSE","sub"]"#).as_deref(),
        Some("EOSE")
    );
    assert_eq!(parse_frame_kind("not json"), None);
    assert_eq!(parse_frame_kind("[]"), None);
}

#[test]
fn frame_kinds_are_texts_at_the_front_of_arrays() {
    assert_eq!(first_text(&Json::Array(vec![Json::Text("OK".to_owned())])).as_deref(), Some("OK"));
    assert_eq!(first_text(&Json::Array(vec![Json::Bool(true)])), None);
    assert_eq!(first_text(&Json::Text("OK".to_owned())), None);
    assert_eq!(parse_frame_kind(r#"{"0":"EOSE"}"#), None);
    assert_eq!(parse_frame_kind("[1]"), None);
    assert_eq!(recognised_kind(r#"["EOSE"]"#).as_deref(), Some("EOSE"));
    assert_eq!(recognised_kind(r#"["HELLO"]"#), None);
}

#[test]
fn dns_heuristic_matches_common_libc_errors() {
    assert!(is_dns_failure("failed to lookup address information: foo"));
    assert!(is_dns_failure("Temporary failure in name resolution"));
    assert!(is_dns_failure("No address associated with hostname"));
    assert!(!is_dns_failure("connection refused"));
}

#[test]
fn tls_heuristic_matches_common_rustls_errors() {
    assert!(is_tls_failure("invalid peer certificate: expired"));
    assert!(is_tls_failure("received fatal alert: InternalError"));
    assert!(is_tls_failure("TLS handshake failure"));
    assert!(!is_tls_failure("connection reset"));
}

#[test]
fn user_agent_uses_mozilla_compatible_format() {
    assert!(USER_AGENT.starts_with("Mozilla/5.0 (compatible;"));
    assert!(USER_AGENT.contains("relays-monitor"));
    assert!(USER_AGENT.contains("github.com/qntx/awesome-nostr-relays"));
}

#[test]
fn lib_probe_skips_onion_hosts() {
    let url = RelayUrl::parse("ws://abc.onion/").expect("valid onion url");
    let step = probe_begin(&url, ProbeConfig::default());
    let ProbeAction::Finish { result } = step.action else {
        panic!("an onion host is never connected to")
    };
    let outcome = result.expect("onion skip is not an error");
    assert!(matches!(
        outcome,
        ProbeOutcome::Skipped(SkipReason::OnionUnreachable)
    ));
}

#[test]
fn failures_are_classified() {
    let m = |s: &str| s.to_owned();
    let kind = |failure: WsFailure| classify_ws_error(failure).kind();
    assert_eq!(kind(WsFailure::Http { status: 399 }), "http-status");
    assert_eq!(kind(WsFailure::Http { status: 400 }), "forbidden");
    assert_eq!(kind(WsFailure::Http { status: 499 }), "forbidden");
    assert_eq!(kind(WsFailure::Http { status: 500 }), "http-status");
    assert_eq!(kind(WsFailure::Io { message: m("failed to resolve tls host") }), "dns");
    assert_eq!(kind(WsFailure::Io { message: m("bad certificate") }), "tls");
    assert_eq!(kind(WsFailure::Io { message: m("connection refused") }), "other");
    assert_eq!(kind(WsFailure::Url { message: m("no host") }), "invalid-url");
    assert_eq!(kind(WsFailure::HttpFormat { message: m("x") }), "invalid-url");
    assert_eq!(kind(WsFailure::Protocol { message: m("x") }), "protocol");
    assert_eq!(kind(WsFailure::AttackAttempt { message: m("x") }), "protocol");
    assert_eq!(kind(WsFailure::Other { message: m("TLS") }), "tls");
    assert_eq!(kind(WsFailure::Other { message: m("name resolution") }), "other");
}

#[test]
fn millis_are_capped() {
    assert_eq!(millis_saturating(0), 0);
    assert_eq!(millis_saturating(u128::from(u64::MAX)), u64::MAX);
    assert_eq!(millis_saturating(u128::from(u64::MAX) + 1), u64::MAX);
}

#[test]
fn probe_starts_with_the_handshake() {
    let step = probe_begin(&url("wss://example.com/"), config());
    assert!(matches!(step.state, ProbeState::Connecting));
    let ProbeAction::Connect { limit } = step.action else { panic!("connects first") };
    assert_eq!(limit, secs(10));
}

#[test]
fn handshake_failures_end_the_probe() {
    let step = next(ProbeState::Connecting, ProbeEvent::ConnectTimedOut);
    let ProbeAction::Finish { result: Err(error) } = step.action else { panic!("fails") };
    assert_eq!(error.message(), "probe timed out after 10s");
    let failure = WsFailure::Http { status: 403 };
    let step = next(ProbeState::Connecting, ProbeEvent::ConnectFailed { failure });
    let ProbeAction::Finish { result: Err(error) } = step.action else { panic!("fails") };
    assert!(!error.counts_as_failure());
}

#[test]
fn frame_budget_is_what_is_left_up_to_five_seconds() {
    let budget = |elapsed: u64| {
        let event = ProbeEvent::Connected { handshake: secs(1) };
        let step = next_at(ProbeState::Connecting, event, secs(elapsed));
        let ProbeAction::SendText { body: REQ_MESSAGE, limit } = step.action else {
            panic!("asks")
        };
        assert_eq!(limit, secs(10 - elapsed));
        let ProbeState::Asking { rtt_ms, budget } = step.state else { panic!("asks") };
        assert_eq!(rtt_ms, 1_000);
        budget
    };
    assert_eq!(budget(1), secs(5));
    assert_eq!(budget(7), secs(3));
    assert_eq!(budget(9), secs(1));
}

#[test]
fn probe_reports_the_first_recognised_frame() {
    let asking = ProbeState::Asking { rtt_ms: 5, budget: secs(5) };
    let step = next(asking, ProbeEvent::Sent { waited: secs(0) });
    let ProbeAction::Receive { limit } = step.action else { panic!("listens") };
    assert_eq!(limit, secs(5));
    let hello = WsMessage::Text { body: r#"["HELLO"]"#.to_owned() };
    let step = next(step.state, ProbeEvent::Received { message: hello, waited: secs(2) });
    let ProbeAction::Receive { limit } = step.action else { panic!("listens on") };
    assert_eq!(limit, secs(3));
    let message = WsMessage::Ping { payload: vec![7, 0, 255] };
    let ping = ProbeEvent::Received { message, waited: secs(2) };
    let step = next_at(step.state, ping, secs(3));
    let ProbeAction::SendPong { payload, limit } = step.action else { panic!("answers") };
    assert_eq!(payload, vec![7, 0, 255]);
    assert_eq!(limit, secs(7));
    let step = next(step.state, ProbeEvent::Sent { waited: secs(3) });
    let ProbeAction::Receive { limit } = step.action else { panic!("listens on") };
    assert_eq!(limit, secs(2));
    let auth = WsMessage::Text { body: r#"["AUTH","c"]"#.to_owned() };
    let step = next(step.state, ProbeEvent::Received { message: auth, waited: secs(3) });
    assert!(matches!(step.action, ProbeAction::SendText { body: CLOSE_MESSAGE, .. }));
    let step = next(step.state, ProbeEvent::SendFailed);
    let ProbeAction::CloseSocket { limit } = step.action else { panic!("closes") };
    assert_eq!(limit, secs(1));
    let step = next_at(step.state, ProbeEvent::Closed, secs(4));
    let ProbeAction::FetchDocument { url, limit } = step.action else { panic!("fetches") };
    assert_eq!(url.as_str(), "https://example.com/x");
    assert_eq!(limit, secs(6));
    let document = Nip11 { name: None, software: None, version: None, supported_nips: None };
    let event = ProbeEvent::Document { status: Some(200), document: Some(document) };
    let step = next(step.state, event);
    assert!(matches!(step.state, ProbeState::Finished));
    let ProbeAction::Finish { result: Ok(ProbeOutcome::Success(success)) } = step.action else {
        panic!("succeeds")
    };
    assert_eq!(success.rtt_ms, 5);
    assert_eq!(success.first_frame.as_deref(), Some("AUTH"));
    assert!(success.nip11.is_some());
}

#[test]
fn missing_frames_and_documents_do_not_fail_the_probe() {
    let waits = [
        (ProbeState::Asking { rtt_ms: 5, budget: secs(5) }, ProbeEvent::SendFailed),
        (ProbeState::Asking { rtt_ms: 5, budget: secs(0) }, ProbeEvent::Sent { waited: secs(0) }),
        (ProbeState::Listening { rtt_ms: 5, budget: secs(5) }, ProbeEvent::ReceiveEnded),
        (
            ProbeState::Listening { rtt_ms: 5, budget: secs(5) },
            ProbeEvent::Received { message: WsMessage::Close, waited: secs(1) },
        ),
        (
            ProbeState::Listening { rtt_ms: 5, budget: secs(5) },
            ProbeEvent::Received { message: WsMessage::Other, waited: secs(5) },
        ),
        (ProbeState::Answering { rtt_ms: 5, budget: secs(5) }, ProbeEvent::SendFailed),
    ];
    for (state, event) in waits {
        let step = next(state, event);
        let step = next(step.state, ProbeEvent::Closed);
        for status in [None, Some(404)] {
            let first_frame = None;
            let fetching = ProbeState::Fetching { rtt_ms: 5, first_frame };
            let step = next(fetching, ProbeEvent::Document { status, document: None });
            let ProbeAction::Finish { result: Ok(ProbeOutcome::Success(success)) } = step.action
            else {
                panic!("succeeds")
            };
            assert_eq!(success.first_frame, None);
            assert!(success.nip11.is_none());
        }
        assert!(matches!(step.state, ProbeState::Fetching { .. }));
    }
}

#[test]
fn document_request_gets_what_is_left_of_the_timeout() {
    let closing = || ProbeState::Closing { rtt_ms: 5, first_frame: None };
    let step = next(closing(), ProbeEvent::Closed);
    let ProbeAction::FetchDocument { limit, .. } = step.action else { panic!("fetches") };
    assert_eq!(limit, secs(8));
    let step = next_at(closing(), ProbeEvent::Closed, secs(10));
    let ProbeAction::Finish { result: Ok(ProbeOutcome::Success(success)) } = step.action else {
        panic!("succeeds")
    };
    assert!(success.nip11.is_none());
}

#[test]
fn unfit_addresses_get_no_document() {
    let state = ProbeState::Closing { rtt_ms: 5, first_frame: Some("OK".to_owned()) };
    let closed = ProbeEvent::Closed;
    let step = probe_next(&url("https://example.com/"), config(), state, closed, secs(1))
        .expect("event fits");
    let ProbeAction::Finish { result: Ok(ProbeOutcome::Success(success)) } = step.action else {
        panic!("succeeds")
    };
    assert_eq!(success.first_frame.as_deref(), Some("OK"));
}

#[test]
fn events_that_do_not_fit_are_turned_away() {
    let target = url("wss://example.com/");
    let turned_away = |state: ProbeState, elapsed: u64| {
        probe_next(&target, config(), state, ProbeEvent::Closed, secs(elapsed)).is_none()
    };
    assert!(turned_away(ProbeState::Connecting, 1));
    assert!(turned_away(ProbeState::Finished, 1));
    assert!(turned_away(ProbeState::Listening { rtt_ms: 5, budget: secs(5) }, 10));
}

#[test]
fn success_statuses_are_the_two_hundreds() {
    assert!(!is_success_status(199));
    assert!(is_success_status(200));
    assert!(is_success_status(299));
    assert!(!is_success_status(300));
}

#[test]
fn subscription_messages_are_json() {
    let read = |text: &str| serde_json::from_str::<serde_json::Value>(text).expect("json");
    assert_eq!(read(REQ_MESSAGE)[0], "REQ");
    assert_eq!(read(REQ_MESSAGE)[1], "relays-probe");
    assert_eq!(read(REQ_MESSAGE)[2]["kinds"][0], 1);
    assert_eq!(read(REQ_MESSAGE)[2]["limit"], 1);
    assert_eq!(read(REQ_MESSAGE).to_string(), REQ_MESSAGE);
    assert_eq!(read(CLOSE_MESSAGE)[0], "CLOSE");
    assert_eq!(read(CLOSE_MESSAGE)[1], "relays-probe");
}

#[test]
fn no_action_outlasts_the_timeout() {
    let listening = || ProbeState::Listening { rtt_ms: 5, budget: secs(5) };
    let other = || ProbeEvent::Received { message: WsMessage::Other, waited: secs(1) };
    let step = next_at(listening(), other(), secs(5));
    let ProbeAction::Receive { limit } = step.action else { panic!("listens on") };
    assert_eq!(limit, secs(4));
    let step = next_at(listening(), other(), secs(8));
    let ProbeAction::Receive { limit } = step.action else { panic!("listens on") };
    assert_eq!(limit, secs(2));
    let nearly = Duration::from_parts(9, 750_000_000).expect("span");
    let rest = Duration::from_parts(0, 250_000_000).expect("span");
    let step = next_at(listening(), ProbeEvent::ReceiveEnded, nearly);
    let ProbeAction::CloseSocket { limit } = step.action else { panic!("closes") };
    assert_eq!(limit, rest);
    let step = next_at(step.state, ProbeEvent::Closed, nearly);
    let ProbeAction::FetchDocument { limit, .. } = step.action else { panic!("fetches") };
    assert_eq!(limit, rest);
}

#[test]
fn probe_ends_with_what_it_has_when_the_timeout_is_spent() {
    let ends = |state: ProbeState, event: ProbeEvent| {
        let step = next_at(state, event, secs(10));
        assert!(matches!(step.state, ProbeState::Finished));
        let ProbeAction::Finish { result: Ok(ProbeOutcome::Success(success)) } = step.action else {
            panic!("succeeds")
        };
        assert!(success.nip11.is_none());
        (success.rtt_ms, success.first_frame)
    };
    let connected = ProbeEvent::Connected { handshake: secs(2) };
    assert_eq!(ends(ProbeState::Connecting, connected), (2_000, None));
    let listening = || ProbeState::Listening { rtt_ms: 5, budget: secs(5) };
    let received = |message: WsMessage| ProbeEvent::Received { message, waited: secs(1) };
    let auth = WsMessage::Text { body: r#"["AUTH","c"]"#.to_owned() };
    assert_eq!(ends(listening(), received(auth)), (5, Some("AUTH".to_owned())));
    let hello = WsMessage::Text { body: r#"["HELLO"]"#.to_owned() };
    assert_eq!(ends(listening(), received(hello)), (5, None));
    assert_eq!(ends(listening(), received(WsMessage::Ping { payload: vec![1] })), (5, None));
    assert_eq!(ends(listening(), received(WsMessage::Close)), (5, None));
    assert_eq!(ends(listening(), received(WsMessage::Other)), (5, None));
    assert_eq!(ends(listening(), ProbeEvent::ReceiveEnded), (5, None));
    let asking = ProbeState::Asking { rtt_ms: 6, budget: secs(5) };
    assert_eq!(ends(asking, ProbeEvent::Sent { waited: secs(0) }), (6, None));
    let leaving = ProbeState::Leaving { rtt_ms: 7, kind: "EOSE".to_owned() };
    assert_eq!(ends(leaving, ProbeEvent::SendFailed), (7, Some("EOSE".to_owned())));
}

#[test]
fn a_document_in_hand_is_kept_when_the_timeout_is_spent() {
    let fetching = ProbeState::Fetching { rtt_ms: 5, first_frame: None };
    let document = Nip11 { name: None, software: None, version: None, supported_nips: None };
    let event = ProbeEvent::Document { status: Some(200), document: Some(document) };
    let step = next_at(fetching, event, secs(10));
    let ProbeAction::Finish { result: Ok(ProbeOutcome::Success(success)) } = step.action else {
        panic!("succeeds")
    };
    assert!(success.nip11.is_some());
}

#[test]
fn long_addresses_are_rewritten_whole() {
    let path = "a".repeat(70_000);
    let long = url(&format!("wss://example.com/{path}?q=1#f"));
    let http = ws_to_http(&long).expect("rewrite");
    assert_eq!(http.as_str(), format!("https://example.com/{path}?q=1#f"));
    let plain = url(&format!("ws://abc.onion:8080/{path}"));
    let http = ws_to_http(&plain).expect("rewrite");
    assert_eq!(http.as_str(), format!("http://abc.onion:8080/{path}"));
}
