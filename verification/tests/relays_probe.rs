use awesome_nostr_relays::duration::Duration;
use awesome_nostr_relays::exchange::{
    conclude, exchange_begin, exchange_next, ExchangeAction, ExchangeEnd, ExchangeEvent,
    ExchangeState, ExchangeStep,
};
use awesome_nostr_relays::probe::WsMessage;
use awesome_nostr_relays::relay_url::RelayUrl;
use awesome_nostr_relays::relays::probe::{
    is_onion_host, is_protocol_frame, limits, outcome, plan, subscription, ws_to_http, Nip11, ProbeConfig,
    ProbeOutcome, ProbePlan, SkipReason, DEFAULT_HTTP_TIMEOUT_SECS,
};

fn next(state: ExchangeState, event: ExchangeEvent) -> ExchangeStep {
    exchange_next(&subscription(), state, event).expect("event fits")
}

fn text(body: &str) -> ExchangeEvent {
    ExchangeEvent::Received { message: WsMessage::Text { body: body.to_owned() } }
}

fn cause(step: ExchangeStep) -> String {
    let ExchangeAction::Finish { result: Err(cause) } = step.action else { panic!("fails") };
    cause
}

#[test]
fn probe_probe_config_from_timeout_caps_http_budget() {
    let config = ProbeConfig::from_timeout(Duration::from_secs(30));
    assert_eq!(config.timeout, Duration::from_secs(30));
    assert_eq!(config.http_timeout, Duration::from_secs(DEFAULT_HTTP_TIMEOUT_SECS));
}

#[test]
fn probe_probe_config_from_timeout_shrinks_below_cap() {
    let config = ProbeConfig::from_timeout(Duration::from_secs(3));
    assert_eq!(config.timeout, Duration::from_secs(3));
    assert_eq!(config.http_timeout, Duration::from_secs(3));
}

#[test]
fn relays_default_config_is_ten_seconds() {
    let config = ProbeConfig::default();
    assert_eq!(config.timeout, Duration::from_secs(10));
    assert_eq!(config.http_timeout, Duration::from_secs(8));
}

#[test]
fn probe_is_onion_host_detects_tld() {
    assert!(is_onion_host("abc.onion"));
    assert!(is_onion_host("ABC.ONION"));
    assert!(is_onion_host("sub.abc.onion"));
}

#[test]
fn probe_is_onion_host_rejects_non_tor() {
    assert!(!is_onion_host("example.com"));
    assert!(!is_onion_host("onion.example.com"));
    assert!(!is_onion_host(""));
    assert!(!is_onion_host("onion"));
}

#[test]
fn probe_ws_to_http_rewrites_scheme() {
    let ws = RelayUrl::parse("ws://example.com/").expect("valid ws url");
    let wss = RelayUrl::parse("wss://example.com/").expect("valid wss url");
    assert_eq!(ws_to_http(&ws).expect("rewrite ws").scheme(), "http");
    assert_eq!(ws_to_http(&wss).expect("rewrite wss").scheme(), "https");
}

#[test]
fn probe_ws_to_http_rejects_unsupported_scheme() {
    let url = RelayUrl::parse("https://example.com/").expect("valid https url");
    assert!(ws_to_http(&url).is_err());
}

#[test]
fn is_protocol_frame_accepts_nostr_replies() {
    assert!(is_protocol_frame(r#"["EVENT","sub",{}]"#));
    assert!(is_protocol_frame(r#"["EOSE","sub"]"#));
    assert!(is_protocol_frame(r#"["NOTICE","hi"]"#));
}

#[test]
fn is_protocol_frame_rejects_other_frames() {
    assert!(!is_protocol_frame(r#"["OK","id",true,""]"#));
    assert!(!is_protocol_frame(r#"["CLOSED","sub",""]"#));
    assert!(!is_protocol_frame("not json"));
    assert!(!is_protocol_frame("{}"));
}

#[test]
fn probe_skip_reason_label_is_stable() {
    assert_eq!(SkipReason::OnionUnreachable.as_str(), "onion-unreachable");
}

#[test]
fn probe_probe_skips_onion_hosts() {
    let url = RelayUrl::parse("ws://abc.onion/").expect("valid onion url");
    let plan = plan(&url).expect("onion skip is not an error");
    assert!(matches!(
        plan,
        ProbePlan::Skip { reason: SkipReason::OnionUnreachable }
    ));
}

#[test]
fn plans_fetch_the_document_or_name_the_bad_scheme() {
    let url = |text: &str| RelayUrl::parse(text).expect("valid url");
    let Ok(ProbePlan::Run { document_url }) = plan(&url("wss://example.com/x")) else {
        panic!("runs")
    };
    assert_eq!(document_url.as_str(), "https://example.com/x");
    assert_eq!(
        plan(&url("ftp://example.com/")).expect_err("bad scheme"),
        "unsupported scheme: ftp"
    );
    assert!(matches!(plan(&url("ftp://a.onion/")), Ok(ProbePlan::Skip { .. })));
}

#[test]
fn exchange_runs_to_an_answer() {
    let step = exchange_begin();
    assert!(matches!(step.action, ExchangeAction::Connect));
    let step = next(step.state, ExchangeEvent::Done);
    let ExchangeAction::SendText { body } = step.action else { panic!("asks") };
    assert_eq!(body, r#"["REQ","relays-probe",{"kinds":[1],"limit":1}]"#);
    let step = next(step.state, ExchangeEvent::Done);
    let step = next(step.state, text(r#"["OK","x"]"#));
    assert!(matches!(step.action, ExchangeAction::Receive));
    let message = WsMessage::Ping { payload: vec![7, 0, 255] };
    let step = next(step.state, ExchangeEvent::Received { message });
    let ExchangeAction::SendPong { payload } = step.action else { panic!("answers") };
    assert_eq!(payload, vec![7, 0, 255]);
    let step = next(step.state, ExchangeEvent::Done);
    let step = next(step.state, ExchangeEvent::Received { message: WsMessage::Other });
    let step = next(step.state, text(r#"["EOSE","x"]"#));
    let ExchangeAction::SendText { body } = step.action else { panic!("leaves") };
    assert_eq!(body, r#"["CLOSE","relays-probe"]"#);
    let step = next(step.state, ExchangeEvent::Failed { message: "gone".to_owned() });
    assert!(matches!(step.action, ExchangeAction::CloseSocket));
    let step = next(step.state, ExchangeEvent::Failed { message: "gone".to_owned() });
    assert!(matches!(step.action, ExchangeAction::Finish { result: Ok(()) }));
    assert!(exchange_next(&subscription(), step.state, ExchangeEvent::Done).is_none());
}

#[test]
fn exchange_fails_without_an_answer() {
    let failed = || ExchangeEvent::Failed { message: "refused".to_owned() };
    assert_eq!(cause(next(ExchangeState::Connecting, failed())), "refused");
    assert_eq!(cause(next(ExchangeState::Asking, failed())), "refused");
    assert_eq!(cause(next(ExchangeState::Listening, failed())), "refused");
    assert_eq!(cause(next(ExchangeState::Answering, failed())), "refused");
    let closed = "closed without valid frame";
    assert_eq!(cause(next(ExchangeState::Listening, ExchangeEvent::Ended)), closed);
    let close = ExchangeEvent::Received { message: WsMessage::Close };
    assert_eq!(cause(next(ExchangeState::Listening, close)), closed);
    assert!(exchange_next(&subscription(), ExchangeState::Asking, ExchangeEvent::Ended).is_none());
}

#[test]
fn verdicts_go_by_the_exchange() {
    let elapsed = Duration::from_parts(1, 2_500_000).expect("span");
    let document = || Nip11 {
        name: Some("x".to_owned()),
        software: None,
        version: None,
        supported_nips: None,
    };
    let answered = || ExchangeEnd::Answered { elapsed };
    let (rtt, nip11) = conclude(answered(), Some(200), Some(document())).expect("alive");
    assert_eq!(rtt, 1_002);
    assert_eq!(nip11.expect("document").name.as_deref(), Some("x"));
    let (_, nip11) = conclude(answered(), Some(200), None).expect("alive");
    assert_eq!(nip11.expect("empty document").name, None);
    let (_, nip11) = conclude(answered(), Some(503), Some(document())).expect("alive");
    assert!(nip11.is_none());
    let (_, nip11) = conclude(answered(), None, None).expect("alive");
    assert!(nip11.is_none());
    let timed_out = conclude(ExchangeEnd::TimedOut, Some(200), Some(document()));
    assert_eq!(timed_out.expect_err("dead"), "probe timeout");
    let failed = ExchangeEnd::Failed { message: "refused".to_owned() };
    assert_eq!(outcome(failed, None, None).expect_err("dead"), "refused");
    let Ok(ProbeOutcome::Success(success)) = outcome(answered(), None, None) else {
        panic!("alive")
    };
    assert_eq!(success.rtt_ms, 1_002);
    assert_eq!(success.first_frame, None);
}

#[test]
fn second_layout_keeps_both_sides_within_the_timeout() {
    let limits_of = |timeout: u64, http_timeout: u64| {
        limits(ProbeConfig {
            timeout: Duration::from_secs(timeout),
            http_timeout: Duration::from_secs(http_timeout),
        })
    };
    assert_eq!(limits_of(10, 8), (Duration::from_secs(10), Duration::from_secs(8)));
    assert_eq!(limits_of(5, 8), (Duration::from_secs(5), Duration::from_secs(5)));
    assert_eq!(limits_of(0, 8), (Duration::from_secs(0), Duration::from_secs(0)));
}
