use awesome_nostr_relays::duration::Duration;
use awesome_nostr_relays::probe_types::{
    default_http_timeout, default_probe_timeout, ProbeConfig, ProbeError, ProbeSuccess, SkipReason,
};

#[test]
fn probe_config_from_timeout_caps_http_budget() {
    let config = ProbeConfig::from_timeout(Duration::from_secs(30));
    assert_eq!(config.timeout, Duration::from_secs(30));
    assert_eq!(config.http_timeout, default_http_timeout());
}

#[test]
fn probe_config_from_timeout_shrinks_below_cap() {
    let config = ProbeConfig::from_timeout(Duration::from_secs(3));
    assert_eq!(config.timeout, Duration::from_secs(3));
    assert_eq!(config.http_timeout, Duration::from_secs(3));
}

#[test]
fn default_probe_timeout_is_at_least_fifteen_seconds() {
    assert!(default_probe_timeout().as_secs() >= Duration::from_secs(15).as_secs());
}

#[test]
fn default_config_uses_the_default_timeouts() {
    let config = ProbeConfig::default();
    assert_eq!(config.timeout, Duration::from_secs(15));
    assert_eq!(config.http_timeout, Duration::from_secs(8));
}

#[test]
fn skip_reason_label_is_stable() {
    assert_eq!(SkipReason::OnionUnreachable.as_str(), "onion-unreachable");
}

#[test]
fn probe_success_keeps_its_parts() {
    let success = ProbeSuccess::new(42, Some("EOSE".to_owned()), None);
    assert_eq!(success.rtt_ms, 42);
    assert_eq!(success.first_frame.as_deref(), Some("EOSE"));
    assert!(success.nip11.is_none());
}

#[test]
fn probe_error_kind_is_stable() {
    assert_eq!(ProbeError::Dns("x".into()).kind(), "dns");
    assert_eq!(ProbeError::Timeout(Duration::from_secs(0)).kind(), "timeout");
    assert_eq!(ProbeError::Forbidden { status: 403 }.kind(), "forbidden");
    assert_eq!(
        ProbeError::UnexpectedStatus { status: 530 }.kind(),
        "http-status"
    );
    assert_eq!(ProbeError::Tls("x".into()).kind(), "tls");
    assert_eq!(ProbeError::Protocol("x".into()).kind(), "protocol");
    assert_eq!(ProbeError::InvalidUrl("x".into()).kind(), "invalid-url");
    assert_eq!(ProbeError::Other("x".into()).kind(), "other");
}

#[test]
fn probe_error_environmental_errors_do_not_count() {
    assert!(!ProbeError::Dns("x".into()).counts_as_failure());
    assert!(!ProbeError::Forbidden { status: 403 }.counts_as_failure());

    assert!(ProbeError::Timeout(Duration::from_secs(0)).counts_as_failure());
    assert!(ProbeError::Tls("x".into()).counts_as_failure());
    assert!(ProbeError::Protocol("x".into()).counts_as_failure());
    assert!(ProbeError::UnexpectedStatus { status: 502 }.counts_as_failure());
}

#[test]
fn probe_error_messages_name_the_cause() {
    let half = Duration::from_parts(1, 500_000_000).expect("span");
    assert_eq!(ProbeError::Dns("x".into()).message(), "dns lookup failed: x");
    assert_eq!(ProbeError::Timeout(half).message(), "probe timed out after 1.5s");
    assert_eq!(
        ProbeError::Forbidden { status: 403 }.message(),
        "forbidden by upstream (HTTP 403)"
    );
    assert_eq!(
        ProbeError::UnexpectedStatus { status: 530 }.message(),
        "unexpected HTTP status 530 during WebSocket handshake"
    );
    assert_eq!(ProbeError::Tls("x".into()).message(), "tls error: x");
    assert_eq!(ProbeError::Protocol("x".into()).message(), "protocol error: x");
    assert_eq!(ProbeError::InvalidUrl("x".into()).message(), "invalid url: x");
    assert_eq!(ProbeError::Other("x".into()).message(), "probe failed: x");
}
