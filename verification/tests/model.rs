use awesome_nostr_relays::model::{
    HealthEntry, HealthReport, HealthState, Network, Outcome, Relay, Requirements,
};
use awesome_nostr_relays::relay_url::RelayUrl;
use awesome_nostr_relays::timestamp::Timestamp;
use awesome_nostr_relays::{DEAD_FAILURE_THRESHOLD, STALE_AFTER_HOURS, WARN_FAILURE_THRESHOLD};

fn relay(url: &str, name: Option<&str>) -> Relay {
    Relay {
        url: RelayUrl::parse(url).expect("valid url"),
        name: name.map(str::to_owned),
        description: None,
        operator: None,
        country: None,
        geohash: None,
        network: None,
        software: None,
        requirements: Requirements::default(),
        collections: Vec::new(),
        topics: Vec::new(),
        added_at: None,
    }
}

fn hours_before(now: Timestamp, hours: i64) -> Timestamp {
    Timestamp::new(now.timestamp() - hours * 3_600, now.timestamp_subsec_nanos())
        .expect("representable instant")
}

#[test]
fn display_name_prefers_curator_label() {
    let r = relay("wss://example.com/", Some("Example"));
    assert_eq!(r.display_name(), "Example");
}

#[test]
fn display_name_falls_back_to_host() {
    let r = relay("wss://example.com/", None);
    assert_eq!(r.display_name(), "example.com");
}

#[test]
fn display_name_ignores_empty_label() {
    let r = relay("wss://example.com/", Some(""));
    assert_eq!(r.display_name(), "example.com");
}

#[test]
fn display_name_without_name_and_host_is_unknown() {
    let r = relay("data:text/plain,hi", None);
    assert_eq!(r.display_name(), "<unknown>");
}

#[test]
fn network_derives_tor_from_onion_url() {
    let r = relay("ws://abc.onion/", None);
    assert_eq!(r.effective_network(), Network::Tor);
}

#[test]
fn network_defaults_to_clearnet() {
    let r = relay("wss://example.com/", None);
    assert_eq!(r.effective_network(), Network::Clearnet);
}

#[test]
fn network_explicit_override_wins() {
    let mut r = relay("wss://example.com/", None);
    r.network = Some(Network::I2p);
    assert_eq!(r.effective_network(), Network::I2p);
}

#[test]
fn network_follows_the_last_label() {
    let of = |url: &str| Network::from_url(&RelayUrl::parse(url).expect("valid url"));
    assert_eq!(of("ws://relay.i2p/"), Network::I2p);
    assert_eq!(of("ws://relay.loki/"), Network::Loki);
    assert_eq!(of("ws://ABC.ONION/"), Network::Tor);
    assert_eq!(of("wss://onion.example.com/"), Network::Clearnet);
    assert_eq!(of("wss://localhost/"), Network::Clearnet);
    assert_eq!(of("data:text/plain,hi"), Network::Clearnet);
}

#[test]
fn network_labels_are_stable() {
    assert_eq!(Network::Clearnet.as_str(), "clearnet");
    assert_eq!(Network::Tor.as_str(), "tor");
    assert_eq!(Network::I2p.as_str(), "i2p");
    assert_eq!(Network::Loki.as_str(), "loki");
    assert_eq!(Network::default(), Network::Clearnet);
}

#[test]
fn requirements_are_empty_until_one_is_declared() {
    let none = Requirements::default();
    assert!(none.is_empty());
    assert!(!Requirements { auth: Some(false), ..none }.is_empty());
    assert!(!Requirements { payment: Some(true), ..none }.is_empty());
    assert!(!Requirements { pow: Some(false), ..none }.is_empty());
    assert!(!Requirements { writes: Some(true), ..none }.is_empty());
}

#[test]
fn is_paid_reflects_payment_requirement() {
    let mut r = relay("wss://example.com/", None);
    assert!(!r.is_paid());
    r.requirements.payment = Some(true);
    assert!(r.is_paid());
}

#[test]
fn is_paid_needs_a_requirement_that_holds() {
    let mut r = relay("wss://example.com/", None);
    r.requirements.payment = Some(false);
    assert!(!r.is_paid());
}

#[test]
fn state_unknown_when_never_probed() {
    let entry = HealthEntry::default();
    assert_eq!(entry.state(Timestamp::now()), HealthState::Unknown);
    assert!(!entry.is_online());
}

#[test]
fn state_healthy_on_fresh_success() {
    let now = Timestamp::now();
    let entry = HealthEntry {
        last_checked: Some(now),
        last_success: Some(now),
        last_outcome: Outcome::Success,
        ..HealthEntry::default()
    };
    assert_eq!(entry.state(now), HealthState::Healthy);
    assert!(entry.state(now).is_online());
}

#[test]
fn state_blocked_never_reports_healthy() {
    let now = Timestamp::now();
    let entry = HealthEntry {
        last_checked: Some(now),
        last_success: Some(hours_before(now, 30 * 24)),
        last_outcome: Outcome::Blocked,
        ..HealthEntry::default()
    };
    assert_eq!(entry.state(now), HealthState::Blocked);
    assert!(!entry.state(now).is_online());
}

#[test]
fn state_tiers_failures_by_threshold() {
    let now = Timestamp::now();
    let mut entry = HealthEntry {
        last_checked: Some(now),
        last_outcome: Outcome::Failure,
        consecutive_failures: 1,
        ..HealthEntry::default()
    };
    assert_eq!(entry.state(now), HealthState::Flaky);
    entry.consecutive_failures = WARN_FAILURE_THRESHOLD;
    assert_eq!(entry.state(now), HealthState::Warn);
    entry.consecutive_failures = DEAD_FAILURE_THRESHOLD;
    assert_eq!(entry.state(now), HealthState::Dead);
}

#[test]
fn state_tiers_change_exactly_at_the_thresholds() {
    let now = Timestamp::now();
    let state = |failures: u32| {
        HealthEntry {
            last_checked: Some(now),
            last_outcome: Outcome::Failure,
            consecutive_failures: failures,
            ..HealthEntry::default()
        }
        .state(now)
    };
    assert_eq!(state(2), HealthState::Flaky);
    assert_eq!(state(3), HealthState::Warn);
    assert_eq!(state(13), HealthState::Warn);
    assert_eq!(state(14), HealthState::Dead);
    assert_eq!(state(u32::MAX), HealthState::Dead);
}

#[test]
fn state_stale_when_pipeline_stalls() {
    let now = Timestamp::now();
    let old = hours_before(now, STALE_AFTER_HOURS + 1);
    let entry = HealthEntry {
        last_checked: Some(old),
        last_success: Some(old),
        last_outcome: Outcome::Success,
        ..HealthEntry::default()
    };
    assert_eq!(entry.state(now), HealthState::Stale);
}

#[test]
fn state_turns_stale_only_past_the_window() {
    let checked = Timestamp::new(1_700_000_000, 500).expect("instant");
    let entry = HealthEntry {
        last_checked: Some(checked),
        last_outcome: Outcome::Success,
        ..HealthEntry::default()
    };
    let window = STALE_AFTER_HOURS * 3_600;
    let edge = Timestamp::new(1_700_000_000 + window, 500).expect("instant");
    let past = Timestamp::new(1_700_000_000 + window, 501).expect("instant");
    let before = Timestamp::new(1_600_000_000, 0).expect("instant");
    assert_eq!(entry.state(edge), HealthState::Healthy);
    assert_eq!(entry.state(past), HealthState::Stale);
    assert_eq!(entry.state(before), HealthState::Healthy);
}

#[test]
fn state_stale_whatever_the_outcome() {
    let now = Timestamp::now();
    let old = hours_before(now, 73);
    for outcome in [
        Outcome::Unknown,
        Outcome::Success,
        Outcome::Failure,
        Outcome::Blocked,
        Outcome::Skipped,
    ] {
        let entry = HealthEntry {
            last_checked: Some(old),
            last_outcome: outcome,
            consecutive_failures: 20,
            ..HealthEntry::default()
        };
        assert_eq!(entry.state(now), HealthState::Stale);
    }
}

#[test]
fn state_skipped_outcome() {
    let now = Timestamp::now();
    let entry = HealthEntry {
        last_checked: Some(now),
        last_outcome: Outcome::Skipped,
        ..HealthEntry::default()
    };
    assert_eq!(entry.state(now), HealthState::Skipped);
}

#[test]
fn state_labels_and_icons_are_stable() {
    let all = [
        (HealthState::Healthy, "healthy", "✅"),
        (HealthState::Flaky, "flaky", "🟡"),
        (HealthState::Warn, "warn", "⚠️"),
        (HealthState::Dead, "dead", "💀"),
        (HealthState::Stale, "stale", "🕒"),
        (HealthState::Blocked, "blocked", "🚫"),
        (HealthState::Skipped, "skipped", "🧅"),
        (HealthState::Unknown, "unknown", "❔"),
    ];
    for (state, label, icon) in all {
        assert_eq!(state.as_str(), label);
        assert_eq!(state.icon(), icon);
        assert_eq!(state.is_online(), state == HealthState::Healthy);
    }
}

#[test]
fn reports_and_outcomes_start_empty() {
    let report = HealthReport::default();
    assert!(report.last_run.is_none());
    assert!(report.entries.is_empty());
    assert_eq!(Outcome::default(), Outcome::Unknown);
}

#[test]
fn time_only_makes_entries_stale() {
    let checked = Timestamp::new(1_700_000_000, 0).expect("instant");
    let entry = HealthEntry {
        last_checked: Some(checked),
        last_outcome: Outcome::Success,
        ..HealthEntry::default()
    };
    let mut seen_stale = false;
    for hours in 0..120_i64 {
        let now = Timestamp::new(1_700_000_000 + hours * 3_600, 1).expect("instant");
        match entry.state(now) {
            HealthState::Healthy => assert!(!seen_stale),
            state => {
                assert_eq!(state, HealthState::Stale);
                seen_stale = true;
            }
        }
    }
    assert!(seen_stale);
}

#[test]
fn leap_seconds_can_undo_staleness() {
    // 2016-12-28T23:59:60.5 and, three days later, 2016-12-31T23:59:60.9
    let checked = Timestamp::new(1_482_969_599, 1_500_000_000).expect("instant");
    let entry = HealthEntry {
        last_checked: Some(checked),
        last_outcome: Outcome::Success,
        ..HealthEntry::default()
    };
    let during = Timestamp::new(1_483_228_799, 1_900_000_000).expect("instant");
    let after = Timestamp::new(1_483_228_800, 0).expect("instant");
    assert_eq!(entry.state(during), HealthState::Stale);
    assert_eq!(entry.state(after), HealthState::Healthy);
}
