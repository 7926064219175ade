use awesome_nostr_relays::health::{
    prune_orphans, record_failure, record_failure_at, record_skipped, record_soft_failure,
    record_success, record_success_at, status_icon, status_icon_at, truncate,
};
use awesome_nostr_relays::model::{HealthReport, HealthState, Outcome};
use awesome_nostr_relays::probe_types::{Nip11, ProbeSuccess};
use awesome_nostr_relays::timestamp::Timestamp;

const URL: &str = "wss://example.com/";

fn success() -> ProbeSuccess {
    ProbeSuccess {
        rtt_ms: 42,
        first_frame: Some("EOSE".to_owned()),
        nip11: None,
    }
}

#[test]
fn success_sets_outcome_and_resets_failures() {
    let mut report = HealthReport::default();
    record_failure(&mut report, URL, "boom");
    record_failure(&mut report, URL, "boom again");
    record_success(&mut report, URL, &success());

    let entry = report.entries.get(URL).expect("entry exists");
    assert_eq!(entry.consecutive_failures, 0);
    assert_eq!(entry.last_outcome, Outcome::Success);
    assert_eq!(entry.rtt_open_ms, Some(42));
    assert!(entry.is_online());
}

#[test]
fn failure_increments_counter_and_sets_outcome() {
    let mut report = HealthReport::default();
    record_skipped(&mut report, URL);
    record_failure(&mut report, URL, "network down");

    let entry = report.entries.get(URL).expect("entry exists");
    assert_eq!(entry.consecutive_failures, 1);
    assert_eq!(entry.last_outcome, Outcome::Failure);
    assert_eq!(entry.last_error.as_deref(), Some("network down"));
}

#[test]
fn soft_failure_blocks_without_bumping_counter() {
    let mut report = HealthReport::default();
    record_soft_failure(&mut report, URL, "dns lookup failed");
    record_soft_failure(&mut report, URL, "forbidden (HTTP 403)");

    let entry = report.entries.get(URL).expect("entry exists");
    assert_eq!(entry.consecutive_failures, 0);
    assert_eq!(entry.last_outcome, Outcome::Blocked);
    assert_eq!(entry.last_error.as_deref(), Some("forbidden (HTTP 403)"));
    assert_eq!(entry.state(Timestamp::now()), HealthState::Blocked);
}

#[test]
fn soft_failure_after_success_is_not_healthy() {
    // Regression: a relay that succeeded once then gets WAF-blocked must
    // not keep reporting healthy.
    let mut report = HealthReport::default();
    record_success(&mut report, URL, &success());
    record_soft_failure(&mut report, URL, "forbidden (HTTP 403)");

    let entry = report.entries.get(URL).expect("entry exists");
    assert!(entry.last_success.is_some());
    assert_eq!(entry.state(Timestamp::now()), HealthState::Blocked);
    assert!(!entry.is_online());
}

#[test]
fn skipped_sets_skipped_outcome() {
    let mut report = HealthReport::default();
    record_skipped(&mut report, URL);

    let entry = report.entries.get(URL).expect("entry exists");
    assert_eq!(entry.consecutive_failures, 0);
    assert_eq!(entry.last_outcome, Outcome::Skipped);
    assert_eq!(entry.state(Timestamp::now()), HealthState::Skipped);
}

#[test]
fn truncate_keeps_short_messages_verbatim() {
    assert_eq!(truncate("short", 10), "short");
}

#[test]
fn truncate_appends_ellipsis_for_long_messages() {
    let long = "x".repeat(300);
    let trimmed = truncate(&long, 200);
    assert_eq!(trimmed.chars().count(), 201);
    assert!(trimmed.ends_with('…'));
}

#[test]
fn truncate_counts_characters_and_is_idempotent() {
    assert_eq!(truncate("äöüß", 4), "äöüß");
    assert_eq!(truncate("äöüß!", 4), "äöüß…");
    assert_eq!(truncate("äöüß…", 4), "äöüß…");
    assert_eq!(truncate("x", 0), "…");
    assert_eq!(truncate("", 0), "");
}

#[test]
fn prune_orphans_removes_unknown_urls() {
    let mut report = HealthReport::default();
    record_success(&mut report, "wss://a.example/", &success());
    record_success(&mut report, "wss://b.example/", &success());

    prune_orphans(&mut report, &["wss://a.example/".to_owned()]);
    assert!(report.entries.contains_key("wss://a.example/"));
    assert!(!report.entries.contains_key("wss://b.example/"));
}

#[test]
fn prune_orphans_keeps_entries_and_last_run() {
    let now = Timestamp::new(1_700_000_000, 0).expect("instant");
    let mut report = HealthReport::default();
    report.last_run = Some(now);
    record_failure_at(&mut report, "wss://a.example/", "boom", now);
    let known = ["wss://a.example/".to_owned(), "wss://c.example/".to_owned()];
    prune_orphans(&mut report, &known);
    prune_orphans(&mut report, &known);
    assert_eq!(report.last_run, Some(now));
    assert_eq!(report.entries.len(), 1);
    let entry = report.entries.get("wss://a.example/").expect("entry kept");
    assert_eq!(entry.consecutive_failures, 1);
    assert_eq!(entry.last_error.as_deref(), Some("boom"));
}

#[test]
fn status_icon_reflects_state() {
    assert_eq!(status_icon(None), HealthState::Unknown.icon());

    let mut report = HealthReport::default();
    record_success(&mut report, URL, &success());
    assert_eq!(
        status_icon(report.entries.get(URL)),
        HealthState::Healthy.icon()
    );

    record_soft_failure(&mut report, URL, "forbidden");
    assert_eq!(
        status_icon(report.entries.get(URL)),
        HealthState::Blocked.icon()
    );

    record_skipped(&mut report, URL);
    assert_eq!(
        status_icon(report.entries.get(URL)),
        HealthState::Skipped.icon()
    );
}

#[test]
fn status_icon_at_goes_by_the_given_instant() {
    let now = Timestamp::new(1_700_000_000, 0).expect("instant");
    let late = Timestamp::new(1_700_000_000 + 73 * 3_600, 0).expect("instant");
    let mut report = HealthReport::default();
    record_success_at(&mut report, URL, &success(), now);
    assert_eq!(status_icon_at(report.entries.get(URL), now), "✅");
    assert_eq!(status_icon_at(report.entries.get(URL), late), "🕒");
    assert_eq!(status_icon_at(None, now), "❔");
}

#[test]
fn recorded_times_are_whole_seconds() {
    let mut report = HealthReport::default();
    record_success(&mut report, URL, &success());
    let entry = report.entries.get(URL).expect("entry exists");
    let checked = entry.last_checked.expect("checked");
    assert_eq!(checked.timestamp_subsec_nanos(), 0);
    assert_eq!(entry.last_success, Some(checked));
    let lag = chrono::Utc::now().timestamp() - checked.timestamp();
    assert!((0..=60).contains(&lag));
}

#[test]
fn success_takes_over_the_document_and_keeps_it_without_one() {
    let now = Timestamp::new(1_700_000_000, 0).expect("instant");
    let mut report = HealthReport::default();
    let with_document = ProbeSuccess::new(
        7,
        None,
        Some(Nip11 {
            name: Some("Example".to_owned()),
            software: Some("strfry".to_owned()),
            version: None,
            supported_nips: Some(vec![1, 11, 42]),
        }),
    );
    record_success_at(&mut report, URL, &with_document, now);
    record_success_at(&mut report, URL, &success(), now);
    let entry = report.entries.get(URL).expect("entry exists");
    assert_eq!(entry.supported_nips, Some(vec![1, 11, 42]));
    assert_eq!(entry.nip11_software.as_deref(), Some("strfry"));
    assert_eq!(entry.nip11_version, None);
    assert_eq!(entry.rtt_open_ms, Some(42));
}

#[test]
fn failures_in_a_row_warn_and_then_kill() {
    let now = Timestamp::new(1_700_000_000, 0).expect("instant");
    let mut report = HealthReport::default();
    let mut states = Vec::new();
    for _ in 0..15 {
        record_failure_at(&mut report, URL, "boom", now);
        states.push(report.entries.get(URL).expect("entry").state(now));
    }
    assert_eq!(states[1], HealthState::Flaky);
    assert_eq!(states[2], HealthState::Warn);
    assert_eq!(states[12], HealthState::Warn);
    assert_eq!(states[13], HealthState::Dead);
    record_success_at(&mut report, URL, &success(), now);
    assert_eq!(report.entries.get(URL).expect("entry").state(now), HealthState::Healthy);
}

#[test]
fn failure_counter_stops_at_its_limit_and_messages_are_cut() {
    let now = Timestamp::new(1_700_000_000, 0).expect("instant");
    let mut report = HealthReport::default();
    record_failure_at(&mut report, URL, "first", now);
    let mut entry = report.entries.remove(URL).expect("entry");
    entry.consecutive_failures = u32::MAX;
    report.entries.insert(URL.to_owned(), entry);
    record_failure_at(&mut report, URL, &"y".repeat(201), now);
    let entry = report.entries.get(URL).expect("entry");
    assert_eq!(entry.consecutive_failures, u32::MAX);
    assert_eq!(entry.last_error.as_ref().expect("error").chars().count(), 201);
    assert_eq!(entry.rtt_open_ms, None);
}

#[test]
fn recordings_leave_other_entries_alone() {
    let now = Timestamp::new(1_700_000_000, 0).expect("instant");
    let mut report = HealthReport::default();
    record_success_at(&mut report, "wss://a.example/", &success(), now);
    record_failure_at(&mut report, "wss://b.example/", "boom", now);
    record_skipped(&mut report, "wss://c.example/");
    let a = report.entries.get("wss://a.example/").expect("entry");
    assert_eq!(a.last_outcome, Outcome::Success);
    assert_eq!(a.last_checked, Some(now));
    assert_eq!(report.entries.len(), 3);
}

#[test]
fn soft_failures_and_skips_do_not_break_a_row_of_failures() {
    let mut report = HealthReport::default();
    record_success(&mut report, URL, &success());
    let now = Timestamp::now();
    for count in 1..=15 {
        record_soft_failure(&mut report, URL, "forbidden");
        assert_eq!(report.entries.get(URL).expect("entry").state(now), HealthState::Blocked);
        record_skipped(&mut report, URL);
        assert_eq!(report.entries.get(URL).expect("entry").state(now), HealthState::Skipped);
        record_failure(&mut report, URL, "down");
        let entry = report.entries.get(URL).expect("entry");
        assert_eq!(entry.consecutive_failures, count);
        let expected = match count {
            1 | 2 => HealthState::Flaky,
            3..=13 => HealthState::Warn,
            _ => HealthState::Dead,
        };
        assert_eq!(entry.state(now), expected);
    }
}
