use awesome_nostr_relays::relays::health::{
    prune_orphans, record_failure, record_failure_at, record_skipped, record_skipped_at,
    record_soft_failure, record_success, record_success_at, status_icon, truncate,
};
use awesome_nostr_relays::relays::model::{HealthEntry, HealthReport};
use awesome_nostr_relays::relays::probe::ProbeSuccess;
use awesome_nostr_relays::timestamp::Timestamp;
use awesome_nostr_relays::{DEAD_FAILURE_THRESHOLD, WARN_FAILURE_THRESHOLD};

const URL: &str = "wss://example.com/";

fn success() -> ProbeSuccess {
    ProbeSuccess {
        rtt_ms: 42,
        first_frame: Some("EOSE".to_owned()),
        nip11: None,
    }
}

#[test]
fn success_resets_failure_counter_and_skipped() {
    let mut report = HealthReport::default();
    record_failure(&mut report, URL, "boom");
    record_failure(&mut report, URL, "boom again");
    record_success(&mut report, URL, &success());

    let entry = report.entries.get(URL).expect("entry exists");
    assert_eq!(entry.consecutive_failures, 0);
    assert!(!entry.skipped);
    assert_eq!(entry.rtt_ms, Some(42));
    assert!(entry.is_online());
}

#[test]
fn failure_increments_counter_and_clears_skipped() {
    let mut report = HealthReport::default();
    record_skipped(&mut report, URL);
    record_failure(&mut report, URL, "network down");

    let entry = report.entries.get(URL).expect("entry exists");
    assert_eq!(entry.consecutive_failures, 1);
    assert!(!entry.skipped);
    assert_eq!(entry.last_error.as_deref(), Some("network down"));
}

#[test]
fn soft_failure_records_error_without_bumping_counter() {
    let mut report = HealthReport::default();
    record_soft_failure(&mut report, URL, "dns lookup failed");
    record_soft_failure(&mut report, URL, "forbidden (HTTP 403)");

    let entry = report.entries.get(URL).expect("entry exists");
    assert_eq!(entry.consecutive_failures, 0);
    assert!(!entry.skipped);
    assert_eq!(entry.last_error.as_deref(), Some("forbidden (HTTP 403)"));
}

#[test]
fn skipped_marks_entry_without_failure_count() {
    let mut report = HealthReport::default();
    record_skipped(&mut report, URL);

    let entry = report.entries.get(URL).expect("entry exists");
    assert_eq!(entry.consecutive_failures, 0);
    assert!(entry.skipped);
    assert!(!entry.is_online());
}

#[test]
fn health_truncate_keeps_short_messages_verbatim() {
    assert_eq!(truncate("short", 10), "short");
}

#[test]
fn health_truncate_appends_ellipsis_for_long_messages() {
    let long = "x".repeat(300);
    let trimmed = truncate(&long, 200);
    assert_eq!(trimmed.chars().count(), 201);
    assert!(trimmed.ends_with('…'));
}

#[test]
fn health_prune_orphans_removes_unknown_urls() {
    let mut report = HealthReport::default();
    record_success(&mut report, "wss://a.example/", &success());
    record_success(&mut report, "wss://b.example/", &success());

    prune_orphans(&mut report, &["wss://a.example/".to_owned()]);
    assert!(report.entries.contains_key("wss://a.example/"));
    assert!(!report.entries.contains_key("wss://b.example/"));
}

#[test]
fn status_icon_handles_all_states() {
    assert_eq!(status_icon(None), "❔");

    let mut entry = HealthEntry::default();
    assert_eq!(status_icon(Some(&entry)), "❔");

    entry.last_success = Some(Timestamp::now());
    assert_eq!(status_icon(Some(&entry)), "✅");

    entry.consecutive_failures = WARN_FAILURE_THRESHOLD;
    assert_eq!(status_icon(Some(&entry)), "⚠️");

    entry.consecutive_failures = DEAD_FAILURE_THRESHOLD;
    assert_eq!(status_icon(Some(&entry)), "💀");

    entry.skipped = true;
    assert_eq!(status_icon(Some(&entry)), "🧅");
}

#[test]
fn skips_keep_the_counter_and_the_last_success() {
    let now = Timestamp::new(1_700_000_000, 7).expect("instant");
    let mut report = HealthReport::default();
    record_success_at(&mut report, URL, &success(), now);
    for _ in 0..14 {
        record_failure_at(&mut report, URL, "boom", now);
    }
    assert_eq!(status_icon(report.entries.get(URL)), "💀");
    record_skipped_at(&mut report, URL, now);
    let entry = report.entries.get(URL).expect("entry");
    assert_eq!(entry.consecutive_failures, 14);
    assert_eq!(entry.last_success, Some(now));
    assert_eq!(entry.last_error, None);
    assert_eq!(status_icon(Some(entry)), "🧅");
}

#[test]
fn soft_failures_and_skips_in_between_leave_the_count() {
    let mut report = HealthReport::default();
    record_success(&mut report, URL, &success());
    for count in 1..=15 {
        record_skipped(&mut report, URL);
        assert_eq!(status_icon(report.entries.get(URL)), "🧅");
        record_failure(&mut report, URL, "down");
        record_soft_failure(&mut report, URL, "forbidden");
        assert_eq!(report.entries.get(URL).expect("entry").consecutive_failures, count);
        let expected = match count {
            1 | 2 => "❔",
            3..=13 => "⚠️",
            _ => "💀",
        };
        assert_eq!(status_icon(report.entries.get(URL)), expected);
    }
}
