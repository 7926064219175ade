use awesome_nostr_relays::anr::check::{
    begin_run, finish_run, known_urls, record_outcome, record_outcome_at, run_config, target_count,
};
use awesome_nostr_relays::anr::health::{
    prune_orphans, record_failure, record_success, status_icon,
};
use awesome_nostr_relays::anr::model::{Dataset, HealthEntry, HealthReport, Relay};
use awesome_nostr_relays::anr::probe::{
    is_onion_host, limits, onion_suffix, outcome, plan, subscription, Nip11, ProbeConfig, ProbePlan,
    ProbeSuccess,
};
use awesome_nostr_relays::anr::render::json::full_document;
use awesome_nostr_relays::anr::source;
use awesome_nostr_relays::anr::{
    Collection, DEAD_FAILURE_THRESHOLD, README_END_MARKER, README_START_MARKER,
    WARN_FAILURE_THRESHOLD,
};
use awesome_nostr_relays::duration::Duration;
use awesome_nostr_relays::exchange::ExchangeEnd;
use awesome_nostr_relays::relay_url::RelayUrl;
use awesome_nostr_relays::timestamp::Timestamp;

const URL: &str = "wss://example.com/";

fn relay(url: &str) -> Relay {
    Relay {
        url: RelayUrl::parse(url).expect("valid url"),
        name: Some("Name".to_owned()),
        description: None,
        operator: None,
        country: None,
        software: None,
        paid: Some(true),
        collections: vec!["a".to_owned()],
        tags: Vec::new(),
        added_at: chrono::NaiveDate::from_ymd_opt(2026, 6, 6),
    }
}

fn dataset() -> Dataset {
    Dataset {
        schema_version: "1".to_owned(),
        collections: vec![Collection {
            id: "a".to_owned(),
            name: "A".to_owned(),
            description: String::new(),
        }],
        relays: vec![relay("wss://a.example/"), relay("wss://b.example/")],
    }
}

fn success() -> ProbeSuccess {
    ProbeSuccess {
        rtt_ms: 9,
        nip11: Some(Nip11 {
            name: None,
            software: Some("khatru".to_owned()),
            version: Some("1".to_owned()),
            supported_nips: Some(vec![1]),
        }),
    }
}

#[test]
fn first_layout_records_successes_and_failures() {
    let mut report = HealthReport::default();
    record_failure(&mut report, URL, "boom");
    let entry = report.entries.get(URL).expect("entry");
    assert_eq!(entry.consecutive_failures, 1);
    assert_eq!(entry.last_error.as_deref(), Some("boom"));
    assert!(!entry.is_online());
    record_success(&mut report, URL, &success());
    let entry = report.entries.get(URL).expect("entry");
    assert_eq!(entry.consecutive_failures, 0);
    assert_eq!(entry.rtt_ms, Some(9));
    assert_eq!(entry.last_error, None);
    assert_eq!(entry.nip11_software.as_deref(), Some("khatru"));
    assert!(entry.is_online());
    prune_orphans(&mut report, &[]);
    assert!(report.entries.is_empty());
}

#[test]
fn first_layout_status_icons() {
    assert_eq!(status_icon(None), "❔");
    let mut entry = HealthEntry::default();
    assert_eq!(status_icon(Some(&entry)), "❔");
    entry.last_success = Some(Timestamp::now());
    assert_eq!(status_icon(Some(&entry)), "✅");
    entry.consecutive_failures = 1;
    assert_eq!(status_icon(Some(&entry)), "❔");
    entry.consecutive_failures = WARN_FAILURE_THRESHOLD;
    assert_eq!(status_icon(Some(&entry)), "⚠️");
    entry.consecutive_failures = DEAD_FAILURE_THRESHOLD;
    assert_eq!(status_icon(Some(&entry)), "💀");
}

#[test]
fn first_layout_onion_hosts() {
    for host in ["abc.onion", "ABC.ONION", ".onion", "sub.abc.onion", "é.onion"] {
        assert!(is_onion_host(host), "{host}");
        assert!(awesome_nostr_relays::probe::is_onion_host(host), "{host}");
    }
    for host in ["onion", "", "example.com", "abc-onion", "x.onion.", "éonion", "a.onion.b"] {
        assert!(!is_onion_host(host), "{host}");
        assert!(!awesome_nostr_relays::probe::is_onion_host(host), "{host}");
    }
    assert!(onion_suffix(".Onion"));
    assert!(!onion_suffix("a.onion"));
}

#[test]
fn first_layout_reports_onion_relays_as_alive() {
    let onion = RelayUrl::parse("ws://abc.onion/").expect("valid onion url");
    let Ok(ProbePlan::Report { success }) = plan(&onion) else { panic!("reported") };
    assert_eq!(success.rtt_ms, 0);
    assert!(success.nip11.is_none());
    let plain = RelayUrl::parse("ws://example.com/").expect("valid url");
    let Ok(ProbePlan::Run { document_url }) = plan(&plain) else { panic!("runs") };
    assert_eq!(document_url.as_str(), "http://example.com/");
    let bad = RelayUrl::parse("ftp://example.com/").expect("valid url");
    assert_eq!(plan(&bad).expect_err("bad scheme"), "unsupported scheme: ftp");
}

#[test]
fn first_layout_outcomes_and_messages() {
    let end = ExchangeEnd::Answered { elapsed: Duration::from_secs(2) };
    let success = outcome(end, Some(204), None).expect("alive");
    assert_eq!(success.rtt_ms, 2_000);
    assert!(success.nip11.is_some());
    assert_eq!(outcome(ExchangeEnd::TimedOut, None, None).expect_err("dead"), "probe timeout");
    assert_eq!(subscription().req, r#"["REQ","anrelays-probe",{"kinds":[1],"limit":1}]"#);
    assert_eq!(subscription().close, r#"["CLOSE","anrelays-probe"]"#);
    let config = ProbeConfig::default();
    assert_eq!(config.timeout, Duration::from_secs(10));
    assert_eq!(config.http_timeout, Duration::from_secs(8));
}

#[test]
fn check_runs_cover_the_catalog() {
    let data = dataset();
    assert_eq!(known_urls(&data), ["wss://a.example/", "wss://b.example/"]);
    assert_eq!(target_count(2, None), 2);
    assert_eq!(target_count(2, Some(1)), 1);
    assert_eq!(target_count(2, Some(5)), 2);
    assert_eq!(target_count(2, Some(0)), 0);
    assert_eq!(run_config(Duration::from_secs(9)).http_timeout, Duration::from_secs(8));
    assert_eq!(run_config(Duration::from_secs(4)).http_timeout, Duration::from_secs(4));
}

#[test]
fn check_runs_prune_record_and_stamp() {
    let data = dataset();
    let mut report = HealthReport::default();
    record_failure(&mut report, "wss://gone.example/", "boom");
    begin_run(&mut report, &data);
    assert!(report.entries.is_empty());
    record_outcome(&mut report, "wss://a.example/", &Ok(success()));
    record_outcome(&mut report, "wss://b.example/", &Err("refused".to_owned()));
    assert!(report.last_run.is_none());
    finish_run(&mut report);
    assert!(report.last_run.is_some());
    assert!(report.entries.get("wss://a.example/").expect("entry").is_online());
    let b = report.entries.get("wss://b.example/").expect("entry");
    assert_eq!(b.last_error.as_deref(), Some("refused"));
    let document = full_document(&data, &report.entries, Timestamp::now());
    assert_eq!((document.total, document.healthy), (2, 1));
    assert_eq!(document.relays[0].relay.display_name(), "Name");
    assert_eq!(
        document.relays[0].relay.added_at,
        chrono::NaiveDate::from_ymd_opt(2026, 6, 6)
    );
}

#[test]
fn outcomes_of_different_relays_commute() {
    let now = Timestamp::new(1_700_000_000, 0).expect("instant");
    let dead = Err("refused".to_owned());
    let mut one = HealthReport::default();
    record_outcome_at(&mut one, "wss://a.example/", &Ok(success()), now);
    record_outcome_at(&mut one, "wss://b.example/", &dead, now);
    let mut two = HealthReport::default();
    record_outcome_at(&mut two, "wss://b.example/", &dead, now);
    record_outcome_at(&mut two, "wss://a.example/", &Ok(success()), now);
    assert_eq!(format!("{one:?}"), format!("{two:?}"));
}

#[test]
fn first_layout_file_names_are_stable() {
    assert_eq!(source::default_relays_path(), "relays.toml");
    assert_eq!(source::default_health_path(), "health.json");
    assert_eq!(source::default_dist_dir(), "dist");
    assert_eq!(source::default_readme_path(), "README.md");
    assert_eq!(README_START_MARKER, "<!-- RELAYS:START -->");
    assert_eq!(README_END_MARKER, "<!-- RELAYS:END -->");
}

#[test]
fn first_layout_keeps_both_sides_within_the_timeout() {
    let limits_of = |timeout: u64, http_timeout: u64| {
        limits(ProbeConfig {
            timeout: Duration::from_secs(timeout),
            http_timeout: Duration::from_secs(http_timeout),
        })
    };
    assert_eq!(limits_of(10, 8), (Duration::from_secs(10), Duration::from_secs(8)));
    assert_eq!(limits_of(5, 8), (Duration::from_secs(5), Duration::from_secs(5)));
    assert_eq!(limits_of(0, 8), (Duration::from_secs(0), Duration::from_secs(0)));
}

#[test]
fn runs_leave_entries_alone_that_they_do_not_probe() {
    let now = Timestamp::new(1_700_000_000, 0).expect("instant");
    let mut report = HealthReport::default();
    record_outcome_at(&mut report, "wss://a.example/", &Ok(success()), now);
    let later = Timestamp::new(1_700_003_600, 0).expect("instant");
    record_outcome_at(&mut report, "wss://b.example/", &Err("down".to_owned()), later);
    record_outcome_at(&mut report, "wss://b.example/", &Err("down".to_owned()), later);
    let kept = report.entries.get("wss://a.example/").expect("entry");
    assert_eq!(kept.last_checked, Some(now));
    assert_eq!(kept.consecutive_failures, 0);
    assert!(kept.is_online());
    assert_eq!(report.entries.get("wss://b.example/").expect("entry").consecutive_failures, 2);
}
