use awesome_nostr_relays::json::{same_json, Json, JsonNumber};
use awesome_nostr_relays::relays::model::{Collection, Dataset, HealthEntry, HealthReport, Relay};
use awesome_nostr_relays::relays::render::json::{
    collections_document, file_text, flat_document, full_document, needs_write,
    payload_is_equivalent, strip_keys, values_are_equivalent, COLLECTIONS_FILE, FULL_FILE,
    URLS_FILE,
};
use awesome_nostr_relays::relays::source;
use awesome_nostr_relays::relays::validate::{validate, ValidationError};
use awesome_nostr_relays::relay_url::RelayUrl;
use awesome_nostr_relays::timestamp::Timestamp;

fn relay(url: &str, collections: &[&str]) -> Relay {
    Relay {
        url: RelayUrl::parse(url).expect("valid url"),
        name: None,
        description: None,
        operator: None,
        country: None,
        software: None,
        paid: None,
        collections: collections.iter().copied().map(str::to_owned).collect(),
        tags: Vec::new(),
        added_at: None,
    }
}

fn dataset() -> Dataset {
    let collection = |id: &str| Collection {
        id: id.to_owned(),
        name: format!("Label {id}"),
        description: format!("Description for {id}"),
    };
    Dataset {
        schema_version: "1".to_owned(),
        collections: vec![collection("a"), collection("b")],
        relays: vec![
            relay("wss://one.example/", &["a"]),
            relay("wss://two.example/", &["a", "b"]),
            relay("wss://three.example/", &["b"]),
        ],
    }
}

#[test]
fn payload_equivalent_ignores_top_level_generated_at() {
    let a = r#"{"generated_at":"2026-01-01T00:00:00Z","total":3,"urls":["a","b","c"]}"#;
    let b = r#"{"generated_at":"2026-05-02T12:00:00Z","total":3,"urls":["a","b","c"]}"#;
    assert!(payload_is_equivalent(a, b, &["generated_at"]));
}

#[test]
fn payload_equivalent_detects_real_changes() {
    let a = r#"{"generated_at":"2026-01-01T00:00:00Z","total":3,"urls":["a","b","c"]}"#;
    let b = r#"{"generated_at":"2026-01-01T00:00:00Z","total":4,"urls":["a","b","c","d"]}"#;
    assert!(!payload_is_equivalent(a, b, &["generated_at"]));
}

#[test]
fn payload_equivalent_returns_false_on_invalid_json() {
    assert!(!payload_is_equivalent("not json", "{}", &[]));
    assert!(!payload_is_equivalent("{}", "not json", &[]));
}

#[test]
fn payload_equivalent_compares_values_not_spelling() {
    assert!(payload_is_equivalent(r#"{"a":1,"b":[2]}"#, r#"{ "b": [ 2 ], "a": 1 }"#, &[]));
    assert!(payload_is_equivalent("0.0", "-0.0", &[]));
    assert!(payload_is_equivalent("1e2", "100.0", &[]));
    assert!(!payload_is_equivalent("1", "1.0", &[]));
    assert!(!payload_is_equivalent("-1", "1", &[]));
    assert!(!payload_is_equivalent("[1,2]", "[2,1]", &[]));
    assert!(payload_is_equivalent(r#"{"a":1,"a":2}"#, r#"{"a":2}"#, &[]));
    assert!(!payload_is_equivalent(
        r#"{"x":{"generated_at":1}}"#,
        r#"{"x":{"generated_at":2}}"#,
        &["generated_at"]
    ));
    assert!(payload_is_equivalent(r#"{"generated_at":1}"#, "{}", &["generated_at"]));
    assert!(!payload_is_equivalent(r#"{"a":null}"#, "{}", &["generated_at"]));
}

#[test]
fn payload_equivalent_agrees_with_the_parsed_values() {
    let texts = [
        "null", "true", "0", "-0", "-0.0", "0.5", "18446744073709551615", "-9223372036854775808",
        "\"a\"", "[]", "[null]", "{}", "{\"a\":{\"b\":[1,2.5,\"x\"]}}", "nul", "",
    ];
    for a in texts {
        for b in texts {
            let read = |t: &str| serde_json::from_str::<serde_json::Value>(t).ok();
            let expected = match (read(a), read(b)) {
                (Some(x), Some(y)) => x == y,
                _ => false,
            };
            assert_eq!(payload_is_equivalent(a, b, &[]), expected, "{a} and {b}");
        }
    }
}

#[test]
fn strip_keys_removes_only_top_level() {
    let mut value = Json::parse(r#"{"generated_at":"x","nested":{"generated_at":"y"}}"#)
        .expect("valid json");
    strip_keys(&mut value, &["generated_at"]);
    assert!(value.get("generated_at").is_none());
    assert!(
        value
            .get("nested")
            .and_then(|n| n.get("generated_at"))
            .is_some(),
        "nested generated_at must be preserved"
    );
}

#[test]
fn json_values_are_taken_apart() {
    let value = Json::parse(r#"{"n":[7,-7,0.5],"t":"x","b":true,"z":null}"#).expect("json");
    let list = value.get("n").expect("member");
    assert!(matches!(list.element(0), Some(Json::Number(JsonNumber::Unsigned(7)))));
    assert!(matches!(list.element(1), Some(Json::Number(JsonNumber::Negative(-7)))));
    let Some(Json::Number(JsonNumber::Fraction { bits })) = list.element(2) else {
        panic!("fraction")
    };
    assert_eq!(f64::from_bits(*bits), 0.5);
    assert!(list.element(3).is_none());
    assert_eq!(value.get("t").and_then(|t| t.as_str()), Some("x"));
    assert!(matches!(value.get("b"), Some(Json::Bool(true))));
    assert!(matches!(value.get("z"), Some(Json::Null)));
    assert!(value.element(0).is_none());
    assert!(Json::parse("{").is_none());
}

#[test]
fn values_compare_without_regard_to_member_order() {
    let member = |key: &str, flag: bool| (key.to_owned(), Json::Bool(flag));
    let a = Json::Object(vec![member("x", true), member("y", false)]);
    let b = Json::Object(vec![member("y", false), member("x", true)]);
    assert!(same_json(&a, &b));
    let c = Json::Object(vec![member("y", true), member("x", true)]);
    assert!(!same_json(&a, &c));
    assert!(values_are_equivalent(a, c, &["y"]));
}

#[test]
fn artefacts_are_written_only_when_they_change() {
    let old = r#"{"generated_at":"2026-01-01T00:00:00Z","total":3}"#;
    let same = r#"{"generated_at":"2026-05-02T12:00:00Z","total":3}"#;
    let other = r#"{"generated_at":"2026-01-01T00:00:00Z","total":4}"#;
    assert!(!needs_write(Some(old), same));
    assert!(needs_write(Some(old), other));
    assert!(needs_write(Some("broken"), other));
    assert!(needs_write(None, other));
    assert!(!needs_write(Some(other), other));
    assert!(needs_write(Some("broken"), "broken"));
    assert_eq!(file_text("{}".to_owned()), "{}\n");
}

#[test]
fn full_document_joins_relays_and_health() {
    let data = dataset();
    let now = Timestamp::new(1_700_000_000, 0).expect("instant");
    let mut health = HealthReport::default();
    let alive = HealthEntry { last_success: Some(now), ..HealthEntry::default() };
    health.entries.insert("wss://one.example/".to_owned(), alive);
    let failing = HealthEntry {
        last_success: Some(now),
        consecutive_failures: 1,
        ..HealthEntry::default()
    };
    health.entries.insert("wss://two.example/".to_owned(), failing);
    let document = full_document(&data, &health.entries, now);
    assert_eq!(document.schema_version, "1");
    assert_eq!(document.generated_at, now);
    assert_eq!(document.total, 3);
    assert_eq!(document.healthy, 1);
    assert_eq!(document.collections.len(), 2);
    assert_eq!(document.relays.len(), 3);
    assert_eq!(document.relays[1].relay.url.as_str(), "wss://two.example/");
    assert_eq!(document.relays[1].status.expect("entry").consecutive_failures, 1);
    assert!(document.relays[2].status.is_none());
}

#[test]
fn flat_document_lists_the_urls() {
    let data = dataset();
    let now = Timestamp::new(1_700_000_000, 0).expect("instant");
    let document = flat_document(&data, now);
    assert_eq!(document.total, 3);
    assert_eq!(document.generated_at, now);
    assert_eq!(
        document.urls,
        ["wss://one.example/", "wss://two.example/", "wss://three.example/"]
    );
}

#[test]
fn collections_document_groups_the_urls() {
    let data = dataset();
    let now = Timestamp::new(1_700_000_000, 0).expect("instant");
    let document = collections_document(&data, now);
    assert_eq!(document.generated_at, now);
    assert_eq!(document.collections.len(), 2);
    let a = &document.collections[0];
    assert_eq!((a.id, a.name, a.description), ("a", "Label a", "Description for a"));
    assert_eq!(a.relays, ["wss://one.example/", "wss://two.example/"]);
    assert_eq!(document.collections[1].relays, ["wss://two.example/", "wss://three.example/"]);
    let summary = validate(&data).expect("valid");
    assert_eq!(summary.relays_per_collection.get("a"), Some(&a.relays.len()));
}

#[test]
fn second_layout_validates_by_its_own_rules() {
    let mut data = dataset();
    data.relays[0].country = Some("T1".to_owned());
    assert!(validate(&data).is_ok());
    data.schema_version = "2".to_owned();
    data.relays[0].country = Some("t1".to_owned());
    let ValidationError::Failed { count, details } = validate(&data).expect_err("must reject");
    assert_eq!(count, 2);
    assert_eq!(
        details,
        [
            "  - schema_version must be \"1\", got \"2\"",
            "  - relay wss://one.example/ has invalid country \"t1\" (expected ISO-3166 alpha-2 uppercase, or XX/T1)",
        ]
        .join("\n")
    );
}

#[test]
fn second_layout_file_names_are_stable() {
    assert_eq!((FULL_FILE, URLS_FILE, COLLECTIONS_FILE), ("relays.json", "urls.json", "collections.json"));
    assert_eq!(source::default_relays_path(), "relays.toml");
    assert_eq!(source::default_health_path(), "health.json");
    assert_eq!(source::default_api_dir(), "api");
    assert_eq!(source::default_readme_path(), "README.md");
}
