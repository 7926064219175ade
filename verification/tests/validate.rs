use awesome_nostr_relays::model::{Collection, Dataset, Relay, Requirements};
use awesome_nostr_relays::relay_url::RelayUrl;
use awesome_nostr_relays::validate::{
    is_kebab_case, is_valid_country, is_valid_geohash, validate, ValidationError,
    ValidationSummary,
};

fn dataset(collections: Vec<Collection>, relays: Vec<Relay>) -> Dataset {
    Dataset {
        schema_version: "2".to_owned(),
        collections,
        relays,
    }
}

fn collection(id: &str) -> Collection {
    Collection {
        id: id.to_owned(),
        name: format!("Label {id}"),
        description: format!("Description for {id}"),
    }
}

fn relay(url: &str, collections: &[&str]) -> Relay {
    Relay {
        url: RelayUrl::parse(url).expect("valid url"),
        name: None,
        description: None,
        operator: None,
        country: None,
        geohash: None,
        network: None,
        software: None,
        requirements: Requirements::default(),
        collections: collections.iter().copied().map(str::to_owned).collect(),
        topics: Vec::new(),
        added_at: None,
    }
}

fn details(ds: &Dataset) -> (usize, String) {
    let ValidationError::Failed { count, details } = validate(ds).expect_err("must reject");
    (count, details)
}

#[test]
fn kebab_case_rules() {
    assert!(is_kebab_case("featured"));
    assert!(is_kebab_case("regional-americas"));
    assert!(is_kebab_case("bot-01"));
    assert!(!is_kebab_case(""));
    assert!(!is_kebab_case("-leading"));
    assert!(!is_kebab_case("trailing-"));
    assert!(!is_kebab_case("Upper"));
    assert!(!is_kebab_case("has_underscore"));
    assert!(!is_kebab_case("has space"));
}

#[test]
fn accepts_minimal_valid_dataset() {
    let ds = dataset(
        vec![collection("featured")],
        vec![relay("wss://a.example/", &["featured"])],
    );
    let summary = validate(&ds).expect("valid");
    assert_eq!(summary.relay_count, 1);
    assert_eq!(summary.collection_count, 1);
    assert_eq!(summary.relays_per_collection.get("featured"), Some(&1));
}

#[test]
fn rejects_wrong_schema_version() {
    let mut ds = dataset(vec![], vec![]);
    ds.schema_version = "1".to_owned();
    let err = validate(&ds).expect_err("must reject");
    assert!(matches!(err, ValidationError::Failed { .. }));
}

#[test]
fn collects_multiple_violations_in_one_pass() {
    let ds = dataset(
        vec![
            collection("Featured"),
            collection("Featured"),
            Collection {
                id: "global".to_owned(),
                name: String::new(),
                description: String::new(),
            },
        ],
        vec![
            relay("https://wrong-scheme/", &["global"]),
            relay("wss://a.example/", &["missing-collection"]),
            relay("wss://a.example/", &["global"]),
        ],
    );
    let err = validate(&ds).expect_err("must reject");
    let ValidationError::Failed { count, .. } = err;
    assert!(count >= 5, "expected many violations, got {count}");
}

#[test]
fn reports_every_violation_in_order() {
    let ds = dataset(
        vec![
            collection("Featured"),
            collection("Featured"),
            Collection {
                id: "global".to_owned(),
                name: String::new(),
                description: String::new(),
            },
        ],
        vec![
            relay("https://wrong-scheme/", &["global"]),
            relay("wss://a.example/", &["missing-collection"]),
            relay("wss://a.example/", &["global"]),
        ],
    );
    let (count, text) = details(&ds);
    assert_eq!(count, 7);
    assert_eq!(
        text,
        [
            "  - collection id \"Featured\" must be lowercase kebab-case",
            "  - duplicate collection id: Featured",
            "  - collection id \"Featured\" must be lowercase kebab-case",
            "  - collection \"global\" has empty name",
            "  - relay https://wrong-scheme/ must use wss:// or ws:// (got https://)",
            "  - relay wss://a.example/ references unknown collection \"missing-collection\"",
            "  - duplicate relay url: wss://a.example/",
        ]
        .join("\n")
    );
}

#[test]
fn reports_each_rule_in_its_words() {
    let mut bad = relay("data:text/plain,hi", &[]);
    bad.country = Some("us".to_owned());
    bad.geohash = Some("ail".to_owned());
    let twice = relay("wss://b.example/", &["ok", "ok", "b\"c"]);
    let mut ds = dataset(
        vec![
            collection("ok"),
            Collection { id: " \t".to_owned(), name: "x".to_owned(), description: String::new() },
        ],
        vec![bad, twice],
    );
    ds.schema_version = "3".to_owned();
    let (count, text) = details(&ds);
    assert_eq!(count, 9);
    assert_eq!(
        text,
        [
            "  - schema_version must be \"2\", got \"3\"",
            "  - collection with empty id",
            "  - relay data:text/plain,hi must use wss:// or ws:// (got data://)",
            "  - relay data:text/plain,hi has no host",
            "  - relay data:text/plain,hi has no collections",
            "  - relay data:text/plain,hi has invalid country \"us\" (expected ISO-3166 alpha-2 uppercase, or XX)",
            "  - relay data:text/plain,hi has invalid geohash \"ail\" (expected 1–12 base32 geohash chars)",
            "  - relay wss://b.example/ lists collection \"ok\" more than once",
            "  - relay wss://b.example/ references unknown collection \"b\\\"c\"",
        ]
        .join("\n")
    );
    let err = validate(&ds).expect_err("must reject");
    assert_eq!(err.message(), format!("validation failed with 9 error(s):\n{text}"));
}

#[test]
fn blank_collection_ids_declare_nothing() {
    let ds = dataset(
        vec![
            collection("ok"),
            Collection { id: " ".to_owned(), name: "x".to_owned(), description: String::new() },
        ],
        vec![relay("wss://a.example/", &["ok", " "])],
    );
    let (count, text) = details(&ds);
    assert_eq!(count, 2);
    assert!(text.contains("references unknown collection \" \""));
}

#[test]
fn rejects_relay_without_collection() {
    let ds = dataset(
        vec![collection("featured")],
        vec![relay("wss://a.example/", &[])],
    );
    assert!(validate(&ds).is_err());
}

#[test]
fn rejects_duplicate_collection_on_relay() {
    let ds = dataset(
        vec![collection("featured")],
        vec![relay("wss://a.example/", &["featured", "featured"])],
    );
    assert!(validate(&ds).is_err());
}

#[test]
fn country_code_rules() {
    let build = |country: &str| {
        let mut r = relay("wss://a.example/", &["featured"]);
        r.country = Some(country.to_owned());
        dataset(vec![collection("featured")], vec![r])
    };
    assert!(validate(&build("US")).is_ok());
    assert!(validate(&build("JP")).is_ok());
    assert!(validate(&build("XX")).is_ok());
    assert!(validate(&build("T1")).is_err());
    assert!(validate(&build("us")).is_err());
    assert!(validate(&build("USA")).is_err());
    assert!(validate(&build("U")).is_err());
}

#[test]
fn country_codes_may_have_space_around_them() {
    assert!(is_valid_country(" US\n", false));
    assert!(!is_valid_country("U S", false));
    assert!(!is_valid_country("ÄÖ", false));
    assert!(!is_valid_country("", false));
    assert!(is_valid_country("T1", true));
    assert!(!is_valid_country("T2", true));
}

#[test]
fn geohash_rules() {
    let build = |geohash: &str| {
        let mut r = relay("wss://a.example/", &["featured"]);
        r.geohash = Some(geohash.to_owned());
        dataset(vec![collection("featured")], vec![r])
    };
    assert!(validate(&build("ww8p1r4t8")).is_ok());
    assert!(validate(&build("u4pruydqqvj")).is_ok());
    assert!(validate(&build("")).is_err());
    assert!(validate(&build("ABC")).is_err());
    assert!(validate(&build("ail")).is_err());
}

#[test]
fn geohash_alphabet_and_length() {
    for c in "0123456789bcdefghjkmnpqrstuvwxyz".chars() {
        assert!(is_valid_geohash(&c.to_string()));
    }
    for c in "ailoAZ-é".chars() {
        assert!(!is_valid_geohash(&c.to_string()));
    }
    assert!(is_valid_geohash(&"b".repeat(12)));
    assert!(!is_valid_geohash(&"b".repeat(13)));
}

#[test]
fn rejects_duplicate_relay_url_case_insensitive() {
    let ds = dataset(
        vec![collection("featured")],
        vec![
            relay("wss://a.example/", &["featured"]),
            relay("wss://A.EXAMPLE/", &["featured"]),
        ],
    );
    assert!(validate(&ds).is_err());
}

#[test]
fn duplicate_urls_ignore_the_case_of_the_path() {
    let ds = dataset(
        vec![collection("featured")],
        vec![
            relay("wss://a.example/Path", &["featured"]),
            relay("wss://a.example/path", &["featured"]),
        ],
    );
    let (count, text) = details(&ds);
    assert_eq!(count, 1);
    assert_eq!(text, "  - duplicate relay url: wss://a.example/path");
}

#[test]
fn summary_counts_relays_per_collection() {
    let ds = dataset(
        vec![collection("a"), collection("b"), collection("unused")],
        vec![
            relay("wss://a.example/", &["a", "b"]),
            relay("ws://b.onion/", &["a"]),
        ],
    );
    let summary = validate(&ds).expect("valid");
    assert_eq!(summary.relay_count, 2);
    assert_eq!(summary.collection_count, 3);
    assert_eq!(summary.relays_per_collection.get("a"), Some(&2));
    assert_eq!(summary.relays_per_collection.get("b"), Some(&1));
    assert_eq!(summary.relays_per_collection.get("unused"), None);
    let empty = ValidationSummary::default();
    assert_eq!(empty.relay_count, 0);
    assert!(empty.relays_per_collection.is_empty());
}

#[test]
fn plain_addresses_are_for_onion_hosts_only() {
    let of = |address: &str| dataset(vec![collection("a")], vec![relay(address, &["a"])]);
    assert!(validate(&of("ws://abc.onion/")).is_ok());
    assert!(validate(&of("ws://abc.onion:8080/x")).is_ok());
    assert!(validate(&of("wss://abc.onion/")).is_ok());
    let (count, text) = details(&of("ws://example.com/"));
    assert_eq!(count, 1);
    assert_eq!(
        text,
        "  - relay ws://example.com/ must use wss:// (ws:// is for onion hosts only)"
    );
    assert!(validate(&of("ws://onion.example.com/")).is_err());
}

#[test]
fn the_order_of_entries_does_not_matter() {
    let relays = || {
        vec![
            relay("wss://a.example/", &["a", "b"]),
            relay("wss://b.example/", &["b"]),
            relay("ws://c.onion/", &["a"]),
        ]
    };
    let mut turned = relays();
    turned.reverse();
    let forward = validate(&dataset(vec![collection("a"), collection("b")], relays()));
    let backward = validate(&dataset(vec![collection("b"), collection("a")], turned));
    let (forward, backward) = (forward.expect("valid"), backward.expect("valid"));
    assert_eq!(forward.relay_count, backward.relay_count);
    assert_eq!(forward.collection_count, backward.collection_count);
    for id in ["a", "b", "c"] {
        assert_eq!(forward.relays_per_collection.get(id), backward.relays_per_collection.get(id));
    }
    let mut broken = relays();
    broken.push(relay("wss://a.example/", &["c"]));
    let count = details(&dataset(vec![collection("a"), collection("b")], broken)).0;
    let mut broken = relays();
    broken.insert(0, relay("wss://a.example/", &["c"]));
    assert_eq!(details(&dataset(vec![collection("b"), collection("a")], broken)).0, count);
}
