use awesome_nostr_relays::model::{Dataset, HealthEntry, HealthReport, Relay, Requirements};
use awesome_nostr_relays::relay_url::RelayUrl;
use awesome_nostr_relays::render::nip66::{
    discovery_event, discovery_events, push_requirement, DiscoveryEvent, KIND_RELAY_DISCOVERY,
    NIP66_FILE,
};
use awesome_nostr_relays::timestamp::Timestamp;

fn relay() -> Relay {
    Relay {
        url: RelayUrl::parse("wss://relay.example/").expect("valid url"),
        name: None,
        description: None,
        operator: None,
        country: None,
        geohash: Some("ww8p1r4t8".to_owned()),
        network: None,
        software: None,
        requirements: Requirements {
            payment: Some(true),
            auth: Some(false),
            ..Requirements::default()
        },
        collections: vec!["global".to_owned()],
        topics: vec!["bitcoin".to_owned()],
        added_at: None,
    }
}

fn has_tag(event: &DiscoveryEvent, expected: &[&str]) -> bool {
    let expected: Vec<String> = expected.iter().map(|s| (*s).to_owned()).collect();
    event.tags.iter().any(|tag| tag == &expected)
}

#[test]
fn discovery_event_emits_nip66_tags() {
    let event = discovery_event(&relay(), &HealthReport::default(), 1_000);
    assert_eq!(event.kind, KIND_RELAY_DISCOVERY);
    assert_eq!(event.created_at, 1_000);
    assert!(has_tag(&event, &["d", "wss://relay.example/"]));
    assert!(has_tag(&event, &["n", "clearnet"]));
    assert!(has_tag(&event, &["R", "payment"]));
    assert!(has_tag(&event, &["R", "!auth"]));
    assert!(has_tag(&event, &["t", "bitcoin"]));
    assert!(has_tag(&event, &["g", "ww8p1r4t8"]));
}

#[test]
fn discovery_event_derives_tor_network_from_onion() {
    let mut relay = relay();
    relay.url = RelayUrl::parse("ws://abc.onion/").expect("valid onion url");
    let event = discovery_event(&relay, &HealthReport::default(), 1_000);
    assert!(has_tag(&event, &["n", "tor"]));
}

#[test]
fn discovery_event_writes_tags_in_order() {
    let mut health = HealthReport::default();
    let entry = HealthEntry {
        last_checked: Timestamp::new(1_700_000_000, 0),
        rtt_open_ms: Some(120),
        supported_nips: Some(vec![1, 65_535]),
        ..HealthEntry::default()
    };
    health.entries.insert("wss://relay.example/".to_owned(), entry);
    let mut relay = relay();
    relay.requirements.pow = Some(true);
    relay.requirements.writes = Some(false);
    let event = discovery_event(&relay, &health, 1_000);
    assert_eq!(event.kind, 30166);
    assert_eq!(event.created_at, 1_700_000_000);
    assert_eq!(event.content, "");
    let tags: Vec<String> = event.tags.iter().map(|tag| tag.join("=")).collect();
    assert_eq!(
        tags,
        [
            "d=wss://relay.example/",
            "n=clearnet",
            "N=1",
            "N=65535",
            "rtt-open=120",
            "R=!auth",
            "R=payment",
            "R=pow",
            "R=!writes",
            "t=bitcoin",
            "g=ww8p1r4t8",
        ]
    );
    assert_eq!(NIP66_FILE, "nip66.json");
}

#[test]
fn push_requirement_leaves_out_what_is_not_declared() {
    let mut tags: Vec<Vec<String>> = Vec::new();
    push_requirement(&mut tags, "auth", None);
    assert!(tags.is_empty());
    push_requirement(&mut tags, "auth", Some(false));
    push_requirement(&mut tags, "auth", Some(true));
    assert_eq!(tags, [["R", "!auth"], ["R", "auth"]]);
}

#[test]
fn discovery_events_follow_the_catalog() {
    let mut second = relay();
    second.url = RelayUrl::parse("wss://b.example/").expect("valid url");
    let dataset = Dataset {
        schema_version: "2".to_owned(),
        collections: Vec::new(),
        relays: vec![relay(), second],
    };
    let events = discovery_events(&dataset, &HealthReport::default(), 5);
    assert_eq!(events.len(), 2);
    assert_eq!(events[0].tags[0], ["d", "wss://relay.example/"]);
    assert_eq!(events[1].tags[0], ["d", "wss://b.example/"]);
    assert_eq!(events[1].created_at, 5);
}
