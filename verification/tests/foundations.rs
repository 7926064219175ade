use awesome_nostr_relays::address_text::has_countable_head;
use awesome_nostr_relays::duration::Duration;
use awesome_nostr_relays::json::Json;
use awesome_nostr_relays::json_text::holds_countable_numbers;
use awesome_nostr_relays::probe::ws_to_http;
use awesome_nostr_relays::relay_url::RelayUrl;
use awesome_nostr_relays::text;
use awesome_nostr_relays::text_map::TextMap;
use awesome_nostr_relays::timestamp::Timestamp;

const SAMPLES: [&str; 12] = [
    "", " ", "abc", "  ABC def\t", "\u{a0}x\u{3000}", "äÖü.É", "a.b.c", ".", "\u{85}", "x\u{200b}",
    "Straße", "日本\n",
];

#[test]
fn text_functions_agree_with_the_standard_ones() {
    for s in SAMPLES {
        assert_eq!(text::trim(s), s.trim());
        assert_eq!(text::to_ascii_lowercase(s), s.to_ascii_lowercase());
        let last = s.rsplit_once('.').map(|(_, rest)| rest.to_owned());
        assert_eq!(text::split_last(s, '.'), last);
        for t in SAMPLES {
            assert_eq!(text::same_text(s, t), s == t);
            assert_eq!(text::eq_ignore_ascii_case(s, t), s.eq_ignore_ascii_case(t));
            assert_eq!(text::sorts_before(s, t), s < t);
            assert_eq!(text::chars_contain(&text::to_chars(s), t), s.contains(t));
        }
    }
    for c in (0..=0x10_ffff).filter_map(char::from_u32) {
        assert_eq!(text::white_space(c), c.is_whitespace());
    }
    for n in [0, 7, 10, 65_535, u64::MAX] {
        assert_eq!(text::decimal_text(n), n.to_string());
    }
    let list = vec!["a".to_owned(), String::new(), "c".to_owned()];
    assert_eq!(text::join(&list, ", "), "a, , c");
    assert_eq!(text::join(&Vec::new(), ", "), "");
    assert!(text::list_contains(&list, ""));
    assert!(!text::list_contains(&list, "b"));
}

#[test]
fn text_maps_behave_like_ordered_maps() {
    let mut map: TextMap<u32> = TextMap::new();
    let mut model = std::collections::BTreeMap::new();
    for (i, key) in ["m", "c", "x", "c", "", "m", "é"].iter().enumerate() {
        let fresh = map.insert((*key).to_owned(), i as u32);
        assert_eq!(fresh, model.insert((*key).to_owned(), i as u32).is_none());
    }
    assert_eq!(map.remove("x"), model.remove("x"));
    assert_eq!(map.remove("x"), None);
    assert_eq!(map.len(), model.len());
    for (i, (key, value)) in model.iter().enumerate() {
        assert_eq!(map.entry_at(i), Some((key.as_str(), value)));
        assert_eq!(map.get(key), Some(value));
    }
    assert_eq!(map.entry_at(model.len()), None);
    assert!(!map.contains_key("x"));
    let mut known: TextMap<()> = TextMap::new();
    known.insert("c".to_owned(), ());
    known.insert("q".to_owned(), ());
    map.retain_known(&known);
    assert_eq!(map.len(), 1);
    assert_eq!(map.get("c"), Some(&3));
}

#[test]
fn addresses_agree_with_the_url_crate() {
    for text in [
        "wss://Example.COM", "ws://abc.onion:80/x?y#z", "https://user:pw@h.example:444/", "data:x",
        "not a url", "wss://", "", "wss://[::1]:9/", "wss://bücher.example/", "ws:example.com:80",
        "wss:/\\//user:pw@h.example:443/a b?q#f", "wss://h.example:443", "ws://h.example:443/",
    ] {
        match (RelayUrl::parse(text), url::Url::parse(text)) {
            (Ok(ours), Ok(theirs)) => {
                assert_eq!(ours.as_str(), theirs.as_str());
                assert_eq!(ours.scheme(), theirs.scheme());
                assert_eq!(ours.host_str(), theirs.host_str());
                let scheme = match theirs.scheme() {
                    "ws" => "http",
                    "wss" => "https",
                    _ => continue,
                };
                let mut changed = theirs.clone();
                changed.set_scheme(scheme).expect("special schemes");
                let found = ws_to_http(&ours).expect("rewrite");
                assert_eq!(found.as_str(), changed.as_str());
                assert_eq!(found.scheme(), changed.scheme());
                assert_eq!(found.host_str(), changed.host_str());
            }
            (Err(ours), Err(theirs)) => assert_eq!(ours, theirs.to_string()),
            _ => panic!("{text} is read differently"),
        }
    }
}

#[test]
fn instants_agree_with_chrono() {
    let stamps = [
        (0, 0), (1_700_000_000, 999_999_999), (-1, 1), (-62_135_596_800, 0),
        (1_483_228_799, 1_500_000_000), (-8_334_601_228_800, 0), (8_210_266_876_799, 0),
        (8_210_266_876_800, 0), (-8_334_601_228_801, 0), (0, 1_000_000_000), (59, 2_000_000_000),
    ];
    for (secs, nanos) in stamps {
        let ours = Timestamp::new(secs, nanos);
        let theirs = chrono::DateTime::from_timestamp(secs, nanos);
        assert_eq!(ours.is_some(), theirs.is_some(), "{secs} and {nanos}");
        let (Some(a), Some(x)) = (ours, theirs) else { continue };
        let whole = chrono::SubsecRound::trunc_subsecs(x, 0);
        assert_eq!(a.trunc_subsecs().timestamp(), whole.timestamp());
        assert_eq!(a.trunc_subsecs().timestamp_subsec_nanos(), whole.timestamp_subsec_nanos());
        for (secs, nanos) in stamps {
            let (Some(b), Some(y)) = (
                Timestamp::new(secs, nanos),
                chrono::DateTime::from_timestamp(secs, nanos),
            ) else {
                continue;
            };
            for hours in [0_u32, 1, 72, 1_000_000] {
                let expected =
                    x.signed_duration_since(y) > chrono::TimeDelta::hours(i64::from(hours));
                assert_eq!(a.is_later_by_more_than(b, hours), expected);
            }
        }
    }
}

#[test]
fn clock_reads_the_current_time() {
    let before = chrono::Utc::now().timestamp();
    let now = Timestamp::now();
    let after = chrono::Utc::now().timestamp();
    assert!(before <= now.timestamp() && now.timestamp() <= after);
    assert!(now.timestamp_subsec_nanos() < 1_000_000_000);
}

#[test]
fn spans_agree_with_the_standard_ones() {
    let spans = [
        (0, 0), (0, 1), (0, 999_999_999), (1, 0), (1, 500_000_000), (8, 0), (10, 1),
        (u64::MAX, 999_999_999),
    ];
    for (secs, nanos) in spans {
        let ours = Duration::from_parts(secs, nanos).expect("span");
        let theirs = std::time::Duration::new(secs, nanos);
        assert_eq!(ours.as_secs(), theirs.as_secs());
        assert_eq!(ours.subsec_nanos(), theirs.subsec_nanos());
        assert_eq!(ours.as_millis(), theirs.as_millis());
        assert_eq!(ours.is_zero(), theirs.is_zero());
        assert_eq!(ours.debug_text(), format!("{theirs:?}"));
        for (s, n) in spans {
            let other = Duration::from_parts(s, n).expect("span");
            let theirs_other = std::time::Duration::new(s, n);
            let least = theirs.min(theirs_other);
            assert_eq!(ours.min(other).as_secs(), least.as_secs());
            assert_eq!(ours.min(other).subsec_nanos(), least.subsec_nanos());
            let left = theirs.saturating_sub(theirs_other);
            assert_eq!(ours.saturating_sub(other).as_secs(), left.as_secs());
            assert_eq!(ours.saturating_sub(other).subsec_nanos(), left.subsec_nanos());
        }
    }
    assert!(Duration::from_parts(0, 1_000_000_000).is_none());
    assert_eq!(Duration::from_secs(3), Duration::from_parts(3, 0).expect("span"));
}

#[test]
fn cloned_maps_hold_the_same_entries() {
    let mut map: TextMap<String> = TextMap::new();
    map.insert("b".to_owned(), "2".to_owned());
    map.insert("a".to_owned(), "1".to_owned());
    let mut copy = map.clone();
    assert_eq!(copy.entry_at(0), Some(("a", &"1".to_owned())));
    assert_eq!(copy.len(), 2);
    copy.remove("a");
    assert_eq!(map.len(), 2);
}

#[test]
fn marks_are_found() {
    let chars = text::to_chars("a:b::c");
    assert_eq!(text::find_from(&chars, ':', 0), 1);
    assert_eq!(text::find_from(&chars, ':', 1), 1);
    assert_eq!(text::find_from(&chars, ':', 2), 3);
    assert_eq!(text::find_from(&chars, ':', 5), 6);
    assert_eq!(text::find_from(&chars, ':', 9), 6);
}

#[test]
fn ordinary_addresses_keep_within_the_counters() {
    for text in [
        "", ":", "wss://example.com/", " \t wss:\n//user@h.example:1/a//b?c#d ", "a:/.//x", "data:x",
        "file:///etc", "HTTP:/\\/h", "x://h\\k", "1:x", "wss", "//h",
    ] {
        assert!(has_countable_head(text), "{text}");
    }
}

#[test]
fn long_texts_without_long_numbers_are_read() {
    let digits = "7".repeat(100_000);
    for text in [
        format!("{{\"a\\\"{digits}\":\"{digits}\"}}"),
        format!("[1.{digits}, 0.0{digits}e-1, -0.{digits}]"),
        format!("[{digits}e-{digits}]"),
        format!("[1e-000{digits}]"),
    ] {
        assert!(holds_countable_numbers(&text));
        let theirs = serde_json::from_str::<serde_json::Value>(&text);
        assert_eq!(Json::parse(&text).is_some(), theirs.is_ok());
    }
    assert!(Json::parse(&format!("[1.{digits}]")).is_some());
    assert!(Json::parse(&format!("[{digits}]")).is_none());
}
