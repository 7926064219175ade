//! NIP-66 relay discovery export.
//!
//! Builds the content of `nip66.json`: an array of unsigned `kind 30166` (relay
//! discovery) event templates, one per catalogued relay, ready for a NIP-66
//! monitor to sign and publish. Tags follow NIP-66: `d` (normalised URL), `n`
//! (network), `N` (supported NIPs), `R` (requirements, `!`-prefixed when
//! false), `t` (topics), `g` (geohash) and `rtt-open` (open round-trip time).

use vstd::prelude::*;
use vstd::string::*;

use crate::model;
use crate::model::{Dataset, HealthEntry, HealthReport, Relay};
use crate::text;

verus! {

/// File name of the NIP-66 discovery export.
pub const NIP66_FILE: &'static str = "nip66.json";

/// Addressable relay discovery event kind defined by NIP-66.
pub const KIND_RELAY_DISCOVERY: u16 = 30166;

/// Unsigned NIP-66 `kind 30166` event template.
#[derive(Debug)]
pub struct DiscoveryEvent {
    pub kind: u16,
    pub created_at: i64,
    pub content: &'static str,
    pub tags: Vec<Vec<String>>,
}

/// What a [`DiscoveryEvent`] says.
pub struct EventView {
    pub kind: u16,
    pub created_at: int,
    pub content: Seq<char>,
    pub tags: Seq<Seq<Seq<char>>>,
}

/// The characters of the texts of each tag.
pub open spec fn tag_texts(tags: Seq<Vec<String>>) -> Seq<Seq<Seq<char>>> {
    tags.map_values(|tag: Vec<String>| text::texts(tag@))
}

impl View for DiscoveryEvent {
    type V = EventView;

    open spec fn view(&self) -> EventView {
        EventView {
            kind: self.kind,
            created_at: self.created_at as int,
            content: self.content@,
            tags: tag_texts(self.tags@),
        }
    }
}

// ---- tags -----------------------------------------------------------------

/// One tag per supported NIP.
pub open spec fn nip_tags(nips: Option<Seq<u16>>) -> Seq<Seq<Seq<char>>> {
    match nips {
        Some(list) => list.map_values(|nip: u16| seq!["N"@, text::decimal(nip as nat)]),
        None => Seq::empty(),
    }
}

/// The tag with the open round-trip time, where one was measured.
pub open spec fn rtt_tags(rtt_open_ms: Option<u64>) -> Seq<Seq<Seq<char>>> {
    match rtt_open_ms {
        Some(rtt) => seq![seq!["rtt-open"@, text::decimal(rtt as nat)]],
        None => Seq::empty(),
    }
}

/// The tag of a declared requirement, with `!` before one that does not hold.
pub open spec fn requirement_tags(key: Seq<char>, value: Option<bool>) -> Seq<Seq<Seq<char>>> {
    match value {
        Some(enabled) => seq![
            seq![
                "R"@,
                if enabled {
                    key
                } else {
                    "!"@ + key
                },
            ],
        ],
        None => Seq::empty(),
    }
}

/// The tags of all declared requirements.
pub open spec fn requirements_tags(requirements: model::Requirements) -> Seq<Seq<Seq<char>>> {
    requirement_tags("auth"@, requirements.auth) + requirement_tags(
        "payment"@,
        requirements.payment,
    ) + requirement_tags("pow"@, requirements.pow) + requirement_tags(
        "writes"@,
        requirements.writes,
    )
}

/// One tag per topic.
pub open spec fn topic_tags(topics: Seq<Seq<char>>) -> Seq<Seq<Seq<char>>> {
    topics.map_values(|topic: Seq<char>| seq!["t"@, topic])
}

/// The tag with the location, where one is declared.
pub open spec fn geohash_tags(geohash: Option<Seq<char>>) -> Seq<Seq<Seq<char>>> {
    match geohash {
        Some(hash) => seq![seq!["g"@, hash]],
        None => Seq::empty(),
    }
}

/// The tags with what probes have measured.
pub open spec fn measured_tags(entry: Option<model::HealthEntryView>) -> Seq<Seq<Seq<char>>> {
    match entry {
        Some(e) => nip_tags(e.supported_nips) + rtt_tags(e.rtt_open_ms),
        None => Seq::empty(),
    }
}

/// All tags of a relay, in the order in which they are written.
pub open spec fn discovery_tags(
    relay: model::RelayView,
    entry: Option<model::HealthEntryView>,
) -> Seq<Seq<Seq<char>>> {
    seq![seq!["d"@, relay.url.href], seq!["n"@, relay.transport().label()]] + measured_tags(entry)
        + requirements_tags(relay.requirements) + topic_tags(relay.topics) + geohash_tags(
        relay.geohash,
    )
}

/// When a relay was last seen, or `now` where it was not.
pub open spec fn seen_at(entry: Option<model::HealthEntryView>, now: int) -> int {
    match entry {
        Some(e) => match e.last_checked {
            Some(checked) => checked.seconds(),
            None => now,
        },
        None => now,
    }
}

/// The event template of a relay.
pub open spec fn discovery(
    relay: model::RelayView,
    health: model::HealthReportView,
    now: int,
) -> EventView {
    EventView {
        kind: KIND_RELAY_DISCOVERY,
        created_at: seen_at(health.entry(relay.url.href), now),
        content: ""@,
        tags: discovery_tags(relay, health.entry(relay.url.href)),
    }
}

// ---- building -------------------------------------------------------------

fn push_tag(tags: &mut Vec<Vec<String>>, key: &str, value: String)
    ensures
        tag_texts(final(tags)@) == tag_texts(old(tags)@).push(seq![key@, value@]),
{
    let mut tag: Vec<String> = Vec::new();
    tag.push(key.to_owned());
    tag.push(value);
    assert(text::texts(tag@) =~= seq![key@, value@]);
    let ghost before = tags@;
    tags.push(tag);
    assert(tag_texts(tags@) =~= tag_texts(before).push(seq![key@, value@]));
}

/// Append a NIP-66 `R` requirement tag, using a `!`-prefix for `false`.
pub fn push_requirement(tags: &mut Vec<Vec<String>>, key: &str, value: Option<bool>)
    ensures
        tag_texts(final(tags)@) == tag_texts(old(tags)@) + requirement_tags(key@, value),
{
    let ghost before = tag_texts(tags@);
    if let Some(enabled) = value {
        let label = if enabled {
            key.to_owned()
        } else {
            let mut negated = "!".to_owned();
            negated.append(key);
            negated
        };
        push_tag(tags, "R", label);
    }
    assert(tag_texts(tags@) =~= before + requirement_tags(key@, value));
}

fn push_nips(tags: &mut Vec<Vec<String>>, nips: &Vec<u16>)
    ensures
        tag_texts(final(tags)@) == tag_texts(old(tags)@) + nip_tags(Some(nips@)),
{
    let ghost before = tag_texts(tags@);
    let ghost all = nip_tags(Some(nips@));
    let mut i: usize = 0;
    assert(before + all.take(0) =~= before);
    while i < nips.len()
        invariant
            i <= nips@.len(),
            all == nip_tags(Some(nips@)),
            tag_texts(tags@) == before + all.take(i as int),
        decreases nips@.len() - i,
    {
        push_tag(tags, "N", text::decimal_text(nips[i] as u64));
        assert(all[i as int] == seq!["N"@, text::decimal(nips@[i as int] as nat)]);
        assert(before + all.take(i + 1) =~= (before + all.take(i as int)).push(all[i as int]));
        i += 1;
    }
    assert(all.take(i as int) =~= all);
}

fn push_measured(tags: &mut Vec<Vec<String>>, entry: &HealthEntry)
    ensures
        tag_texts(final(tags)@) == tag_texts(old(tags)@) + measured_tags(Some(entry@)),
{
    let ghost before = tag_texts(tags@);
    if let Some(nips) = &entry.supported_nips {
        push_nips(tags, nips);
    }
    let ghost middle = tag_texts(tags@);
    assert(middle =~= before + nip_tags(entry@.supported_nips));
    if let Some(rtt) = entry.rtt_open_ms {
        push_tag(tags, "rtt-open", text::decimal_text(rtt));
    }
    assert(tag_texts(tags@) =~= middle + rtt_tags(entry@.rtt_open_ms));
    assert(tag_texts(tags@) =~= before + measured_tags(Some(entry@)));
}

fn push_topics(tags: &mut Vec<Vec<String>>, topics: &Vec<String>)
    ensures
        tag_texts(final(tags)@) == tag_texts(old(tags)@) + topic_tags(text::texts(topics@)),
{
    let ghost before = tag_texts(tags@);
    let ghost all = topic_tags(text::texts(topics@));
    let mut i: usize = 0;
    assert(before + all.take(0) =~= before);
    while i < topics.len()
        invariant
            i <= topics@.len(),
            all == topic_tags(text::texts(topics@)),
            tag_texts(tags@) == before + all.take(i as int),
        decreases topics@.len() - i,
    {
        push_tag(tags, "t", topics[i].clone());
        assert(all[i as int] == seq!["t"@, topics@[i as int]@]);
        assert(before + all.take(i + 1) =~= (before + all.take(i as int)).push(all[i as int]));
        i += 1;
    }
    assert(all.take(i as int) =~= all);
}

/// The event template of a relay.
pub fn discovery_event(relay: &Relay, health: &HealthReport, now: i64) -> (event: DiscoveryEvent)
    ensures
        event@ == discovery(relay@, health@, now as int),
{
    let entry = health.entries.get(relay.url.as_str());
    let ghost known = health@.entry(relay@.url.href);
    assert(known == match entry {
        Some(e) => Some(e@),
        None => None,
    });
    let created_at: i64 = match entry {
        Some(e) => match e.last_checked {
            Some(checked) => checked.timestamp(),
            None => now,
        },
        None => now,
    };
    let mut tags: Vec<Vec<String>> = Vec::new();
    push_tag(&mut tags, "d", relay.url.as_str().to_owned());
    push_tag(&mut tags, "n", relay.effective_network().as_str().to_owned());
    let ghost first = seq![seq!["d"@, relay@.url.href], seq!["n"@, relay@.transport().label()]];
    assert(tag_texts(tags@) =~= first);
    if let Some(e) = entry {
        push_measured(&mut tags, e);
    }
    assert(tag_texts(tags@) =~= first + measured_tags(known));
    let ghost second = tag_texts(tags@);
    push_requirement(&mut tags, "auth", relay.requirements.auth);
    push_requirement(&mut tags, "payment", relay.requirements.payment);
    push_requirement(&mut tags, "pow", relay.requirements.pow);
    push_requirement(&mut tags, "writes", relay.requirements.writes);
    assert(tag_texts(tags@) =~= second + requirements_tags(relay@.requirements));
    push_topics(&mut tags, &relay.topics);
    let ghost third = tag_texts(tags@);
    if let Some(geohash) = &relay.geohash {
        push_tag(&mut tags, "g", geohash.clone());
    }
    assert(tag_texts(tags@) =~= third + geohash_tags(relay@.geohash));
    DiscoveryEvent { kind: KIND_RELAY_DISCOVERY, created_at, content: "", tags }
}

/// The event templates of all relays, in the order of the catalog.
pub fn discovery_events(dataset: &Dataset, health: &HealthReport, now: i64) -> (events: Vec<
    DiscoveryEvent,
>)
    ensures
        events@.map_values(|e: DiscoveryEvent| e@) == dataset@.relays.map_values(
            |r: model::RelayView| discovery(r, health@, now as int),
        ),
{
    let mut events: Vec<DiscoveryEvent> = Vec::new();
    let mut i: usize = 0;
    while i < dataset.relays.len()
        invariant
            i <= dataset.relays@.len(),
            events@.len() == i,
            forall|j: int|
                0 <= j < i ==> (#[trigger] events@[j])@ == discovery(
                    dataset.relays@[j]@,
                    health@,
                    now as int,
                ),
        decreases dataset.relays@.len() - i,
    {
        events.push(discovery_event(&dataset.relays[i], health, now));
        i += 1;
    }
    assert(events@.map_values(|e: DiscoveryEvent| e@) =~= dataset@.relays.map_values(
        |r: model::RelayView| discovery(r, health@, now as int),
    ));
    events
}

// ---- laws -----------------------------------------------------------------

/// A requirement is stated exactly where the curator declared it, and an
/// undeclared one leaves no tag.
pub proof fn law_undeclared_requirements_leave_no_tag(requirements: model::Requirements)
    ensures
        requirements_tags(requirements).len() == 0 <==> requirements.auth is None
            && requirements.payment is None && requirements.pow is None && requirements.writes is None,
        requirements_tags(requirements).len() <= 4,
{
}

/// Every template starts with the normalised address and the network, and a
/// relay that was never probed carries the time of the export and no
/// measurement.
pub proof fn law_templates_name_their_relay(
    relay: model::RelayView,
    health: model::HealthReportView,
    now: int,
)
    ensures
        discovery(relay, health, now).tags.len() >= 2,
        discovery(relay, health, now).tags[0] == seq!["d"@, relay.url.href],
        discovery(relay, health, now).tags[1] == seq!["n"@, relay.transport().label()],
        health.entry(relay.url.href) is None ==> discovery(relay, health, now).created_at == now
            && measured_tags(health.entry(relay.url.href)).len() == 0,
{
}

/// One where the condition holds, else nothing.
pub open spec fn once(condition: bool) -> int {
    if condition {
        1
    } else {
        0
    }
}

/// How many NIPs an entry that may be missing lists.
pub open spec fn nip_count(entry: Option<model::HealthEntryView>) -> int {
    if entry is Some && entry->0.supported_nips is Some {
        entry->0.supported_nips->0.len() as int
    } else {
        0
    }
}

/// How many round trips an entry that may be missing holds.
pub open spec fn rtt_count(entry: Option<model::HealthEntryView>) -> int {
    once(entry is Some && entry->0.rtt_open_ms is Some)
}

/// How many requirements a curator declared.
pub open spec fn requirement_count(requirements: model::Requirements) -> int {
    once(requirements.auth is Some) + once(requirements.payment is Some) + once(
        requirements.pow is Some,
    ) + once(requirements.writes is Some)
}

/// The tags of a template stand in this order, and there are no others: the
/// address, the network, one per supported NIP in the order of the list, the round
/// trip, the declared requirements, one per topic in the order of the list, the
/// location.
pub proof fn law_every_tag_has_its_place(
    relay: model::RelayView,
    health: model::HealthReportView,
    now: int,
)
    ensures
        ({
            let tags = discovery(relay, health, now).tags;
            let entry = health.entry(relay.url.href);
            let measured = 2 + nip_count(entry) + rtt_count(entry);
            let declared = measured + requirement_count(relay.requirements);
            let located = declared + relay.topics.len();
            &&& tags.len() == located + once(relay.geohash is Some)
            &&& tags[0] == seq!["d"@, relay.url.href]
            &&& tags[1].len() == 2 && tags[1][0] == "n"@
            &&& forall|i: int|
                #![trigger tags[2 + i]]
                0 <= i < nip_count(entry) ==> tags[2 + i] == seq![
                    "N"@,
                    text::decimal(entry->0.supported_nips->0[i] as nat),
                ]
            &&& entry is Some && entry->0.rtt_open_ms is Some ==> tags[2 + nip_count(entry)]
                == seq!["rtt-open"@, text::decimal(entry->0.rtt_open_ms->0 as nat)]
            &&& forall|i: int|
                #![trigger relay.topics[i]]
                0 <= i < relay.topics.len() ==> tags[declared + i] == seq!["t"@, relay.topics[i]]
            &&& relay.geohash matches Some(hash) ==> tags[located] == seq!["g"@, hash]
        }),
{
    let tags = discovery(relay, health, now).tags;
    let entry = health.entry(relay.url.href);
    let measured = 2 + nip_count(entry) + rtt_count(entry);
    let declared = measured + requirement_count(relay.requirements);
    let first = seq![seq!["d"@, relay.url.href], seq!["n"@, relay.transport().label()]];
    let second = first + measured_tags(entry);
    let third = second + requirements_tags(relay.requirements);
    let fourth = third + topic_tags(relay.topics);
    assert(second.len() == measured);
    assert(third.len() == declared);
    assert(fourth.len() == declared + relay.topics.len());
    assert(tags =~= fourth + geohash_tags(relay.geohash));
    assert forall|i: int|
        #![trigger tags[2 + i]]
        0 <= i < nip_count(entry) implies tags[2 + i] == seq![
        "N"@,
        text::decimal(entry->0.supported_nips->0[i] as nat),
    ] by {
        assert(measured_tags(entry)[i] == nip_tags(entry->0.supported_nips)[i]);
        assert(tags[2 + i] == second[2 + i]);
    }
    if entry is Some && entry->0.rtt_open_ms is Some {
        assert(tags[2 + nip_count(entry)] == second[2 + nip_count(entry)]);
        assert(measured_tags(entry)[nip_count(entry)] == rtt_tags(entry->0.rtt_open_ms)[0]);
    }
    assert forall|i: int|
        #![trigger relay.topics[i]]
        0 <= i < relay.topics.len() implies tags[declared + i] == seq!["t"@, relay.topics[i]] by {
        assert(tags[declared + i] == fourth[declared + i]);
        assert(topic_tags(relay.topics)[i] == seq!["t"@, relay.topics[i]]);
    }
}

/// The declared requirements stand in the order of authorization, payment, proof
/// of work and writing; each says what the curator said of it, with `!` before one
/// that does not hold.
pub proof fn law_requirements_are_stated(
    relay: model::RelayView,
    health: model::HealthReportView,
    now: int,
)
    ensures
        ({
            let tags = discovery(relay, health, now).tags;
            let entry = health.entry(relay.url.href);
            let wants = relay.requirements;
            let auth = 2 + nip_count(entry) + rtt_count(entry);
            let payment = auth + once(wants.auth is Some);
            let pow = payment + once(wants.payment is Some);
            let writes = pow + once(wants.pow is Some);
            &&& wants.auth == Some(true) ==> tags[auth] == seq!["R"@, "auth"@]
            &&& wants.auth == Some(false) ==> tags[auth] == seq!["R"@, "!"@ + "auth"@]
            &&& wants.payment == Some(true) ==> tags[payment] == seq!["R"@, "payment"@]
            &&& wants.payment == Some(false) ==> tags[payment] == seq!["R"@, "!"@ + "payment"@]
            &&& wants.pow == Some(true) ==> tags[pow] == seq!["R"@, "pow"@]
            &&& wants.pow == Some(false) ==> tags[pow] == seq!["R"@, "!"@ + "pow"@]
            &&& wants.writes == Some(true) ==> tags[writes] == seq!["R"@, "writes"@]
            &&& wants.writes == Some(false) ==> tags[writes] == seq!["R"@, "!"@ + "writes"@]
        }),
{
    let tags = discovery(relay, health, now).tags;
    let entry = health.entry(relay.url.href);
    let first = seq![seq!["d"@, relay.url.href], seq!["n"@, relay.transport().label()]];
    let second = first + measured_tags(entry);
    let start = 2 + nip_count(entry) + rtt_count(entry);
    assert(second.len() == start);
    let wants = requirements_tags(relay.requirements);
    assert forall|i: int| 0 <= i < wants.len() implies tags[start + i] == #[trigger] wants[i] by {
        assert(tags[start + i] == (second + wants)[start + i]);
    }
    let auth = requirement_tags("auth"@, relay.requirements.auth);
    let payment = requirement_tags("payment"@, relay.requirements.payment);
    let pow = requirement_tags("pow"@, relay.requirements.pow);
    let writes = requirement_tags("writes"@, relay.requirements.writes);
    assert(wants =~= auth + payment + pow + writes);
    if auth.len() > 0 {
        assert(wants[0] == auth[0]);
    }
    if payment.len() > 0 {
        assert(wants[auth.len() as int] == payment[0]);
    }
    if pow.len() > 0 {
        assert(wants[auth.len() + payment.len() as int] == pow[0]);
    }
    if writes.len() > 0 {
        assert(wants[auth.len() + payment.len() + pow.len() as int] == writes[0]);
    }
}

/// The network tag names the curator's network or, without one, that of the host.
pub proof fn law_network_is_stated(
    relay: model::RelayView,
    health: model::HealthReportView,
    now: int,
)
    ensures
        relay.network matches Some(network) ==> discovery(relay, health, now).tags[1] == seq![
            "n"@,
            network.label(),
        ],
        relay.network is None ==> discovery(relay, health, now).tags[1] == seq![
            "n"@,
            model::network_of(relay.url.host).label(),
        ],
{
}

/// A template is of kind 30166, without content, and dated by the last check or,
/// where there was none, by the export.
pub proof fn law_templates_are_dated(
    relay: model::RelayView,
    health: model::HealthReportView,
    now: int,
)
    ensures
        ({
            let event = discovery(relay, health, now);
            &&& event.kind == 30166
            &&& event.content == ""@
            &&& health.entries.contains_key(relay.url.href) ==> match health.entries[relay.url.href].last_checked {
                Some(checked) => event.created_at == checked.seconds(),
                None => event.created_at == now,
            }
            &&& !health.entries.contains_key(relay.url.href) ==> event.created_at == now
        }),
{
}

/// The tags whose first text is `key`, in order.
pub open spec fn tags_named(tags: Seq<Seq<Seq<char>>>, key: Seq<char>) -> Seq<Seq<Seq<char>>>
    decreases tags.len(),
{
    if tags.len() == 0 {
        tags
    } else {
        let front = tags_named(tags.drop_last(), key);
        if tags.last().len() > 0 && tags.last()[0] == key {
            front.push(tags.last())
        } else {
            front
        }
    }
}

proof fn lemma_named_in_parts(a: Seq<Seq<Seq<char>>>, b: Seq<Seq<Seq<char>>>, key: Seq<char>)
    ensures
        tags_named(a + b, key) == tags_named(a, key) + tags_named(b, key),
    decreases b.len(),
{
    if b.len() == 0 {
        assert(a + b =~= a);
        assert(tags_named(a, key) + tags_named(b, key) =~= tags_named(a, key));
    } else {
        lemma_named_in_parts(a, b.drop_last(), key);
        assert((a + b).drop_last() =~= a + b.drop_last());
        assert(tags_named(a + b, key) =~= tags_named(a, key) + tags_named(b, key));
    }
}

proof fn lemma_none_named(tags: Seq<Seq<Seq<char>>>, key: Seq<char>)
    requires
        forall|i: int| 0 <= i < tags.len() ==> (#[trigger] tags[i]).len() > 0 && tags[i][0] != key,
    ensures
        tags_named(tags, key).len() == 0,
    decreases tags.len(),
{
    if tags.len() > 0 {
        assert(tags.last() == tags[tags.len() - 1]);
        lemma_none_named(tags.drop_last(), key);
    }
}

proof fn lemma_all_named(tags: Seq<Seq<Seq<char>>>, key: Seq<char>)
    requires
        forall|i: int| 0 <= i < tags.len() ==> (#[trigger] tags[i]).len() > 0 && tags[i][0] == key,
    ensures
        tags_named(tags, key) == tags,
    decreases tags.len(),
{
    if tags.len() > 0 {
        assert(tags.last() == tags[tags.len() - 1]);
        lemma_all_named(tags.drop_last(), key);
        assert(tags.drop_last().push(tags.last()) =~= tags);
    }
}

proof fn lemma_keys_differ()
    ensures
        "d"@ != "t"@,
        "n"@ != "t"@,
        "N"@ != "t"@,
        "rtt-open"@ != "t"@,
        "R"@ != "t"@,
        "g"@ != "t"@,
        "d"@ != "N"@,
        "n"@ != "N"@,
        "rtt-open"@ != "N"@,
        "R"@ != "N"@,
        "g"@ != "N"@,
{
    reveal_strlit("t");
    reveal_strlit("N");
    reveal_strlit("d");
    reveal_strlit("n");
    reveal_strlit("R");
    reveal_strlit("g");
    reveal_strlit("rtt-open");
    assert("t"@[0] == 't' && "N"@[0] == 'N' && "d"@[0] == 'd' && "n"@[0] == 'n' && "R"@[0] == 'R'
        && "g"@[0] == 'g' && "rtt-open"@[0] == 'r');
}

/// The tags with the supported NIPs of an entry that may be missing.
spec fn entry_nips(entry: Option<model::HealthEntryView>) -> Seq<Seq<Seq<char>>> {
    if entry is Some {
        nip_tags(entry->0.supported_nips)
    } else {
        Seq::empty()
    }
}

/// The tag with the round trip of an entry that may be missing.
spec fn entry_rtt(entry: Option<model::HealthEntryView>) -> Seq<Seq<Seq<char>>> {
    if entry is Some {
        rtt_tags(entry->0.rtt_open_ms)
    } else {
        Seq::empty()
    }
}

proof fn lemma_requirements_key(requirements: model::Requirements, key: Seq<char>)
    requires
        key != "R"@,
    ensures
        tags_named(requirements_tags(requirements), key).len() == 0,
{
    let a = requirement_tags("auth"@, requirements.auth);
    let b = requirement_tags("payment"@, requirements.payment);
    let c = requirement_tags("pow"@, requirements.pow);
    let d = requirement_tags("writes"@, requirements.writes);
    lemma_none_named(a, key);
    lemma_none_named(b, key);
    lemma_none_named(c, key);
    lemma_none_named(d, key);
    lemma_named_in_parts(a, b, key);
    lemma_named_in_parts(a + b, c, key);
    lemma_named_in_parts(a + b + c, d, key);
}

proof fn lemma_tags_in_parts(
    relay: model::RelayView,
    entry: Option<model::HealthEntryView>,
    key: Seq<char>,
)
    requires
        key != "d"@,
        key != "n"@,
        key != "rtt-open"@,
        key != "R"@,
        key != "g"@,
    ensures
        tags_named(discovery_tags(relay, entry), key) == tags_named(entry_nips(entry), key)
            + tags_named(topic_tags(relay.topics), key),
{
    let first = seq![seq!["d"@, relay.url.href], seq!["n"@, relay.transport().label()]];
    let nips = entry_nips(entry);
    let rtt = entry_rtt(entry);
    let wants = requirements_tags(relay.requirements);
    let topics = topic_tags(relay.topics);
    let place = geohash_tags(relay.geohash);
    assert(measured_tags(entry) =~= nips + rtt);
    lemma_each_named(first, nips, rtt, wants, topics, place, key);
    lemma_none_named(first, key);
    lemma_none_named(rtt, key);
    lemma_requirements_key(relay.requirements, key);
    lemma_none_named(place, key);
    let n = tags_named(nips, key);
    let t = tags_named(topics, key);
    assert(tags_named(discovery_tags(relay, entry), key) =~= n + t);
}

/// The topic tags of a template are as many as the relay has topics, and name them
/// in their order.
pub proof fn law_topics_are_all_stated(
    relay: model::RelayView,
    health: model::HealthReportView,
    now: int,
)
    ensures
        ({
            let topics = tags_named(discovery(relay, health, now).tags, "t"@);
            &&& topics.len() == relay.topics.len()
            &&& forall|i: int|
                0 <= i < topics.len() ==> (#[trigger] topics[i]).len() == 2 && topics[i][1]
                    == relay.topics[i]
        }),
{
    let entry = health.entry(relay.url.href);
    let nips = entry_nips(entry);
    let topics = topic_tags(relay.topics);
    lemma_keys_differ();
    lemma_tags_in_parts(relay, entry, "t"@);
    lemma_none_named(nips, "t"@);
    lemma_all_named(topics, "t"@);
    assert(tags_named(nips, "t"@) + topics =~= topics);
}

/// The NIP tags of a template are as many as the relay supports NIPs, and name
/// them in their order.
pub proof fn law_nips_are_all_stated(
    relay: model::RelayView,
    health: model::HealthReportView,
    now: int,
)
    ensures
        ({
            let nips = tags_named(discovery(relay, health, now).tags, "N"@);
            let entry = health.entry(relay.url.href);
            &&& nips.len() == nip_count(entry)
            &&& forall|i: int|
                0 <= i < nips.len() ==> (#[trigger] nips[i]).len() == 2 && nips[i][1]
                    == text::decimal(entry->0.supported_nips->0[i] as nat)
        }),
{
    let entry = health.entry(relay.url.href);
    let nips = entry_nips(entry);
    let topics = topic_tags(relay.topics);
    lemma_keys_differ();
    lemma_tags_in_parts(relay, entry, "N"@);
    lemma_all_named(nips, "N"@);
    lemma_none_named(topics, "N"@);
    assert(nips + tags_named(topics, "N"@) =~= nips);
}

proof fn lemma_each_named(
    a: Seq<Seq<Seq<char>>>,
    b: Seq<Seq<Seq<char>>>,
    c: Seq<Seq<Seq<char>>>,
    d: Seq<Seq<Seq<char>>>,
    e: Seq<Seq<Seq<char>>>,
    f: Seq<Seq<Seq<char>>>,
    key: Seq<char>,
)
    ensures
        tags_named(a + (b + c) + d + e + f, key) == tags_named(a, key) + (tags_named(b, key)
            + tags_named(c, key)) + tags_named(d, key) + tags_named(e, key) + tags_named(f, key),
{
    lemma_named_in_parts(b, c, key);
    lemma_named_in_parts(a, b + c, key);
    lemma_named_in_parts(a + (b + c), d, key);
    lemma_named_in_parts(a + (b + c) + d, e, key);
    lemma_named_in_parts(a + (b + c) + d + e, f, key);
}

/// A template reads as its fields say.
pub proof fn law_event_reads_as_its_fields(event: DiscoveryEvent)
    ensures
        event@.kind == event.kind,
        event@.created_at == event.created_at,
        event@.content == event.content@,
        event@.tags.len() == event.tags@.len(),
        forall|i: int|
            0 <= i < event.tags@.len() ==> (#[trigger] event@.tags[i]).len() == event.tags@[i]@.len(),
        forall|i: int, j: int|
            0 <= i < event.tags@.len() && 0 <= j < event.tags@[i]@.len() ==> #[trigger] event@.tags[i][j]
                == event.tags@[i]@[j]@,
{
}

/// There is one template per relay of the catalog, in its order.
pub proof fn law_every_relay_has_its_template(
    dataset: Dataset,
    health: HealthReport,
    now: i64,
    events: Vec<DiscoveryEvent>,
    i: int,
)
    requires
        call_ensures(discovery_events, (&dataset, &health, now), events),
        0 <= i < dataset.relays@.len(),
    ensures
        events@.len() == dataset.relays@.len(),
        events@[i]@ == discovery(dataset.relays@[i]@, health@, now as int),
        events@[i]@.tags[0] == seq!["d"@, dataset.relays@[i].url@.href],
{
    let views = events@.map_values(|e: DiscoveryEvent| e@);
    let wanted = dataset@.relays.map_values(|r: model::RelayView| discovery(r, health@, now as int));
    assert(views.len() == wanted.len());
    assert(views[i] == wanted[i]);
}

} // verus!
