//! Domain types for the catalog.
//!
//! [`Relay`] carries curator-provided metadata from `relays.toml`, while
//! [`HealthEntry`] carries measured runtime facts from `health.json`. The two
//! are kept in separate files so that human edits never race with automated
//! probe runs.

use vstd::prelude::*;

use crate::relay_url::RelayUrl;
use crate::text;
use crate::text_map::TextMap;
use crate::timestamp::Timestamp;

verus! {

/// `chrono::NaiveDate`, a calendar date that is only carried along.
#[verifier::external_type_specification]
#[verifier::external_body]
pub struct ExNaiveDate(chrono::NaiveDate);

// ---- catalog --------------------------------------------------------------

/// Root document parsed from `relays.toml`.
#[derive(Debug, Clone)]
pub struct Dataset {
    /// Layout version; bumped when incompatible schema changes land.
    pub schema_version: String,
    /// Discoverability buckets referenced by relay entries.
    pub collections: Vec<Collection>,
    /// All relays tracked by the catalog.
    pub relays: Vec<Relay>,
}

/// What a [`Dataset`] says.
pub struct DatasetView {
    pub schema_version: Seq<char>,
    pub collections: Seq<CollectionView>,
    pub relays: Seq<RelayView>,
}

impl View for Dataset {
    type V = DatasetView;

    open spec fn view(&self) -> DatasetView {
        DatasetView {
            schema_version: self.schema_version@,
            collections: self.collections@.map_values(|c: Collection| c@),
            relays: self.relays@.map_values(|r: Relay| r@),
        }
    }
}

/// A discoverability bucket referenced by one or more relays.
#[derive(Debug, Clone)]
pub struct Collection {
    /// Unique, lowercase kebab-case identifier.
    pub id: String,
    /// Human-friendly title displayed in the README and JSON outputs.
    pub name: String,
    /// One-paragraph description of what belongs in this collection.
    pub description: String,
}

/// What a [`Collection`] says.
pub struct CollectionView {
    pub id: Seq<char>,
    pub name: Seq<char>,
    pub description: Seq<char>,
}

impl View for Collection {
    type V = CollectionView;

    open spec fn view(&self) -> CollectionView {
        CollectionView { id: self.id@, name: self.name@, description: self.description@ }
    }
}

/// Network transport a relay is reachable over (NIP-66 `n` tag).
#[derive(Debug, Clone, Copy, PartialEq, Eq, Structural)]
pub enum Network {
    /// Reachable over the public internet.
    Clearnet,
    /// Tor hidden service (`.onion`).
    Tor,
    /// I2P eepsite (`.i2p`).
    I2p,
    /// Lokinet service (`.loki`).
    Loki,
}

impl Default for Network {
    fn default() -> (network: Network)
        ensures
            network == Network::Clearnet,
    {
        Network::Clearnet
    }
}

/// The last label of a host, after its last dot.
pub open spec fn last_label(host: Option<Seq<char>>) -> Option<Seq<char>> {
    match host {
        Some(h) => text::after_last(h, '.'),
        None => None,
    }
}

/// The network that a host belongs to by its last label.
pub open spec fn network_of(host: Option<Seq<char>>) -> Network {
    match last_label(host) {
        Some(label) => if text::equal_ignoring_case(label, "onion"@) {
            Network::Tor
        } else if text::equal_ignoring_case(label, "i2p"@) {
            Network::I2p
        } else if text::equal_ignoring_case(label, "loki"@) {
            Network::Loki
        } else {
            Network::Clearnet
        },
        None => Network::Clearnet,
    }
}

impl Network {
    pub open spec fn label(self) -> Seq<char> {
        match self {
            Network::Clearnet => "clearnet"@,
            Network::Tor => "tor"@,
            Network::I2p => "i2p"@,
            Network::Loki => "loki"@,
        }
    }

    /// Lowercase NIP-66 `n` label.
    pub fn as_str(self) -> (label: &'static str)
        ensures
            label@ == self.label(),
    {
        match self {
            Network::Clearnet => "clearnet",
            Network::Tor => "tor",
            Network::I2p => "i2p",
            Network::Loki => "loki",
        }
    }

    /// Derive the network from a relay URL's host suffix, defaulting to
    /// [`Network::Clearnet`].
    pub fn from_url(url: &RelayUrl) -> (network: Network)
        ensures
            network == network_of(url@.host),
    {
        let host = match url.host_str() {
            Some(host) => host,
            None => return Network::Clearnet,
        };
        match text::split_last(host, '.') {
            Some(label) => {
                if text::eq_ignore_ascii_case(label.as_str(), "onion") {
                    Network::Tor
                } else if text::eq_ignore_ascii_case(label.as_str(), "i2p") {
                    Network::I2p
                } else if text::eq_ignore_ascii_case(label.as_str(), "loki") {
                    Network::Loki
                } else {
                    Network::Clearnet
                }
            },
            None => Network::Clearnet,
        }
    }
}

/// Posting requirements a relay enforces, aligned with NIP-66's `R` tag.
#[derive(Debug, Clone, Copy, PartialEq, Eq)]
pub struct Requirements {
    /// Requires NIP-42 AUTH before serving reads/writes.
    pub auth: Option<bool>,
    /// Requires payment (admission, subscription, or per-event) to post.
    pub payment: Option<bool>,
    /// Requires Proof-of-Work (NIP-13) on submitted events.
    pub pow: Option<bool>,
    /// Accepts writes from the general public (`false` = read-only/restricted).
    pub writes: Option<bool>,
}

impl Default for Requirements {
    fn default() -> (requirements: Requirements)
        ensures
            requirements == (Requirements { auth: None, payment: None, pow: None, writes: None }),
    {
        Requirements { auth: None, payment: None, pow: None, writes: None }
    }
}

impl Requirements {
    /// `true` when no requirement is declared.
    pub fn is_empty(&self) -> (empty: bool)
        ensures
            empty == (self.auth is None && self.payment is None && self.pow is None
                && self.writes is None),
    {
        self.auth.is_none() && self.payment.is_none() && self.pow.is_none() && self.writes.is_none()
    }
}

/// A single relay entry as described by a curator.
#[derive(Debug, Clone)]
pub struct Relay {
    /// Normalised WebSocket URL (`wss://...` or `ws://...onion`).
    pub url: RelayUrl,
    /// Short human-friendly name; falls back to the URL host when absent.
    pub name: Option<String>,
    /// Optional one-sentence description.
    pub description: Option<String>,
    /// Operator name or pubkey; either an org label or a Nostr npub.
    pub operator: Option<String>,
    /// ISO-3166 alpha-2 uppercase country code, or `XX` if unknown.
    pub country: Option<String>,
    /// Optional NIP-52 geohash for finer-grained location (NIP-66 `g`).
    pub geohash: Option<String>,
    /// Optional curator override for the network transport (NIP-66 `n`).
    pub network: Option<Network>,
    /// Relay software implementation (e.g. `strfry`, `khatru`, `nostream`).
    pub software: Option<String>,
    /// Posting requirements declared by the curator (NIP-66 `R`).
    pub requirements: Requirements,
    /// IDs of the collections this relay belongs to.
    pub collections: Vec<String>,
    /// Free-form lowercase topics for fine-grained discovery (NIP-66 `t`).
    pub topics: Vec<String>,
    /// Date the relay was first added to the catalog.
    pub added_at: Option<chrono::NaiveDate>,
}

/// What a [`Relay`] says.
pub struct RelayView {
    pub url: crate::relay_url::UrlView,
    pub name: Option<Seq<char>>,
    pub description: Option<Seq<char>>,
    pub operator: Option<Seq<char>>,
    pub country: Option<Seq<char>>,
    pub geohash: Option<Seq<char>>,
    pub network: Option<Network>,
    pub software: Option<Seq<char>>,
    pub requirements: Requirements,
    pub collections: Seq<Seq<char>>,
    pub topics: Seq<Seq<char>>,
    pub added_at: Option<chrono::NaiveDate>,
}

impl View for Relay {
    type V = RelayView;

    open spec fn view(&self) -> RelayView {
        RelayView {
            url: self.url@,
            name: text::opt_text(self.name),
            description: text::opt_text(self.description),
            operator: text::opt_text(self.operator),
            country: text::opt_text(self.country),
            geohash: text::opt_text(self.geohash),
            network: self.network,
            software: text::opt_text(self.software),
            requirements: self.requirements,
            collections: text::texts(self.collections@),
            topics: text::texts(self.topics@),
            added_at: self.added_at,
        }
    }
}

/// The name to display: the curator's where it is not empty, else the host.
pub open spec fn shown_name(name: Option<Seq<char>>, host: Option<Seq<char>>) -> Seq<char> {
    match name {
        Some(n) if n.len() > 0 => n,
        _ => match host {
            Some(h) => h,
            None => "<unknown>"@,
        },
    }
}

/// The name to display: the curator's where it is not empty, else the host.
pub fn display_name_of(name: &Option<String>, url: &RelayUrl) -> (shown: String)
    ensures
        shown@ == shown_name(text::opt_text(*name), url@.host),
{
    if let Some(n) = name {
        if !n.as_str().is_empty() {
            return n.clone();
        }
    }
    match url.host_str() {
        Some(host) => host.to_owned(),
        None => "<unknown>".to_owned(),
    }
}

impl RelayView {
    /// The explicit network or, when absent, the one of the host.
    pub open spec fn transport(self) -> Network {
        match self.network {
            Some(network) => network,
            None => network_of(self.url.host),
        }
    }
}

impl Relay {
    /// Display name for Markdown rendering, falling back to the URL host when
    /// `name` is missing.
    pub fn display_name(&self) -> (shown: String)
        ensures
            shown@ == shown_name(self@.name, self@.url.host),
    {
        display_name_of(&self.name, &self.url)
    }

    /// Effective network transport: the explicit [`Relay::network`] override
    /// or, when absent, the value derived from the URL host.
    pub fn effective_network(&self) -> (network: Network)
        ensures
            network == self@.transport(),
    {
        match self.network {
            Some(network) => network,
            None => Network::from_url(&self.url),
        }
    }

    /// `true` when the relay requires payment to post events.
    pub fn is_paid(&self) -> (paid: bool)
        ensures
            paid == (self.requirements.payment == Some(true)),
    {
        matches!(self.requirements.payment, Some(true))
    }
}

// ---- health ---------------------------------------------------------------

/// Disposition of the most recent probe attempt, persisted to drive
/// [`HealthEntry::state`].
#[derive(Debug, Clone, Copy, PartialEq, Eq, Structural)]
pub enum Outcome {
    /// No probe has been recorded yet.
    Unknown,
    /// The WebSocket handshake succeeded.
    Success,
    /// A hard failure attributable to the relay (timeout, TLS, protocol, 5xx).
    Failure,
    /// An environmental block outside the relay's control (WAF 4xx, DNS).
    Blocked,
    /// The probe was deliberately skipped (e.g. onion without a Tor proxy).
    Skipped,
}

impl Default for Outcome {
    fn default() -> (outcome: Outcome)
        ensures
            outcome == Outcome::Unknown,
    {
        Outcome::Unknown
    }
}

/// Coarse health classification derived from a [`HealthEntry`] at an instant.
///
/// Computed, never stored, because staleness is relative to the current time.
#[derive(Debug, Clone, Copy, PartialEq, Eq, Structural)]
pub enum HealthState {
    /// Last probe succeeded and the data is fresh.
    Healthy,
    /// Hard-failing but still below [`crate::WARN_FAILURE_THRESHOLD`].
    Flaky,
    /// At/above the warn threshold of consecutive hard failures.
    Warn,
    /// At/above the dead threshold; a candidate for manual removal.
    Dead,
    /// Monitoring data is older than [`crate::STALE_AFTER_HOURS`]; the pipeline
    /// may have stalled, so the last outcome can no longer be trusted.
    Stale,
    /// The last probe was blocked by the environment (WAF 4xx / DNS); the
    /// relay's real availability could not be verified.
    Blocked,
    /// The probe was deliberately skipped (e.g. onion without a Tor proxy).
    Skipped,
    /// Never probed.
    Unknown,
}

impl HealthState {
    pub open spec fn label(self) -> Seq<char> {
        match self {
            HealthState::Healthy => "healthy"@,
            HealthState::Flaky => "flaky"@,
            HealthState::Warn => "warn"@,
            HealthState::Dead => "dead"@,
            HealthState::Stale => "stale"@,
            HealthState::Blocked => "blocked"@,
            HealthState::Skipped => "skipped"@,
            HealthState::Unknown => "unknown"@,
        }
    }

    pub open spec fn emoji(self) -> Seq<char> {
        match self {
            HealthState::Healthy => "✅"@,
            HealthState::Flaky => "🟡"@,
            HealthState::Warn => "⚠️"@,
            HealthState::Dead => "💀"@,
            HealthState::Stale => "🕒"@,
            HealthState::Blocked => "🚫"@,
            HealthState::Skipped => "🧅"@,
            HealthState::Unknown => "❔"@,
        }
    }

    /// Lowercase machine-readable label, matching the JSON serialization.
    pub fn as_str(self) -> (label: &'static str)
        ensures
            label@ == self.label(),
    {
        match self {
            HealthState::Healthy => "healthy",
            HealthState::Flaky => "flaky",
            HealthState::Warn => "warn",
            HealthState::Dead => "dead",
            HealthState::Stale => "stale",
            HealthState::Blocked => "blocked",
            HealthState::Skipped => "skipped",
            HealthState::Unknown => "unknown",
        }
    }

    /// Emoji used in Markdown / dashboard rendering.
    pub fn icon(self) -> (icon: &'static str)
        ensures
            icon@ == self.emoji(),
    {
        match self {
            HealthState::Healthy => "✅",
            HealthState::Flaky => "🟡",
            HealthState::Warn => "⚠️",
            HealthState::Dead => "💀",
            HealthState::Stale => "🕒",
            HealthState::Blocked => "🚫",
            HealthState::Skipped => "🧅",
            HealthState::Unknown => "❔",
        }
    }

    /// `true` only for [`Self::Healthy`]; the single source of truth for
    /// "is this relay usable right now".
    pub fn is_online(self) -> (online: bool)
        ensures
            online == (self == HealthState::Healthy),
    {
        matches!(self, HealthState::Healthy)
    }
}

/// Runtime health aggregate for a single relay URL, persisted across CI runs.
#[derive(Debug, Clone)]
pub struct HealthEntry {
    /// Timestamp of the most recent probe attempt, regardless of outcome.
    pub last_checked: Option<Timestamp>,
    /// Timestamp of the most recent successful probe.
    pub last_success: Option<Timestamp>,
    /// Number of consecutive hard failures; reset to 0 on success.
    pub consecutive_failures: u32,
    /// Disposition of the most recent probe attempt.
    pub last_outcome: Outcome,
    /// Open round-trip time of the latest successful handshake (NIP-66
    /// `rtt-open`), in milliseconds.
    pub rtt_open_ms: Option<u64>,
    /// Short, truncated error message from the latest failed probe.
    pub last_error: Option<String>,
    /// Supported NIP numbers as reported by the relay's NIP-11 document.
    pub supported_nips: Option<Vec<u16>>,
    /// `software` string from the NIP-11 document, if any.
    pub nip11_software: Option<String>,
    /// `version` string from the NIP-11 document, if any.
    pub nip11_version: Option<String>,
}

/// What a [`HealthEntry`] says.
pub struct HealthEntryView {
    pub last_checked: Option<Timestamp>,
    pub last_success: Option<Timestamp>,
    pub consecutive_failures: u32,
    pub last_outcome: Outcome,
    pub rtt_open_ms: Option<u64>,
    pub last_error: Option<Seq<char>>,
    pub supported_nips: Option<Seq<u16>>,
    pub nip11_software: Option<Seq<char>>,
    pub nip11_version: Option<Seq<char>>,
}

/// The NIP numbers of an optional list.
pub open spec fn opt_nips(nips: Option<Vec<u16>>) -> Option<Seq<u16>> {
    match nips {
        Some(list) => Some(list@),
        None => None,
    }
}

/// A copy of an optional list of NIP numbers.
pub fn opt_nips_copy(nips: &Option<Vec<u16>>) -> (copy: Option<Vec<u16>>)
    ensures
        opt_nips(copy) == opt_nips(*nips),
{
    match nips {
        Some(list) => {
            let mut copy: Vec<u16> = Vec::new();
            let mut i: usize = 0;
            while i < list.len()
                invariant
                    i <= list@.len(),
                    copy@ == list@.take(i as int),
                decreases list@.len() - i,
            {
                copy.push(list[i]);
                assert(list@.take(i + 1) =~= list@.take(i as int).push(list@[i as int]));
                i += 1;
            }
            assert(list@.take(i as int) =~= list@);
            Some(copy)
        },
        None => None,
    }
}

impl View for HealthEntry {
    type V = HealthEntryView;

    open spec fn view(&self) -> HealthEntryView {
        HealthEntryView {
            last_checked: self.last_checked,
            last_success: self.last_success,
            consecutive_failures: self.consecutive_failures,
            last_outcome: self.last_outcome,
            rtt_open_ms: self.rtt_open_ms,
            last_error: text::opt_text(self.last_error),
            supported_nips: opt_nips(self.supported_nips),
            nip11_software: text::opt_text(self.nip11_software),
            nip11_version: text::opt_text(self.nip11_version),
        }
    }
}

impl HealthEntryView {
    /// The entry of a relay that has not been probed.
    pub open spec fn unprobed() -> HealthEntryView {
        HealthEntryView {
            last_checked: None,
            last_success: None,
            consecutive_failures: 0,
            last_outcome: Outcome::Unknown,
            rtt_open_ms: None,
            last_error: None,
            supported_nips: None,
            nip11_software: None,
            nip11_version: None,
        }
    }

    /// More than the freshness window lies between `checked` and `now`.
    pub open spec fn is_stale(checked: Timestamp, now: Timestamp) -> bool {
        now.nanos_since(checked) > crate::STALE_AFTER_HOURS * 3_600
            * crate::timestamp::NANOS_PER_SECOND
    }

    /// The classification at the instant `now`.
    pub open spec fn state(self, now: Timestamp) -> HealthState {
        match self.last_checked {
            None => HealthState::Unknown,
            Some(checked) => if Self::is_stale(checked, now) {
                HealthState::Stale
            } else {
                match self.last_outcome {
                    Outcome::Unknown => HealthState::Unknown,
                    Outcome::Skipped => HealthState::Skipped,
                    Outcome::Blocked => HealthState::Blocked,
                    Outcome::Success => HealthState::Healthy,
                    Outcome::Failure => if self.consecutive_failures
                        >= crate::DEAD_FAILURE_THRESHOLD {
                        HealthState::Dead
                    } else if self.consecutive_failures >= crate::WARN_FAILURE_THRESHOLD {
                        HealthState::Warn
                    } else {
                        HealthState::Flaky
                    },
                }
            },
        }
    }
}

impl Default for HealthEntry {
    fn default() -> (entry: HealthEntry)
        ensures
            entry@ == HealthEntryView::unprobed(),
    {
        HealthEntry {
            last_checked: None,
            last_success: None,
            consecutive_failures: 0,
            last_outcome: Outcome::Unknown,
            rtt_open_ms: None,
            last_error: None,
            supported_nips: None,
            nip11_software: None,
            nip11_version: None,
        }
    }
}

impl HealthEntry {
    /// Classify this entry at instant `now`.
    ///
    /// Priority: never-probed → `Unknown`; stalled monitoring → `Stale`; then
    /// the last outcome (`Skipped` / `Blocked` / `Failure` by severity /
    /// `Success`). A `Blocked` outcome never reports `Healthy`.
    pub fn state(&self, now: Timestamp) -> (state: HealthState)
        ensures
            state == self@.state(now),
    {
        let last_checked = match self.last_checked {
            Some(instant) => instant,
            None => return HealthState::Unknown,
        };
        if now.is_later_by_more_than(last_checked, crate::STALE_AFTER_HOURS as u32) {
            return HealthState::Stale;
        }
        match self.last_outcome {
            Outcome::Unknown => HealthState::Unknown,
            Outcome::Skipped => HealthState::Skipped,
            Outcome::Blocked => HealthState::Blocked,
            Outcome::Failure => {
                if self.consecutive_failures >= crate::DEAD_FAILURE_THRESHOLD {
                    HealthState::Dead
                } else if self.consecutive_failures >= crate::WARN_FAILURE_THRESHOLD {
                    HealthState::Warn
                } else {
                    HealthState::Flaky
                }
            },
            Outcome::Success => HealthState::Healthy,
        }
    }

    /// Convenience wrapper around [`HealthEntry::state`] using the current wall
    /// clock; `true` only when the relay is [`HealthState::Healthy`].
    pub fn is_online(&self) -> (online: bool)
        ensures
            exists|now: Timestamp|
                now.is_clock_reading() && online == (#[trigger] self@.state(now)
                    == HealthState::Healthy),
            !(self@.last_outcome == Outcome::Success && self@.last_checked is Some) ==> !online,
    {
        let now = Timestamp::now();
        self.state(now).is_online()
    }
}

/// Top-level health snapshot persisted at `health.json`.
#[derive(Debug, Clone)]
pub struct HealthReport {
    /// Timestamp of the most recent probe run across the entire catalog.
    pub last_run: Option<Timestamp>,
    /// Per-URL entries keyed by the relay URL string.
    pub entries: TextMap<HealthEntry>,
}

/// What a [`HealthReport`] says.
pub struct HealthReportView {
    pub last_run: Option<Timestamp>,
    pub entries: Map<Seq<char>, HealthEntryView>,
}

impl View for HealthReport {
    type V = HealthReportView;

    open spec fn view(&self) -> HealthReportView {
        HealthReportView {
            last_run: self.last_run,
            entries: self.entries@.map_values(|e: HealthEntry| e@),
        }
    }
}

impl HealthReportView {
    /// The entry of `url`, where there is one.
    pub open spec fn entry(self, url: Seq<char>) -> Option<HealthEntryView> {
        if self.entries.contains_key(url) {
            Some(self.entries[url])
        } else {
            None
        }
    }

    /// The entry of `url`; without one, that of a relay not yet probed.
    pub open spec fn entry_or_unprobed(self, url: Seq<char>) -> HealthEntryView {
        match self.entry(url) {
            Some(entry) => entry,
            None => HealthEntryView::unprobed(),
        }
    }

    /// The report with `entry` under `url`.
    pub open spec fn with_entry(self, url: Seq<char>, entry: HealthEntryView) -> HealthReportView {
        HealthReportView { last_run: self.last_run, entries: self.entries.insert(url, entry) }
    }
}

impl Default for HealthReport {
    fn default() -> (report: HealthReport)
        ensures
            report@.last_run is None,
            report@.entries == Map::<Seq<char>, HealthEntryView>::empty(),
    {
        let report = HealthReport { last_run: None, entries: TextMap::new() };
        assert(report@.entries =~= Map::<Seq<char>, HealthEntryView>::empty());
        report
    }
}

// ---- laws -----------------------------------------------------------------

/// As time passes an entry keeps its state or becomes stale, and a stale one
/// stays stale.
pub proof fn law_time_only_makes_entries_stale(
    entry: HealthEntryView,
    now: Timestamp,
    later: Timestamp,
)
    requires
        entry.last_checked matches Some(checked) ==> now.nanos_since(checked) <= later.nanos_since(
            checked,
        ),
    ensures
        entry.state(later) == entry.state(now) || entry.state(later) == HealthState::Stale,
        entry.state(now) == HealthState::Stale ==> entry.state(later) == HealthState::Stale,
{
}

/// Of two instants outside leap seconds, an entry that was not checked in one
/// has at the later its state of the earlier or is stale, and a stale one is not
/// revived.
pub proof fn law_later_is_at_most_staler(
    entry: HealthEntryView,
    now: Timestamp,
    later: Timestamp,
)
    requires
        now.not_after(later),
        !now.in_leap_second(),
        !later.in_leap_second(),
        entry.last_checked matches Some(checked) ==> !checked.in_leap_second(),
    ensures
        entry.state(later) == entry.state(now) || entry.state(later) == HealthState::Stale,
        entry.state(now) == HealthState::Stale ==> entry.state(later) == HealthState::Stale,
{
    if let Some(checked) = entry.last_checked {
        crate::timestamp::law_time_passes(checked, now, later);
    }
    law_time_only_makes_entries_stale(entry, now, later);
}

/// Each state has a label of its own.
pub proof fn law_state_labels_differ(a: HealthState, b: HealthState)
    requires
        a.label() == b.label(),
    ensures
        a == b,
{
    reveal_strlit("healthy");
    assert("healthy"@[0] == 'h' && "healthy"@.len() == 7);
    reveal_strlit("flaky");
    assert("flaky"@[0] == 'f' && "flaky"@.len() == 5);
    reveal_strlit("warn");
    assert("warn"@[0] == 'w' && "warn"@.len() == 4);
    reveal_strlit("dead");
    assert("dead"@[0] == 'd' && "dead"@.len() == 4);
    reveal_strlit("stale");
    assert("stale"@[0] == 's' && "stale"@.len() == 5);
    reveal_strlit("blocked");
    assert("blocked"@[0] == 'b' && "blocked"@.len() == 7);
    reveal_strlit("skipped");
    assert("skipped"@[0] == 's' && "skipped"@.len() == 7);
    reveal_strlit("unknown");
    assert("unknown"@[0] == 'u' && "unknown"@.len() == 7);
}

/// Each network has a label of its own.
pub proof fn law_network_labels_differ(a: Network, b: Network)
    requires
        a.label() == b.label(),
    ensures
        a == b,
{
    reveal_strlit("clearnet");
    assert("clearnet"@[0] == 'c' && "clearnet"@.len() == 8);
    reveal_strlit("tor");
    assert("tor"@[0] == 't' && "tor"@.len() == 3);
    reveal_strlit("i2p");
    assert("i2p"@[0] == 'i' && "i2p"@.len() == 3);
    reveal_strlit("loki");
    assert("loki"@[0] == 'l' && "loki"@.len() == 4);
}

/// A health entry reads as its fields say.
pub proof fn law_entry_reads_as_its_fields(entry: HealthEntry)
    ensures
        entry@.last_checked == entry.last_checked,
        entry@.last_success == entry.last_success,
        entry@.consecutive_failures == entry.consecutive_failures,
        entry@.last_outcome == entry.last_outcome,
        entry@.rtt_open_ms == entry.rtt_open_ms,
        entry@.last_error is Some <==> entry.last_error is Some,
        entry.last_error matches Some(t) ==> entry@.last_error == Some(t@),
        entry@.supported_nips is Some <==> entry.supported_nips is Some,
        entry.supported_nips matches Some(list) ==> entry@.supported_nips == Some(list@),
        entry@.nip11_software is Some <==> entry.nip11_software is Some,
        entry.nip11_software matches Some(t) ==> entry@.nip11_software == Some(t@),
        entry@.nip11_version is Some <==> entry.nip11_version is Some,
        entry.nip11_version matches Some(t) ==> entry@.nip11_version == Some(t@),
{
}

/// A relay reads as its fields say.
pub proof fn law_relay_reads_as_its_fields(relay: Relay)
    ensures
        relay@.url == relay.url@,
        relay@.name is Some <==> relay.name is Some,
        relay.name matches Some(t) ==> relay@.name == Some(t@),
        relay@.description is Some <==> relay.description is Some,
        relay.description matches Some(t) ==> relay@.description == Some(t@),
        relay@.operator is Some <==> relay.operator is Some,
        relay.operator matches Some(t) ==> relay@.operator == Some(t@),
        relay@.country is Some <==> relay.country is Some,
        relay.country matches Some(t) ==> relay@.country == Some(t@),
        relay@.geohash is Some <==> relay.geohash is Some,
        relay.geohash matches Some(t) ==> relay@.geohash == Some(t@),
        relay@.network == relay.network,
        relay@.software is Some <==> relay.software is Some,
        relay.software matches Some(t) ==> relay@.software == Some(t@),
        relay@.requirements == relay.requirements,
        relay@.collections.len() == relay.collections@.len(),
        forall|i: int|
            0 <= i < relay.collections@.len() ==> #[trigger] relay@.collections[i]
                == relay.collections@[i]@,
        relay@.topics.len() == relay.topics@.len(),
        forall|i: int|
            0 <= i < relay.topics@.len() ==> #[trigger] relay@.topics[i] == relay.topics@[i]@,
        relay@.added_at == relay.added_at,
{
}

/// A dataset reads as its parts say, in their order.
pub proof fn law_dataset_reads_as_its_parts(dataset: Dataset)
    ensures
        dataset@.schema_version == dataset.schema_version@,
        dataset@.collections.len() == dataset.collections@.len(),
        forall|i: int|
            0 <= i < dataset.collections@.len() ==> {
                &&& #[trigger] dataset@.collections[i].id == dataset.collections@[i].id@
                &&& dataset@.collections[i].name == dataset.collections@[i].name@
                &&& dataset@.collections[i].description == dataset.collections@[i].description@
            },
        dataset@.relays.len() == dataset.relays@.len(),
        forall|i: int|
            0 <= i < dataset.relays@.len() ==> #[trigger] dataset@.relays[i] == dataset.relays@[i]@,
{
}

/// A report reads as its entries say, each under its address.
pub proof fn law_report_reads_as_its_entries(report: HealthReport, url: Seq<char>)
    ensures
        report@.last_run == report.last_run,
        report@.entry(url) is Some <==> report.entries@.contains_key(url),
        report.entries@.contains_key(url) ==> report@.entry(url) == Some(report.entries@[url]@),
{
}

/// The entry of an address that a report does not hold is blank.
pub proof fn law_unrecorded_entries_are_blank(report: HealthReportView, url: Seq<char>)
    ensures
        report.entries.contains_key(url) ==> report.entry_or_unprobed(url) == report.entries[url],
        !report.entries.contains_key(url) ==> {
            let entry = report.entry_or_unprobed(url);
            &&& entry.last_checked is None
            &&& entry.last_success is None
            &&& entry.consecutive_failures == 0
            &&& entry.last_outcome is Unknown
            &&& entry.rtt_open_ms is None
            &&& entry.last_error is None
            &&& entry.supported_nips is None
            &&& entry.nip11_software is None
            &&& entry.nip11_version is None
        },
{
}

/// Putting an entry under an address gives it back there, and leaves everything
/// else.
pub proof fn law_put_entries_are_found(
    report: HealthReportView,
    url: Seq<char>,
    entry: HealthEntryView,
    other: Seq<char>,
)
    ensures
        report.with_entry(url, entry).entry(url) == Some(entry),
        other != url ==> report.with_entry(url, entry).entry(other) == report.entry(other),
        report.with_entry(url, entry).last_run == report.last_run,
{
}

/// How an entry is classified: unknown without a check; stale when the check is
/// more than 72 hours old; else by the last outcome, where a hard failure is dead
/// from 14 in a row on, flagged from 3 on, and flaky before.
pub proof fn law_classification(entry: HealthEntryView, now: Timestamp)
    ensures
        entry.last_checked is None ==> entry.state(now) is Unknown,
        entry.last_checked matches Some(checked) ==> {
            let age = now.nanos_since(checked);
            &&& age > 259_200_000_000_000 <==> entry.state(now) is Stale
            &&& age <= 259_200_000_000_000 ==> {
                &&& entry.last_outcome is Success <==> entry.state(now) is Healthy
                &&& entry.last_outcome is Blocked <==> entry.state(now) is Blocked
                &&& entry.last_outcome is Skipped <==> entry.state(now) is Skipped
                &&& entry.last_outcome is Unknown <==> entry.state(now) is Unknown
                &&& entry.last_outcome is Failure && entry.consecutive_failures >= 14
                    <==> entry.state(now) is Dead
                &&& entry.last_outcome is Failure && 3 <= entry.consecutive_failures < 14
                    <==> entry.state(now) is Warn
                &&& entry.last_outcome is Failure && entry.consecutive_failures < 3
                    <==> entry.state(now) is Flaky
            }
        },
{
}

/// The label of each state.
pub proof fn law_state_labels(state: HealthState)
    ensures
        state.label() == match state {
            HealthState::Healthy => "healthy"@,
            HealthState::Flaky => "flaky"@,
            HealthState::Warn => "warn"@,
            HealthState::Dead => "dead"@,
            HealthState::Stale => "stale"@,
            HealthState::Blocked => "blocked"@,
            HealthState::Skipped => "skipped"@,
            HealthState::Unknown => "unknown"@,
        },
        state.emoji() == match state {
            HealthState::Healthy => "✅"@,
            HealthState::Flaky => "🟡"@,
            HealthState::Warn => "⚠️"@,
            HealthState::Dead => "💀"@,
            HealthState::Stale => "🕒"@,
            HealthState::Blocked => "🚫"@,
            HealthState::Skipped => "🧅"@,
            HealthState::Unknown => "❔"@,
        },
{
}

/// The label of each network.
pub proof fn law_network_labels(network: Network)
    ensures
        network.label() == match network {
            Network::Clearnet => "clearnet"@,
            Network::Tor => "tor"@,
            Network::I2p => "i2p"@,
            Network::Loki => "loki"@,
        },
{
}

/// `label` is `word`, in capital or small letters.
pub open spec fn spells(label: Seq<char>, word: Seq<char>) -> bool {
    label.len() == word.len() && forall|i: int|
        0 <= i < label.len() ==> (#[trigger] label[i] == word[i] || ('A' <= label[i] <= 'Z'
            && label[i] as int + 32 == word[i] as int))
}

/// The label after the last dot of a host tells its network: `onion`, `i2p` and
/// `loki`, in capital or small letters, have one of their own, and any other
/// label, or none, is the public internet. What stands before that dot does not
/// matter.
pub proof fn law_networks(before: Seq<char>, label: Seq<char>)
    requires
        !label.contains('.'),
    ensures
        network_of(Some(before.push('.') + label)) is Tor <==> spells(label, "onion"@),
        network_of(Some(before.push('.') + label)) is I2p <==> spells(label, "i2p"@),
        network_of(Some(before.push('.') + label)) is Loki <==> spells(label, "loki"@),
        network_of(Some(label)) is Clearnet,
        network_of(None) is Clearnet,
{
    text::law_after_last_mark(before, '.', label);
    text::law_equal_but_for_case(label, "onion"@);
    text::law_equal_but_for_case(label, "i2p"@);
    text::law_equal_but_for_case(label, "loki"@);
    reveal_strlit("onion");
    reveal_strlit("i2p");
    reveal_strlit("loki");
}

/// A curator's network is taken as it is; without one the host decides.
pub proof fn law_declared_network_wins(relay: RelayView)
    ensures
        relay.network matches Some(network) ==> relay.transport() == network,
        relay.network is None ==> relay.transport() == network_of(relay.url.host),
{
}

/// A name that is not empty is shown; else the host is, and without one a
/// placeholder.
pub proof fn law_shown_names(name: Option<Seq<char>>, host: Option<Seq<char>>)
    ensures
        name matches Some(n) ==> (n.len() > 0 ==> shown_name(name, host) == n),
        (name is None || name->0.len() == 0) && host is Some ==> shown_name(name, host) == host->0,
        (name is None || name->0.len() == 0) && host is None ==> shown_name(name, host)
            == "<unknown>"@,
{
}

/// A relay is paid exactly when its curator declared that it requires payment.
pub proof fn law_paid_relays(relay: Relay, paid: bool)
    requires
        call_ensures(Relay::is_paid, (&relay,), paid),
    ensures
        relay.requirements.payment == Some(true) ==> paid,
        relay.requirements.payment == Some(false) || relay.requirements.payment is None ==> !paid,
{
}

/// Requirements are empty exactly when none is declared, whether it holds or not.
pub proof fn law_empty_requirements(requirements: Requirements, empty: bool)
    requires
        call_ensures(Requirements::is_empty, (&requirements,), empty),
    ensures
        requirements.auth is Some || requirements.payment is Some || requirements.pow is Some
            || requirements.writes is Some ==> !empty,
        requirements.auth is None && requirements.payment is None && requirements.pow is None
            && requirements.writes is None ==> empty,
{
}

/// Of all states only the healthy one is online.
pub proof fn law_online_states(state: HealthState, online: bool)
    requires
        call_ensures(HealthState::is_online, (state,), online),
    ensures
        online <==> state is Healthy,
{
}

} // verus!
