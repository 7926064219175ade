//! Domain types of the first catalog layout.
//!
//! [`Relay`] carries curator-provided metadata from `relays.toml`, while
//! [`HealthEntry`] carries CI-measured runtime facts from `health.json`. The
//! two are kept in separate files so that human edits never race with automated
//! probe runs.

use vstd::prelude::*;

use crate::model;
use crate::model::{display_name_of, Collection};
use crate::relay_url::RelayUrl;
use crate::text;
use crate::text_map::TextMap;
use crate::timestamp::Timestamp;

verus! {

/// Root document parsed from `relays.toml`.
#[derive(Debug, Clone)]
pub struct Dataset {
    /// Layout version; bumped when incompatible schema changes land.
    pub schema_version: String,
    /// Discoverability buckets referenced by relay entries.
    pub collections: Vec<Collection>,
    /// All relays tracked by the catalog.
    pub relays: Vec<Relay>,
}

/// What a [`Dataset`] says.
pub struct DatasetView {
    pub schema_version: Seq<char>,
    pub collections: Seq<model::CollectionView>,
    pub relays: Seq<RelayView>,
}

impl View for Dataset {
    type V = DatasetView;

    open spec fn view(&self) -> DatasetView {
        DatasetView {
            schema_version: self.schema_version@,
            collections: self.collections@.map_values(|c: Collection| c@),
            relays: self.relays@.map_values(|r: Relay| r@),
        }
    }
}

/// A single relay entry as described by a curator.
#[derive(Debug, Clone)]
pub struct Relay {
    /// Normalised WebSocket URL (`wss://...` or `ws://...onion`).
    pub url: RelayUrl,
    /// Short human-friendly name; falls back to the URL host when absent.
    pub name: Option<String>,
    /// Optional one-sentence description.
    pub description: Option<String>,
    /// Operator name or pubkey; either an org label or a Nostr npub.
    pub operator: Option<String>,
    /// ISO-3166 alpha-2 uppercase country code, `XX` if unknown, `T1` for
    /// tor-only services.
    pub country: Option<String>,
    /// Relay software implementation (e.g. `strfry`, `khatru`, `nostream`).
    pub software: Option<String>,
    /// `true` when the relay requires payment to post events.
    pub paid: Option<bool>,
    /// IDs of the collections this relay belongs to.
    pub collections: Vec<String>,
    /// Free-form lowercase tags for fine-grained discovery.
    pub tags: Vec<String>,
    /// Date the relay was first added to the catalog.
    pub added_at: Option<chrono::NaiveDate>,
}

/// What a [`Relay`] says.
pub struct RelayView {
    pub url: crate::relay_url::UrlView,
    pub name: Option<Seq<char>>,
    pub description: Option<Seq<char>>,
    pub operator: Option<Seq<char>>,
    pub country: Option<Seq<char>>,
    pub software: Option<Seq<char>>,
    pub paid: Option<bool>,
    pub collections: Seq<Seq<char>>,
    pub tags: Seq<Seq<char>>,
    pub added_at: Option<chrono::NaiveDate>,
}

impl View for Relay {
    type V = RelayView;

    open spec fn view(&self) -> RelayView {
        RelayView {
            url: self.url@,
            name: text::opt_text(self.name),
            description: text::opt_text(self.description),
            operator: text::opt_text(self.operator),
            country: text::opt_text(self.country),
            software: text::opt_text(self.software),
            paid: self.paid,
            collections: text::texts(self.collections@),
            tags: text::texts(self.tags@),
            added_at: self.added_at,
        }
    }
}

impl Relay {
    /// Display name for Markdown rendering, falling back to the URL host when
    /// `name` is missing.
    pub fn display_name(&self) -> (shown: String)
        ensures
            shown@ == model::shown_name(self@.name, self@.url.host),
    {
        display_name_of(&self.name, &self.url)
    }
}

/// Runtime health aggregate for a single relay URL, persisted across CI runs.
#[derive(Debug, Clone)]
pub struct HealthEntry {
    /// Timestamp of the most recent probe attempt, regardless of outcome.
    pub last_checked: Option<Timestamp>,
    /// Timestamp of the most recent successful probe.
    pub last_success: Option<Timestamp>,
    /// Number of consecutive failed probes; reset to 0 on success.
    pub consecutive_failures: u32,
    /// Round-trip time of the latest successful WebSocket handshake.
    pub rtt_ms: Option<u64>,
    /// Short, truncated error message from the latest failed probe.
    pub last_error: Option<String>,
    /// Supported NIP numbers as reported by the relay's NIP-11 document.
    pub supported_nips: Option<Vec<u16>>,
    /// `software` string from the NIP-11 document, if any.
    pub nip11_software: Option<String>,
    /// `version` string from the NIP-11 document, if any.
    pub nip11_version: Option<String>,
}

/// What a [`HealthEntry`] says.
pub struct HealthEntryView {
    pub last_checked: Option<Timestamp>,
    pub last_success: Option<Timestamp>,
    pub consecutive_failures: u32,
    pub rtt_ms: Option<u64>,
    pub last_error: Option<Seq<char>>,
    pub supported_nips: Option<Seq<u16>>,
    pub nip11_software: Option<Seq<char>>,
    pub nip11_version: Option<Seq<char>>,
}

impl View for HealthEntry {
    type V = HealthEntryView;

    open spec fn view(&self) -> HealthEntryView {
        HealthEntryView {
            last_checked: self.last_checked,
            last_success: self.last_success,
            consecutive_failures: self.consecutive_failures,
            rtt_ms: self.rtt_ms,
            last_error: text::opt_text(self.last_error),
            supported_nips: model::opt_nips(self.supported_nips),
            nip11_software: text::opt_text(self.nip11_software),
            nip11_version: text::opt_text(self.nip11_version),
        }
    }
}

impl HealthEntryView {
    /// The entry of a relay that has not been probed.
    pub open spec fn unprobed() -> HealthEntryView {
        HealthEntryView {
            last_checked: None,
            last_success: None,
            consecutive_failures: 0,
            rtt_ms: None,
            last_error: None,
            supported_nips: None,
            nip11_software: None,
            nip11_version: None,
        }
    }

    /// A probe has succeeded and no failure came after it.
    pub open spec fn online(self) -> bool {
        self.consecutive_failures == 0 && self.last_success is Some
    }
}

impl Default for HealthEntry {
    fn default() -> (entry: HealthEntry)
        ensures
            entry@ == HealthEntryView::unprobed(),
    {
        HealthEntry {
            last_checked: None,
            last_success: None,
            consecutive_failures: 0,
            rtt_ms: None,
            last_error: None,
            supported_nips: None,
            nip11_software: None,
            nip11_version: None,
        }
    }
}

impl HealthEntry {
    /// `true` when the most recent probe succeeded and no consecutive failures
    /// are recorded.
    pub fn is_online(&self) -> (online: bool)
        ensures
            online == self@.online(),
    {
        self.consecutive_failures == 0 && self.last_success.is_some()
    }
}

/// Top-level health snapshot persisted at `health.json`.
#[derive(Debug, Clone)]
pub struct HealthReport {
    /// Timestamp of the most recent probe run across the entire catalog.
    pub last_run: Option<Timestamp>,
    /// Per-URL entries keyed by the relay URL string.
    pub entries: TextMap<HealthEntry>,
}

/// What a [`HealthReport`] says.
pub struct HealthReportView {
    pub last_run: Option<Timestamp>,
    pub entries: Map<Seq<char>, HealthEntryView>,
}

impl View for HealthReport {
    type V = HealthReportView;

    open spec fn view(&self) -> HealthReportView {
        HealthReportView {
            last_run: self.last_run,
            entries: self.entries@.map_values(|e: HealthEntry| e@),
        }
    }
}

impl HealthReportView {
    /// The entry of `url`, where there is one.
    pub open spec fn entry(self, url: Seq<char>) -> Option<HealthEntryView> {
        if self.entries.contains_key(url) {
            Some(self.entries[url])
        } else {
            None
        }
    }

    /// The entry of `url`; without one, that of a relay not yet probed.
    pub open spec fn entry_or_unprobed(self, url: Seq<char>) -> HealthEntryView {
        match self.entry(url) {
            Some(entry) => entry,
            None => HealthEntryView::unprobed(),
        }
    }

    /// The report with `entry` under `url`.
    pub open spec fn with_entry(self, url: Seq<char>, entry: HealthEntryView) -> HealthReportView {
        HealthReportView { last_run: self.last_run, entries: self.entries.insert(url, entry) }
    }
}

impl Default for HealthReport {
    fn default() -> (report: HealthReport)
        ensures
            report@.last_run is None,
            report@.entries == Map::<Seq<char>, HealthEntryView>::empty(),
    {
        let report = HealthReport { last_run: None, entries: TextMap::new() };
        assert(report@.entries =~= Map::<Seq<char>, HealthEntryView>::empty());
        report
    }
}

// ---- laws -----------------------------------------------------------------

/// A health entry reads as its fields say.
pub proof fn law_entry_reads_as_its_fields(entry: HealthEntry)
    ensures
        entry@.last_checked == entry.last_checked,
        entry@.last_success == entry.last_success,
        entry@.consecutive_failures == entry.consecutive_failures,
        entry@.rtt_ms == entry.rtt_ms,
        entry@.last_error is Some <==> entry.last_error is Some,
        entry.last_error matches Some(t) ==> entry@.last_error == Some(t@),
        entry@.supported_nips is Some <==> entry.supported_nips is Some,
        entry.supported_nips matches Some(list) ==> entry@.supported_nips == Some(list@),
        entry@.nip11_software is Some <==> entry.nip11_software is Some,
        entry.nip11_software matches Some(t) ==> entry@.nip11_software == Some(t@),
        entry@.nip11_version is Some <==> entry.nip11_version is Some,
        entry.nip11_version matches Some(t) ==> entry@.nip11_version == Some(t@),
{
}

/// A relay is online exactly when a probe has succeeded and no failure is counted.
pub proof fn law_online(entry: HealthEntryView)
    ensures
        entry.consecutive_failures > 0 ==> !entry.online(),
        entry.last_success is None ==> !entry.online(),
        entry.consecutive_failures == 0 && entry.last_success is Some ==> entry.online(),
{
}

/// A report reads as its entries say, each under its address.
pub proof fn law_report_reads_as_its_entries(report: HealthReport, url: Seq<char>)
    ensures
        report@.last_run == report.last_run,
        report@.entry(url) is Some <==> report.entries@.contains_key(url),
        report.entries@.contains_key(url) ==> report@.entry(url) == Some(report.entries@[url]@),
{
}

/// The entry of an address that a report does not hold is blank.
pub proof fn law_unrecorded_entries_are_blank(report: HealthReportView, url: Seq<char>)
    ensures
        report.entries.contains_key(url) ==> report.entry_or_unprobed(url) == report.entries[url],
        !report.entries.contains_key(url) ==> {
            let entry = report.entry_or_unprobed(url);
            &&& entry.last_checked is None
            &&& entry.last_success is None
            &&& entry.consecutive_failures == 0
            &&& entry.rtt_ms is None
            &&& entry.last_error is None
            &&& entry.supported_nips is None
            &&& entry.nip11_software is None
            &&& entry.nip11_version is None
        },
{
}

/// Putting an entry under an address gives it back there, and leaves everything
/// else.
pub proof fn law_put_entries_are_found(
    report: HealthReportView,
    url: Seq<char>,
    entry: HealthEntryView,
    other: Seq<char>,
)
    ensures
        report.with_entry(url, entry).entry(url) == Some(entry),
        other != url ==> report.with_entry(url, entry).entry(other) == report.entry(other),
        report.with_entry(url, entry).last_run == report.last_run,
{
}

/// A relay reads as its fields say.
pub proof fn law_relay_reads_as_its_fields(relay: Relay)
    ensures
        relay@.url == relay.url@,
        relay@.name is Some <==> relay.name is Some,
        relay.name matches Some(t) ==> relay@.name == Some(t@),
        relay@.description is Some <==> relay.description is Some,
        relay.description matches Some(t) ==> relay@.description == Some(t@),
        relay@.operator is Some <==> relay.operator is Some,
        relay.operator matches Some(t) ==> relay@.operator == Some(t@),
        relay@.country is Some <==> relay.country is Some,
        relay.country matches Some(t) ==> relay@.country == Some(t@),
        relay@.software is Some <==> relay.software is Some,
        relay.software matches Some(t) ==> relay@.software == Some(t@),
        relay@.paid == relay.paid,
        relay@.collections.len() == relay.collections@.len(),
        forall|i: int|
            0 <= i < relay.collections@.len() ==> #[trigger] relay@.collections[i]
                == relay.collections@[i]@,
        relay@.tags.len() == relay.tags@.len(),
        forall|i: int| 0 <= i < relay.tags@.len() ==> #[trigger] relay@.tags[i] == relay.tags@[i]@,
        relay@.added_at == relay.added_at,
{
}

/// A dataset reads as its parts say, in their order.
pub proof fn law_dataset_reads_as_its_parts(dataset: Dataset)
    ensures
        dataset@.schema_version == dataset.schema_version@,
        dataset@.collections.len() == dataset.collections@.len(),
        forall|i: int|
            0 <= i < dataset.collections@.len() ==> #[trigger] dataset@.collections[i]
                == dataset.collections@[i]@,
        dataset@.relays.len() == dataset.relays@.len(),
        forall|i: int|
            0 <= i < dataset.relays@.len() ==> #[trigger] dataset@.relays[i] == dataset.relays@[i]@,
{
}

} // verus!
