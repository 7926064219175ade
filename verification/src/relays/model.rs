//! Domain types of the second catalog layout: the catalog of the first, with
//! health entries that know of skipped probes.

use vstd::prelude::*;

use crate::model;
use crate::text;
use crate::text_map::TextMap;
use crate::timestamp::Timestamp;

pub use crate::anr::model::{Dataset, Relay};
pub use crate::model::Collection;

verus! {

/// Runtime health aggregate for a single relay URL, persisted across CI runs.
#[derive(Debug, Clone)]
pub struct HealthEntry {
    /// Timestamp of the most recent probe attempt, regardless of outcome.
    pub last_checked: Option<Timestamp>,
    /// Timestamp of the most recent successful probe.
    pub last_success: Option<Timestamp>,
    /// Number of consecutive failed probes; reset to 0 on success.
    pub consecutive_failures: u32,
    /// The latest probe was deliberately skipped (e.g. onion without Tor).
    pub skipped: bool,
    /// Round-trip time of the latest successful WebSocket handshake.
    pub rtt_ms: Option<u64>,
    /// Short, truncated error message from the latest failed probe.
    pub last_error: Option<String>,
    /// Supported NIP numbers as reported by the relay's NIP-11 document.
    pub supported_nips: Option<Vec<u16>>,
    /// `software` string from the NIP-11 document, if any.
    pub nip11_software: Option<String>,
    /// `version` string from the NIP-11 document, if any.
    pub nip11_version: Option<String>,
}

/// What a [`HealthEntry`] says.
pub struct HealthEntryView {
    pub last_checked: Option<Timestamp>,
    pub last_success: Option<Timestamp>,
    pub consecutive_failures: u32,
    pub skipped: bool,
    pub rtt_ms: Option<u64>,
    pub last_error: Option<Seq<char>>,
    pub supported_nips: Option<Seq<u16>>,
    pub nip11_software: Option<Seq<char>>,
    pub nip11_version: Option<Seq<char>>,
}

impl View for HealthEntry {
    type V = HealthEntryView;

    open spec fn view(&self) -> HealthEntryView {
        HealthEntryView {
            last_checked: self.last_checked,
            last_success: self.last_success,
            consecutive_failures: self.consecutive_failures,
            skipped: self.skipped,
            rtt_ms: self.rtt_ms,
            last_error: text::opt_text(self.last_error),
            supported_nips: model::opt_nips(self.supported_nips),
            nip11_software: text::opt_text(self.nip11_software),
            nip11_version: text::opt_text(self.nip11_version),
        }
    }
}

impl HealthEntryView {
    /// The entry of a relay that has not been probed.
    pub open spec fn unprobed() -> HealthEntryView {
        HealthEntryView {
            last_checked: None,
            last_success: None,
            consecutive_failures: 0,
            skipped: false,
            rtt_ms: None,
            last_error: None,
            supported_nips: None,
            nip11_software: None,
            nip11_version: None,
        }
    }

    /// A probe has succeeded and no failure was counted after it.
    pub open spec fn online(self) -> bool {
        self.consecutive_failures == 0 && self.last_success is Some
    }
}

impl Default for HealthEntry {
    fn default() -> (entry: HealthEntry)
        ensures
            entry@ == HealthEntryView::unprobed(),
    {
        HealthEntry {
            last_checked: None,
            last_success: None,
            consecutive_failures: 0,
            skipped: false,
            rtt_ms: None,
            last_error: None,
            supported_nips: None,
            nip11_software: None,
            nip11_version: None,
        }
    }
}

impl HealthEntry {
    /// `true` when a probe has succeeded and no failure was counted after it.
    /// Soft failures and skipped probes do not count.
    pub fn is_online(&self) -> (online: bool)
        ensures
            online == self@.online(),
    {
        self.consecutive_failures == 0 && self.last_success.is_some()
    }
}

/// Top-level health snapshot persisted at `health.json`.
#[derive(Debug, Clone)]
pub struct HealthReport {
    /// Timestamp of the most recent probe run across the entire catalog.
    pub last_run: Option<Timestamp>,
    /// Per-URL entries keyed by the relay URL string.
    pub entries: TextMap<HealthEntry>,
}

/// What a [`HealthReport`] says.
pub struct HealthReportView {
    pub last_run: Option<Timestamp>,
    pub entries: Map<Seq<char>, HealthEntryView>,
}

impl View for HealthReport {
    type V = HealthReportView;

    open spec fn view(&self) -> HealthReportView {
        HealthReportView {
            last_run: self.last_run,
            entries: self.entries@.map_values(|e: HealthEntry| e@),
        }
    }
}

impl HealthReportView {
    /// The entry of `url`, where there is one.
    pub open spec fn entry(self, url: Seq<char>) -> Option<HealthEntryView> {
        if self.entries.contains_key(url) {
            Some(self.entries[url])
        } else {
            None
        }
    }

    /// The entry of `url`; without one, that of a relay not yet probed.
    pub open spec fn entry_or_unprobed(self, url: Seq<char>) -> HealthEntryView {
        match self.entry(url) {
            Some(entry) => entry,
            None => HealthEntryView::unprobed(),
        }
    }

    /// The report with `entry` under `url`.
    pub open spec fn with_entry(self, url: Seq<char>, entry: HealthEntryView) -> HealthReportView {
        HealthReportView { last_run: self.last_run, entries: self.entries.insert(url, entry) }
    }
}

impl Default for HealthReport {
    fn default() -> (report: HealthReport)
        ensures
            report@.last_run is None,
            report@.entries == Map::<Seq<char>, HealthEntryView>::empty(),
    {
        let report = HealthReport { last_run: None, entries: TextMap::new() };
        assert(report@.entries =~= Map::<Seq<char>, HealthEntryView>::empty());
        report
    }
}

// ---- laws -----------------------------------------------------------------

/// A health entry reads as its fields say.
pub proof fn law_entry_reads_as_its_fields(entry: HealthEntry)
    ensures
        entry@.last_checked == entry.last_checked,
        entry@.last_success == entry.last_success,
        entry@.consecutive_failures == entry.consecutive_failures,
        entry@.skipped == entry.skipped,
        entry@.rtt_ms == entry.rtt_ms,
        entry@.last_error is Some <==> entry.last_error is Some,
        entry.last_error matches Some(t) ==> entry@.last_error == Some(t@),
        entry@.supported_nips is Some <==> entry.supported_nips is Some,
        entry.supported_nips matches Some(list) ==> entry@.supported_nips == Some(list@),
        entry@.nip11_software is Some <==> entry.nip11_software is Some,
        entry.nip11_software matches Some(t) ==> entry@.nip11_software == Some(t@),
        entry@.nip11_version is Some <==> entry.nip11_version is Some,
        entry.nip11_version matches Some(t) ==> entry@.nip11_version == Some(t@),
{
}

/// A relay is online exactly when a probe has succeeded and no failure is counted.
pub proof fn law_online(entry: HealthEntryView)
    ensures
        entry.consecutive_failures > 0 ==> !entry.online(),
        entry.last_success is None ==> !entry.online(),
        entry.consecutive_failures == 0 && entry.last_success is Some ==> entry.online(),
{
}

/// A report reads as its entries say, each under its address.
pub proof fn law_report_reads_as_its_entries(report: HealthReport, url: Seq<char>)
    ensures
        report@.last_run == report.last_run,
        report@.entry(url) is Some <==> report.entries@.contains_key(url),
        report.entries@.contains_key(url) ==> report@.entry(url) == Some(report.entries@[url]@),
{
}

/// The entry of an address that a report does not hold is blank.
pub proof fn law_unrecorded_entries_are_blank(report: HealthReportView, url: Seq<char>)
    ensures
        report.entries.contains_key(url) ==> report.entry_or_unprobed(url) == report.entries[url],
        !report.entries.contains_key(url) ==> {
            let entry = report.entry_or_unprobed(url);
            &&& entry.last_checked is None
            &&& entry.last_success is None
            &&& entry.consecutive_failures == 0
            &&& !entry.skipped
            &&& entry.rtt_ms is None
            &&& entry.last_error is None
            &&& entry.supported_nips is None
            &&& entry.nip11_software is None
            &&& entry.nip11_version is None
        },
{
}

/// Putting an entry under an address gives it back there, and leaves everything
/// else.
pub proof fn law_put_entries_are_found(
    report: HealthReportView,
    url: Seq<char>,
    entry: HealthEntryView,
    other: Seq<char>,
)
    ensures
        report.with_entry(url, entry).entry(url) == Some(entry),
        other != url ==> report.with_entry(url, entry).entry(other) == report.entry(other),
        report.with_entry(url, entry).last_run == report.last_run,
{
}

} // verus!
