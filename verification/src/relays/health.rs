//! Utilities for mutating a [`HealthReport`] based on probe outcomes.

use vstd::prelude::*;

use super::model;
use super::model::{HealthEntry, HealthReport};
use super::probe::ProbeSuccess;
use crate::health;
use crate::health::{text_set, MAX_ERROR_CHARS};
use crate::model::opt_nips_copy;
use crate::text;
use crate::timestamp::Timestamp;

pub use crate::health::truncate;

verus! {

// ---- transitions ----------------------------------------------------------

/// The entry after a successful probe at `now`. Without a NIP-11 document, what
/// an earlier one said stays.
pub open spec fn after_success(
    entry: model::HealthEntryView,
    success: ProbeSuccess,
    now: Timestamp,
) -> model::HealthEntryView {
    model::HealthEntryView {
        last_checked: Some(now),
        last_success: Some(now),
        consecutive_failures: 0,
        skipped: false,
        rtt_ms: Some(success.rtt_ms),
        last_error: None,
        supported_nips: match success.nip11 {
            Some(nip11) => crate::model::opt_nips(nip11.supported_nips),
            None => entry.supported_nips,
        },
        nip11_software: match success.nip11 {
            Some(nip11) => text::opt_text(nip11.software),
            None => entry.nip11_software,
        },
        nip11_version: match success.nip11 {
            Some(nip11) => text::opt_text(nip11.version),
            None => entry.nip11_version,
        },
    }
}

/// The entry after a failed probe at `now`.
pub open spec fn after_failure(
    entry: model::HealthEntryView,
    error: Seq<char>,
    now: Timestamp,
) -> model::HealthEntryView {
    model::HealthEntryView {
        last_checked: Some(now),
        consecutive_failures: health::one_more(entry.consecutive_failures),
        skipped: false,
        rtt_ms: None,
        last_error: Some(health::truncated(error, MAX_ERROR_CHARS as nat)),
        ..entry
    }
}

/// The entry after a failure outside the relay's control at `now`.
pub open spec fn after_soft_failure(
    entry: model::HealthEntryView,
    error: Seq<char>,
    now: Timestamp,
) -> model::HealthEntryView {
    model::HealthEntryView {
        last_checked: Some(now),
        skipped: false,
        rtt_ms: None,
        last_error: Some(health::truncated(error, MAX_ERROR_CHARS as nat)),
        ..entry
    }
}

/// The entry after a skipped probe at `now`.
pub open spec fn after_skip(
    entry: model::HealthEntryView,
    now: Timestamp,
) -> model::HealthEntryView {
    model::HealthEntryView {
        last_checked: Some(now),
        skipped: true,
        rtt_ms: None,
        last_error: None,
        ..entry
    }
}

/// The report after a successful probe of `url` at `now`.
pub open spec fn success_recorded(
    report: model::HealthReportView,
    url: Seq<char>,
    success: ProbeSuccess,
    now: Timestamp,
) -> model::HealthReportView {
    report.with_entry(url, after_success(report.entry_or_unprobed(url), success, now))
}

/// The report after a failed probe of `url` at `now`.
pub open spec fn failure_recorded(
    report: model::HealthReportView,
    url: Seq<char>,
    error: Seq<char>,
    now: Timestamp,
) -> model::HealthReportView {
    report.with_entry(url, after_failure(report.entry_or_unprobed(url), error, now))
}

/// The report after a failure of `url` at `now` that is not the relay's.
pub open spec fn soft_failure_recorded(
    report: model::HealthReportView,
    url: Seq<char>,
    error: Seq<char>,
    now: Timestamp,
) -> model::HealthReportView {
    report.with_entry(url, after_soft_failure(report.entry_or_unprobed(url), error, now))
}

/// The report after a skipped probe of `url` at `now`.
pub open spec fn skip_recorded(
    report: model::HealthReportView,
    url: Seq<char>,
    now: Timestamp,
) -> model::HealthReportView {
    report.with_entry(url, after_skip(report.entry_or_unprobed(url), now))
}

/// The report with the entries of the known addresses only.
pub open spec fn pruned(
    report: model::HealthReportView,
    known_urls: Seq<Seq<char>>,
) -> model::HealthReportView {
    model::HealthReportView {
        last_run: report.last_run,
        entries: report.entries.restrict(known_urls.to_set()),
    }
}

// ---- recording ------------------------------------------------------------

/// Take the entry of `url` out of the report; without one, start afresh.
fn take_entry(report: &mut HealthReport, url: &str) -> (entry: HealthEntry)
    ensures
        entry@ == old(report)@.entry_or_unprobed(url@),
        final(report)@.last_run == old(report)@.last_run,
        final(report)@.entries == old(report)@.entries.remove(url@),
{
    let taken = report.entries.remove(url);
    assert(report@.entries =~= old(report)@.entries.remove(url@));
    match taken {
        Some(entry) => entry,
        None => HealthEntry::default(),
    }
}

fn put_entry(report: &mut HealthReport, url: &str, entry: HealthEntry)
    ensures
        final(report)@ == old(report)@.with_entry(url@, entry@),
{
    report.entries.insert(url.to_owned(), entry);
    assert(report@.entries =~= old(report)@.entries.insert(url@, entry@));
}

/// Apply a successful probe to the health entry identified by `url`, at `now`.
pub fn record_success_at(
    report: &mut HealthReport,
    url: &str,
    success: &ProbeSuccess,
    now: Timestamp,
)
    ensures
        final(report)@ == success_recorded(old(report)@, url@, *success, now),
{
    let mut entry = take_entry(report, url);
    entry.last_checked = Some(now);
    entry.last_success = Some(now);
    entry.consecutive_failures = 0;
    entry.skipped = false;
    entry.rtt_ms = Some(success.rtt_ms);
    entry.last_error = None;
    if let Some(nip11) = &success.nip11 {
        entry.supported_nips = opt_nips_copy(&nip11.supported_nips);
        entry.nip11_software = text::clone_opt_text(&nip11.software);
        entry.nip11_version = text::clone_opt_text(&nip11.version);
    }
    put_entry(report, url, entry);
    assert(report@.entries =~= success_recorded(old(report)@, url@, *success, now).entries);
}

/// Apply a successful probe to the health entry identified by `url`.
pub fn record_success(report: &mut HealthReport, url: &str, success: &ProbeSuccess)
    ensures
        exists|now: Timestamp|
            now.is_clock_reading() && final(report)@ == #[trigger] success_recorded(old(report)@, url@, *success, now),
{
    let now = Timestamp::now();
    record_success_at(report, url, success, now);
}

/// Apply a failed probe to the health entry identified by `url`, at `now`.
pub fn record_failure_at(report: &mut HealthReport, url: &str, error: &str, now: Timestamp)
    ensures
        final(report)@ == failure_recorded(old(report)@, url@, error@, now),
{
    let mut entry = take_entry(report, url);
    entry.last_checked = Some(now);
    entry.consecutive_failures = entry.consecutive_failures.saturating_add(1);
    entry.skipped = false;
    entry.rtt_ms = None;
    entry.last_error = Some(truncate(error, MAX_ERROR_CHARS));
    put_entry(report, url, entry);
    assert(report@.entries =~= failure_recorded(old(report)@, url@, error@, now).entries);
}

/// Apply a hard failed probe to the health entry identified by `url`.
///
/// Bumps `consecutive_failures`; use [`record_soft_failure`] for errors the
/// probe already classified as transient / environmental.
pub fn record_failure(report: &mut HealthReport, url: &str, error: &str)
    ensures
        exists|now: Timestamp|
            now.is_clock_reading() && final(report)@ == #[trigger] failure_recorded(old(report)@, url@, error@, now),
{
    let now = Timestamp::now();
    record_failure_at(report, url, error, now);
}

/// Record a failure at `now` that does **not** bump the consecutive-failure
/// counter.
pub fn record_soft_failure_at(report: &mut HealthReport, url: &str, error: &str, now: Timestamp)
    ensures
        final(report)@ == soft_failure_recorded(old(report)@, url@, error@, now),
{
    let mut entry = take_entry(report, url);
    entry.last_checked = Some(now);
    entry.skipped = false;
    entry.rtt_ms = None;
    entry.last_error = Some(truncate(error, MAX_ERROR_CHARS));
    put_entry(report, url, entry);
    assert(report@.entries =~= soft_failure_recorded(old(report)@, url@, error@, now).entries);
}

/// Record a failure that should **not** bump the consecutive-failure counter.
///
/// Intended for errors outside the relay's control, e.g. DNS hiccups on the
/// runner or Cloudflare bot-fight HTTP 403 — recording them for visibility
/// without wrongly pushing the relay towards the dead threshold.
pub fn record_soft_failure(report: &mut HealthReport, url: &str, error: &str)
    ensures
        exists|now: Timestamp|
            now.is_clock_reading() && final(report)@ == #[trigger] soft_failure_recorded(old(report)@, url@, error@, now),
{
    let now = Timestamp::now();
    record_soft_failure_at(report, url, error, now);
}

/// Mark that the probe for `url` was deliberately skipped at `now`.
pub fn record_skipped_at(report: &mut HealthReport, url: &str, now: Timestamp)
    ensures
        final(report)@ == skip_recorded(old(report)@, url@, now),
{
    let mut entry = take_entry(report, url);
    entry.last_checked = Some(now);
    entry.skipped = true;
    entry.rtt_ms = None;
    entry.last_error = None;
    put_entry(report, url, entry);
    assert(report@.entries =~= skip_recorded(old(report)@, url@, now).entries);
}

/// Mark that the probe for `url` was deliberately skipped. Unlike a failure,
/// this does **not** increment the consecutive-failure counter: the relay
/// simply lies outside what the current runner can verify.
pub fn record_skipped(report: &mut HealthReport, url: &str)
    ensures
        exists|now: Timestamp|
            now.is_clock_reading() && final(report)@ == #[trigger] skip_recorded(old(report)@, url@, now),
{
    let now = Timestamp::now();
    record_skipped_at(report, url, now);
}

/// Drop health entries whose URL is no longer present in the catalog, so
/// stale data does not accumulate across months of CI runs.
pub fn prune_orphans(report: &mut HealthReport, known_urls: &[String])
    ensures
        final(report)@ == pruned(old(report)@, text::texts(known_urls@)),
{
    let known = text_set(known_urls);
    report.entries.retain_known(&known);
    assert(report@.entries =~= pruned(old(report)@, text::texts(known_urls@)).entries);
}

/// What a borrowed entry says.
pub open spec fn entry_view(entry: Option<&HealthEntry>) -> Option<model::HealthEntryView> {
    match entry {
        Some(e) => Some(e@),
        None => None,
    }
}

/// The icon of a relay that may have no entry.
pub open spec fn icon_of(entry: Option<model::HealthEntryView>) -> Seq<char> {
    match entry {
        Some(e) => if e.skipped {
            "🧅"@
        } else if e.consecutive_failures >= crate::DEAD_FAILURE_THRESHOLD {
            "💀"@
        } else if e.consecutive_failures >= crate::WARN_FAILURE_THRESHOLD {
            "⚠️"@
        } else if e.online() {
            "✅"@
        } else {
            "❔"@
        },
        None => "❔"@,
    }
}

/// Classify a relay for README rendering.
///
/// Returns one of: `❔` never probed, `🧅` skipped (e.g. onion), `✅` healthy,
/// `⚠️` warn (>= [`WARN_FAILURE_THRESHOLD`](crate::WARN_FAILURE_THRESHOLD)
/// consecutive failures), `💀` dead
/// (>= [`DEAD_FAILURE_THRESHOLD`](crate::DEAD_FAILURE_THRESHOLD)).
pub fn status_icon(entry: Option<&HealthEntry>) -> (icon: &'static str)
    ensures
        icon@ == icon_of(entry_view(entry)),
{
    let entry = match entry {
        Some(entry) => entry,
        None => return "❔",
    };
    if entry.skipped {
        return "🧅";
    }
    if entry.consecutive_failures >= crate::DEAD_FAILURE_THRESHOLD {
        "💀"
    } else if entry.consecutive_failures >= crate::WARN_FAILURE_THRESHOLD {
        "⚠️"
    } else if entry.is_online() {
        "✅"
    } else {
        "❔"
    }
}

// ---- laws -----------------------------------------------------------------

/// A recording replaces one entry; every other entry and the time of the last
/// run stay.
pub proof fn law_recordings_touch_one_entry(
    report: model::HealthReportView,
    url: Seq<char>,
    other: Seq<char>,
    success: ProbeSuccess,
    error: Seq<char>,
    now: Timestamp,
)
    requires
        url != other,
    ensures
        success_recorded(report, url, success, now).entry(other) == report.entry(other),
        failure_recorded(report, url, error, now).entry(other) == report.entry(other),
        soft_failure_recorded(report, url, error, now).entry(other) == report.entry(other),
        skip_recorded(report, url, now).entry(other) == report.entry(other),
        success_recorded(report, url, success, now).last_run == report.last_run,
        failure_recorded(report, url, error, now).last_run == report.last_run,
{
}

/// A success clears the failure counter and puts the relay online; a failure
/// counts and takes it offline.
pub proof fn law_success_and_failure(
    entry: model::HealthEntryView,
    success: ProbeSuccess,
    error: Seq<char>,
    now: Timestamp,
)
    ensures
        after_success(entry, success, now).consecutive_failures == 0,
        after_success(entry, success, now).online(),
        icon_of(Some(after_success(entry, success, now))) == "✅"@,
        after_failure(entry, error, now).consecutive_failures == health::one_more(
            entry.consecutive_failures,
        ),
        after_failure(entry, error, now).last_success == entry.last_success,
        !after_failure(entry, error, now).online(),
{
}

/// The entry after a run without a success.
pub open spec fn after_setbacks(
    entry: model::HealthEntryView,
    run: Seq<health::Setback>,
) -> model::HealthEntryView
    decreases run.len(),
{
    if run.len() == 0 {
        entry
    } else {
        let before = after_setbacks(entry, run.drop_last());
        match run.last() {
            health::Setback::Failure { error, at } => after_failure(before, error, at),
            health::Setback::Soft { error, at } => after_soft_failure(before, error, at),
            health::Setback::Skip { at } => after_skip(before, at),
        }
    }
}

/// Since a success, the counter is the number of hard failures, as far as it
/// goes, whatever soft failures and skipped probes came in between.
pub proof fn law_hard_failures_are_counted(entry: model::HealthEntryView, run: Seq<health::Setback>)
    requires
        entry.consecutive_failures == 0,
    ensures
        after_setbacks(entry, run).consecutive_failures == health::as_counted(
            health::hard_failures(run),
        ),
        after_setbacks(entry, run).last_success == entry.last_success,
    decreases run.len(),
{
    if run.len() > 0 {
        law_hard_failures_are_counted(entry, run.drop_last());
    }
}

/// A relay that keeps failing is flagged from the third hard failure since its
/// last success on, and dead from the fourteenth on. Soft failures and skipped
/// probes in between neither count nor reset the count; only after a skipped
/// probe does the relay show as skipped.
pub proof fn law_failures_in_a_row(entry: model::HealthEntryView, run: Seq<health::Setback>)
    requires
        entry.consecutive_failures == 0,
        run.len() > 0,
    ensures
        icon_of(Some(after_setbacks(entry, run))) == if run.last() is Skip {
            "🧅"@
        } else if health::hard_failures(run) == 0 && entry.last_success is Some {
            "✅"@
        } else if health::hard_failures(run) < 3 {
            "❔"@
        } else if health::hard_failures(run) < 14 {
            "⚠️"@
        } else {
            "💀"@
        },
{
    law_hard_failures_are_counted(entry, run);
}

/// Pruning keeps exactly the known addresses, leaves their entries as they
/// were, and pruning again changes nothing.
pub proof fn law_prune_keeps_known_entries(
    report: model::HealthReportView,
    known: Seq<Seq<char>>,
    url: Seq<char>,
)
    ensures
        pruned(report, known).entry(url) == if known.contains(url) {
            report.entry(url)
        } else {
            None
        },
        pruned(pruned(report, known), known) == pruned(report, known),
{
    let once = pruned(report, known);
    assert(pruned(once, known).entries =~= once.entries);
    assert(known.to_set().contains(url) == known.contains(url));
}

/// Soft failures and skipped probes leave the failure counter and the time of
/// the last success as they were.
pub proof fn law_soft_failures_and_skips_are_neutral(
    entry: model::HealthEntryView,
    error: Seq<char>,
    now: Timestamp,
)
    ensures
        after_soft_failure(entry, error, now).consecutive_failures == entry.consecutive_failures,
        after_soft_failure(entry, error, now).last_success == entry.last_success,
        after_skip(entry, now).consecutive_failures == entry.consecutive_failures,
        after_skip(entry, now).last_success == entry.last_success,
        icon_of(Some(after_skip(entry, now))) == "🧅"@,
{
}

/// A recorded success stands in the entry: its time twice, its round trip, no
/// failure and no error.
pub proof fn law_success_is_recorded(
    report: model::HealthReportView,
    url: Seq<char>,
    success: ProbeSuccess,
    now: Timestamp,
)
    ensures
        success_recorded(report, url, success, now).entry(url) matches Some(after) && {
            &&& after.last_checked == Some(now)
            &&& after.last_success == Some(now)
            &&& after.consecutive_failures == 0
            &&& after.rtt_ms == Some(success.rtt_ms)
            &&& after.last_error is None
            &&& !after.skipped
        },
        success_recorded(report, url, success, now).last_run == report.last_run,
{
}

/// A success with a document takes over what it says of supported NIPs, software
/// and version, also where it says nothing; a success without one keeps what was
/// known.
pub proof fn law_documents_are_recorded(
    report: model::HealthReportView,
    url: Seq<char>,
    success: ProbeSuccess,
    now: Timestamp,
)
    ensures
        success_recorded(report, url, success, now).entry(url) is Some,
        success.nip11 matches Some(document) ==> {
            let after = success_recorded(report, url, success, now).entry(url)->0;
            &&& after.supported_nips is Some <==> document.supported_nips is Some
            &&& document.supported_nips matches Some(list) ==> after.supported_nips == Some(list@)
            &&& after.nip11_software is Some <==> document.software is Some
            &&& document.software matches Some(t) ==> after.nip11_software == Some(t@)
            &&& after.nip11_version is Some <==> document.version is Some
            &&& document.version matches Some(t) ==> after.nip11_version == Some(t@)
        },
        success.nip11 is None && report.entries.contains_key(url) ==> {
            let after = success_recorded(report, url, success, now).entry(url)->0;
            let before = report.entries[url];
            &&& after.supported_nips == before.supported_nips
            &&& after.nip11_software == before.nip11_software
            &&& after.nip11_version == before.nip11_version
        },
        success.nip11 is None && !report.entries.contains_key(url) ==> {
            let after = success_recorded(report, url, success, now).entry(url)->0;
            after.supported_nips is None && after.nip11_software is None && after.nip11_version is None
        },
{
}

/// The message of an error is kept as it is up to 200 characters; of a longer one
/// the first 200 are kept, with an ellipsis behind them.
pub proof fn law_errors_are_kept(error: Seq<char>)
    ensures
        error.len() <= 200 ==> health::truncated(error, MAX_ERROR_CHARS as nat) == error,
        error.len() > 200 ==> {
            let kept = health::truncated(error, MAX_ERROR_CHARS as nat);
            &&& kept.len() == 201
            &&& kept[200] == '…'
            &&& forall|i: int| 0 <= i < 200 ==> #[trigger] kept[i] == error[i]
        },
{
}

/// The entry after a hard failure: checked now, without a round trip; when it last
/// succeeded and what its document said stay.
pub proof fn law_failure_is_recorded(
    report: model::HealthReportView,
    url: Seq<char>,
    error: Seq<char>,
    now: Timestamp,
)
    ensures
        failure_recorded(report, url, error, now).entry(url) matches Some(after) && {
            &&& after.last_checked == Some(now)
            &&& after.rtt_ms is None
            &&& after.last_error matches Some(kept) && (error.len() <= 200 ==> kept == error) && (
            error.len() > 200 ==> kept == error.take(200).push('…'))
            &&& !after.skipped
        },
        report.entries.contains_key(url) ==> {
            let after = failure_recorded(report, url, error, now).entry(url)->0;
            let before = report.entries[url];
            &&& after.consecutive_failures == if before.consecutive_failures < 4_294_967_295 {
                before.consecutive_failures + 1
            } else {
                4_294_967_295
            }
            &&& after.last_success == before.last_success
            &&& after.supported_nips == before.supported_nips
            &&& after.nip11_software == before.nip11_software
            &&& after.nip11_version == before.nip11_version
        },
        !report.entries.contains_key(url) ==> {
            let after = failure_recorded(report, url, error, now).entry(url)->0;
            &&& after.consecutive_failures == 1
            &&& after.last_success is None
            &&& after.supported_nips is None
            &&& after.nip11_software is None
            &&& after.nip11_version is None
        },
        failure_recorded(report, url, error, now).last_run == report.last_run,
{
}

/// The entry after a failure outside the relay's control: checked now, without a round trip; when it last
/// succeeded and what its document said stay.
pub proof fn law_soft_failure_is_recorded(
    report: model::HealthReportView,
    url: Seq<char>,
    error: Seq<char>,
    now: Timestamp,
)
    ensures
        soft_failure_recorded(report, url, error, now).entry(url) matches Some(after) && {
            &&& after.last_checked == Some(now)
            &&& after.rtt_ms is None
            &&& after.last_error matches Some(kept) && (error.len() <= 200 ==> kept == error) && (
            error.len() > 200 ==> kept == error.take(200).push('…'))
            &&& !after.skipped
        },
        report.entries.contains_key(url) ==> {
            let after = soft_failure_recorded(report, url, error, now).entry(url)->0;
            let before = report.entries[url];
            &&& after.consecutive_failures == before.consecutive_failures
            &&& after.last_success == before.last_success
            &&& after.supported_nips == before.supported_nips
            &&& after.nip11_software == before.nip11_software
            &&& after.nip11_version == before.nip11_version
        },
        !report.entries.contains_key(url) ==> {
            let after = soft_failure_recorded(report, url, error, now).entry(url)->0;
            &&& after.consecutive_failures == 0
            &&& after.last_success is None
            &&& after.supported_nips is None
            &&& after.nip11_software is None
            &&& after.nip11_version is None
        },
        soft_failure_recorded(report, url, error, now).last_run == report.last_run,
{
}

/// The entry after a skipped probe: checked now, without a round trip; when it last
/// succeeded and what its document said stay.
pub proof fn law_skip_is_recorded(
    report: model::HealthReportView,
    url: Seq<char>,
    now: Timestamp,
)
    ensures
        skip_recorded(report, url, now).entry(url) matches Some(after) && {
            &&& after.last_checked == Some(now)
            &&& after.rtt_ms is None
            &&& after.last_error is None
            &&& after.skipped
        },
        report.entries.contains_key(url) ==> {
            let after = skip_recorded(report, url, now).entry(url)->0;
            let before = report.entries[url];
            &&& after.consecutive_failures == before.consecutive_failures
            &&& after.last_success == before.last_success
            &&& after.supported_nips == before.supported_nips
            &&& after.nip11_software == before.nip11_software
            &&& after.nip11_version == before.nip11_version
        },
        !report.entries.contains_key(url) ==> {
            let after = skip_recorded(report, url, now).entry(url)->0;
            &&& after.consecutive_failures == 0
            &&& after.last_success is None
            &&& after.supported_nips is None
            &&& after.nip11_software is None
            &&& after.nip11_version is None
        },
        skip_recorded(report, url, now).last_run == report.last_run,
{
}

/// Pruning keeps when the last run was.
pub proof fn law_prune_keeps_the_last_run(
    report: model::HealthReportView,
    known: Seq<Seq<char>>,
)
    ensures
        pruned(report, known).last_run == report.last_run,
        forall|url: Seq<char>|
            #[trigger] pruned(report, known).entries.contains_key(url) <==> report.entries.contains_key(
                url,
            ) && exists|i: int| 0 <= i < known.len() && known[i] == url,
{
    let set = known.to_set();
    assert forall|url: Seq<char>|
        #[trigger] pruned(report, known).entries.contains_key(url) <==> report.entries.contains_key(
            url,
        ) && exists|i: int| 0 <= i < known.len() && known[i] == url by {
        assert(set.contains(url) == known.contains(url));
    }
}

/// The icon of an entry: dead from 14 failures in a row on, flagged from 3 on,
/// and below that healthy exactly when a probe has succeeded and none failed since.
pub proof fn law_icons(entry: Option<model::HealthEntryView>)
    ensures
        entry is None ==> icon_of(entry) == "❔"@,
        entry matches Some(e) ==> (e.skipped ==> icon_of(entry) == "🧅"@),
        entry matches Some(e) ==> (!e.skipped && e.consecutive_failures >= 14 ==> icon_of(entry) == "💀"@),
        entry matches Some(e) ==> (!e.skipped && 3 <= e.consecutive_failures < 14 ==> icon_of(entry) == "⚠️"@),
        entry matches Some(e) ==> (!e.skipped && 1 <= e.consecutive_failures < 3 ==> icon_of(entry) == "❔"@),
        entry matches Some(e) ==> (!e.skipped && e.consecutive_failures == 0 && e.last_success is Some
            ==> icon_of(entry) == "✅"@),
        entry matches Some(e) ==> (!e.skipped && e.consecutive_failures == 0 && e.last_success is None
            ==> icon_of(entry) == "❔"@),
{
}

/// A borrowed entry reads as the entry itself.
pub proof fn law_borrowed_entries(entry: Option<&HealthEntry>)
    ensures
        entry is None <==> entry_view(entry) is None,
        entry matches Some(e) ==> entry_view(entry) == Some(e@),
{
}

} // verus!
