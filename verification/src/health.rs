//! Utilities for mutating a [`HealthReport`] based on probe outcomes.
//!
//! Each transition is a function of the report before it, the probe result and
//! the instant at which it is recorded.

use vstd::prelude::*;

use crate::model::{opt_nips_copy, HealthEntry, HealthReport, HealthState, Outcome};
use crate::model;
use crate::probe_types::ProbeSuccess;
use crate::text;
use crate::text_map::TextMap;
use crate::timestamp::Timestamp;

verus! {

/// Maximum number of characters retained from a failure message.
pub const MAX_ERROR_CHARS: usize = 200;

// ---- transitions ----------------------------------------------------------

/// `input`, cut after `max_chars` characters with an ellipsis in place of the
/// rest.
pub open spec fn truncated(input: Seq<char>, max_chars: nat) -> Seq<char> {
    if input.len() <= max_chars {
        input
    } else {
        input.take(max_chars as int).push('…')
    }
}

/// The entry after a successful probe at `now`. Without a NIP-11 document, what
/// an earlier one said stays.
pub open spec fn after_success(
    entry: model::HealthEntryView,
    success: ProbeSuccess,
    now: Timestamp,
) -> model::HealthEntryView {
    model::HealthEntryView {
        last_checked: Some(now),
        last_success: Some(now),
        consecutive_failures: 0,
        last_outcome: Outcome::Success,
        rtt_open_ms: Some(success.rtt_ms),
        last_error: None,
        supported_nips: match success.nip11 {
            Some(nip11) => model::opt_nips(nip11.supported_nips),
            None => entry.supported_nips,
        },
        nip11_software: match success.nip11 {
            Some(nip11) => text::opt_text(nip11.software),
            None => entry.nip11_software,
        },
        nip11_version: match success.nip11 {
            Some(nip11) => text::opt_text(nip11.version),
            None => entry.nip11_version,
        },
    }
}

/// One more failure, as far as the counter goes.
pub open spec fn one_more(failures: u32) -> u32 {
    if failures < u32::MAX {
        (failures + 1) as u32
    } else {
        u32::MAX
    }
}

/// The entry after a hard failure at `now`.
pub open spec fn after_failure(
    entry: model::HealthEntryView,
    error: Seq<char>,
    now: Timestamp,
) -> model::HealthEntryView {
    model::HealthEntryView {
        last_checked: Some(now),
        consecutive_failures: one_more(entry.consecutive_failures),
        last_outcome: Outcome::Failure,
        rtt_open_ms: None,
        last_error: Some(truncated(error, MAX_ERROR_CHARS as nat)),
        ..entry
    }
}

/// The entry after a failure outside the relay's control at `now`.
pub open spec fn after_soft_failure(
    entry: model::HealthEntryView,
    error: Seq<char>,
    now: Timestamp,
) -> model::HealthEntryView {
    model::HealthEntryView {
        last_checked: Some(now),
        last_outcome: Outcome::Blocked,
        rtt_open_ms: None,
        last_error: Some(truncated(error, MAX_ERROR_CHARS as nat)),
        ..entry
    }
}

/// The entry after a skipped probe at `now`.
pub open spec fn after_skip(
    entry: model::HealthEntryView,
    now: Timestamp,
) -> model::HealthEntryView {
    model::HealthEntryView {
        last_checked: Some(now),
        last_outcome: Outcome::Skipped,
        rtt_open_ms: None,
        last_error: None,
        ..entry
    }
}

/// The report after a successful probe of `url` at `now`.
pub open spec fn success_recorded(
    report: model::HealthReportView,
    url: Seq<char>,
    success: ProbeSuccess,
    now: Timestamp,
) -> model::HealthReportView {
    report.with_entry(url, after_success(report.entry_or_unprobed(url), success, now))
}

/// The report after a hard failure of `url` at `now`.
pub open spec fn failure_recorded(
    report: model::HealthReportView,
    url: Seq<char>,
    error: Seq<char>,
    now: Timestamp,
) -> model::HealthReportView {
    report.with_entry(url, after_failure(report.entry_or_unprobed(url), error, now))
}

/// The report after a failure of `url` at `now` that is not the relay's.
pub open spec fn soft_failure_recorded(
    report: model::HealthReportView,
    url: Seq<char>,
    error: Seq<char>,
    now: Timestamp,
) -> model::HealthReportView {
    report.with_entry(url, after_soft_failure(report.entry_or_unprobed(url), error, now))
}

/// The report after a skipped probe of `url` at `now`.
pub open spec fn skip_recorded(
    report: model::HealthReportView,
    url: Seq<char>,
    now: Timestamp,
) -> model::HealthReportView {
    report.with_entry(url, after_skip(report.entry_or_unprobed(url), now))
}

/// The report with the entries of the known addresses only.
pub open spec fn pruned(
    report: model::HealthReportView,
    known_urls: Seq<Seq<char>>,
) -> model::HealthReportView {
    model::HealthReportView {
        last_run: report.last_run,
        entries: report.entries.restrict(known_urls.to_set()),
    }
}

// ---- recording ------------------------------------------------------------

/// Current time truncated to whole seconds, keeping persisted timestamps and
/// their JSON diffs readable across CI runs.
fn now_secs() -> (now: Timestamp)
    ensures
        now.is_clock_reading(),
        now.fraction() == 0,
{
    Timestamp::now().trunc_subsecs()
}

/// Take the entry of `url` out of the report; without one, start afresh.
fn take_entry(report: &mut HealthReport, url: &str) -> (entry: HealthEntry)
    ensures
        entry@ == old(report)@.entry_or_unprobed(url@),
        final(report)@.last_run == old(report)@.last_run,
        final(report)@.entries == old(report)@.entries.remove(url@),
{
    let taken = report.entries.remove(url);
    assert(report@.entries =~= old(report)@.entries.remove(url@));
    match taken {
        Some(entry) => entry,
        None => HealthEntry::default(),
    }
}

fn put_entry(report: &mut HealthReport, url: &str, entry: HealthEntry)
    ensures
        final(report)@ == old(report)@.with_entry(url@, entry@),
{
    report.entries.insert(url.to_owned(), entry);
    assert(report@.entries =~= old(report)@.entries.insert(url@, entry@));
}

/// Apply a successful probe to the health entry identified by `url`, at `now`.
pub fn record_success_at(
    report: &mut HealthReport,
    url: &str,
    success: &ProbeSuccess,
    now: Timestamp,
)
    ensures
        final(report)@ == success_recorded(old(report)@, url@, *success, now),
{
    let mut entry = take_entry(report, url);
    entry.last_checked = Some(now);
    entry.last_success = Some(now);
    entry.consecutive_failures = 0;
    entry.last_outcome = Outcome::Success;
    entry.rtt_open_ms = Some(success.rtt_ms);
    entry.last_error = None;
    if let Some(nip11) = &success.nip11 {
        entry.supported_nips = opt_nips_copy(&nip11.supported_nips);
        entry.nip11_software = text::clone_opt_text(&nip11.software);
        entry.nip11_version = text::clone_opt_text(&nip11.version);
    }
    put_entry(report, url, entry);
    assert(report@.entries =~= success_recorded(old(report)@, url@, *success, now).entries);
}

/// Apply a successful probe to the health entry identified by `url`.
pub fn record_success(report: &mut HealthReport, url: &str, success: &ProbeSuccess)
    ensures
        exists|now: Timestamp|
            now.is_clock_reading() && now.fraction() == 0 && final(report)@ == #[trigger] success_recorded(
                old(report)@,
                url@,
                *success,
                now,
            ),
{
    let now = now_secs();
    record_success_at(report, url, success, now);
}

/// Apply a hard failed probe to the health entry identified by `url`, at `now`.
pub fn record_failure_at(report: &mut HealthReport, url: &str, error: &str, now: Timestamp)
    ensures
        final(report)@ == failure_recorded(old(report)@, url@, error@, now),
{
    let mut entry = take_entry(report, url);
    entry.last_checked = Some(now);
    entry.consecutive_failures = entry.consecutive_failures.saturating_add(1);
    entry.last_outcome = Outcome::Failure;
    entry.rtt_open_ms = None;
    entry.last_error = Some(truncate(error, MAX_ERROR_CHARS));
    put_entry(report, url, entry);
    assert(report@.entries =~= failure_recorded(old(report)@, url@, error@, now).entries);
}

/// Apply a hard failed probe to the health entry identified by `url`.
///
/// Bumps `consecutive_failures`; use [`record_soft_failure`] for errors the
/// probe already classified as transient / environmental.
pub fn record_failure(report: &mut HealthReport, url: &str, error: &str)
    ensures
        exists|now: Timestamp|
            now.is_clock_reading() && now.fraction() == 0 && final(report)@ == #[trigger] failure_recorded(
                old(report)@,
                url@,
                error@,
                now,
            ),
{
    let now = now_secs();
    record_failure_at(report, url, error, now);
}

/// Record a failure at `now` that does **not** bump the consecutive-failure
/// counter.
pub fn record_soft_failure_at(report: &mut HealthReport, url: &str, error: &str, now: Timestamp)
    ensures
        final(report)@ == soft_failure_recorded(old(report)@, url@, error@, now),
{
    let mut entry = take_entry(report, url);
    entry.last_checked = Some(now);
    entry.last_outcome = Outcome::Blocked;
    entry.rtt_open_ms = None;
    entry.last_error = Some(truncate(error, MAX_ERROR_CHARS));
    put_entry(report, url, entry);
    assert(report@.entries =~= soft_failure_recorded(old(report)@, url@, error@, now).entries);
}

/// Record a failure that should **not** bump the consecutive-failure counter.
///
/// Intended for errors outside the relay's control, e.g. DNS hiccups on the
/// runner or Cloudflare bot-fight HTTP 403 — recording them for visibility
/// without wrongly pushing the relay towards the dead threshold.
pub fn record_soft_failure(report: &mut HealthReport, url: &str, error: &str)
    ensures
        exists|now: Timestamp|
            now.is_clock_reading() && now.fraction() == 0 && final(report)@ == #[trigger] soft_failure_recorded(
                old(report)@,
                url@,
                error@,
                now,
            ),
{
    let now = now_secs();
    record_soft_failure_at(report, url, error, now);
}

/// Mark that the probe for `url` was deliberately skipped at `now`.
pub fn record_skipped_at(report: &mut HealthReport, url: &str, now: Timestamp)
    ensures
        final(report)@ == skip_recorded(old(report)@, url@, now),
{
    let mut entry = take_entry(report, url);
    entry.last_checked = Some(now);
    entry.last_outcome = Outcome::Skipped;
    entry.rtt_open_ms = None;
    entry.last_error = None;
    put_entry(report, url, entry);
    assert(report@.entries =~= skip_recorded(old(report)@, url@, now).entries);
}

/// Mark that the probe for `url` was deliberately skipped. Unlike a failure,
/// this does **not** increment the consecutive-failure counter: the relay
/// simply lies outside what the current runner can verify.
pub fn record_skipped(report: &mut HealthReport, url: &str)
    ensures
        exists|now: Timestamp|
            now.is_clock_reading() && now.fraction() == 0 && final(report)@ == #[trigger] skip_recorded(
                old(report)@,
                url@,
                now,
            ),
{
    let now = now_secs();
    record_skipped_at(report, url, now);
}

/// `input`, cut after `max_chars` characters with an ellipsis in place of the
/// rest.
pub fn truncate(input: &str, max_chars: usize) -> (out: String)
    ensures
        out@ == truncated(input@, max_chars as nat),
{
    let chars = text::to_chars(input);
    if chars.len() <= max_chars {
        return input.to_owned();
    }
    let mut out = text::from_chars(&chars, 0, max_chars);
    out.push('…');
    assert(out@ =~= truncated(input@, max_chars as nat));
    out
}

/// The texts of a list, each once.
pub fn text_set(list: &[String]) -> (set: TextMap<()>)
    ensures
        set@.dom() == text::texts(list@).to_set(),
{
    let ghost model = text::texts(list@);
    let mut set: TextMap<()> = TextMap::new();
    let mut i: usize = 0;
    assert(set@.dom() =~= model.take(0).to_set());
    while i < list.len()
        invariant
            i <= list@.len(),
            model == text::texts(list@),
            set@.dom() == model.take(i as int).to_set(),
        decreases list@.len() - i,
    {
        let ghost before = set@;
        set.insert(list[i].clone(), ());
        assert(model.take(i + 1) =~= model.take(i as int).push(list@[i as int]@));
        assert(set@.dom() =~= model.take(i + 1).to_set()) by {
            let prefix = model.take(i as int);
            let last = list@[i as int]@;
            assert forall|k: Seq<char>| prefix.push(last).contains(k) <==> prefix.contains(k) || k
                == last by {
                if prefix.push(last).contains(k) {
                    let j = prefix.push(last).index_of(k);
                    assert(j < prefix.len() ==> prefix[j] == k);
                }
                if prefix.contains(k) {
                    let j = prefix.index_of(k);
                    assert(prefix.push(last)[j] == k);
                }
                assert(prefix.push(last)[prefix.len() as int] == last);
            }
        }
        i += 1;
    }
    assert(model.take(i as int) =~= model);
    set
}

/// Drop health entries whose URL is no longer present in the catalog, so
/// stale data does not accumulate across months of CI runs.
pub fn prune_orphans(report: &mut HealthReport, known_urls: &[String])
    ensures
        final(report)@ == pruned(old(report)@, text::texts(known_urls@)),
{
    let known = text_set(known_urls);
    report.entries.retain_known(&known);
    assert(report@.entries =~= pruned(old(report)@, text::texts(known_urls@)).entries);
}

/// The classification of a relay that may have no entry.
pub open spec fn state_or_unknown(
    entry: Option<model::HealthEntryView>,
    now: Timestamp,
) -> HealthState {
    match entry {
        Some(e) => e.state(now),
        None => HealthState::Unknown,
    }
}

/// What a borrowed entry says.
pub open spec fn entry_view(entry: Option<&HealthEntry>) -> Option<model::HealthEntryView> {
    match entry {
        Some(e) => Some(e@),
        None => None,
    }
}

/// Emoji for a relay's [`HealthState`] at `now`. `None` (no entry recorded)
/// maps to [`HealthState::Unknown`].
pub fn status_icon_at(entry: Option<&HealthEntry>, now: Timestamp) -> (icon: &'static str)
    ensures
        icon@ == state_or_unknown(entry_view(entry), now).emoji(),
{
    match entry {
        Some(e) => e.state(now).icon(),
        None => HealthState::Unknown.icon(),
    }
}

/// Emoji for a relay's current [`HealthState`], computed against the wall
/// clock. `None` (no entry recorded) maps to [`HealthState::Unknown`].
pub fn status_icon(entry: Option<&HealthEntry>) -> (icon: &'static str)
    ensures
        exists|now: Timestamp|
            now.is_clock_reading() && icon@ == #[trigger] state_or_unknown(
                entry_view(entry),
                now,
            ).emoji(),
        entry is None ==> icon@ == HealthState::Unknown.emoji(),
{
    let now = Timestamp::now();
    let icon = status_icon_at(entry, now);
    assert(icon@ == state_or_unknown(entry_view(entry), now).emoji());
    icon
}

// ---- laws -----------------------------------------------------------------

/// What the last outcome says agrees with the rest of the entry.
pub open spec fn consistent(entry: model::HealthEntryView) -> bool {
    &&& entry.last_success is Some ==> entry.last_checked is Some
    &&& entry.last_outcome == Outcome::Unknown <==> entry.last_checked is None
    &&& match entry.last_outcome {
        Outcome::Unknown => entry.consecutive_failures == 0 && entry.last_error is None
            && entry.rtt_open_ms is None,
        Outcome::Success => entry.consecutive_failures == 0 && entry.last_error is None
            && entry.rtt_open_ms is Some && entry.last_success == entry.last_checked,
        Outcome::Failure => entry.consecutive_failures > 0 && entry.last_error is Some
            && entry.rtt_open_ms is None,
        Outcome::Blocked => entry.last_error is Some && entry.rtt_open_ms is None,
        Outcome::Skipped => entry.last_error is None && entry.rtt_open_ms is None,
    }
}

/// Every entry of a report is consistent.
pub open spec fn consistent_report(report: model::HealthReportView) -> bool {
    forall|url: Seq<char>|
        #[trigger] report.entries.contains_key(url) ==> consistent(report.entries[url])
}

/// Entries start consistent, and every recording and pruning keeps them so.
pub proof fn law_recordings_keep_entries_consistent(
    report: model::HealthReportView,
    url: Seq<char>,
    success: ProbeSuccess,
    error: Seq<char>,
    known: Seq<Seq<char>>,
    now: Timestamp,
)
    requires
        consistent_report(report),
    ensures
        consistent(model::HealthEntryView::unprobed()),
        consistent_report(success_recorded(report, url, success, now)),
        consistent_report(failure_recorded(report, url, error, now)),
        consistent_report(soft_failure_recorded(report, url, error, now)),
        consistent_report(skip_recorded(report, url, now)),
        consistent_report(pruned(report, known)),
{
}

/// A recording replaces one entry; every other entry and the time of the last
/// run stay.
pub proof fn law_recordings_touch_one_entry(
    report: model::HealthReportView,
    url: Seq<char>,
    other: Seq<char>,
    success: ProbeSuccess,
    error: Seq<char>,
    now: Timestamp,
)
    requires
        url != other,
    ensures
        success_recorded(report, url, success, now).entry(other) == report.entry(other),
        failure_recorded(report, url, error, now).entry(other) == report.entry(other),
        soft_failure_recorded(report, url, error, now).entry(other) == report.entry(other),
        skip_recorded(report, url, now).entry(other) == report.entry(other),
        success_recorded(report, url, success, now).last_run == report.last_run,
        failure_recorded(report, url, error, now).last_run == report.last_run,
        soft_failure_recorded(report, url, error, now).last_run == report.last_run,
        skip_recorded(report, url, now).last_run == report.last_run,
{
}

/// A success clears the failure counter, and until monitoring stalls the relay
/// is healthy.
pub proof fn law_success_resets(
    report: model::HealthReportView,
    url: Seq<char>,
    success: ProbeSuccess,
    now: Timestamp,
    later: Timestamp,
)
    ensures
        success_recorded(report, url, success, now).entry(url) matches Some(entry)
            && entry.consecutive_failures == 0 && entry.last_error is None && entry.state(later)
            == if model::HealthEntryView::is_stale(now, later) {
            HealthState::Stale
        } else {
            HealthState::Healthy
        },
{
}

/// Soft failures and skipped probes leave the failure counter and the time of
/// the last success as they were, and never make a relay healthy, even one that
/// had succeeded before.
pub proof fn law_blocked_and_skipped_are_neutral(
    report: model::HealthReportView,
    url: Seq<char>,
    error: Seq<char>,
    now: Timestamp,
    later: Timestamp,
)
    ensures
        soft_failure_recorded(report, url, error, now).entry(url) matches Some(entry)
            && entry.consecutive_failures == report.entry_or_unprobed(url).consecutive_failures
            && entry.last_success == report.entry_or_unprobed(url).last_success && entry.state(
            later,
        ) == if model::HealthEntryView::is_stale(now, later) {
            HealthState::Stale
        } else {
            HealthState::Blocked
        },
        skip_recorded(report, url, now).entry(url) matches Some(entry)
            && entry.consecutive_failures == report.entry_or_unprobed(url).consecutive_failures
            && entry.last_success == report.entry_or_unprobed(url).last_success && entry.state(
            later,
        ) == if model::HealthEntryView::is_stale(now, later) {
            HealthState::Stale
        } else {
            HealthState::Skipped
        },
{
}

/// A recording that is no success.
pub enum Setback {
    /// A hard failure.
    Failure { error: Seq<char>, at: Timestamp },
    /// A failure outside the relay's control.
    Soft { error: Seq<char>, at: Timestamp },
    /// A skipped probe.
    Skip { at: Timestamp },
}

impl Setback {
    /// When it was recorded.
    pub open spec fn at(self) -> Timestamp {
        match self {
            Setback::Failure { at, .. } => at,
            Setback::Soft { at, .. } => at,
            Setback::Skip { at } => at,
        }
    }
}

/// The number of hard failures in a run.
pub open spec fn hard_failures(run: Seq<Setback>) -> nat
    decreases run.len(),
{
    if run.len() == 0 {
        0
    } else if run.last() is Failure {
        hard_failures(run.drop_last()) + 1
    } else {
        hard_failures(run.drop_last())
    }
}

/// A count, as far as the failure counter goes.
pub open spec fn as_counted(failures: nat) -> int {
    if failures <= u32::MAX {
        failures as int
    } else {
        u32::MAX as int
    }
}

/// The entry after a run without a success.
pub open spec fn after_setbacks(
    entry: model::HealthEntryView,
    run: Seq<Setback>,
) -> model::HealthEntryView
    decreases run.len(),
{
    if run.len() == 0 {
        entry
    } else {
        let before = after_setbacks(entry, run.drop_last());
        match run.last() {
            Setback::Failure { error, at } => after_failure(before, error, at),
            Setback::Soft { error, at } => after_soft_failure(before, error, at),
            Setback::Skip { at } => after_skip(before, at),
        }
    }
}

/// Since a success, the counter is the number of hard failures, as far as it
/// goes, whatever soft failures and skipped probes came in between.
pub proof fn law_hard_failures_are_counted(entry: model::HealthEntryView, run: Seq<Setback>)
    requires
        entry.consecutive_failures == 0,
    ensures
        after_setbacks(entry, run).consecutive_failures == as_counted(hard_failures(run)),
        after_setbacks(entry, run).last_success == entry.last_success,
    decreases run.len(),
{
    if run.len() > 0 {
        law_hard_failures_are_counted(entry, run.drop_last());
    }
}

/// A relay that keeps failing is flaky at first, flagged from the third hard
/// failure since its last success on, and dead from the fourteenth on. Soft
/// failures and skipped probes in between neither count nor reset the count.
pub proof fn law_failures_in_a_row(
    entry: model::HealthEntryView,
    run: Seq<Setback>,
    later: Timestamp,
)
    requires
        entry.consecutive_failures == 0,
        run.len() > 0,
        !model::HealthEntryView::is_stale(run.last().at(), later),
    ensures
        after_setbacks(entry, run).state(later) == match run.last() {
            Setback::Failure { .. } => if hard_failures(run) < 3 {
                HealthState::Flaky
            } else if hard_failures(run) < 14 {
                HealthState::Warn
            } else {
                HealthState::Dead
            },
            Setback::Soft { .. } => HealthState::Blocked,
            Setback::Skip { .. } => HealthState::Skipped,
        },
{
    law_hard_failures_are_counted(entry, run);
}

/// Pruning keeps exactly the known addresses, leaves their entries as they
/// were, and pruning again changes nothing.
pub proof fn law_prune_keeps_known_entries(
    report: model::HealthReportView,
    known: Seq<Seq<char>>,
    url: Seq<char>,
)
    ensures
        pruned(report, known).entry(url) == if known.contains(url) {
            report.entry(url)
        } else {
            None
        },
        pruned(pruned(report, known), known) == pruned(report, known),
{
    let once = pruned(report, known);
    assert(pruned(once, known).entries =~= once.entries);
    assert(known.to_set().contains(url) == known.contains(url));
}

/// Monitoring data past the freshness window is stale whatever the outcome was,
/// and a relay without a probe is unknown.
pub proof fn law_staleness_comes_first(entry: model::HealthEntryView, now: Timestamp)
    ensures
        entry.last_checked is None ==> entry.state(now) == HealthState::Unknown,
        entry.last_checked matches Some(checked) ==> (model::HealthEntryView::is_stale(checked, now)
            <==> entry.state(now) == HealthState::Stale),
{
}

/// Only a relay that was never probed is unknown: one that fails below the
/// thresholds is told apart from it.
pub proof fn law_unknown_means_never_probed(entry: model::HealthEntryView, now: Timestamp)
    requires
        consistent(entry),
    ensures
        entry.state(now) == HealthState::Unknown <==> entry.last_checked is None,
        entry.state(now) == HealthState::Flaky ==> 0 < entry.consecutive_failures < 3,
{
}

/// A cut message is at most one character longer than the limit, starts as the
/// message did, and is not cut any further.
pub proof fn law_truncation(input: Seq<char>, max_chars: nat)
    ensures
        input.len() <= max_chars ==> truncated(input, max_chars) == input,
        input.len() > max_chars ==> truncated(input, max_chars).len() == max_chars + 1,
        truncated(input, max_chars).len() <= max_chars + 1,
        truncated(input, max_chars).len() > max_chars ==> truncated(input, max_chars).last() == '…',
        input.len() >= max_chars ==> truncated(input, max_chars).take(max_chars as int)
            == input.take(max_chars as int),
        truncated(truncated(input, max_chars), max_chars) == truncated(input, max_chars),
{
    let once = truncated(input, max_chars);
    if input.len() >= max_chars {
        assert(once.take(max_chars as int) =~= input.take(max_chars as int));
    }
    assert(truncated(once, max_chars) =~= once);
}

/// A recorded success stands in the entry: its time twice, its round trip, no
/// failure and no error.
pub proof fn law_success_is_recorded(
    report: model::HealthReportView,
    url: Seq<char>,
    success: ProbeSuccess,
    now: Timestamp,
)
    ensures
        success_recorded(report, url, success, now).entry(url) matches Some(after) && {
            &&& after.last_checked == Some(now)
            &&& after.last_success == Some(now)
            &&& after.consecutive_failures == 0
            &&& after.rtt_open_ms == Some(success.rtt_ms)
            &&& after.last_error is None
            &&& after.last_outcome is Success
        },
        success_recorded(report, url, success, now).last_run == report.last_run,
{
}

/// A success with a document takes over what it says of supported NIPs, software
/// and version, also where it says nothing; a success without one keeps what was
/// known.
pub proof fn law_documents_are_recorded(
    report: model::HealthReportView,
    url: Seq<char>,
    success: ProbeSuccess,
    now: Timestamp,
)
    ensures
        success_recorded(report, url, success, now).entry(url) is Some,
        success.nip11 matches Some(document) ==> {
            let after = success_recorded(report, url, success, now).entry(url)->0;
            &&& after.supported_nips is Some <==> document.supported_nips is Some
            &&& document.supported_nips matches Some(list) ==> after.supported_nips == Some(list@)
            &&& after.nip11_software is Some <==> document.software is Some
            &&& document.software matches Some(t) ==> after.nip11_software == Some(t@)
            &&& after.nip11_version is Some <==> document.version is Some
            &&& document.version matches Some(t) ==> after.nip11_version == Some(t@)
        },
        success.nip11 is None && report.entries.contains_key(url) ==> {
            let after = success_recorded(report, url, success, now).entry(url)->0;
            let before = report.entries[url];
            &&& after.supported_nips == before.supported_nips
            &&& after.nip11_software == before.nip11_software
            &&& after.nip11_version == before.nip11_version
        },
        success.nip11 is None && !report.entries.contains_key(url) ==> {
            let after = success_recorded(report, url, success, now).entry(url)->0;
            after.supported_nips is None && after.nip11_software is None && after.nip11_version is None
        },
{
}

/// The message of an error is kept as it is up to 200 characters; of a longer one
/// the first 200 are kept, with an ellipsis behind them.
pub proof fn law_errors_are_kept(error: Seq<char>)
    ensures
        error.len() <= 200 ==> truncated(error, MAX_ERROR_CHARS as nat) == error,
        error.len() > 200 ==> {
            let kept = truncated(error, MAX_ERROR_CHARS as nat);
            &&& kept.len() == 201
            &&& kept[200] == '…'
            &&& forall|i: int| 0 <= i < 200 ==> #[trigger] kept[i] == error[i]
        },
{
}

/// The entry after a hard failure: checked now, without a round trip; when it last
/// succeeded and what its document said stay.
pub proof fn law_failure_is_recorded(
    report: model::HealthReportView,
    url: Seq<char>,
    error: Seq<char>,
    now: Timestamp,
)
    ensures
        failure_recorded(report, url, error, now).entry(url) matches Some(after) && {
            &&& after.last_checked == Some(now)
            &&& after.rtt_open_ms is None
            &&& after.last_error matches Some(kept) && (error.len() <= 200 ==> kept == error) && (
            error.len() > 200 ==> kept == error.take(200).push('…'))
            &&& after.last_outcome is Failure
        },
        report.entries.contains_key(url) ==> {
            let after = failure_recorded(report, url, error, now).entry(url)->0;
            let before = report.entries[url];
            &&& after.consecutive_failures == if before.consecutive_failures < 4_294_967_295 {
                before.consecutive_failures + 1
            } else {
                4_294_967_295
            }
            &&& after.last_success == before.last_success
            &&& after.supported_nips == before.supported_nips
            &&& after.nip11_software == before.nip11_software
            &&& after.nip11_version == before.nip11_version
        },
        !report.entries.contains_key(url) ==> {
            let after = failure_recorded(report, url, error, now).entry(url)->0;
            &&& after.consecutive_failures == 1
            &&& after.last_success is None
            &&& after.supported_nips is None
            &&& after.nip11_software is None
            &&& after.nip11_version is None
        },
        failure_recorded(report, url, error, now).last_run == report.last_run,
{
}

/// The entry after a failure outside the relay's control: checked now, without a round trip; when it last
/// succeeded and what its document said stay.
pub proof fn law_soft_failure_is_recorded(
    report: model::HealthReportView,
    url: Seq<char>,
    error: Seq<char>,
    now: Timestamp,
)
    ensures
        soft_failure_recorded(report, url, error, now).entry(url) matches Some(after) && {
            &&& after.last_checked == Some(now)
            &&& after.rtt_open_ms is None
            &&& after.last_error matches Some(kept) && (error.len() <= 200 ==> kept == error) && (
            error.len() > 200 ==> kept == error.take(200).push('…'))
            &&& after.last_outcome is Blocked
        },
        report.entries.contains_key(url) ==> {
            let after = soft_failure_recorded(report, url, error, now).entry(url)->0;
            let before = report.entries[url];
            &&& after.consecutive_failures == before.consecutive_failures
            &&& after.last_success == before.last_success
            &&& after.supported_nips == before.supported_nips
            &&& after.nip11_software == before.nip11_software
            &&& after.nip11_version == before.nip11_version
        },
        !report.entries.contains_key(url) ==> {
            let after = soft_failure_recorded(report, url, error, now).entry(url)->0;
            &&& after.consecutive_failures == 0
            &&& after.last_success is None
            &&& after.supported_nips is None
            &&& after.nip11_software is None
            &&& after.nip11_version is None
        },
        soft_failure_recorded(report, url, error, now).last_run == report.last_run,
{
}

/// The entry after a skipped probe: checked now, without a round trip; when it last
/// succeeded and what its document said stay.
pub proof fn law_skip_is_recorded(
    report: model::HealthReportView,
    url: Seq<char>,
    now: Timestamp,
)
    ensures
        skip_recorded(report, url, now).entry(url) matches Some(after) && {
            &&& after.last_checked == Some(now)
            &&& after.rtt_open_ms is None
            &&& after.last_error is None
            &&& after.last_outcome is Skipped
        },
        report.entries.contains_key(url) ==> {
            let after = skip_recorded(report, url, now).entry(url)->0;
            let before = report.entries[url];
            &&& after.consecutive_failures == before.consecutive_failures
            &&& after.last_success == before.last_success
            &&& after.supported_nips == before.supported_nips
            &&& after.nip11_software == before.nip11_software
            &&& after.nip11_version == before.nip11_version
        },
        !report.entries.contains_key(url) ==> {
            let after = skip_recorded(report, url, now).entry(url)->0;
            &&& after.consecutive_failures == 0
            &&& after.last_success is None
            &&& after.supported_nips is None
            &&& after.nip11_software is None
            &&& after.nip11_version is None
        },
        skip_recorded(report, url, now).last_run == report.last_run,
{
}

/// Pruning keeps when the last run was.
pub proof fn law_prune_keeps_the_last_run(
    report: model::HealthReportView,
    known: Seq<Seq<char>>,
)
    ensures
        pruned(report, known).last_run == report.last_run,
        forall|url: Seq<char>|
            #[trigger] pruned(report, known).entries.contains_key(url) <==> report.entries.contains_key(
                url,
            ) && exists|i: int| 0 <= i < known.len() && known[i] == url,
{
    let set = known.to_set();
    assert forall|url: Seq<char>|
        #[trigger] pruned(report, known).entries.contains_key(url) <==> report.entries.contains_key(
            url,
        ) && exists|i: int| 0 <= i < known.len() && known[i] == url by {
        assert(set.contains(url) == known.contains(url));
    }
}

/// A relay without an entry counts as unknown, any other by its entry.
pub proof fn law_missing_entries_are_unknown(entry: Option<model::HealthEntryView>, now: Timestamp)
    ensures
        entry is None ==> state_or_unknown(entry, now) is Unknown,
        entry matches Some(e) ==> state_or_unknown(entry, now) == e.state(now),
{
}

/// A borrowed entry reads as the entry itself.
pub proof fn law_borrowed_entries(entry: Option<&HealthEntry>)
    ensures
        entry is None <==> entry_view(entry) is None,
        entry matches Some(e) ==> entry_view(entry) == Some(e@),
{
}

} // verus!
