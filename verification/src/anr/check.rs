//! What a check run does with the catalog and the health snapshot around the
//! probes themselves.

use vstd::prelude::*;
use vstd::string::*;

use super::health;
use super::health::{prune_orphans, record_failure_at, record_success_at};
use super::model;
use super::model::{Dataset, HealthReport};
use super::probe::{ProbeConfig, ProbeSuccess};
use crate::duration::Duration;
use crate::text;
use crate::timestamp::Timestamp;

verus! {

/// The addresses of the catalog, in order.
pub open spec fn catalog_urls(relays: Seq<model::RelayView>) -> Seq<Seq<char>> {
    relays.map_values(|r: model::RelayView| r.url.href)
}

/// The addresses of the catalog, in order.
pub fn known_urls(dataset: &Dataset) -> (urls: Vec<String>)
    ensures
        text::texts(urls@) == catalog_urls(dataset@.relays),
{
    let mut urls: Vec<String> = Vec::new();
    let mut i: usize = 0;
    while i < dataset.relays.len()
        invariant
            i <= dataset.relays@.len(),
            urls@.len() == i,
            forall|j: int| 0 <= j < i ==> (#[trigger] urls@[j])@ == dataset.relays@[j]@.url.href,
        decreases dataset.relays@.len() - i,
    {
        urls.push(dataset.relays[i].url.as_str().to_owned());
        i += 1;
    }
    assert(text::texts(urls@) =~= catalog_urls(dataset@.relays));
    urls
}

/// How many relays a run probes, from the first on: all of them, or as many as
/// the limit allows.
pub fn target_count(total: usize, limit: Option<usize>) -> (count: usize)
    ensures
        count == match limit {
            Some(n) if n < total => n,
            _ => total,
        },
{
    match limit {
        Some(n) if n < total => n,
        _ => total,
    }
}

/// The configuration of a run: the document request gets the whole timeout, but
/// no more than eight seconds.
pub fn run_config(timeout: Duration) -> (config: ProbeConfig)
    ensures
        config.timeout == timeout,
        config.http_timeout.total_nanos() == if timeout.total_nanos() <= 8
            * crate::duration::SECOND {
            timeout.total_nanos()
        } else {
            8 * crate::duration::SECOND
        },
{
    ProbeConfig { timeout, http_timeout: timeout.min(Duration::from_secs(8)) }
}

/// Start a run: what is no longer in the catalog is forgotten.
pub fn begin_run(report: &mut HealthReport, dataset: &Dataset)
    ensures
        final(report)@ == health::pruned(old(report)@, catalog_urls(dataset@.relays)),
{
    let urls = known_urls(dataset);
    prune_orphans(report, urls.as_slice());
}

/// The report after a probe of `url` at `now` with this outcome.
pub open spec fn outcome_recorded(
    report: model::HealthReportView,
    url: Seq<char>,
    outcome: Result<ProbeSuccess, String>,
    now: Timestamp,
) -> model::HealthReportView {
    match outcome {
        Ok(success) => health::success_recorded(report, url, success, now),
        Err(error) => health::failure_recorded(report, url, error@, now),
    }
}

/// Record the outcome of one probe at `now`.
pub fn record_outcome_at(
    report: &mut HealthReport,
    url: &str,
    outcome: &Result<ProbeSuccess, String>,
    now: Timestamp,
)
    ensures
        final(report)@ == outcome_recorded(old(report)@, url@, *outcome, now),
{
    match outcome {
        Ok(success) => record_success_at(report, url, success, now),
        Err(error) => record_failure_at(report, url, error.as_str(), now),
    }
}

/// Record the outcome of one probe.
pub fn record_outcome(report: &mut HealthReport, url: &str, outcome: &Result<ProbeSuccess, String>)
    ensures
        exists|now: Timestamp|
            now.is_clock_reading() && final(report)@ == #[trigger] outcome_recorded(old(report)@, url@, *outcome, now),
{
    let now = Timestamp::now();
    record_outcome_at(report, url, outcome, now);
}

/// The report after a run that ended at `now`.
pub open spec fn stamped(
    report: model::HealthReportView,
    now: Timestamp,
) -> model::HealthReportView {
    model::HealthReportView { last_run: Some(now), entries: report.entries }
}

/// End a run at `now`.
pub fn finish_run_at(report: &mut HealthReport, now: Timestamp)
    ensures
        final(report)@ == stamped(old(report)@, now),
{
    report.last_run = Some(now);
}

/// End a run.
pub fn finish_run(report: &mut HealthReport)
    ensures
        exists|now: Timestamp|
            now.is_clock_reading() && final(report)@ == #[trigger] stamped(old(report)@, now),
{
    let now = Timestamp::now();
    finish_run_at(report, now);
}

// ---- laws -----------------------------------------------------------------

/// The report after the probes of a run, one after the other.
pub open spec fn after_probes(
    report: model::HealthReportView,
    run: Seq<(Seq<char>, Result<ProbeSuccess, String>, Timestamp)>,
) -> model::HealthReportView
    decreases run.len(),
{
    if run.len() == 0 {
        report
    } else {
        outcome_recorded(
            after_probes(report, run.drop_last()),
            run.last().0,
            run.last().1,
            run.last().2,
        )
    }
}

/// A run over addresses of the catalog leaves entries of the catalog only, and
/// every probed address has one.
pub proof fn law_run_stays_within_the_catalog(
    report: model::HealthReportView,
    relays: Seq<model::RelayView>,
    run: Seq<(Seq<char>, Result<ProbeSuccess, String>, Timestamp)>,
    url: Seq<char>,
)
    requires
        forall|i: int| 0 <= i < run.len() ==> catalog_urls(relays).contains((#[trigger] run[i]).0),
    ensures
        after_probes(health::pruned(report, catalog_urls(relays)), run).entry(url) is Some
            ==> catalog_urls(relays).contains(url),
        (exists|i: int| 0 <= i < run.len() && (#[trigger] run[i]).0 == url) ==> after_probes(
            health::pruned(report, catalog_urls(relays)),
            run,
        ).entry(url) is Some,
    decreases run.len(),
{
    if run.len() > 0 {
        let front = run.drop_last();
        assert forall|i: int| 0 <= i < front.len() implies catalog_urls(relays).contains(
            (#[trigger] front[i]).0,
        ) by {
            assert(front[i] == run[i]);
        }
        law_run_stays_within_the_catalog(report, relays, front, url);
        assert(catalog_urls(relays).contains(run[run.len() - 1].0));
        if exists|i: int| 0 <= i < run.len() && (#[trigger] run[i]).0 == url {
            let i = choose|i: int| 0 <= i < run.len() && (#[trigger] run[i]).0 == url;
            if i < front.len() {
                assert(front[i].0 == url);
            }
        }
    } else {
        health::law_prune_keeps_known_entries(report, catalog_urls(relays), url);
    }
}

/// A run leaves the entries of addresses that it did not probe as they were.
pub proof fn law_run_leaves_other_entries(
    report: model::HealthReportView,
    run: Seq<(Seq<char>, Result<ProbeSuccess, String>, Timestamp)>,
    url: Seq<char>,
)
    requires
        forall|i: int| 0 <= i < run.len() ==> (#[trigger] run[i]).0 != url,
    ensures
        after_probes(report, run).entry(url) == report.entry(url),
    decreases run.len(),
{
    if run.len() > 0 {
        let front = run.drop_last();
        assert forall|i: int| 0 <= i < front.len() implies (#[trigger] front[i]).0 != url by {
            assert(front[i] == run[i]);
        }
        law_run_leaves_other_entries(report, front, url);
        assert(run[run.len() - 1].0 != url);
    }
}

/// A whole run, from pruning to its stamp, leaves the entry of an address that it
/// did not probe as it was, or forgets it where the catalog does not list the
/// address, and records when it ended.
pub proof fn law_whole_run_leaves_other_entries(
    report: model::HealthReportView,
    relays: Seq<model::RelayView>,
    run: Seq<(Seq<char>, Result<ProbeSuccess, String>, Timestamp)>,
    ended: Timestamp,
    url: Seq<char>,
)
    requires
        forall|i: int| 0 <= i < run.len() ==> (#[trigger] run[i]).0 != url,
    ensures
        stamped(after_probes(health::pruned(report, catalog_urls(relays)), run), ended).entry(url)
            == if catalog_urls(relays).contains(url) {
            report.entry(url)
        } else {
            None
        },
        stamped(after_probes(health::pruned(report, catalog_urls(relays)), run), ended).last_run
            == Some(ended),
{
    law_run_leaves_other_entries(health::pruned(report, catalog_urls(relays)), run, url);
    health::law_prune_keeps_known_entries(report, catalog_urls(relays), url);
}

/// Probes of different relays can be recorded in either order.
pub proof fn law_outcomes_of_different_relays_commute(
    report: model::HealthReportView,
    a: (Seq<char>, Result<ProbeSuccess, String>, Timestamp),
    b: (Seq<char>, Result<ProbeSuccess, String>, Timestamp),
)
    requires
        a.0 != b.0,
    ensures
        outcome_recorded(outcome_recorded(report, a.0, a.1, a.2), b.0, b.1, b.2)
            == outcome_recorded(outcome_recorded(report, b.0, b.1, b.2), a.0, a.1, a.2),
{
    let ab = outcome_recorded(outcome_recorded(report, a.0, a.1, a.2), b.0, b.1, b.2);
    let ba = outcome_recorded(outcome_recorded(report, b.0, b.1, b.2), a.0, a.1, a.2);
    assert(ab.entries =~= ba.entries);
}

/// The addresses of a catalog are those of its relays, in their order.
pub proof fn law_catalog_addresses(relays: Seq<model::RelayView>, i: int)
    ensures
        catalog_urls(relays).len() == relays.len(),
        0 <= i < relays.len() ==> catalog_urls(relays)[i] == relays[i].url.href,
{
}

/// A probe that succeeded is recorded with its time, its round trip and what its document
/// says, and clears the failures; one that did not is counted, with its error, and leaves
/// what was known of the relay. No other entry changes.
pub proof fn law_outcomes_are_recorded(
    report: model::HealthReportView,
    url: Seq<char>,
    outcome: Result<ProbeSuccess, String>,
    now: Timestamp,
    other: Seq<char>,
)
    ensures
        outcome_recorded(report, url, outcome, now).entry(url) is Some,
        ({
            let before = report.entry_or_unprobed(url);
            let after = outcome_recorded(report, url, outcome, now).entry(url)->0;
            &&& after.last_checked == Some(now)
            &&& outcome matches Ok(success) ==> {
                &&& after.consecutive_failures == 0
                &&& after.last_success == Some(now)
                &&& after.rtt_ms == Some(success.rtt_ms)
                &&& after.last_error is None
                &&& success.nip11 matches Some(document) ==> {
                    &&& after.supported_nips is Some <==> document.supported_nips is Some
                    &&& document.supported_nips matches Some(list) ==> after.supported_nips == Some(
                        list@,
                    )
                    &&& after.nip11_software is Some <==> document.software is Some
                    &&& document.software matches Some(t) ==> after.nip11_software == Some(t@)
                    &&& after.nip11_version is Some <==> document.version is Some
                    &&& document.version matches Some(t) ==> after.nip11_version == Some(t@)
                }
            }
            &&& outcome matches Err(error) ==> {
                &&& after.consecutive_failures == if before.consecutive_failures < 4_294_967_295 {
                    before.consecutive_failures + 1
                } else {
                    4_294_967_295
                }
                &&& after.last_success == before.last_success
                &&& after.rtt_ms is None
                &&& after.last_error is Some
                &&& error@.len() <= 200 ==> after.last_error->0 == error@
                &&& error@.len() > 200 ==> after.last_error->0 == error@.take(200).push('…')
            }
            &&& outcome is Err || outcome->Ok_0.nip11 is None ==> {
                &&& after.supported_nips == before.supported_nips
                &&& after.nip11_software == before.nip11_software
                &&& after.nip11_version == before.nip11_version
            }
        }),
        other != url ==> outcome_recorded(report, url, outcome, now).entry(other) == report.entry(
            other,
        ),
        outcome_recorded(report, url, outcome, now).last_run == report.last_run,
{
}

/// The end of a run is noted, and the entries stay.
pub proof fn law_runs_are_stamped(report: model::HealthReportView, now: Timestamp)
    ensures
        stamped(report, now).last_run == Some(now),
        stamped(report, now).entries == report.entries,
{
}

/// A run probes all relays, or the first of them up to its limit.
pub proof fn law_runs_keep_to_their_limit(total: usize, limit: Option<usize>, count: usize)
    requires
        call_ensures(target_count, (total, limit), count),
    ensures
        count <= total,
        limit matches Some(n) ==> count <= n,
        count == total || limit == Some(count),
{
}

/// A run gives its probes the whole timeout, and their document requests eight seconds of it
/// at most.
pub proof fn law_run_configurations(timeout: Duration, config: ProbeConfig)
    requires
        call_ensures(run_config, (timeout,), config),
    ensures
        config.timeout == timeout,
        config.http_timeout.total_nanos() <= timeout.total_nanos(),
        config.http_timeout.total_nanos() <= 8_000_000_000,
        config.http_timeout.total_nanos() == timeout.total_nanos()
            || config.http_timeout.total_nanos() == 8_000_000_000,
{
}

} // verus!
