//! The JSON documents of the older catalog layouts, before they are spelled
//! out:
//!
//! * the full dataset including curator metadata and the latest health status
//!   per relay,
//! * the flat list of relay URLs (the most lightweight consumer format),
//! * the relay URLs grouped by collection id.

use vstd::prelude::*;

use crate::anr::model;
use crate::anr::model::{Dataset, Relay};
use crate::model::Collection;
use crate::text;
use crate::text_map::TextMap;
use crate::timestamp::Timestamp;

verus! {

/// A health entry that tells whether its relay is usable.
pub trait Liveness {
    spec fn alive(&self) -> bool;

    fn is_alive(&self) -> (alive: bool)
        ensures
            alive == self.alive(),
    ;
}

impl Liveness for model::HealthEntry {
    open spec fn alive(&self) -> bool {
        self@.online()
    }

    fn is_alive(&self) -> (alive: bool) {
        self.is_online()
    }
}

impl Liveness for crate::relays::model::HealthEntry {
    open spec fn alive(&self) -> bool {
        self@.online()
    }

    fn is_alive(&self) -> (alive: bool) {
        self.is_online()
    }
}

/// Content of the full dataset artefact.
#[derive(Debug)]
pub struct FullDocument<'a, E> {
    pub schema_version: &'a str,
    pub generated_at: Timestamp,
    pub total: usize,
    pub healthy: usize,
    pub collections: &'a Vec<Collection>,
    pub relays: Vec<RelayView<'a, E>>,
}

/// A relay with its latest health status, where it has one.
#[derive(Debug)]
pub struct RelayView<'a, E> {
    pub relay: &'a Relay,
    pub status: Option<&'a E>,
}

/// Content of the flat URL-list artefact.
#[derive(Debug)]
pub struct FlatDocument<'a> {
    pub generated_at: Timestamp,
    pub total: usize,
    pub urls: Vec<&'a str>,
}

/// Content of the per-collection index artefact.
#[derive(Debug)]
pub struct CollectionsDocument<'a> {
    pub generated_at: Timestamp,
    pub collections: Vec<CollectionView<'a>>,
}

/// A collection with the addresses of its relays.
#[derive(Debug)]
pub struct CollectionView<'a> {
    pub id: &'a str,
    pub name: &'a str,
    pub description: &'a str,
    pub relays: Vec<&'a str>,
}

// ---- content --------------------------------------------------------------

/// The characters of each borrowed text.
pub open spec fn str_texts(list: Seq<&str>) -> Seq<Seq<char>> {
    list.map_values(|t: &str| t@)
}

/// The address of a relay as a key.
pub open spec fn href_of(relay: Relay) -> Seq<char> {
    relay@.url.href
}

/// The relay has a health entry that calls it usable.
pub open spec fn is_live<E: Liveness>(relay: Relay, entries: Map<Seq<char>, E>) -> bool {
    entries.contains_key(href_of(relay)) && entries[href_of(relay)].alive()
}

/// How many of the first `n` relays are usable.
pub open spec fn live_count<E: Liveness>(
    relays: Seq<Relay>,
    entries: Map<Seq<char>, E>,
    n: int,
) -> nat
    decreases n,
{
    if n <= 0 {
        0
    } else {
        live_count(relays, entries, n - 1) + if is_live(relays[n - 1], entries) {
            1nat
        } else {
            0nat
        }
    }
}

/// `status` is the health entry of the relay.
pub open spec fn is_status_of<E>(
    status: Option<&E>,
    relay: Relay,
    entries: Map<Seq<char>, E>,
) -> bool {
    match status {
        Some(entry) => entries.contains_key(href_of(relay)) && entries[href_of(relay)] == *entry,
        None => !entries.contains_key(href_of(relay)),
    }
}

/// The addresses of the first `n` relays that list the collection `id`, in
/// order.
pub open spec fn members_among(
    relays: Seq<model::RelayView>,
    id: Seq<char>,
    n: int,
) -> Seq<Seq<char>>
    decreases n,
{
    if n <= 0 {
        Seq::empty()
    } else if relays[n - 1].collections.contains(id) {
        members_among(relays, id, n - 1).push(relays[n - 1].url.href)
    } else {
        members_among(relays, id, n - 1)
    }
}

/// The addresses of the relays that list the collection `id`, in order.
pub open spec fn members(relays: Seq<model::RelayView>, id: Seq<char>) -> Seq<Seq<char>> {
    members_among(relays, id, relays.len() as int)
}

/// `document` presents the full dataset with the health entries, stamped
/// `generated_at`.
pub open spec fn presents_all<E: Liveness>(
    document: FullDocument<E>,
    dataset: Dataset,
    entries: Map<Seq<char>, E>,
    generated_at: Timestamp,
) -> bool {
    &&& document.schema_version@ == dataset@.schema_version
    &&& document.generated_at == generated_at
    &&& document.total == dataset.relays@.len()
    &&& document.healthy == live_count(dataset.relays@, entries, dataset.relays@.len() as int)
    &&& *document.collections == dataset.collections
    &&& document.relays@.len() == dataset.relays@.len()
    &&& forall|i: int|
        0 <= i < document.relays@.len() ==> *(#[trigger] document.relays@[i]).relay
            == dataset.relays@[i] && is_status_of(
            document.relays@[i].status,
            dataset.relays@[i],
            entries,
        )
}

/// `document` lists the addresses of the dataset, stamped `generated_at`.
pub open spec fn presents_urls(
    document: FlatDocument,
    dataset: Dataset,
    generated_at: Timestamp,
) -> bool {
    &&& document.generated_at == generated_at
    &&& document.total == dataset.relays@.len()
    &&& str_texts(document.urls@) == dataset@.relays.map_values(|r: model::RelayView| r.url.href)
}

/// `document` lists the collections of the dataset with their members, stamped
/// `generated_at`.
pub open spec fn presents_collections(
    document: CollectionsDocument,
    dataset: Dataset,
    generated_at: Timestamp,
) -> bool {
    &&& document.generated_at == generated_at
    &&& document.collections@.len() == dataset.collections@.len()
    &&& forall|i: int|
        0 <= i < document.collections@.len() ==> presents_collection(
            #[trigger] document.collections@[i],
            dataset,
            i,
        )
}

/// `view` lists the `i`th collection of the dataset with its members.
pub open spec fn presents_collection(view: CollectionView, dataset: Dataset, i: int) -> bool {
    let collection = dataset.collections@[i]@;
    &&& view.id@ == collection.id
    &&& view.name@ == collection.name
    &&& view.description@ == collection.description
    &&& str_texts(view.relays@) == members(dataset@.relays, collection.id)
}

// ---- building -------------------------------------------------------------

/// The full dataset with the latest health status per relay.
pub fn full_document<'a, E: Liveness>(
    dataset: &'a Dataset,
    entries: &'a TextMap<E>,
    generated_at: Timestamp,
) -> (document: FullDocument<'a, E>)
    ensures
        presents_all(document, *dataset, entries@, generated_at),
{
    let mut healthy: usize = 0;
    let mut relays: Vec<RelayView<'a, E>> = Vec::new();
    let total: usize = dataset.relays.len();
    let mut i: usize = 0;
    while i < total
        invariant
            i <= total,
            total == dataset.relays@.len(),
            healthy <= i,
            healthy == live_count(dataset.relays@, entries@, i as int),
            relays@.len() == i,
            forall|j: int|
                0 <= j < i ==> *(#[trigger] relays@[j]).relay == dataset.relays@[j]
                    && is_status_of(relays@[j].status, dataset.relays@[j], entries@),
        decreases total - i,
    {
        let relay = &dataset.relays[i];
        let status = entries.get(relay.url.as_str());
        if let Some(entry) = status {
            if entry.is_alive() {
                healthy = healthy.saturating_add(1);
            }
        }
        relays.push(RelayView { relay, status });
        i += 1;
    }
    FullDocument {
        schema_version: dataset.schema_version.as_str(),
        generated_at,
        total,
        healthy,
        collections: &dataset.collections,
        relays,
    }
}

/// The flat list of relay URLs.
pub fn flat_document<'a>(dataset: &'a Dataset, generated_at: Timestamp) -> (document: FlatDocument<
    'a,
>)
    ensures
        presents_urls(document, *dataset, generated_at),
{
    let mut urls: Vec<&'a str> = Vec::new();
    let mut i: usize = 0;
    while i < dataset.relays.len()
        invariant
            i <= dataset.relays@.len(),
            urls@.len() == i,
            forall|j: int| 0 <= j < i ==> (#[trigger] urls@[j])@ == dataset.relays@[j]@.url.href,
        decreases dataset.relays@.len() - i,
    {
        urls.push(dataset.relays[i].url.as_str());
        i += 1;
    }
    assert(str_texts(urls@) =~= dataset@.relays.map_values(|r: model::RelayView| r.url.href));
    FlatDocument { generated_at, total: dataset.relays.len(), urls }
}

fn member_urls<'a>(dataset: &'a Dataset, id: &str) -> (urls: Vec<&'a str>)
    ensures
        str_texts(urls@) == members(dataset@.relays, id@),
{
    let ghost model = dataset@.relays;
    let mut urls: Vec<&'a str> = Vec::new();
    let mut i: usize = 0;
    assert(str_texts(urls@) =~= members_among(model, id@, 0));
    while i < dataset.relays.len()
        invariant
            i <= dataset.relays@.len(),
            model == dataset@.relays,
            str_texts(urls@) == members_among(model, id@, i as int),
        decreases dataset.relays@.len() - i,
    {
        let relay = &dataset.relays[i];
        let ghost before = urls@;
        assert(model[i as int] == relay@);
        if text::list_contains(&relay.collections, id) {
            urls.push(relay.url.as_str());
            assert(str_texts(urls@) =~= str_texts(before).push(relay@.url.href));
        }
        i += 1;
    }
    urls
}

/// The relay URLs grouped by collection id.
pub fn collections_document<'a>(dataset: &'a Dataset, generated_at: Timestamp) -> (document:
    CollectionsDocument<'a>)
    ensures
        presents_collections(document, *dataset, generated_at),
{
    let mut collections: Vec<CollectionView<'a>> = Vec::new();
    let mut i: usize = 0;
    while i < dataset.collections.len()
        invariant
            i <= dataset.collections@.len(),
            collections@.len() == i,
            forall|j: int|
                0 <= j < i ==> presents_collection(#[trigger] collections@[j], *dataset, j),
        decreases dataset.collections@.len() - i,
    {
        let collection = &dataset.collections[i];
        collections.push(
            CollectionView {
                id: collection.id.as_str(),
                name: collection.name.as_str(),
                description: collection.description.as_str(),
                relays: member_urls(dataset, collection.id.as_str()),
            },
        );
        i += 1;
    }
    CollectionsDocument { generated_at, collections }
}

// ---- laws -----------------------------------------------------------------

/// Two full documents of the same data differ in nothing but the stamp.
pub proof fn law_full_documents_differ_in_the_stamp<E: Liveness>(
    a: FullDocument<E>,
    b: FullDocument<E>,
    dataset: Dataset,
    entries: Map<Seq<char>, E>,
    earlier: Timestamp,
    later: Timestamp,
)
    requires
        presents_all(a, dataset, entries, earlier),
        presents_all(b, dataset, entries, later),
    ensures
        a.schema_version@ == b.schema_version@,
        a.total == b.total,
        a.healthy == b.healthy,
        *a.collections == *b.collections,
        a.relays@ == b.relays@,
        a.generated_at == earlier,
        b.generated_at == later,
{
    assert forall|i: int| 0 <= i < a.relays@.len() implies a.relays@[i] == b.relays@[i] by {
        assert(a.relays@[i].relay == b.relays@[i].relay);
        assert(a.relays@[i].status == b.relays@[i].status);
    }
    assert(a.relays@ =~= b.relays@);
}

/// Two flat lists of the same data differ in nothing but the stamp.
pub proof fn law_flat_documents_differ_in_the_stamp(
    a: FlatDocument,
    b: FlatDocument,
    dataset: Dataset,
    earlier: Timestamp,
    later: Timestamp,
)
    requires
        presents_urls(a, dataset, earlier),
        presents_urls(b, dataset, later),
    ensures
        a.total == b.total,
        str_texts(a.urls@) == str_texts(b.urls@),
        a.generated_at == earlier,
        b.generated_at == later,
{
}

/// Two indexes of the same data differ in nothing but the stamp.
pub proof fn law_collections_documents_differ_in_the_stamp(
    a: CollectionsDocument,
    b: CollectionsDocument,
    dataset: Dataset,
    earlier: Timestamp,
    later: Timestamp,
)
    requires
        presents_collections(a, dataset, earlier),
        presents_collections(b, dataset, later),
    ensures
        a.collections@.len() == b.collections@.len(),
        forall|i: int|
            0 <= i < a.collections@.len() ==> {
                let x = #[trigger] a.collections@[i];
                let y = b.collections@[i];
                &&& x.id@ == y.id@
                &&& x.name@ == y.name@
                &&& x.description@ == y.description@
                &&& str_texts(x.relays@) == str_texts(y.relays@)
            },
        a.generated_at == earlier,
        b.generated_at == later,
{
    assert forall|i: int| 0 <= i < a.collections@.len() implies {
        let x = #[trigger] a.collections@[i];
        let y = b.collections@[i];
        &&& x.id@ == y.id@
        &&& x.name@ == y.name@
        &&& x.description@ == y.description@
        &&& str_texts(x.relays@) == str_texts(y.relays@)
    } by {
        assert(presents_collection(a.collections@[i], dataset, i));
        assert(presents_collection(b.collections@[i], dataset, i));
    }
}

/// No more relays are healthy than there are, and every relay counts once.
pub proof fn law_healthy_within_total<E: Liveness>(
    relays: Seq<Relay>,
    entries: Map<Seq<char>, E>,
    n: int,
)
    requires
        0 <= n <= relays.len(),
    ensures
        live_count(relays, entries, n) <= n,
        live_count(relays, entries, n) == n <==> (forall|i: int|
            0 <= i < n ==> is_live(#[trigger] relays[i], entries)),
    decreases n,
{
    if n > 0 {
        law_healthy_within_total(relays, entries, n - 1);
    }
}

/// The index of a collection holds an address exactly when a relay with that
/// address lists the collection.
pub proof fn law_index_holds_the_members(
    relays: Seq<model::RelayView>,
    id: Seq<char>,
    href: Seq<char>,
)
    ensures
        members(relays, id).contains(href) <==> (exists|i: int|
            0 <= i < relays.len() && (#[trigger] relays[i]).url.href == href
                && relays[i].collections.contains(id)),
{
    lemma_members(relays, id, href, relays.len() as int);
}

proof fn lemma_members(
    relays: Seq<model::RelayView>,
    id: Seq<char>,
    href: Seq<char>,
    n: int,
)
    requires
        0 <= n <= relays.len(),
    ensures
        members_among(relays, id, n).contains(href) <==> (exists|i: int|
            0 <= i < n && (#[trigger] relays[i]).url.href == href && relays[i].collections.contains(
                id,
            )),
    decreases n,
{
    if n > 0 {
        lemma_members(relays, id, href, n - 1);
        let prefix = members_among(relays, id, n - 1);
        let last = relays[n - 1];
        if last.collections.contains(id) {
            let all = prefix.push(last.url.href);
            if all.contains(href) {
                let j = all.index_of(href);
                if j < prefix.len() {
                    assert(prefix[j] == href);
                }
            }
            if prefix.contains(href) {
                let j = prefix.index_of(href);
                assert(all[j] == href);
            }
            assert(all[prefix.len() as int] == last.url.href);
        }
    }
}

/// The index of a collection is as long as validation counts relays for it.
pub proof fn law_index_agrees_with_summary(
    relays: Seq<model::RelayView>,
    entries: Seq<crate::validate::EntryFacts>,
    id: Seq<char>,
)
    requires
        relays.len() == entries.len(),
        forall|i: int| 0 <= i < relays.len() ==> (#[trigger] entries[i]).collections
            == relays[i].collections,
    ensures
        members(relays, id).len() == crate::validate::relays_listing(entries, id),
{
    lemma_index_length(relays, entries, id, relays.len() as int);
    assert(entries.take(entries.len() as int) =~= entries);
}

proof fn lemma_index_length(
    relays: Seq<model::RelayView>,
    entries: Seq<crate::validate::EntryFacts>,
    id: Seq<char>,
    n: int,
)
    requires
        0 <= n <= relays.len(),
        relays.len() == entries.len(),
        forall|i: int| 0 <= i < relays.len() ==> (#[trigger] entries[i]).collections
            == relays[i].collections,
    ensures
        members_among(relays, id, n).len() == crate::validate::relays_listing(entries.take(n), id),
    decreases n,
{
    if n > 0 {
        lemma_index_length(relays, entries, id, n - 1);
        assert(entries.take(n).drop_last() =~= entries.take(n - 1));
        assert(entries.take(n).last() == entries[n - 1]);
    }
}

/// One more relay at the end raises the count of healthy ones by exactly one where it
/// has a health entry that calls it usable, and leaves it otherwise, whatever came
/// before.
pub proof fn law_healthy_relays_are_counted<E: Liveness>(
    relays: Seq<Relay>,
    relay: Relay,
    entries: Map<Seq<char>, E>,
)
    ensures
        live_count(relays.push(relay), entries, (relays.len() + 1) as int) == live_count(
            relays,
            entries,
            relays.len() as int,
        ) + if entries.contains_key(relay.url@.href) && entries[relay.url@.href].alive() {
            1int
        } else {
            0int
        },
        live_count(relays, entries, 0) == 0,
{
    lemma_live_prefix(relays, relay, entries, relays.len() as int);
}

proof fn lemma_live_prefix<E: Liveness>(
    relays: Seq<Relay>,
    relay: Relay,
    entries: Map<Seq<char>, E>,
    n: int,
)
    requires
        0 <= n <= relays.len(),
    ensures
        live_count(relays.push(relay), entries, n) == live_count(relays, entries, n),
    decreases n,
{
    if n > 0 {
        lemma_live_prefix(relays, relay, entries, n - 1);
    }
}

/// The places of the relays, among the first `n`, that have a health entry which calls
/// them usable.
pub open spec fn live_places<E: Liveness>(
    relays: Seq<Relay>,
    entries: Map<Seq<char>, E>,
    n: int,
) -> Set<int> {
    Set::new(
        |i: int|
            0 <= i < n && entries.contains_key(relays[i].url@.href)
                && entries[relays[i].url@.href].alive(),
    )
}

/// The count of healthy relays is the number of their places.
pub proof fn law_healthy_count_is_the_number_of_places<E: Liveness>(
    relays: Seq<Relay>,
    entries: Map<Seq<char>, E>,
    n: int,
)
    requires
        0 <= n <= relays.len(),
    ensures
        live_places(relays, entries, n).finite(),
        live_count(relays, entries, n) == live_places(relays, entries, n).len(),
    decreases n,
{
    let places = live_places(relays, entries, n);
    if n == 0 {
        assert(places =~= Set::<int>::empty());
    } else {
        law_healthy_count_is_the_number_of_places(relays, entries, n - 1);
        let before = live_places(relays, entries, n - 1);
        let last = relays[n - 1];
        if entries.contains_key(last.url@.href) && entries[last.url@.href].alive() {
            assert(places =~= before.insert(n - 1));
        } else {
            assert(places =~= before);
        }
    }
}

/// An entry of either layout calls its relay usable exactly when a probe has succeeded
/// and no failure is counted.
pub proof fn law_usable_entries(
    first: model::HealthEntry,
    second: crate::relays::model::HealthEntry,
)
    ensures
        first.alive() <==> first.consecutive_failures == 0 && first.last_success is Some,
        second.alive() <==> second.consecutive_failures == 0 && second.last_success is Some,
{
}

/// A full document states the version of the dataset, its time, all collections and all
/// relays in their order, each with the health entry under its address, and how many
/// there are.
pub proof fn law_full_documents_hold_the_dataset<E: Liveness>(
    document: FullDocument<E>,
    dataset: Dataset,
    entries: Map<Seq<char>, E>,
    generated_at: Timestamp,
    i: int,
)
    requires
        presents_all(document, dataset, entries, generated_at),
        0 <= i < dataset.relays@.len(),
    ensures
        document.schema_version@ == dataset.schema_version@,
        document.generated_at == generated_at,
        document.total == dataset.relays@.len(),
        document.healthy == live_places(
            dataset.relays@,
            entries,
            dataset.relays@.len() as int,
        ).len(),
        *document.collections == dataset.collections,
        document.relays@.len() == dataset.relays@.len(),
        *document.relays@[i].relay == dataset.relays@[i],
        document.relays@[i].status is Some <==> entries.contains_key(
            dataset.relays@[i].url@.href,
        ),
        document.relays@[i].status is Some ==> *(document.relays@[i].status->0)
            == entries[dataset.relays@[i].url@.href],
{
    law_healthy_count_is_the_number_of_places(
        dataset.relays@,
        entries,
        dataset.relays@.len() as int,
    );
}

/// A flat list holds the address of every relay, in their order, and how many there are.
pub proof fn law_flat_documents_hold_the_addresses(
    document: FlatDocument,
    dataset: Dataset,
    generated_at: Timestamp,
    i: int,
)
    requires
        presents_urls(document, dataset, generated_at),
        0 <= i < dataset.relays@.len(),
    ensures
        document.generated_at == generated_at,
        document.total == dataset.relays@.len(),
        document.urls@.len() == dataset.relays@.len(),
        document.urls@[i]@ == dataset.relays@[i].url@.href,
{
    let urls = dataset@.relays.map_values(|r: model::RelayView| r.url.href);
    assert(str_texts(document.urls@).len() == urls.len());
    assert(str_texts(document.urls@)[i] == urls[i]);
}

/// An index holds every collection in its order, with its names and description, and
/// under it exactly the addresses of the relays that list it.
pub proof fn law_indexes_hold_the_collections(
    document: CollectionsDocument,
    dataset: Dataset,
    generated_at: Timestamp,
    i: int,
    href: Seq<char>,
)
    requires
        presents_collections(document, dataset, generated_at),
        0 <= i < dataset.collections@.len(),
    ensures
        document.generated_at == generated_at,
        document.collections@.len() == dataset.collections@.len(),
        document.collections@[i].id@ == dataset.collections@[i].id@,
        document.collections@[i].name@ == dataset.collections@[i].name@,
        document.collections@[i].description@ == dataset.collections@[i].description@,
        (exists|k: int|
            0 <= k < document.collections@[i].relays@.len()
                && #[trigger] document.collections@[i].relays@[k]@ == href) <==> (exists|k: int|
            0 <= k < dataset.relays@.len() && (#[trigger] dataset.relays@[k]).url@.href == href
                && dataset.relays@[k]@.collections.contains(dataset.collections@[i].id@)),
{
    let view = document.collections@[i];
    assert(presents_collection(view, dataset, i));
    let id = dataset.collections@[i].id@;
    let all = members(dataset@.relays, id);
    law_index_holds_the_members(dataset@.relays, id, href);
    assert(str_texts(view.relays@) == all);
    if exists|k: int| 0 <= k < view.relays@.len() && #[trigger] view.relays@[k]@ == href {
        let k = choose|k: int| 0 <= k < view.relays@.len() && #[trigger] view.relays@[k]@ == href;
        assert(str_texts(view.relays@)[k] == href);
        assert(all.contains(href));
        let j = choose|j: int|
            0 <= j < dataset@.relays.len() && (#[trigger] dataset@.relays[j]).url.href == href
                && dataset@.relays[j].collections.contains(id);
        assert(dataset.relays@[j].url@.href == href);
    }
    if exists|k: int|
        0 <= k < dataset.relays@.len() && (#[trigger] dataset.relays@[k]).url@.href == href
            && dataset.relays@[k]@.collections.contains(id) {
        let k = choose|k: int|
            0 <= k < dataset.relays@.len() && (#[trigger] dataset.relays@[k]).url@.href == href
                && dataset.relays@[k]@.collections.contains(id);
        assert(dataset@.relays[k] == dataset.relays@[k]@);
        assert(all.contains(href));
        let j = all.index_of(href);
        assert(str_texts(view.relays@)[j] == href);
        assert(view.relays@[j]@ == href);
    }
}

/// One more relay at the end of the catalog adds its address at the end of the index of
/// each collection that it lists, and nowhere else.
pub proof fn law_indexes_grow_with_the_catalog(
    relays: Seq<model::RelayView>,
    relay: model::RelayView,
    id: Seq<char>,
)
    ensures
        members(Seq::<model::RelayView>::empty(), id).len() == 0,
        relay.collections.contains(id) ==> members(relays.push(relay), id) == members(
            relays,
            id,
        ).push(relay.url.href),
        !relay.collections.contains(id) ==> members(relays.push(relay), id) == members(relays, id),
{
    lemma_members_prefix(relays, relay, id, relays.len() as int);
}

proof fn lemma_members_prefix(
    relays: Seq<model::RelayView>,
    relay: model::RelayView,
    id: Seq<char>,
    n: int,
)
    requires
        0 <= n <= relays.len(),
    ensures
        members_among(relays.push(relay), id, n) == members_among(relays, id, n),
    decreases n,
{
    if n > 0 {
        lemma_members_prefix(relays, relay, id, n - 1);
    }
}

} // verus!
