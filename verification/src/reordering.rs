//! The order of a catalog does not matter to its validation.
//!
//! Relays, collections and the list of each relay can be moved around: whether
//! the catalog is accepted, its summary and the number of its violations stay.

use vstd::prelude::*;

use crate::model;
use crate::validate;
use crate::validate::{Rules, ValidationError, ValidationSummary};

verus! {

/// Both lists hold the same items, each as often.
pub open spec fn same_items<T>(a: Seq<T>, b: Seq<T>) -> bool {
    a.to_multiset() == b.to_multiset()
}

/// The entries differ at most in the order of their collections.
pub open spec fn relisted(a: validate::EntryFacts, b: validate::EntryFacts) -> bool {
    &&& a.url == b.url
    &&& a.country == b.country
    &&& a.geohash == b.geohash
    &&& same_items(a.collections, b.collections)
}

/// Each entry of `a` matches the one of `b` at its place but for the order of
/// its collections.
pub open spec fn relisted_each(
    a: Seq<validate::EntryFacts>,
    b: Seq<validate::EntryFacts>,
) -> bool {
    a.len() == b.len() && forall|i: int| 0 <= i < a.len() ==> relisted(#[trigger] a[i], b[i])
}

/// `b` holds the entries of `a`, themselves and their collections in any order.
pub open spec fn reordered(a: Seq<validate::EntryFacts>, b: Seq<validate::EntryFacts>) -> bool {
    exists|middle: Seq<validate::EntryFacts>| #[trigger]
        relisted_each(a, middle) && same_items(middle, b)
}

// ---- sums -----------------------------------------------------------------

/// The sum of `f` over a list.
spec fn total<T>(s: Seq<T>, f: spec_fn(T) -> nat) -> nat
    decreases s.len(),
{
    if s.len() == 0 {
        0
    } else {
        total(s.drop_last(), f) + f(s.last())
    }
}

spec fn one_if(holds: bool) -> nat {
    if holds {
        1
    } else {
        0
    }
}

proof fn lemma_total_remove<T>(s: Seq<T>, i: int, f: spec_fn(T) -> nat)
    requires
        0 <= i < s.len(),
    ensures
        total(s, f) == total(s.remove(i), f) + f(s[i]),
    decreases s.len(),
{
    if i == s.len() - 1 {
        assert(s.remove(i) =~= s.drop_last());
    } else {
        lemma_total_remove(s.drop_last(), i, f);
        assert(s.remove(i).drop_last() =~= s.drop_last().remove(i));
        assert(s.remove(i).last() == s.last());
    }
}

proof fn lemma_total_same_items<T>(a: Seq<T>, b: Seq<T>, f: spec_fn(T) -> nat)
    requires
        same_items(a, b),
    ensures
        total(a, f) == total(b, f),
        a.len() == b.len(),
    decreases a.len(),
{
    broadcast use vstd::seq_lib::group_to_multiset_ensures;

    assert(a.to_multiset().len() == a.len());
    assert(b.to_multiset().len() == b.len());
    if a.len() > 0 {
        let x = a.last();
        assert(a.contains(x));
        assert(b.to_multiset().count(x) > 0);
        assert(b.contains(x));
        let i = b.index_of(x);
        assert(a.drop_last() =~= a.remove(a.len() - 1));
        assert(same_items(a.drop_last(), b.remove(i)));
        lemma_total_same_items(a.drop_last(), b.remove(i), f);
        lemma_total_remove(b, i, f);
    }
}

proof fn lemma_total_pointwise<S, T>(
    a: Seq<S>,
    b: Seq<T>,
    f: spec_fn(S) -> nat,
    g: spec_fn(T) -> nat,
)
    requires
        a.len() == b.len(),
        forall|i: int| 0 <= i < a.len() ==> f(#[trigger] a[i]) == g(b[i]),
    ensures
        total(a, f) == total(b, g),
    decreases a.len(),
{
    if a.len() > 0 {
        assert forall|i: int| 0 <= i < a.drop_last().len() implies f(#[trigger] a.drop_last()[i])
            == g(b.drop_last()[i]) by {
            assert(f(a[i]) == g(b[i]));
        }
        lemma_total_pointwise(a.drop_last(), b.drop_last(), f, g);
        assert(f(a[a.len() - 1]) == g(b[a.len() - 1]));
    }
}

proof fn lemma_same_items_contain<T>(a: Seq<T>, b: Seq<T>, x: T)
    requires
        same_items(a, b),
    ensures
        a.contains(x) == b.contains(x),
{
    broadcast use vstd::seq_lib::group_to_multiset_ensures;

    assert(a.contains(x) <==> a.to_multiset().count(x) > 0);
    assert(b.contains(x) <==> b.to_multiset().count(x) > 0);
}

// ---- repetitions ----------------------------------------------------------

/// How many of the first `n` texts that count occur before their place too.
spec fn repeats(list: Seq<Seq<char>>, counts: spec_fn(Seq<char>) -> bool, n: int) -> nat
    decreases n,
{
    if n <= 0 {
        0
    } else {
        repeats(list, counts, n - 1) + one_if(
            counts(list[n - 1]) && validate::repeated(list, n - 1),
        )
    }
}

/// Of the texts that count, those that are no repetitions are as many as there
/// are different ones.
proof fn lemma_repeats(list: Seq<Seq<char>>, counts: spec_fn(Seq<char>) -> bool, n: int)
    requires
        0 <= n <= list.len(),
    ensures
        list.take(n).to_set().filter(counts).finite(),
        repeats(list, counts, n) + list.take(n).to_set().filter(counts).len() == total(
            list.take(n),
            |x: Seq<char>| one_if(counts(x)),
        ),
    decreases n,
{
    let tally = |x: Seq<char>| one_if(counts(x));
    let now = list.take(n).to_set().filter(counts);
    if n == 0 {
        assert(now =~= Set::<Seq<char>>::empty());
    } else {
        lemma_repeats(list, counts, n - 1);
        let prefix = list.take(n - 1);
        let x = list[n - 1];
        let before = prefix.to_set().filter(counts);
        assert(list.take(n) =~= prefix.push(x));
        assert(list.take(n).drop_last() =~= prefix);
        assert(list.take(n).last() == x);
        assert forall|k: Seq<char>| list.take(n).contains(k) <==> prefix.contains(k) || k == x by {
            if list.take(n).contains(k) {
                let j = list.take(n).index_of(k);
                assert(j < n - 1 ==> prefix[j] == k);
            }
            if prefix.contains(k) {
                let j = prefix.index_of(k);
                assert(list.take(n)[j] == k);
            }
            assert(list.take(n)[n - 1] == x);
        }
        assert(validate::repeated(list, n - 1) == prefix.contains(x)) by {
            if validate::repeated(list, n - 1) {
                let j = choose|j: int| 0 <= j < n - 1 && #[trigger] list[j] == list[n - 1];
                assert(prefix[j] == x);
            }
            if prefix.contains(x) {
                let j = prefix.index_of(x);
                assert(list[j] == list[n - 1]);
            }
        }
        if counts(x) {
            assert(now =~= before.insert(x));
        } else {
            assert(now =~= before);
        }
        assert(tally(x) == one_if(counts(x)));
    }
}

proof fn lemma_repeats_order_free(
    a: Seq<Seq<char>>,
    b: Seq<Seq<char>>,
    counts: spec_fn(Seq<char>) -> bool,
)
    requires
        forall|x: Seq<char>| #[trigger] a.contains(x) == b.contains(x),
        total(a, |x: Seq<char>| one_if(counts(x))) == total(b, |x: Seq<char>| one_if(counts(x))),
    ensures
        repeats(a, counts, a.len() as int) == repeats(b, counts, b.len() as int),
{
    lemma_repeats(a, counts, a.len() as int);
    lemma_repeats(b, counts, b.len() as int);
    assert(a.take(a.len() as int) =~= a);
    assert(b.take(b.len() as int) =~= b);
    assert forall|x: Seq<char>| a.to_set().contains(x) == b.to_set().contains(x) by {
        assert(a.contains(x) == b.contains(x));
    }
    assert(a.to_set() =~= b.to_set());
}

// ---- collections ----------------------------------------------------------

spec fn own_faults(c: model::CollectionView) -> nat {
    if crate::text::is_blank(c.id) {
        1
    } else {
        one_if(!validate::kebab_case(c.id)) + one_if(crate::text::is_blank(c.name))
    }
}

spec fn spelled(id: Seq<char>) -> bool {
    !crate::text::is_blank(id)
}

proof fn lemma_collections_count(collections: Seq<model::CollectionView>, n: int)
    requires
        0 <= n <= collections.len(),
    ensures
        validate::collections_violations(collections, n).len() == total(
            collections.take(n),
            |c: model::CollectionView| own_faults(c),
        ) + repeats(validate::ids_of(collections), |id: Seq<char>| spelled(id), n),
    decreases n,
{
    if n > 0 {
        lemma_collections_count(collections, n - 1);
        assert(collections.take(n).drop_last() =~= collections.take(n - 1));
        assert(collections.take(n).last() == collections[n - 1]);
        assert(validate::ids_of(collections)[n - 1] == collections[n - 1].id);
    }
}

proof fn lemma_collections_order_free(
    a: Seq<model::CollectionView>,
    b: Seq<model::CollectionView>,
)
    requires
        same_items(a, b),
    ensures
        a.len() == b.len(),
        validate::collections_violations(a, a.len() as int).len()
            == validate::collections_violations(b, b.len() as int).len(),
        validate::declared(a) == validate::declared(b),
{
    let faults = |c: model::CollectionView| own_faults(c);
    let counts = |id: Seq<char>| spelled(id);
    let tally = |id: Seq<char>| one_if(counts(id));
    let tally_of = |c: model::CollectionView| one_if(counts(c.id));
    let ids_a = validate::ids_of(a);
    let ids_b = validate::ids_of(b);
    lemma_total_same_items(a, b, faults);
    lemma_total_same_items(a, b, tally_of);
    lemma_total_pointwise(a, ids_a, tally_of, tally);
    lemma_total_pointwise(b, ids_b, tally_of, tally);
    assert forall|x: Seq<char>| #[trigger] ids_a.contains(x) == ids_b.contains(x) by {
        if ids_a.contains(x) {
            let j = ids_a.index_of(x);
            lemma_same_items_contain(a, b, a[j]);
            let k = b.index_of(a[j]);
            assert(a.contains(a[j]));
            assert(ids_b[k] == x);
        }
        if ids_b.contains(x) {
            let j = ids_b.index_of(x);
            lemma_same_items_contain(a, b, b[j]);
            assert(b.contains(b[j]));
            let k = a.index_of(b[j]);
            assert(ids_a[k] == x);
        }
    }
    lemma_repeats_order_free(ids_a, ids_b, counts);
    lemma_collections_count(a, a.len() as int);
    lemma_collections_count(b, b.len() as int);
    assert(a.take(a.len() as int) =~= a);
    assert(b.take(b.len() as int) =~= b);
    assert(validate::declared(a) =~= validate::declared(b)) by {
        assert forall|x: Seq<char>| validate::declared(a).contains(x) == validate::declared(
            b,
        ).contains(x) by {
            assert(ids_a.contains(x) == ids_b.contains(x));
        }
    }
}

// ---- relays ---------------------------------------------------------------

spec fn any(x: Seq<char>) -> bool {
    true
}

proof fn lemma_references_count(
    href: Seq<char>,
    list: Seq<Seq<char>>,
    known: Set<Seq<char>>,
    n: int,
)
    requires
        0 <= n <= list.len(),
    ensures
        validate::references_violations(href, list, known, n).len() == total(
            list.take(n),
            |x: Seq<char>| one_if(!known.contains(x)),
        ) + repeats(list, |x: Seq<char>| any(x), n),
    decreases n,
{
    if n > 0 {
        lemma_references_count(href, list, known, n - 1);
        assert(list.take(n).drop_last() =~= list.take(n - 1));
        assert(list.take(n).last() == list[n - 1]);
    }
}

proof fn lemma_relisted_count(
    a: validate::EntryFacts,
    b: validate::EntryFacts,
    known: Set<Seq<char>>,
    tor_country: bool,
)
    requires
        relisted(a, b),
    ensures
        validate::relay_violations(a, known, tor_country).len() == validate::relay_violations(
            b,
            known,
            tor_country,
        ).len(),
{
    let x = a.collections;
    let y = b.collections;
    let href = a.url.href;
    let unknown = |id: Seq<char>| one_if(!known.contains(id));
    let counts = |id: Seq<char>| any(id);
    lemma_references_count(href, x, known, x.len() as int);
    lemma_references_count(href, y, known, y.len() as int);
    assert(x.take(x.len() as int) =~= x);
    assert(y.take(y.len() as int) =~= y);
    lemma_total_same_items(x, y, unknown);
    lemma_total_same_items(x, y, |id: Seq<char>| one_if(counts(id)));
    assert forall|id: Seq<char>| #[trigger] x.contains(id) == y.contains(id) by {
        lemma_same_items_contain(x, y, id);
    }
    lemma_repeats_order_free(x, y, counts);
}

proof fn lemma_relays_count(
    entries: Seq<validate::EntryFacts>,
    known: Set<Seq<char>>,
    tor_country: bool,
    n: int,
)
    requires
        0 <= n <= entries.len(),
    ensures
        validate::relays_violations(entries, known, tor_country, n).len() == total(
            entries.take(n),
            |e: validate::EntryFacts| validate::relay_violations(e, known, tor_country).len(),
        ) + repeats(validate::folded_urls(entries), |x: Seq<char>| any(x), n),
    decreases n,
{
    if n > 0 {
        lemma_relays_count(entries, known, tor_country, n - 1);
        assert(entries.take(n).drop_last() =~= entries.take(n - 1));
        assert(entries.take(n).last() == entries[n - 1]);
    }
}

proof fn lemma_listing_is_a_sum(entries: Seq<validate::EntryFacts>, id: Seq<char>)
    ensures
        validate::relays_listing(entries, id) == total(
            entries,
            |e: validate::EntryFacts| one_if(e.collections.contains(id)),
        ),
    decreases entries.len(),
{
    if entries.len() > 0 {
        lemma_listing_is_a_sum(entries.drop_last(), id);
    }
}

proof fn lemma_moved_relays(
    a: Seq<validate::EntryFacts>,
    b: Seq<validate::EntryFacts>,
    known: Set<Seq<char>>,
    tor_country: bool,
)
    requires
        same_items(a, b),
    ensures
        a.len() == b.len(),
        validate::relays_violations(a, known, tor_country, a.len() as int).len()
            == validate::relays_violations(b, known, tor_country, b.len() as int).len(),
        forall|id: Seq<char>| #[trigger]
            validate::relays_listing(a, id) == validate::relays_listing(b, id),
{
    let faults = |e: validate::EntryFacts|
        validate::relay_violations(e, known, tor_country).len();
    let counts = |x: Seq<char>| any(x);
    let tally = |x: Seq<char>| one_if(counts(x));
    let tally_of = |e: validate::EntryFacts| one_if(counts(crate::text::ascii_lower(e.url.href)));
    let urls_a = validate::folded_urls(a);
    let urls_b = validate::folded_urls(b);
    lemma_total_same_items(a, b, faults);
    lemma_total_same_items(a, b, tally_of);
    lemma_total_pointwise(a, urls_a, tally_of, tally);
    lemma_total_pointwise(b, urls_b, tally_of, tally);
    assert forall|x: Seq<char>| #[trigger] urls_a.contains(x) == urls_b.contains(x) by {
        if urls_a.contains(x) {
            let j = urls_a.index_of(x);
            lemma_same_items_contain(a, b, a[j]);
            assert(a.contains(a[j]));
            let k = b.index_of(a[j]);
            assert(urls_b[k] == x);
        }
        if urls_b.contains(x) {
            let j = urls_b.index_of(x);
            lemma_same_items_contain(a, b, b[j]);
            assert(b.contains(b[j]));
            let k = a.index_of(b[j]);
            assert(urls_a[k] == x);
        }
    }
    lemma_repeats_order_free(urls_a, urls_b, counts);
    lemma_relays_count(a, known, tor_country, a.len() as int);
    lemma_relays_count(b, known, tor_country, b.len() as int);
    assert(a.take(a.len() as int) =~= a);
    assert(b.take(b.len() as int) =~= b);
    assert forall|id: Seq<char>| #[trigger]
        validate::relays_listing(a, id) == validate::relays_listing(b, id) by {
        lemma_listing_is_a_sum(a, id);
        lemma_listing_is_a_sum(b, id);
        lemma_total_same_items(
            a,
            b,
            |e: validate::EntryFacts| one_if(e.collections.contains(id)),
        );
    }
}

proof fn lemma_relisted_relays(
    a: Seq<validate::EntryFacts>,
    b: Seq<validate::EntryFacts>,
    known: Set<Seq<char>>,
    tor_country: bool,
)
    requires
        relisted_each(a, b),
    ensures
        validate::relays_violations(a, known, tor_country, a.len() as int).len()
            == validate::relays_violations(b, known, tor_country, b.len() as int).len(),
        forall|id: Seq<char>| #[trigger]
            validate::relays_listing(a, id) == validate::relays_listing(b, id),
{
    let faults = |e: validate::EntryFacts|
        validate::relay_violations(e, known, tor_country).len();
    assert forall|i: int| 0 <= i < a.len() implies faults(#[trigger] a[i]) == faults(b[i]) by {
        lemma_relisted_count(a[i], b[i], known, tor_country);
    }
    lemma_total_pointwise(a, b, faults, faults);
    assert(validate::folded_urls(a) =~= validate::folded_urls(b)) by {
        assert forall|i: int| 0 <= i < a.len() implies validate::folded_urls(a)[i]
            == validate::folded_urls(b)[i] by {
            assert(relisted(a[i], b[i]));
        }
    }
    lemma_relays_count(a, known, tor_country, a.len() as int);
    lemma_relays_count(b, known, tor_country, b.len() as int);
    assert(a.take(a.len() as int) =~= a);
    assert(b.take(b.len() as int) =~= b);
    assert forall|id: Seq<char>| #[trigger]
        validate::relays_listing(a, id) == validate::relays_listing(b, id) by {
        let lists = |e: validate::EntryFacts| one_if(e.collections.contains(id));
        lemma_listing_is_a_sum(a, id);
        lemma_listing_is_a_sum(b, id);
        assert forall|i: int| 0 <= i < a.len() implies lists(#[trigger] a[i]) == lists(b[i]) by {
            assert(relisted(a[i], b[i]));
            lemma_same_items_contain(a[i].collections, b[i].collections, id);
        }
        lemma_total_pointwise(a, b, lists, lists);
    }
}

// ---- the law --------------------------------------------------------------

/// Moving relays, collections or the collections that a relay lists changes
/// neither whether a catalog is accepted, nor its summary, nor how many
/// violations are reported.
pub proof fn law_order_does_not_matter(
    schema_version: Seq<char>,
    collections: Seq<model::CollectionView>,
    moved_collections: Seq<model::CollectionView>,
    entries: Seq<validate::EntryFacts>,
    moved_entries: Seq<validate::EntryFacts>,
    rules: Rules,
    result: Result<ValidationSummary, ValidationError>,
    moved_result: Result<ValidationSummary, ValidationError>,
)
    requires
        same_items(collections, moved_collections),
        reordered(entries, moved_entries),
        validate::verdict(result, schema_version, collections, entries, rules),
        validate::verdict(moved_result, schema_version, moved_collections, moved_entries, rules),
    ensures
        result is Ok <==> moved_result is Ok,
        validate::violations(schema_version, collections, entries, rules).len()
            == validate::violations(
            schema_version,
            moved_collections,
            moved_entries,
            rules,
        ).len(),
        match (result, moved_result) {
            (Ok(a), Ok(b)) => {
                &&& a.relay_count == b.relay_count
                &&& a.collection_count == b.collection_count
                &&& a.relays_per_collection@ == b.relays_per_collection@
            },
            (
                Err(ValidationError::Failed { count: a, .. }),
                Err(ValidationError::Failed { count: b, .. }),
            ) => a == b,
            _ => false,
        },
{
    let known = validate::declared(collections);
    let middle = choose|middle: Seq<validate::EntryFacts>| #[trigger]
        relisted_each(entries, middle) && same_items(middle, moved_entries);
    lemma_collections_order_free(collections, moved_collections);
    lemma_relisted_relays(entries, middle, known, rules.tor_country);
    lemma_moved_relays(middle, moved_entries, known, rules.tor_country);
    if let (Ok(a), Ok(b)) = (result, moved_result) {
        assert forall|id: Seq<char>|
            a.relays_per_collection@.contains_key(id) == b.relays_per_collection@.contains_key(id)
                && (a.relays_per_collection@.contains_key(id)
                ==> #[trigger] a.relays_per_collection@[id] == b.relays_per_collection@[id]) by {
            assert(validate::relays_listing(entries, id) == validate::relays_listing(middle, id));
            assert(validate::relays_listing(middle, id) == validate::relays_listing(
                moved_entries,
                id,
            ));
            assert(a.relays_per_collection@.contains_key(id) <==> validate::relays_listing(
                entries,
                id,
            ) > 0);
            assert(b.relays_per_collection@.contains_key(id) <==> validate::relays_listing(
                moved_entries,
                id,
            ) > 0);
        }
        assert(a.relays_per_collection@ =~= b.relays_per_collection@);
    }
}

} // verus!
