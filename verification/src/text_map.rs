//! A map keyed by text, kept in the order of its keys.
//!
//! A [`TextMap`] is a sorted list of slots: no key occurs twice, and walking
//! the slots by index visits the keys in ascending order.

use vstd::prelude::*;

use crate::text;

verus! {

/// Every key sorts strictly before those that follow it.
pub open spec fn ascending(keys: Seq<Seq<char>>) -> bool {
    forall|i: int, j: int| 0 <= i < j < keys.len() ==> text::precedes(#[trigger] keys[i], #[trigger] keys[j])
}

/// Map from text to `V`, sorted by key.
#[derive(Debug)]
pub struct TextMap<V> {
    slots: Vec<(String, V)>,
}

spec fn slot_keys<V>(slots: Seq<(String, V)>) -> Seq<Seq<char>> {
    slots.map_values(|slot: (String, V)| slot.0@)
}

spec fn slot_map<V>(slots: Seq<(String, V)>) -> Map<Seq<char>, V> {
    Map::new(
        |k: Seq<char>| slot_keys(slots).contains(k),
        |k: Seq<char>| slots[slot_keys(slots).index_of(k)].1,
    )
}

proof fn lemma_slot<V>(slots: Seq<(String, V)>, i: int)
    requires
        ascending(slot_keys(slots)),
        0 <= i < slots.len(),
    ensures
        slot_map(slots).contains_key(slots[i].0@),
        slot_map(slots)[slots[i].0@] == slots[i].1,
{
    let keys = slot_keys(slots);
    assert(keys[i] == slots[i].0@);
    let j = keys.index_of(keys[i]);
    assert(0 <= j < keys.len() && keys[j] == keys[i]);
    text::lemma_precedes_irreflexive(keys[i]);
    if i < j {
        assert(text::precedes(keys[i], keys[j]));
    } else if j < i {
        assert(text::precedes(keys[j], keys[i]));
    }
}

proof fn lemma_absent<V>(slots: Seq<(String, V)>, at: int, key: Seq<char>)
    requires
        0 <= at <= slots.len(),
        forall|i: int| 0 <= i < at ==> text::precedes(#[trigger] slot_keys(slots)[i], key),
        forall|i: int| at <= i < slots.len() ==> text::precedes(key, #[trigger] slot_keys(slots)[i]),
    ensures
        !slot_map(slots).contains_key(key),
{
    text::lemma_precedes_irreflexive(key);
    if slot_keys(slots).contains(key) {
        let i = slot_keys(slots).index_of(key);
        assert(slot_keys(slots)[i] == key);
    }
}

proof fn lemma_stored<V>(
    before: Seq<(String, V)>,
    after: Seq<(String, V)>,
    found: bool,
    at: int,
    key: Seq<char>,
    value: V,
)
    requires
        ascending(slot_keys(before)),
        0 <= at <= before.len(),
        found ==> at < before.len() && before[at].0@ == key && after == before.update(at, after[at]),
        !found ==> {
            &&& after == before.insert(at, after[at])
            &&& forall|i: int| 0 <= i < at ==> text::precedes(#[trigger] slot_keys(before)[i], key)
            &&& forall|i: int|
                at <= i < before.len() ==> text::precedes(key, #[trigger] slot_keys(before)[i])
        },
        at < after.len(),
        after[at].0@ == key,
        after[at].1 == value,
    ensures
        ascending(slot_keys(after)),
        slot_map(after) == slot_map(before).insert(key, value),
{
    let old_keys = slot_keys(before);
    let keys = slot_keys(after);
    let shift = |i: int| -> int { if found || i < at { i } else { i - 1 } };
    assert forall|i: int| 0 <= i < keys.len() && i != at implies #[trigger] keys[i] == old_keys[shift(
        i,
    )] && after[i] == before[shift(i)] by {}
    assert(keys[at] == key);
    assert forall|i: int, j: int| 0 <= i < j < keys.len() implies text::precedes(
        #[trigger] keys[i],
        #[trigger] keys[j],
    ) by {
        if found {
            assert(keys =~= old_keys);
            assert(text::precedes(old_keys[i], old_keys[j]));
        } else if i != at && j != at {
            assert(text::precedes(old_keys[shift(i)], old_keys[shift(j)]));
        }
    }
    assert forall|k: Seq<char>| slot_map(after).contains_key(k) == slot_map(before).insert(
        key,
        value,
    ).contains_key(k) by {
        if slot_map(before).contains_key(k) && k != key {
            let i = old_keys.index_of(k);
            let j = if found || i < at { i } else { i + 1 };
            assert(keys[j] == k);
        }
        if slot_map(after).contains_key(k) && k != key {
            let j = keys.index_of(k);
            assert(old_keys[shift(j)] == k);
        }
    }
    assert forall|k: Seq<char>| slot_map(after).contains_key(k) implies #[trigger] slot_map(after)[k]
        == slot_map(before).insert(key, value)[k] by {
        let j = keys.index_of(k);
        lemma_slot(after, j);
        if k != key {
            lemma_slot(before, shift(j));
        } else {
            lemma_slot(after, at);
        }
    }
    assert(slot_map(after) =~= slot_map(before).insert(key, value));
}

proof fn lemma_dropped<V>(before: Seq<(String, V)>, at: int)
    requires
        ascending(slot_keys(before)),
        0 <= at < before.len(),
    ensures
        ascending(slot_keys(before.remove(at))),
        slot_map(before.remove(at)) == slot_map(before).remove(before[at].0@),
{
    let after = before.remove(at);
    let key = before[at].0@;
    let old_keys = slot_keys(before);
    let keys = slot_keys(after);
    let shift = |i: int| -> int { if i < at { i } else { i + 1 } };
    assert(old_keys[at] == key);
    assert forall|i: int| 0 <= i < keys.len() implies #[trigger] keys[i] == old_keys[shift(i)]
        && after[i] == before[shift(i)] by {}
    assert forall|i: int, j: int| 0 <= i < j < keys.len() implies text::precedes(
        #[trigger] keys[i],
        #[trigger] keys[j],
    ) by {
        assert(text::precedes(old_keys[shift(i)], old_keys[shift(j)]));
    }
    text::lemma_precedes_irreflexive(key);
    assert forall|k: Seq<char>| slot_map(after).contains_key(k) == slot_map(before).remove(
        key,
    ).contains_key(k) by {
        if slot_map(before).contains_key(k) && k != key {
            let i = old_keys.index_of(k);
            let j = if i < at { i } else { i - 1 };
            assert(keys[j] == k);
        }
        if slot_map(after).contains_key(k) {
            let j = keys.index_of(k);
            assert(old_keys[shift(j)] == k);
            if shift(j) < at {
                assert(text::precedes(old_keys[shift(j)], old_keys[at]));
            } else {
                assert(text::precedes(old_keys[at], old_keys[shift(j)]));
            }
        }
    }
    assert forall|k: Seq<char>| slot_map(after).contains_key(k) implies #[trigger] slot_map(after)[k]
        == slot_map(before)[k] by {
        let j = keys.index_of(k);
        lemma_slot(after, j);
        lemma_slot(before, shift(j));
    }
    assert(slot_map(after) =~= slot_map(before).remove(key));
}

impl<V> TextMap<V> {
    #[verifier::type_invariant]
    spec fn sorted(self) -> bool {
        ascending(slot_keys(self.slots@))
    }

    /// The keys, in the order in which the slots hold them.
    pub closed spec fn ordered_keys(self) -> Seq<Seq<char>> {
        slot_keys(self.slots@)
    }
}

impl<V> View for TextMap<V> {
    type V = Map<Seq<char>, V>;

    closed spec fn view(&self) -> Map<Seq<char>, V> {
        slot_map(self.slots@)
    }
}

impl<V> TextMap<V> {
    /// A map without entries.
    pub fn new() -> (map: Self)
        ensures
            map@ == Map::<Seq<char>, V>::empty(),
    {
        let map = TextMap { slots: Vec::new() };
        assert(map@ =~= Map::<Seq<char>, V>::empty());
        map
    }

    /// The index of `key`, or the index at which it would be inserted.
    fn find(&self, key: &str) -> (place: (bool, usize))
        ensures
            place.1 <= self.slots@.len(),
            place.0 ==> place.1 < self.slots@.len() && self.slots@[place.1 as int].0@ == key@,
            !place.0 ==> {
                &&& forall|i: int|
                    0 <= i < place.1 ==> text::precedes(#[trigger] slot_keys(self.slots@)[i], key@)
                &&& forall|i: int|
                    place.1 <= i < self.slots@.len() ==> text::precedes(
                        key@,
                        #[trigger] slot_keys(self.slots@)[i],
                    )
            },
    {
        proof {
            use_type_invariant(self);
        }
        let ghost keys = slot_keys(self.slots@);
        let mut low: usize = 0;
        let mut high: usize = self.slots.len();
        while low < high
            invariant
                low <= high <= self.slots@.len(),
                keys == slot_keys(self.slots@),
                ascending(keys),
                forall|i: int| 0 <= i < low ==> text::precedes(#[trigger] keys[i], key@),
                forall|i: int| high <= i < keys.len() ==> text::precedes(key@, #[trigger] keys[i]),
            decreases high - low,
        {
            let mid: usize = low + (high - low) / 2;
            let at = self.slots[mid].0.as_str();
            assert(keys[mid as int] == at@);
            if text::sorts_before(at, key) {
                assert forall|i: int| 0 <= i < mid + 1 implies text::precedes(#[trigger] keys[i], key@) by {
                    if i < mid {
                        text::lemma_precedes_transitive(keys[i], keys[mid as int], key@);
                    }
                }
                low = mid + 1;
            } else if text::same_text(at, key) {
                return (true, mid);
            } else {
                proof {
                    text::lemma_precedes_total(at@, key@);
                }
                assert forall|i: int| mid <= i < keys.len() implies text::precedes(
                    key@,
                    #[trigger] keys[i],
                ) by {
                    if mid < i {
                        text::lemma_precedes_transitive(key@, keys[mid as int], keys[i]);
                    }
                }
                high = mid;
            }
        }
        (false, low)
    }

    /// Number of entries. A walk by index up to here visits the keys in
    /// ascending order, each of them once.
    pub fn len(&self) -> (n: usize)
        ensures
            n == self.ordered_keys().len(),
            ascending(self.ordered_keys()),
            forall|k: Seq<char>| self.ordered_keys().contains(k) <==> self@.contains_key(k),
    {
        proof {
            use_type_invariant(self);
        }
        self.slots.len()
    }

    /// The value stored under `key`.
    pub fn get(&self, key: &str) -> (value: Option<&V>)
        ensures
            match value {
                Some(v) => self@.contains_key(key@) && self@[key@] == *v,
                None => !self@.contains_key(key@),
            },
    {
        proof {
            use_type_invariant(self);
        }
        let (found, at) = self.find(key);
        if found {
            proof {
                lemma_slot(self.slots@, at as int);
            }
            Some(&self.slots[at].1)
        } else {
            proof {
                lemma_absent(self.slots@, at as int, key@);
            }
            None
        }
    }

    /// Store `value` under `key`, replacing what was there; `true` when the key
    /// is new.
    pub fn insert(&mut self, key: String, value: V) -> (fresh: bool)
        ensures
            final(self)@ == old(self)@.insert(key@, value),
            fresh == !old(self)@.contains_key(key@),
    {
        proof {
            use_type_invariant(&*self);
        }
        let (found, at) = self.find(key.as_str());
        let ghost before = self.slots@;
        let mut slots: Vec<(String, V)> = Vec::new();
        std::mem::swap(&mut slots, &mut self.slots);
        if found {
            proof {
                lemma_slot(before, at as int);
            }
            slots.set(at, (key, value));
        } else {
            proof {
                lemma_absent(before, at as int, key@);
            }
            slots.insert(at, (key, value));
        }
        let ghost after = slots@;
        proof {
            lemma_stored(before, after, found, at as int, key@, value);
        }
        self.slots = slots;
        !found
    }

    /// Drop the entry of `key` and hand its value out.
    pub fn remove(&mut self, key: &str) -> (value: Option<V>)
        ensures
            final(self)@ == old(self)@.remove(key@),
            match value {
                Some(v) => old(self)@.contains_key(key@) && old(self)@[key@] == v,
                None => !old(self)@.contains_key(key@),
            },
    {
        proof {
            use_type_invariant(&*self);
        }
        let (found, at) = self.find(key);
        if !found {
            proof {
                lemma_absent(self.slots@, at as int, key@);
            }
            assert(self@.remove(key@) =~= self@);
            return None;
        }
        let ghost before = self.slots@;
        let mut slots: Vec<(String, V)> = Vec::new();
        std::mem::swap(&mut slots, &mut self.slots);
        let slot = slots.remove(at);
        proof {
            lemma_slot(before, at as int);
            lemma_dropped(before, at as int);
        }
        self.slots = slots;
        Some(slot.1)
    }

    /// Keep only the entries whose key `known` holds.
    pub fn retain_known(&mut self, known: &TextMap<()>)
        ensures
            final(self)@ == old(self)@.restrict(known@.dom()),
    {
        proof {
            use_type_invariant(&*self);
        }
        let ghost before = self.slots@;
        let mut slots: Vec<(String, V)> = Vec::new();
        std::mem::swap(&mut slots, &mut self.slots);
        let mut i: usize = slots.len();
        while i > 0
            invariant
                i <= slots@.len(),
                ascending(slot_keys(slots@)),
                forall|k: Seq<char>| #[trigger]
                    slot_map(slots@).contains_key(k) ==> slot_map(before).contains_key(k)
                        && slot_map(slots@)[k] == slot_map(before)[k],
                forall|k: Seq<char>| #[trigger]
                    slot_map(before).contains_key(k) && !slot_map(slots@).contains_key(k)
                        ==> !known@.contains_key(k),
                forall|j: int|
                    i <= j < slots@.len() ==> known@.contains_key(#[trigger] slot_keys(slots@)[j]),
            decreases i,
        {
            i -= 1;
            let ghost now = slots@;
            assert(slot_keys(now)[i as int] == now[i as int].0@);
            if !known.contains_key(slots[i].0.as_str()) {
                proof {
                    lemma_slot(now, i as int);
                    lemma_dropped(now, i as int);
                }
                slots.remove(i);
                assert forall|j: int| i <= j < slots@.len() implies known@.contains_key(
                    #[trigger] slot_keys(slots@)[j],
                ) by {
                    assert(slot_keys(slots@)[j] == slot_keys(now)[j + 1]);
                }
            }
        }
        let ghost kept = slots@;
        self.slots = slots;
        assert forall|k: Seq<char>| #[trigger] slot_map(kept).contains_key(k) implies known@.contains_key(
            k,
        ) by {
            let j = slot_keys(kept).index_of(k);
            assert(known@.contains_key(slot_keys(kept)[j]));
        }
        assert(self@ =~= old(self)@.restrict(known@.dom()));
    }

    /// `true` when no key has a value.
    pub fn is_empty(&self) -> (empty: bool)
        ensures
            empty == (self@ == Map::<Seq<char>, V>::empty()),
    {
        if self.slots.len() == 0 {
            assert(self@ =~= Map::<Seq<char>, V>::empty());
            true
        } else {
            proof {
                use_type_invariant(self);
                lemma_slot(self.slots@, 0);
            }
            false
        }
    }

    /// The entry at `index` in key order.
    pub fn entry_at(&self, index: usize) -> (entry: Option<(&str, &V)>)
        ensures
            match entry {
                Some((key, value)) => {
                    &&& index < self.ordered_keys().len()
                    &&& key@ == self.ordered_keys()[index as int]
                    &&& self@.contains_key(key@)
                    &&& self@[key@] == *value
                },
                None => index >= self.ordered_keys().len(),
            },
    {
        if index < self.slots.len() {
            proof {
                use_type_invariant(self);
                lemma_slot(self.slots@, index as int);
            }
            Some((self.slots[index].0.as_str(), &self.slots[index].1))
        } else {
            None
        }
    }

    /// `true` when `key` has a value.
    pub fn contains_key(&self, key: &str) -> (found: bool)
        ensures
            found == self@.contains_key(key@),
    {
        self.get(key).is_some()
    }
}

impl<V: Clone> Clone for TextMap<V> {
    fn clone(&self) -> (copy: Self)
        ensures
            copy@.dom() == self@.dom(),
            forall|k: Seq<char>| #[trigger]
                copy@.contains_key(k) ==> cloned::<V>(self@[k], copy@[k]),
    {
        proof {
            use_type_invariant(self);
        }
        let mut slots: Vec<(String, V)> = Vec::new();
        let mut i: usize = 0;
        while i < self.slots.len()
            invariant
                i <= self.slots@.len(),
                slots@.len() == i,
                forall|j: int|
                    0 <= j < i ==> (#[trigger] slots@[j]).0@ == self.slots@[j].0@ && cloned::<V>(
                        self.slots@[j].1,
                        slots@[j].1,
                    ),
            decreases self.slots@.len() - i,
        {
            let key = self.slots[i].0.clone();
            let value = self.slots[i].1.clone();
            slots.push((key, value));
            i += 1;
        }
        assert(slot_keys(slots@) =~= slot_keys(self.slots@));
        let copy = TextMap { slots };
        assert(copy@.dom() =~= self@.dom());
        assert forall|k: Seq<char>| #[trigger] copy@.contains_key(k) implies cloned::<V>(
            self@[k],
            copy@[k],
        ) by {
            let j = slot_keys(slots@).index_of(k);
            assert(slots@[j].0@ == k);
        }
        copy
    }
}

} // verus!
