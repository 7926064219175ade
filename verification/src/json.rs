//! JSON documents as trees.
//!
//! The grammar is `serde_json`'s. The tree is the catalog's own, so that what
//! is asked of a document (its first element, whether it says the same as
//! another one) is answered here.

use serde_json::Value;
use vstd::prelude::*;

use crate::json_text;
use crate::json_text::holds_countable_numbers;
use crate::text;

verus! {

/// A number as `serde_json` tells numbers apart: a whole number from zero on, a
/// negative whole number, or the bits of a binary fraction.
#[derive(Debug, Clone, Copy, PartialEq, Eq, Structural)]
pub enum JsonNumber {
    Unsigned(u64),
    Negative(i64),
    Fraction { bits: u64 },
}

/// A JSON value.
#[derive(Debug)]
pub enum Json {
    Null,
    Bool(bool),
    Number(JsonNumber),
    Text(String),
    Array(Vec<Json>),
    Object(Vec<(String, Json)>),
}

/// What a JSON value says: the order of members is immaterial, the first of
/// two members with one key counts, and the two zero fractions are one number.
pub enum JsonView {
    Null,
    Bool(bool),
    Number(JsonNumber),
    Text(Seq<char>),
    Array(Seq<JsonView>),
    Object(Map<Seq<char>, JsonView>),
}

/// Bits of the fraction `-0.0`; those of `0.0` are zero.
pub const MINUS_ZERO: u64 = 0x8000_0000_0000_0000;

/// The number, with one form for both zero fractions.
pub open spec fn number_value(n: JsonNumber) -> JsonNumber {
    match n {
        JsonNumber::Fraction { bits } if bits == MINUS_ZERO => JsonNumber::Fraction { bits: 0 },
        _ => n,
    }
}

/// The keys of an object's members, in order.
pub open spec fn member_keys(members: Seq<(String, Json)>) -> Seq<Seq<char>> {
    members.map_values(|m: (String, Json)| m.0@)
}

/// `i` is the first position at which `keys` holds `key`.
pub open spec fn is_first(keys: Seq<Seq<char>>, key: Seq<char>, i: int) -> bool {
    &&& 0 <= i < keys.len()
    &&& keys[i] == key
    &&& forall|j: int| 0 <= j < i ==> keys[j] != key
}

/// The first position at which `keys` holds `key`.
pub open spec fn first_index(keys: Seq<Seq<char>>, key: Seq<char>) -> int {
    choose|i: int| is_first(keys, key, i)
}

impl View for Json {
    type V = JsonView;

    open spec fn view(&self) -> JsonView {
        json_view(*self)
    }
}

/// What a JSON value says.
pub open spec fn json_view(value: Json) -> JsonView
    decreases value,
{
    match value {
        Json::Null => JsonView::Null,
        Json::Bool(b) => JsonView::Bool(b),
        Json::Number(n) => JsonView::Number(number_value(n)),
        Json::Text(t) => JsonView::Text(t@),
        Json::Array(items) => JsonView::Array(
            Seq::new(
                items@.len(),
                |i: int|
                    if 0 <= i < items@.len() {
                        json_view(items@[i])
                    } else {
                        JsonView::Null
                    },
            ),
        ),
        Json::Object(members) => JsonView::Object(
            Map::new(
                |k: Seq<char>| member_keys(members@).contains(k),
                |k: Seq<char>|
                    {
                        let i = first_index(member_keys(members@), k);
                        if 0 <= i < members@.len() {
                            json_view(members@[i].1)
                        } else {
                            JsonView::Null
                        }
                    },
            ),
        ),
    }
}

/// What `serde_json` reads in a text: the value, or nothing where the text is
/// no JSON document.
pub uninterp spec fn json_document(text: Seq<char>) -> Option<JsonView>;

/// `serde_json::Value`, which is only ever taken apart by [`from_value`].
#[verifier::external_type_specification]
#[verifier::external_body]
pub struct ExJsonValue(Value);

/// `serde_json::Value` as a tree, one variant for one variant.
#[verifier::external_body]
fn from_value(value: Value) -> (tree: Json) {
    match value {
        Value::Null => Json::Null,
        Value::Bool(b) => Json::Bool(b),
        Value::Number(n) => Json::Number(match (n.as_u64(), n.as_i64()) {
            (Some(u), _) => JsonNumber::Unsigned(u),
            (None, Some(i)) => JsonNumber::Negative(i),
            (None, None) => JsonNumber::Fraction { bits: n.as_f64().unwrap().to_bits() },
        }),
        Value::String(t) => Json::Text(t),
        Value::Array(items) => Json::Array(items.into_iter().map(from_value).collect()),
        Value::Object(members) =>
            Json::Object(members.into_iter().map(|m| (m.0, from_value(m.1))).collect()),
    }
}

/// The document that a text spells, or nothing where it spells none or holds an
/// overlong number.
pub open spec fn document(text: Seq<char>) -> Option<JsonView> {
    if json_text::numbers_fit(text) {
        json_document(text)
    } else {
        None
    }
}

/// `serde_json::from_str`, named by [`json_document`]: the value that `text`
/// spells, or nothing where it spells none. A number that runs over the counters
/// of the parser (see [`crate::json_text`]) makes it overflow.
#[verifier::external_body]
fn read_json(text: &str) -> (value: Option<Json>)
    requires
        json_text::numbers_fit(text@),
    ensures
        match value {
            Some(v) => json_document(text@) == Some(v@),
            None => json_document(text@) == None::<JsonView>,
        },
{
    serde_json::from_str::<serde_json::Value>(text).ok().map(from_value)
}

// ---- members --------------------------------------------------------------

proof fn lemma_first_exists(keys: Seq<Seq<char>>, key: Seq<char>) -> (i: int)
    requires
        keys.contains(key),
    ensures
        is_first(keys, key, i),
    decreases keys.len(),
{
    let front = keys.drop_last();
    if front.contains(key) {
        let i = lemma_first_exists(front, key);
        assert forall|j: int| 0 <= j <= i implies keys[j] == front[j] by {}
        i
    } else {
        let i = keys.len() - 1;
        let at = keys.index_of(key);
        if at < i {
            assert(front[at] == key);
        }
        assert forall|j: int| 0 <= j < i implies keys[j] != key by {
            assert(front[j] == keys[j]);
        }
        i
    }
}

/// The members an object says it has.
pub open spec fn members_of(members: Seq<(String, Json)>) -> Map<Seq<char>, JsonView> {
    Map::new(
        |k: Seq<char>| member_keys(members).contains(k),
        |k: Seq<char>|
            {
                let i = first_index(member_keys(members), k);
                if 0 <= i < members.len() {
                    json_view(members[i].1)
                } else {
                    JsonView::Null
                }
            },
    )
}

proof fn lemma_member(members: Seq<(String, Json)>, key: Seq<char>, i: int)
    requires
        is_first(member_keys(members), key, i),
    ensures
        members_of(members).contains_key(key),
        members_of(members)[key] == json_view(members[i].1),
{
    let keys = member_keys(members);
    assert(keys.contains(keys[i]));
    let c = first_index(keys, key);
    assert(is_first(keys, key, c));
    assert(c == i);
}

fn find_member(members: &Vec<(String, Json)>, key: &str) -> (at: Option<usize>)
    ensures
        match at {
            Some(i) => is_first(member_keys(members@), key@, i as int),
            None => !member_keys(members@).contains(key@),
        },
{
    let ghost keys = member_keys(members@);
    let mut i: usize = 0;
    while i < members.len()
        invariant
            i <= members@.len(),
            keys == member_keys(members@),
            forall|j: int| 0 <= j < i ==> keys[j] != key@,
        decreases members@.len() - i,
    {
        assert(keys[i as int] == members@[i as int].0@);
        if text::same_text(members[i].0.as_str(), key) {
            return Some(i);
        }
        i += 1;
    }
    None
}

// ---- equality -------------------------------------------------------------

fn same_number(a: JsonNumber, b: JsonNumber) -> (same: bool)
    ensures
        same == (number_value(a) == number_value(b)),
{
    match (a, b) {
        (JsonNumber::Fraction { bits: x }, JsonNumber::Fraction { bits: y }) => x == y || ((x == 0
            || x == MINUS_ZERO) && (y == 0 || y == MINUS_ZERO)),
        _ => a == b,
    }
}

fn same_items(a: &Vec<Json>, b: &Vec<Json>) -> (same: bool)
    ensures
        same == (json_view(Json::Array(*a)) == json_view(Json::Array(*b))),
    decreases a,
{
    let ghost x = json_view(Json::Array(*a))->Array_0;
    let ghost y = json_view(Json::Array(*b))->Array_0;
    if a.len() != b.len() {
        assert(x.len() != y.len());
        return false;
    }
    let mut i: usize = 0;
    while i < a.len()
        invariant
            i <= a@.len() == b@.len(),
            x.len() == y.len() == a@.len(),
            x == json_view(Json::Array(*a))->Array_0,
            y == json_view(Json::Array(*b))->Array_0,
            forall|j: int| 0 <= j < i ==> x[j] == y[j],
        decreases a@.len() - i,
    {
        assert(x[i as int] == json_view(a@[i as int]));
        assert(y[i as int] == json_view(b@[i as int]));
        if !same_json(&a[i], &b[i]) {
            return false;
        }
        i += 1;
    }
    assert(x =~= y);
    true
}

fn same_members(a: &Vec<(String, Json)>, b: &Vec<(String, Json)>) -> (same: bool)
    ensures
        same == (members_of(a@) == members_of(b@)),
    decreases a,
{
    let ghost x = members_of(a@);
    let ghost y = members_of(b@);
    let ghost a_keys = member_keys(a@);
    let ghost b_keys = member_keys(b@);
    let mut i: usize = 0;
    while i < a.len()
        invariant
            i <= a@.len(),
            x == members_of(a@),
            y == members_of(b@),
            a_keys == member_keys(a@),
            b_keys == member_keys(b@),
            forall|j: int|
                #![trigger a_keys[j]]
                0 <= j < i && is_first(a_keys, a_keys[j], j) ==> y.contains_key(a_keys[j])
                    && x[a_keys[j]] == y[a_keys[j]],
        decreases a@.len() - i,
    {
        let key = a[i].0.as_str();
        assert(a_keys[i as int] == key@);
        match find_member(a, key) {
            Some(first) => {
                if first == i {
                    proof {
                        lemma_member(a@, key@, i as int);
                    }
                    match find_member(b, key) {
                        Some(other) => {
                            proof {
                                lemma_member(b@, key@, other as int);
                            }
                            assert(decreases_to!(a => a@[i as int].1));
                            if !same_json(&a[i].1, &b[other].1) {
                                return false;
                            }
                        },
                        None => {
                            assert(x.contains_key(key@) && !y.contains_key(key@));
                            return false;
                        },
                    }
                }
            },
            None => {},
        }
        i += 1;
    }
    let mut j: usize = 0;
    while j < b.len()
        invariant
            j <= b@.len(),
            x == members_of(a@),
            y == members_of(b@),
            a_keys == member_keys(a@),
            b_keys == member_keys(b@),
            forall|k: int| 0 <= k < j ==> x.contains_key(#[trigger] b_keys[k]),
        decreases b@.len() - j,
    {
        let key = b[j].0.as_str();
        assert(b_keys[j as int] == key@);
        assert(b_keys.contains(key@));
        if find_member(a, key).is_none() {
            assert(y.contains_key(key@) && !x.contains_key(key@));
            return false;
        }
        assert(x.contains_key(key@)) by {
            assert(a_keys.contains(key@));
        }
        j += 1;
    }
    proof {
        assert forall|k: Seq<char>| #[trigger] x.contains_key(k) implies y.contains_key(k) && x[k]
            == y[k] by {
            let first = lemma_first_exists(a_keys, k);
            assert(a_keys[first] == k);
        }
        assert forall|k: Seq<char>| #[trigger] y.contains_key(k) implies x.contains_key(k) by {
            let first = lemma_first_exists(b_keys, k);
            assert(b_keys[first] == k);
        }
        assert(x =~= y);
    }
    true
}

/// `true` when both values say the same.
pub fn same_json(a: &Json, b: &Json) -> (same: bool)
    ensures
        same == (a@ == b@),
    decreases a,
{
    match (a, b) {
        (Json::Null, Json::Null) => true,
        (Json::Bool(x), Json::Bool(y)) => *x == *y,
        (Json::Number(x), Json::Number(y)) => same_number(*x, *y),
        (Json::Text(x), Json::Text(y)) => text::same_text(x.as_str(), y.as_str()),
        (Json::Array(x), Json::Array(y)) => same_items(x, y),
        (Json::Object(x), Json::Object(y)) => {
            assert(json_view(*a)->Object_0 =~= members_of(x@));
            assert(json_view(*b)->Object_0 =~= members_of(y@));
            same_members(x, y)
        },
        _ => false,
    }
}

// ---- access ---------------------------------------------------------------

/// The value without the members of an object whose key `dropped` holds; other
/// values, and what lies deeper, stay.
pub open spec fn without_members(value: JsonView, dropped: Set<Seq<char>>) -> JsonView {
    match value {
        JsonView::Object(members) => JsonView::Object(members.remove_keys(dropped)),
        _ => value,
    }
}

/// The characters of the listed keys.
pub open spec fn key_set(keys: Seq<&str>) -> Set<Seq<char>> {
    Set::new(|k: Seq<char>| exists|i: int| 0 <= i < keys.len() && (#[trigger] keys[i])@ == k)
}

proof fn lemma_member_removed(members: Seq<(String, Json)>, i: int)
    requires
        0 <= i < members.len(),
    ensures
        forall|k: Seq<char>|
            k != members[i].0@ ==> (#[trigger] members_of(members.remove(i)).contains_key(k)
                == members_of(members).contains_key(k)) && (members_of(members).contains_key(k)
                ==> members_of(members.remove(i))[k] == members_of(members)[k]),
{
    let rest = members.remove(i);
    let keys = member_keys(members);
    let rest_keys = member_keys(rest);
    assert forall|j: int| 0 <= j < rest.len() implies #[trigger] rest_keys[j] == keys[if j < i {
        j
    } else {
        j + 1
    }] by {}
    assert forall|k: Seq<char>| k != members[i].0@ implies (#[trigger] members_of(rest).contains_key(k)
        == members_of(members).contains_key(k)) && (members_of(members).contains_key(k)
        ==> members_of(rest)[k] == members_of(members)[k]) by {
        if keys.contains(k) {
            let at = lemma_first_exists(keys, k);
            assert(keys[i] == members[i].0@);
            let to = if at < i {
                at
            } else {
                at - 1
            };
            assert(rest_keys[to] == k);
            assert forall|j: int| 0 <= j < to implies rest_keys[j] != k by {}
            assert(is_first(rest_keys, k, to));
            lemma_member(members, k, at);
            lemma_member(rest, k, to);
        }
        if rest_keys.contains(k) {
            let j = rest_keys.index_of(k);
            assert(keys[if j < i {
                j
            } else {
                j + 1
            }] == k);
        }
    }
}

/// `true` when `keys` lists `key`.
fn is_listed(keys: &[&str], key: &str) -> (listed: bool)
    ensures
        listed == key_set(keys@).contains(key@),
{
    let mut i: usize = 0;
    while i < keys.len()
        invariant
            i <= keys@.len(),
            forall|j: int| 0 <= j < i ==> (#[trigger] keys@[j])@ != key@,
        decreases keys@.len() - i,
    {
        if text::same_text(keys[i], key) {
            return true;
        }
        i += 1;
    }
    false
}

/// Both objects have the same members, but for those that `dropped` names.
spec fn agree_outside(
    a: Map<Seq<char>, JsonView>,
    b: Map<Seq<char>, JsonView>,
    dropped: Set<Seq<char>>,
) -> bool {
    forall|k: Seq<char>|
        !dropped.contains(k) ==> (#[trigger] a.contains_key(k) == b.contains_key(k)) && (
        b.contains_key(k) ==> a[k] == b[k])
}

fn drop_listed(members: Vec<(String, Json)>, keys: &[&str]) -> (kept: Vec<(String, Json)>)
    ensures
        members_of(kept@) == members_of(members@).remove_keys(key_set(keys@)),
{
    let ghost before = members_of(members@);
    let ghost dropped = key_set(keys@);
    let mut kept = members;
    let mut i: usize = kept.len();
    while i > 0
        invariant
            i <= kept@.len(),
            dropped == key_set(keys@),
            agree_outside(members_of(kept@), before, dropped),
            forall|j: int| i <= j < kept@.len() ==> !dropped.contains((#[trigger] kept@[j]).0@),
        decreases i,
    {
        i -= 1;
        if is_listed(keys, kept[i].0.as_str()) {
            let ghost now = kept@;
            proof {
                lemma_member_removed(now, i as int);
            }
            kept.remove(i);
            assert(kept@ == now.remove(i as int));
        }
    }
    assert forall|k: Seq<char>| #[trigger] members_of(kept@).contains_key(k) implies !dropped.contains(
        k,
    ) by {
        let j = member_keys(kept@).index_of(k);
        assert(member_keys(kept@)[j] == kept@[j].0@);
    }
    assert(members_of(kept@) =~= before.remove_keys(dropped));
    kept
}

impl Json {
    /// The document that `text` spells, or nothing where it spells none.
    pub fn parse(text: &str) -> (value: Option<Json>)
        ensures
            match value {
                Some(v) => document(text@) == Some(v@),
                None => document(text@) == None::<JsonView>,
            },
    {
        if !holds_countable_numbers(text) {
            return None;
        }
        read_json(text)
    }

    /// The member of an object under `key`.
    pub fn get(&self, key: &str) -> (member: Option<&Json>)
        ensures
            match member {
                Some(m) => {
                    &&& self@ is Object
                    &&& self@->Object_0.contains_key(key@)
                    &&& self@->Object_0[key@] == m@
                },
                None => !(self@ is Object && self@->Object_0.contains_key(key@)),
            },
    {
        match self {
            Json::Object(members) => {
                assert(self@->Object_0 =~= members_of(members@));
                match find_member(members, key) {
                    Some(i) => {
                        proof {
                            lemma_member(members@, key@, i as int);
                        }
                        Some(&members[i].1)
                    },
                    None => None,
                }
            },
            _ => None,
        }
    }

    /// The element of an array at `index`.
    pub fn element(&self, index: usize) -> (element: Option<&Json>)
        ensures
            match element {
                Some(e) => {
                    &&& self@ is Array
                    &&& index < self@->Array_0.len()
                    &&& self@->Array_0[index as int] == e@
                },
                None => !(self@ is Array && index < self@->Array_0.len()),
            },
    {
        match self {
            Json::Array(items) => if index < items.len() {
                Some(&items[index])
            } else {
                None
            },
            _ => None,
        }
    }

    /// The characters of a text value.
    pub fn as_str(&self) -> (chars: Option<&str>)
        ensures
            match chars {
                Some(t) => self@ == JsonView::Text(t@),
                None => !(self@ is Text),
            },
    {
        match self {
            Json::Text(t) => Some(t.as_str()),
            _ => None,
        }
    }

    /// Drop the members of an object that `keys` lists; what lies deeper stays.
    pub fn remove_members(&mut self, keys: &[&str])
        ensures
            final(self)@ == without_members(old(self)@, key_set(keys@)),
    {
        let mut value = Json::Null;
        std::mem::swap(&mut value, self);
        match value {
            Json::Object(members) => {
                assert(old(self)@->Object_0 =~= members_of(members@));
                let kept = drop_listed(members, keys);
                *self = Json::Object(kept);
                assert(self@->Object_0 =~= members_of(kept@));
            },
            other => {
                *self = other;
            },
        }
    }
}

// ---- laws -----------------------------------------------------------------

/// A text of fewer than two thousand million characters is read as it stands.
pub proof fn law_short_texts_are_read(text: Seq<char>)
    requires
        text.len() <= 2_147_483_647,
    ensures
        document(text) == json_document(text),
{
    json_text::law_short_texts_fit(text);
}

/// A tree reads as its parts say; two zero fractions are one number.
pub proof fn law_trees_read_as_their_parts(value: Json)
    ensures
        value is Null <==> value@ is Null,
        value matches Json::Bool(b) ==> value@ == JsonView::Bool(b),
        value matches Json::Text(t) ==> value@ == JsonView::Text(t@),
        value matches Json::Number(JsonNumber::Unsigned(n)) ==> value@ == JsonView::Number(
            JsonNumber::Unsigned(n),
        ),
        value matches Json::Number(JsonNumber::Negative(n)) ==> value@ == JsonView::Number(
            JsonNumber::Negative(n),
        ),
        value matches Json::Number(JsonNumber::Fraction { bits }) ==> value@ == JsonView::Number(
            JsonNumber::Fraction {
                bits: if bits == 9_223_372_036_854_775_808 {
                    0
                } else {
                    bits
                },
            },
        ),
        value matches Json::Array(items) ==> (value@ matches JsonView::Array(views) && views.len()
            == items@.len() && forall|i: int|
            0 <= i < views.len() ==> #[trigger] views[i] == items@[i]@),
        value matches Json::Object(members) ==> (value@ matches JsonView::Object(views) && forall|
            i: int,
        |
            0 <= i < members@.len() && (forall|j: int|
                0 <= j < i ==> (#[trigger] members@[j]).0@ != members@[i].0@)
                ==> views.contains_key((#[trigger] members@[i]).0@) && views[members@[i].0@]
                == members@[i].1@),
{
    if let Json::Object(members) = value {
        let views = value@->Object_0;
        assert(views =~= members_of(members@));
        assert forall|i: int|
            0 <= i < members@.len() && (forall|j: int|
                0 <= j < i ==> (#[trigger] members@[j]).0@ != members@[i].0@) implies views.contains_key(
            (#[trigger] members@[i]).0@,
        ) && views[members@[i].0@] == members@[i].1@ by {
            let keys = member_keys(members@);
            assert(keys[i] == members@[i].0@);
            assert forall|j: int| 0 <= j < i implies keys[j] != keys[i] by {
                assert(keys[j] == members@[j].0@);
            }
            assert(is_first(keys, members@[i].0@, i));
            lemma_member(members@, members@[i].0@, i);
        }
    }
}

/// Dropping members takes the named ones out of an object and leaves the others as
/// they are, and leaves every other value alone.
pub proof fn law_dropping_members(value: JsonView, dropped: Set<Seq<char>>, key: Seq<char>)
    ensures
        !(value is Object) ==> without_members(value, dropped) == value,
        value matches JsonView::Object(members) ==> (without_members(value, dropped) matches JsonView::Object(
            rest,
        ) && (rest.contains_key(key) <==> members.contains_key(key) && !dropped.contains(key)) && (
        rest.contains_key(key) ==> rest[key] == members[key])),
{
}

/// A list of keys holds the texts that stand in it.
pub proof fn law_listed_keys(keys: Seq<&str>, i: int)
    requires
        0 <= i < keys.len(),
    ensures
        key_set(keys).contains(keys[i]@),
        key_set(Seq::<&str>::empty()) == Set::<Seq<char>>::empty(),
{
    assert(key_set(Seq::<&str>::empty()) =~= Set::<Seq<char>>::empty());
}

} // verus!
