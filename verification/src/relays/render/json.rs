//! JSON artefact generation.
//!
//! Produces the content of three files in the `api/` directory, which is
//! published to GitHub Pages:
//!
//! * `relays.json` — full dataset including curator metadata and the latest
//!   health status per relay.
//! * `urls.json` — flat list of relay URLs (the most lightweight consumer
//!   format).
//! * `collections.json` — relay URLs grouped by collection id.
//!
//! Writes are **content-addressed**: if a target file already exists and its
//! payload is equivalent to the freshly rendered value once the
//! [`VOLATILE_FIELD`] is stripped, the file is left untouched. This keeps CI
//! commits and GitHub Pages deployments free of time-stamp churn when the
//! underlying catalog has not changed.

use vstd::prelude::*;

use crate::json;
use crate::json::{same_json, Json};

pub use crate::anr::render::json::{file_text, COLLECTIONS_FILE, FULL_FILE, URLS_FILE};
pub use crate::render::documents::{
    collections_document, flat_document, full_document, CollectionView, CollectionsDocument,
    FlatDocument, FullDocument, RelayView,
};

verus! {

/// Top-level field excluded when comparing a newly rendered artefact to the
/// existing file. Only the wall-clock stamp is noise; everything else in the
/// payload reflects a real data change worth committing.
pub const VOLATILE_FIELD: &'static str = "generated_at";

/// Two values are the same but for the ignored members of the outermost object.
pub open spec fn same_payload(
    a: json::JsonView,
    b: json::JsonView,
    ignored: Set<Seq<char>>,
) -> bool {
    json::without_members(a, ignored) == json::without_members(b, ignored)
}

/// Both texts are JSON documents with the same payload.
pub open spec fn equivalent_texts(a: Seq<char>, b: Seq<char>, ignored: Set<Seq<char>>) -> bool {
    match (json::document(a), json::document(b)) {
        (Some(x), Some(y)) => same_payload(x, y, ignored),
        _ => false,
    }
}

/// Remove the given members of the outermost object.
pub fn strip_keys(value: &mut Json, keys: &[&str])
    ensures
        final(value)@ == json::without_members(old(value)@, json::key_set(keys@)),
{
    value.remove_members(keys);
}

/// Compare two JSON values ignoring the given top-level keys.
pub fn values_are_equivalent(a: Json, b: Json, ignore_keys: &[&str]) -> (same: bool)
    ensures
        same == same_payload(a@, b@, json::key_set(ignore_keys@)),
{
    let mut x = a;
    let mut y = b;
    strip_keys(&mut x, ignore_keys);
    strip_keys(&mut y, ignore_keys);
    same_json(&x, &y)
}

/// Compare two JSON payloads ignoring the given top-level keys.
///
/// Both inputs must be syntactically valid JSON; any parse failure falls back
/// to "not equivalent" so we always err on the side of writing.
pub fn payload_is_equivalent(a: &str, b: &str, ignore_keys: &[&str]) -> (same: bool)
    ensures
        same == equivalent_texts(a@, b@, json::key_set(ignore_keys@)),
{
    match (Json::parse(a), Json::parse(b)) {
        (Some(x), Some(y)) => values_are_equivalent(x, y, ignore_keys),
        _ => false,
    }
}

/// The stamp that changes with every run.
pub open spec fn volatile() -> Set<Seq<char>> {
    set!["generated_at"@]
}

/// A file that holds `existing`, where it can be read, has to be written to
/// hold `fresh`.
pub open spec fn write_needed(existing: Option<Seq<char>>, fresh: Seq<char>) -> bool {
    match existing {
        Some(text) => !equivalent_texts(text, fresh, volatile()),
        None => true,
    }
}

/// What the file holds after `fresh` has been rendered for it.
pub open spec fn file_after(existing: Option<Seq<char>>, fresh: Seq<char>) -> Seq<char> {
    match existing {
        Some(text) => if write_needed(existing, fresh) {
            fresh
        } else {
            text
        },
        None => fresh,
    }
}

/// Whether a freshly rendered artefact has to be written over what the file
/// holds, where it can be read.
pub fn needs_write(existing: Option<&str>, fresh: &str) -> (write: bool)
    ensures
        write == write_needed(
            match existing {
                Some(text) => Some(text@),
                None => None,
            },
            fresh@,
        ),
{
    let keys: [&str; 1] = [VOLATILE_FIELD];
    proof {
        assert(json::key_set(keys@) =~= volatile()) by {
            assert(keys@[0]@ == "generated_at"@);
            assert forall|k: Seq<char>| volatile().contains(k) implies json::key_set(
                keys@,
            ).contains(k) by {
                assert(keys@[0]@ == k);
            }
        }
    }
    match existing {
        Some(text) => !payload_is_equivalent(text, fresh, keys.as_slice()),
        None => true,
    }
}

// ---- laws -----------------------------------------------------------------

/// Having the same payload is an equivalence.
pub proof fn law_same_payload_is_an_equivalence(
    a: json::JsonView,
    b: json::JsonView,
    c: json::JsonView,
    ignored: Set<Seq<char>>,
)
    ensures
        same_payload(a, a, ignored),
        same_payload(a, b, ignored) ==> same_payload(b, a, ignored),
        same_payload(a, b, ignored) && same_payload(b, c, ignored) ==> same_payload(a, c, ignored),
{
}

/// A text that is no JSON document is equivalent to nothing, and every document
/// to itself.
pub proof fn law_only_documents_are_equivalent(
    a: Seq<char>,
    b: Seq<char>,
    ignored: Set<Seq<char>>,
)
    ensures
        equivalent_texts(a, b, ignored) ==> json::document(a) is Some && json::document(
            b,
        ) is Some,
        json::document(a) is Some ==> equivalent_texts(a, a, ignored),
        equivalent_texts(a, b, ignored) == equivalent_texts(b, a, ignored),
{
}

/// An ignored member of the outermost object never makes a difference, whatever
/// it holds and whether it is there; any other member does.
pub proof fn law_only_ignored_members_are_ignored(
    a: Map<Seq<char>, json::JsonView>,
    b: Map<Seq<char>, json::JsonView>,
    ignored: Set<Seq<char>>,
)
    ensures
        same_payload(json::JsonView::Object(a), json::JsonView::Object(b), ignored) <==> (forall|
            key: Seq<char>,
        |
            !ignored.contains(key) ==> (#[trigger] a.contains_key(key) == b.contains_key(key) && (
            a.contains_key(key) ==> a[key] == b[key]))),
{
    let x = json::without_members(json::JsonView::Object(a), ignored)->Object_0;
    let y = json::without_members(json::JsonView::Object(b), ignored)->Object_0;
    if same_payload(json::JsonView::Object(a), json::JsonView::Object(b), ignored) {
        assert forall|key: Seq<char>| !ignored.contains(key) implies #[trigger] a.contains_key(key)
            == b.contains_key(key) && (a.contains_key(key) ==> a[key] == b[key]) by {
            assert(x.contains_key(key) == a.contains_key(key));
            assert(y.contains_key(key) == b.contains_key(key));
            assert(a.contains_key(key) ==> x[key] == a[key]);
            assert(b.contains_key(key) ==> y[key] == b[key]);
        }
    } else {
        if forall|key: Seq<char>|
            !ignored.contains(key) ==> (#[trigger] a.contains_key(key) == b.contains_key(key) && (
            a.contains_key(key) ==> a[key] == b[key])) {
            assert(x =~= y);
        }
    }
}

/// An artefact that differs from what the file holds in nothing but the stamp,
/// because it was rendered from the same data at another time, is not written;
/// one that differs in anything else is.
pub proof fn law_only_changes_are_written(
    existing: Seq<char>,
    fresh: Seq<char>,
    held: Map<Seq<char>, json::JsonView>,
    rendered: Map<Seq<char>, json::JsonView>,
    earlier: json::JsonView,
    later: json::JsonView,
)
    requires
        !held.contains_key("generated_at"@),
        !rendered.contains_key("generated_at"@),
        json::document(existing) == Some(
            json::JsonView::Object(held.insert("generated_at"@, earlier)),
        ),
        json::document(fresh) == Some(
            json::JsonView::Object(rendered.insert("generated_at"@, later)),
        ),
    ensures
        write_needed(Some(existing), fresh) <==> held != rendered,
        file_after(Some(existing), fresh) == if held == rendered {
            existing
        } else {
            fresh
        },
{
    let a = held.insert("generated_at"@, earlier);
    let b = rendered.insert("generated_at"@, later);
    law_only_ignored_members_are_ignored(a, b, volatile());
    if held != rendered && equivalent_texts(existing, fresh, volatile()) {
        assert forall|key: Seq<char>| #[trigger] held.dom().contains(key)
            == rendered.dom().contains(key) && (held.dom().contains(key) ==> held[key]
            == rendered[key]) by {
            if key != "generated_at"@ {
                assert(a.contains_key(key) == b.contains_key(key));
            }
        }
        assert(held.dom() =~= rendered.dom());
        assert(held =~= rendered);
    }
}

/// Once a document has been rendered for a file, rendering it again writes
/// nothing, whatever the file held at first.
pub proof fn law_writing_settles(existing: Option<Seq<char>>, fresh: Seq<char>)
    requires
        json::document(fresh) is Some,
    ensures
        !write_needed(Some(file_after(existing, fresh)), fresh),
        file_after(Some(file_after(existing, fresh)), fresh) == file_after(existing, fresh),
{
}

/// Two values say the same but for the ignored members: equal values always do, and of
/// other values than objects only equal ones.
pub proof fn law_same_payload_of_other_values(
    a: json::JsonView,
    b: json::JsonView,
    ignored: Set<Seq<char>>,
)
    ensures
        !(a is Object) && !(b is Object) ==> (same_payload(a, b, ignored) <==> a == b),
        a is Object && !(b is Object) ==> !same_payload(a, b, ignored),
        same_payload(a, b, Set::empty()) <==> a == b,
{
    if let json::JsonView::Object(x) = a {
        assert(x.remove_keys(Set::<Seq<char>>::empty()) =~= x);
    }
    if let json::JsonView::Object(y) = b {
        assert(y.remove_keys(Set::<Seq<char>>::empty()) =~= y);
    }
}

/// A file that cannot be read is written, and a written file holds what was rendered.
pub proof fn law_missing_files_are_written(existing: Seq<char>, fresh: Seq<char>)
    ensures
        write_needed(None, fresh),
        file_after(None, fresh) == fresh,
        write_needed(Some(existing), fresh) ==> file_after(Some(existing), fresh) == fresh,
        !write_needed(Some(existing), fresh) ==> file_after(Some(existing), fresh) == existing,
        json::document(existing) is None || json::document(fresh) is None ==> write_needed(
            Some(existing),
            fresh,
        ),
        volatile().contains("generated_at"@),
        forall|key: Seq<char>| volatile().contains(key) ==> key == "generated_at"@,
{
}

/// Two texts are equivalent exactly when both are documents with the same payload; an
/// object and another value never have the same.
pub proof fn law_equivalent_texts(a: Seq<char>, b: Seq<char>, ignored: Set<Seq<char>>)
    ensures
        equivalent_texts(a, b, ignored) ==> json::document(a) is Some && json::document(b) is Some,
        json::document(a) matches Some(x) ==> (json::document(b) matches Some(y) ==> (
        equivalent_texts(a, b, ignored) <==> same_payload(x, y, ignored))),
        json::document(a) matches Some(x) ==> (json::document(b) matches Some(y) ==> (
        x is Object != y is Object ==> !equivalent_texts(a, b, ignored))),
{
}

} // verus!
