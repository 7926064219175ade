//! Schema and semantic validation of a catalog.
//!
//! Collects *all* violations before returning, so CI output lists every issue
//! in a single run instead of erroring out after the first mistake.

use vstd::prelude::*;
use vstd::string::*;

use crate::model::{Collection, Dataset, Relay};
use crate::probe;
use crate::probe::is_onion_host;
use crate::relay_url::RelayUrl;
use crate::text;
use crate::text_map::TextMap;

verus! {

/// Validation failure produced by [`validate`].
#[derive(Debug)]
pub enum ValidationError {
    /// Validation collected one or more rule violations.
    Failed {
        /// Number of individual rule violations encountered.
        count: usize,
        /// Newline-delimited, indented list of violations.
        details: String,
    },
}

impl ValidationError {
    /// The text shown to a curator.
    pub fn message(&self) -> (message: String)
        ensures
            message@ == match *self {
                ValidationError::Failed { count, details } => "validation failed with "@
                    + text::decimal(count as nat) + " error(s):\n"@ + details@,
            },
    {
        match self {
            ValidationError::Failed { count, details } => {
                let mut message = "validation failed with ".to_owned();
                message.append(text::decimal_text(*count as u64).as_str());
                message.append(" error(s):\n");
                message.append(details.as_str());
                message
            },
        }
    }
}

/// Summary returned by a successful [`validate`] run.
#[derive(Debug, Clone)]
pub struct ValidationSummary {
    /// Total number of relays in the dataset.
    pub relay_count: usize,
    /// Total number of declared collections.
    pub collection_count: usize,
    /// Map of `collection_id -> number of relays referencing it`.
    pub relays_per_collection: TextMap<usize>,
}

impl Default for ValidationSummary {
    fn default() -> (summary: ValidationSummary)
        ensures
            summary.relay_count == 0,
            summary.collection_count == 0,
            summary.relays_per_collection@ == Map::<Seq<char>, usize>::empty(),
    {
        ValidationSummary {
            relay_count: 0,
            collection_count: 0,
            relays_per_collection: TextMap::new(),
        }
    }
}

// ---- what is validated ----------------------------------------------------

/// The parts of a relay entry that the rules speak of.
pub struct EntryFacts {
    pub url: crate::relay_url::UrlView,
    pub collections: Seq<Seq<char>>,
    pub country: Option<Seq<char>>,
    pub geohash: Option<Seq<char>>,
}

/// A relay entry of any catalog layout.
pub trait CatalogEntry {
    spec fn facts(&self) -> EntryFacts;

    fn entry_url(&self) -> (url: &RelayUrl)
        ensures
            url@ == self.facts().url,
    ;

    fn entry_collections(&self) -> (collections: &Vec<String>)
        ensures
            text::texts(collections@) == self.facts().collections,
    ;

    fn entry_country(&self) -> (country: &Option<String>)
        ensures
            text::opt_text(*country) == self.facts().country,
    ;

    fn entry_geohash(&self) -> (geohash: Option<&String>)
        ensures
            match geohash {
                Some(g) => self.facts().geohash == Some(g@),
                None => self.facts().geohash is None,
            },
    ;
}

impl CatalogEntry for Relay {
    open spec fn facts(&self) -> EntryFacts {
        EntryFacts {
            url: self@.url,
            collections: self@.collections,
            country: self@.country,
            geohash: self@.geohash,
        }
    }

    fn entry_url(&self) -> (url: &RelayUrl) {
        &self.url
    }

    fn entry_collections(&self) -> (collections: &Vec<String>) {
        &self.collections
    }

    fn entry_country(&self) -> (country: &Option<String>) {
        &self.country
    }

    fn entry_geohash(&self) -> (geohash: Option<&String>) {
        match &self.geohash {
            Some(geohash) => Some(geohash),
            None => None,
        }
    }
}

/// What the rules see of a list of entries.
pub open spec fn facts_of<E: CatalogEntry>(entries: Seq<E>) -> Seq<EntryFacts> {
    entries.map_values(|e: E| e.facts())
}

/// What the rules see of a list of collections.
pub open spec fn collections_of(collections: Seq<Collection>) -> Seq<crate::model::CollectionView> {
    collections.map_values(|c: Collection| c@)
}

/// The rules in which catalog layouts differ.
pub struct Rules {
    /// The layout version that a catalog must state.
    pub schema_version: &'static str,
    /// Whether `T1` stands for a service that is only reachable over Tor.
    pub tor_country: bool,
}

// ---- syntactic rules ------------------------------------------------------

pub open spec fn kebab_char(c: char) -> bool {
    text::is_ascii_lower(c) || text::is_ascii_digit(c) || c == '-'
}

/// Small letters, digits and inner hyphens, at least one character.
pub open spec fn kebab_case(s: Seq<char>) -> bool {
    &&& s.len() > 0
    &&& forall|i: int| 0 <= i < s.len() ==> kebab_char(#[trigger] s[i])
    &&& s[0] != '-'
    &&& s.last() != '-'
}

/// `true` for lowercase kebab-case identifiers.
pub fn is_kebab_case(identifier: &str) -> (yes: bool)
    ensures
        yes == kebab_case(identifier@),
{
    let chars = text::to_chars(identifier);
    if chars.len() == 0 {
        return false;
    }
    let mut i: usize = 0;
    while i < chars.len()
        invariant
            i <= chars@.len(),
            chars@ == identifier@,
            forall|j: int| 0 <= j < i ==> kebab_char(#[trigger] chars@[j]),
        decreases chars@.len() - i,
    {
        let c = chars[i];
        if !(('a' <= c && c <= 'z') || ('0' <= c && c <= '9') || c == '-') {
            assert(!kebab_char(identifier@[i as int]));
            return false;
        }
        i += 1;
    }
    chars[0] != '-' && chars[chars.len() - 1] != '-'
}

/// The base32 alphabet of geohashes: no `a`, `i`, `l`, `o`.
pub open spec fn geohash_char(c: char) -> bool {
    text::is_ascii_digit(c) || (text::is_ascii_lower(c) && c != 'a' && c != 'i' && c != 'l' && c
        != 'o')
}

/// One to twelve characters of the geohash alphabet.
pub open spec fn geohash_text(s: Seq<char>) -> bool {
    &&& 1 <= s.len() <= 12
    &&& forall|i: int| 0 <= i < s.len() ==> geohash_char(#[trigger] s[i])
}

/// `true` when `value` is a syntactically valid NIP-52 geohash: 1–12
/// characters drawn from the base32 geohash alphabet (no `a`, `i`, `l`, `o`).
pub fn is_valid_geohash(value: &str) -> (yes: bool)
    ensures
        yes == geohash_text(value@),
{
    let chars = text::to_chars(value);
    if chars.len() == 0 || chars.len() > 12 {
        return false;
    }
    let mut i: usize = 0;
    while i < chars.len()
        invariant
            i <= chars@.len(),
            chars@ == value@,
            forall|j: int| 0 <= j < i ==> geohash_char(#[trigger] chars@[j]),
        decreases chars@.len() - i,
    {
        let c = chars[i];
        let letter = 'a' <= c && c <= 'z' && c != 'a' && c != 'i' && c != 'l' && c != 'o';
        if !(('0' <= c && c <= '9') || letter) {
            assert(!geohash_char(value@[i as int]));
            return false;
        }
        i += 1;
    }
    true
}

/// Two capital letters, or `T1` where that is a country; space around it is
/// allowed.
pub open spec fn country_text(country: Seq<char>, tor_country: bool) -> bool {
    let code = text::trimmed(country);
    ||| (code.len() == 2 && text::is_ascii_upper(code[0]) && text::is_ascii_upper(code[1]))
    ||| (tor_country && code == "T1"@)
}

/// `true` for an ISO-3166 alpha-2 uppercase code, `XX` among them, and for
/// `T1` where that is a country.
pub fn is_valid_country(country: &str, tor_country: bool) -> (yes: bool)
    ensures
        yes == country_text(country@, tor_country),
{
    let code = text::trim(country);
    let chars = text::to_chars(code.as_str());
    let letters = chars.len() == 2 && 'A' <= chars[0] && chars[0] <= 'Z' && 'A' <= chars[1]
        && chars[1] <= 'Z';
    letters || (tor_country && text::same_text(code.as_str(), "T1"))
}

// ---- violations -----------------------------------------------------------

/// The message, where the rule is broken.
pub open spec fn when(broken: bool, message: Seq<char>) -> Seq<Seq<char>> {
    if broken {
        seq![message]
    } else {
        Seq::empty()
    }
}

/// The `i`-th text of the list occurs before that place too.
pub open spec fn repeated(list: Seq<Seq<char>>, i: int) -> bool {
    exists|j: int| 0 <= j < i && #[trigger] list[j] == list[i]
}

pub open spec fn schema_violations(found: Seq<char>, expected: Seq<char>) -> Seq<Seq<char>> {
    when(
        found != expected,
        "schema_version must be \""@ + expected + "\", got "@ + text::quoted(found),
    )
}

pub open spec fn ids_of(collections: Seq<crate::model::CollectionView>) -> Seq<Seq<char>> {
    collections.map_values(|c: crate::model::CollectionView| c.id)
}

/// What is wrong with the `i`-th collection.
pub open spec fn collection_violations(
    collections: Seq<crate::model::CollectionView>,
    i: int,
) -> Seq<Seq<char>> {
    let c = collections[i];
    if text::is_blank(c.id) {
        seq!["collection with empty id"@]
    } else {
        when(repeated(ids_of(collections), i), "duplicate collection id: "@ + c.id) + when(
            !kebab_case(c.id),
            "collection id "@ + text::quoted(c.id) + " must be lowercase kebab-case"@,
        ) + when(
            text::is_blank(c.name),
            "collection "@ + text::quoted(c.id) + " has empty name"@,
        )
    }
}

/// What is wrong with the first `n` collections, in order.
pub open spec fn collections_violations(
    collections: Seq<crate::model::CollectionView>,
    n: int,
) -> Seq<Seq<char>>
    decreases n,
{
    if n <= 0 {
        Seq::empty()
    } else {
        collections_violations(collections, n - 1) + collection_violations(collections, n - 1)
    }
}

/// `id` belongs to a declared collection. A blank id declares nothing.
pub open spec fn is_declared(
    collections: Seq<crate::model::CollectionView>,
    id: Seq<char>,
) -> bool {
    !text::is_blank(id) && ids_of(collections).contains(id)
}

/// The declared ids.
pub open spec fn declared(collections: Seq<crate::model::CollectionView>) -> Set<Seq<char>> {
    Set::new(|id: Seq<char>| is_declared(collections, id))
}

/// What is wrong with the `i`-th collection reference of a relay.
pub open spec fn reference_violations(
    href: Seq<char>,
    list: Seq<Seq<char>>,
    known: Set<Seq<char>>,
    i: int,
) -> Seq<Seq<char>> {
    when(
        !known.contains(list[i]),
        "relay "@ + href + " references unknown collection "@ + text::quoted(list[i]),
    ) + when(
        repeated(list, i),
        "relay "@ + href + " lists collection "@ + text::quoted(list[i]) + " more than once"@,
    )
}

/// What is wrong with the first `n` collection references of a relay.
pub open spec fn references_violations(
    href: Seq<char>,
    list: Seq<Seq<char>>,
    known: Set<Seq<char>>,
    n: int,
) -> Seq<Seq<char>>
    decreases n,
{
    if n <= 0 {
        Seq::empty()
    } else {
        references_violations(href, list, known, n - 1) + reference_violations(
            href,
            list,
            known,
            n - 1,
        )
    }
}

pub open spec fn web_socket_scheme(scheme: Seq<char>) -> bool {
    scheme == "wss"@ || scheme == "ws"@
}

/// An unencrypted address outside the Tor network.
pub open spec fn plain_outside_tor(url: crate::relay_url::UrlView) -> bool {
    url.scheme == "ws"@ && !probe::is_onion(url)
}

/// What is wrong with the address of a relay and with its list as a whole.
pub open spec fn address_violations(
    url: crate::relay_url::UrlView,
    list: Seq<Seq<char>>,
) -> Seq<Seq<char>> {
    when(
        !web_socket_scheme(url.scheme),
        "relay "@ + url.href + " must use wss:// or ws:// (got "@ + url.scheme + "://)"@,
    ) + when(
        plain_outside_tor(url),
        "relay "@ + url.href + " must use wss:// (ws:// is for onion hosts only)"@,
    ) + when(url.host is None, "relay "@ + url.href + " has no host"@) + when(
        list.len() == 0,
        "relay "@ + url.href + " has no collections"@,
    )
}

pub open spec fn country_hint(tor_country: bool) -> Seq<char> {
    if tor_country {
        " (expected ISO-3166 alpha-2 uppercase, or XX/T1)"@
    } else {
        " (expected ISO-3166 alpha-2 uppercase, or XX)"@
    }
}

/// What is wrong with where a relay says it is.
pub open spec fn location_violations(facts: EntryFacts, tor_country: bool) -> Seq<Seq<char>> {
    let href = facts.url.href;
    (match facts.country {
        Some(country) => when(
            !country_text(country, tor_country),
            "relay "@ + href + " has invalid country "@ + text::quoted(country) + country_hint(
                tor_country,
            ),
        ),
        None => Seq::empty(),
    }) + (match facts.geohash {
        Some(geohash) => when(
            !geohash_text(text::trimmed(geohash)),
            "relay "@ + href + " has invalid geohash "@ + text::quoted(geohash)
                + " (expected 1–12 base32 geohash chars)"@,
        ),
        None => Seq::empty(),
    })
}

/// What is wrong with one relay entry by itself.
pub open spec fn relay_violations(
    facts: EntryFacts,
    known: Set<Seq<char>>,
    tor_country: bool,
) -> Seq<Seq<char>> {
    address_violations(facts.url, facts.collections) + references_violations(
        facts.url.href,
        facts.collections,
        known,
        facts.collections.len() as int,
    ) + location_violations(facts, tor_country)
}

/// The addresses of the entries, without regard to the case of letters.
pub open spec fn folded_urls(entries: Seq<EntryFacts>) -> Seq<Seq<char>> {
    entries.map_values(|e: EntryFacts| text::ascii_lower(e.url.href))
}

/// What is wrong with the first `n` relay entries, in order.
pub open spec fn relays_violations(
    entries: Seq<EntryFacts>,
    known: Set<Seq<char>>,
    tor_country: bool,
    n: int,
) -> Seq<Seq<char>>
    decreases n,
{
    if n <= 0 {
        Seq::empty()
    } else {
        relays_violations(entries, known, tor_country, n - 1) + relay_violations(
            entries[n - 1],
            known,
            tor_country,
        ) + when(
            repeated(folded_urls(entries), n - 1),
            "duplicate relay url: "@ + entries[n - 1].url.href,
        )
    }
}

/// Every violation of a catalog, in the order in which they are reported.
pub open spec fn violations(
    schema_version: Seq<char>,
    collections: Seq<crate::model::CollectionView>,
    entries: Seq<EntryFacts>,
    rules: Rules,
) -> Seq<Seq<char>> {
    schema_violations(schema_version, rules.schema_version@) + collections_violations(
        collections,
        collections.len() as int,
    ) + relays_violations(
        entries,
        declared(collections),
        rules.tor_country,
        entries.len() as int,
    )
}

/// How many of the entries list the collection `id`.
pub open spec fn relays_listing(entries: Seq<EntryFacts>, id: Seq<char>) -> nat
    decreases entries.len(),
{
    if entries.len() == 0 {
        0
    } else {
        relays_listing(entries.drop_last(), id) + if entries.last().collections.contains(id) {
            1nat
        } else {
            0nat
        }
    }
}

/// The lines of a failure report.
pub open spec fn report_lines(messages: Seq<Seq<char>>) -> Seq<Seq<char>> {
    messages.map_values(|m: Seq<char>| "  - "@ + m)
}

/// What validation answers: a summary when no rule is broken, and otherwise
/// every violation.
pub open spec fn verdict(
    result: Result<ValidationSummary, ValidationError>,
    schema_version: Seq<char>,
    collections: Seq<crate::model::CollectionView>,
    entries: Seq<EntryFacts>,
    rules: Rules,
) -> bool {
    let broken = violations(schema_version, collections, entries, rules);
    match result {
        Ok(summary) => {
            &&& broken.len() == 0
            &&& summary.relay_count == entries.len()
            &&& summary.collection_count == collections.len()
            &&& forall|id: Seq<char>|
                (#[trigger] summary.relays_per_collection@.contains_key(id) <==> relays_listing(
                    entries,
                    id,
                ) > 0) && (summary.relays_per_collection@.contains_key(id)
                    ==> summary.relays_per_collection@[id] == relays_listing(entries, id))
        },
        Err(ValidationError::Failed { count, details }) => {
            &&& broken.len() > 0
            &&& count == broken.len()
            &&& details@ == text::joined(report_lines(broken), "\n"@)
        },
    }
}

// ---- collecting violations ------------------------------------------------

fn report(errors: &mut Vec<String>, message: String)
    ensures
        text::texts(final(errors)@) == text::texts(old(errors)@).push(message@),
{
    let ghost before = errors@;
    errors.push(message);
    assert(text::texts(errors@) =~= text::texts(before).push(message@));
}

/// `prefix`, `subject`, `suffix` in a row.
fn sentence(prefix: &str, subject: &str, suffix: &str) -> (s: String)
    ensures
        s@ == prefix@ + subject@ + suffix@,
{
    let mut s = prefix.to_owned();
    s.append(subject);
    s.append(suffix);
    s
}

fn check_schema(found: &str, expected: &str, errors: &mut Vec<String>)
    ensures
        text::texts(final(errors)@) == text::texts(old(errors)@) + schema_violations(
            found@,
            expected@,
        ),
{
    let ghost start = text::texts(errors@);
    if !text::same_text(found, expected) {
        let mut message = sentence("schema_version must be \"", expected, "\", got ");
        message.append(text::quote(found).as_str());
        report(errors, message);
    }
    assert(text::texts(errors@) =~= start + schema_violations(found@, expected@));
}

fn check_collection(collection: &Collection, is_repeated: bool, errors: &mut Vec<String>)
    requires
        !text::is_blank(collection@.id),
    ensures
        text::texts(final(errors)@) == text::texts(old(errors)@) + (when(
            is_repeated,
            "duplicate collection id: "@ + collection@.id,
        ) + when(
            !kebab_case(collection@.id),
            "collection id "@ + text::quoted(collection@.id) + " must be lowercase kebab-case"@,
        ) + when(
            text::is_blank(collection@.name),
            "collection "@ + text::quoted(collection@.id) + " has empty name"@,
        )),
{
    let ghost start = text::texts(errors@);
    let id = collection.id.as_str();
    if is_repeated {
        let mut message = "duplicate collection id: ".to_owned();
        message.append(id);
        report(errors, message);
    }
    let ghost first = when(is_repeated, "duplicate collection id: "@ + collection@.id);
    assert(text::texts(errors@) =~= start + first);
    if !is_kebab_case(id) {
        let quotation = text::quote(id);
        let message = sentence(
            "collection id ",
            quotation.as_str(),
            " must be lowercase kebab-case",
        );
        report(errors, message);
    }
    let ghost second = when(
        !kebab_case(collection@.id),
        "collection id "@ + text::quoted(collection@.id) + " must be lowercase kebab-case"@,
    );
    assert(text::texts(errors@) =~= start + (first + second));
    if text::trim(collection.name.as_str()).as_str().is_empty() {
        let quotation = text::quote(id);
        report(errors, sentence("collection ", quotation.as_str(), " has empty name"));
    }
    let ghost third = when(
        text::is_blank(collection@.name),
        "collection "@ + text::quoted(collection@.id) + " has empty name"@,
    );
    assert(text::texts(errors@) =~= start + (first + second + third));
}

/// Report what is wrong with the collections, and return the declared ids.
fn validate_collections(collections: &Vec<Collection>, errors: &mut Vec<String>) -> (ids: TextMap<()>)
    ensures
        text::texts(final(errors)@) == text::texts(old(errors)@) + collections_violations(
            collections_of(collections@),
            collections@.len() as int,
        ),
        ids@.dom() == declared(collections_of(collections@)),
{
    let ghost start = text::texts(errors@);
    let ghost model = collections_of(collections@);
    let ghost list = ids_of(model);
    let mut ids: TextMap<()> = TextMap::new();
    let mut i: usize = 0;
    assert(start + Seq::<Seq<char>>::empty() =~= start);
    while i < collections.len()
        invariant
            i <= collections@.len(),
            model == collections_of(collections@),
            list == ids_of(model),
            text::texts(errors@) == start + collections_violations(model, i as int),
            forall|k: Seq<char>|
                #![trigger ids@.contains_key(k)]
                ids@.contains_key(k) <==> !text::is_blank(k) && list.take(i as int).contains(k),
        decreases collections@.len() - i,
    {
        let collection = &collections[i];
        let ghost before = text::texts(errors@);
        let ghost known = ids@;
        let ghost id = collection@.id;
        assert(model[i as int] == collection@);
        assert(list[i as int] == id);
        assert(list.take(i + 1) =~= list.take(i as int).push(id));
        if text::trim(collection.id.as_str()).as_str().is_empty() {
            report(errors, "collection with empty id".to_owned());
            assert(text::texts(errors@) =~= before + collection_violations(model, i as int));
        } else {
            let fresh = ids.insert(collection.id.clone(), ());
            assert(!fresh == repeated(list, i as int)) by {
                if known.contains_key(id) {
                    let j = list.take(i as int).index_of(id);
                    assert(list[j] == list[i as int]);
                }
                if repeated(list, i as int) {
                    let j = choose|j: int| 0 <= j < i && list[j] == list[i as int];
                    assert(list.take(i as int)[j] == id);
                    assert(list.take(i as int).contains(id));
                }
            }
            check_collection(collection, !fresh, errors);
        }
        assert forall|k: Seq<char>|
            #![trigger ids@.contains_key(k)]
            ids@.contains_key(k) <==> !text::is_blank(k) && list.take(i + 1).contains(k) by {
            let earlier = list.take(i as int);
            if earlier.push(id).contains(k) {
                let j = earlier.push(id).index_of(k);
                assert(j < i ==> earlier[j] == k);
            }
            if earlier.contains(k) {
                let j = earlier.index_of(k);
                assert(earlier.push(id)[j] == k);
            }
            assert(earlier.push(id)[i as int] == id);
            assert(ids@.contains_key(k) ==> known.contains_key(k) || k == id);
            assert(known.contains_key(k) ==> ids@.contains_key(k));
        }
        assert(text::texts(errors@) =~= start + collections_violations(model, i + 1));
        i += 1;
    }
    assert(list.take(i as int) =~= list);
    assert(ids@.dom() =~= declared(model));
    ids
}

/// Report what is wrong with the collection references of one relay.
fn check_references(
    href: &str,
    list: &Vec<String>,
    known: &TextMap<()>,
    errors: &mut Vec<String>,
)
    ensures
        text::texts(final(errors)@) == text::texts(old(errors)@) + references_violations(
            href@,
            text::texts(list@),
            known@.dom(),
            list@.len() as int,
        ),
{
    let ghost start = text::texts(errors@);
    let ghost model = text::texts(list@);
    let ghost ids = known@.dom();
    let mut seen: TextMap<()> = TextMap::new();
    let mut i: usize = 0;
    assert(start + Seq::<Seq<char>>::empty() =~= start);
    while i < list.len()
        invariant
            i <= list@.len(),
            model == text::texts(list@),
            ids == known@.dom(),
            text::texts(errors@) == start + references_violations(href@, model, ids, i as int),
            forall|k: Seq<char>|
                #![trigger seen@.contains_key(k)]
                seen@.contains_key(k) <==> model.take(i as int).contains(k),
        decreases list@.len() - i,
    {
        let id = list[i].as_str();
        let ghost before = text::texts(errors@);
        let ghost earlier = seen@;
        assert(model[i as int] == id@);
        assert(model.take(i + 1) =~= model.take(i as int).push(id@));
        if !known.contains_key(id) {
            let mut message = sentence("relay ", href, " references unknown collection ");
            message.append(text::quote(id).as_str());
            report(errors, message);
        }
        let ghost first = when(
            !ids.contains(id@),
            "relay "@ + href@ + " references unknown collection "@ + text::quoted(id@),
        );
        assert(text::texts(errors@) =~= before + first);
        let fresh = seen.insert(list[i].clone(), ());
        assert(!fresh == repeated(model, i as int)) by {
            if earlier.contains_key(id@) {
                let j = model.take(i as int).index_of(id@);
                assert(model[j] == model[i as int]);
            }
            if repeated(model, i as int) {
                let j = choose|j: int| 0 <= j < i && model[j] == model[i as int];
                assert(model.take(i as int)[j] == id@);
                assert(model.take(i as int).contains(id@));
            }
        }
        if !fresh {
            let mut message = sentence("relay ", href, " lists collection ");
            message.append(text::quote(id).as_str());
            message.append(" more than once");
            report(errors, message);
        }
        assert(text::texts(errors@) =~= before + reference_violations(href@, model, ids, i as int));
        assert(text::texts(errors@) =~= start + references_violations(href@, model, ids, i + 1));
        assert forall|k: Seq<char>|
            #![trigger seen@.contains_key(k)]
            seen@.contains_key(k) <==> model.take(i + 1).contains(k) by {
            let prefix = model.take(i as int);
            if prefix.push(id@).contains(k) {
                let j = prefix.push(id@).index_of(k);
                assert(j < i ==> prefix[j] == k);
            }
            if prefix.contains(k) {
                let j = prefix.index_of(k);
                assert(prefix.push(id@)[j] == k);
            }
            assert(prefix.push(id@)[i as int] == id@);
            assert(seen@.contains_key(k) ==> earlier.contains_key(k) || k == id@);
            assert(earlier.contains_key(k) ==> seen@.contains_key(k));
        }
        i += 1;
    }
}

fn check_address(url: &RelayUrl, list: &Vec<String>, errors: &mut Vec<String>)
    ensures
        text::texts(final(errors)@) == text::texts(old(errors)@) + address_violations(
            url@,
            text::texts(list@),
        ),
{
    let ghost start = text::texts(errors@);
    let href = url.as_str();
    let scheme = url.scheme();
    if !text::same_text(scheme, "wss") && !text::same_text(scheme, "ws") {
        let mut message = sentence("relay ", href, " must use wss:// or ws:// (got ");
        message.append(scheme);
        message.append("://)");
        report(errors, message);
    }
    let ghost first = when(
        !web_socket_scheme(url@.scheme),
        "relay "@ + url@.href + " must use wss:// or ws:// (got "@ + url@.scheme + "://)"@,
    );
    assert(text::texts(errors@) =~= start + first);
    let onion = match url.host_str() {
        Some(host) => is_onion_host(host),
        None => false,
    };
    if text::same_text(scheme, "ws") && !onion {
        let message = sentence(
            "relay ",
            href,
            " must use wss:// (ws:// is for onion hosts only)",
        );
        report(errors, message);
    }
    let ghost second = when(
        plain_outside_tor(url@),
        "relay "@ + url@.href + " must use wss:// (ws:// is for onion hosts only)"@,
    );
    assert(text::texts(errors@) =~= start + (first + second));
    if url.host_str().is_none() {
        report(errors, sentence("relay ", href, " has no host"));
    }
    let ghost third = when(url@.host is None, "relay "@ + url@.href + " has no host"@);
    assert(text::texts(errors@) =~= start + (first + second + third));
    if list.len() == 0 {
        report(errors, sentence("relay ", href, " has no collections"));
    }
    assert(text::texts(errors@) =~= start + address_violations(url@, text::texts(list@)));
}

fn check_country(href: &str, country: &str, tor_country: bool, errors: &mut Vec<String>)
    ensures
        text::texts(final(errors)@) == text::texts(old(errors)@) + when(
            !country_text(country@, tor_country),
            "relay "@ + href@ + " has invalid country "@ + text::quoted(country@) + country_hint(
                tor_country,
            ),
        ),
{
    let ghost start = text::texts(errors@);
    if !is_valid_country(country, tor_country) {
        let mut message = sentence("relay ", href, " has invalid country ");
        message.append(text::quote(country).as_str());
        if tor_country {
            message.append(" (expected ISO-3166 alpha-2 uppercase, or XX/T1)");
        } else {
            message.append(" (expected ISO-3166 alpha-2 uppercase, or XX)");
        }
        report(errors, message);
    }
    assert(text::texts(errors@) =~= start + when(
        !country_text(country@, tor_country),
        "relay "@ + href@ + " has invalid country "@ + text::quoted(country@) + country_hint(
            tor_country,
        ),
    ));
}

fn check_geohash(href: &str, geohash: &str, errors: &mut Vec<String>)
    ensures
        text::texts(final(errors)@) == text::texts(old(errors)@) + when(
            !geohash_text(text::trimmed(geohash@)),
            "relay "@ + href@ + " has invalid geohash "@ + text::quoted(geohash@)
                + " (expected 1–12 base32 geohash chars)"@,
        ),
{
    let ghost start = text::texts(errors@);
    if !is_valid_geohash(text::trim(geohash).as_str()) {
        let mut message = sentence("relay ", href, " has invalid geohash ");
        message.append(text::quote(geohash).as_str());
        message.append(" (expected 1–12 base32 geohash chars)");
        report(errors, message);
    }
    assert(text::texts(errors@) =~= start + when(
        !geohash_text(text::trimmed(geohash@)),
        "relay "@ + href@ + " has invalid geohash "@ + text::quoted(geohash@)
            + " (expected 1–12 base32 geohash chars)"@,
    ));
}

/// Report what is wrong with one relay entry by itself.
fn validate_relay<E: CatalogEntry>(
    entry: &E,
    known: &TextMap<()>,
    tor_country: bool,
    errors: &mut Vec<String>,
)
    ensures
        text::texts(final(errors)@) == text::texts(old(errors)@) + relay_violations(
            entry.facts(),
            known@.dom(),
            tor_country,
        ),
{
    let ghost start = text::texts(errors@);
    let ghost facts = entry.facts();
    let url = entry.entry_url();
    let list = entry.entry_collections();
    check_address(url, list, errors);
    let ghost address = address_violations(facts.url, facts.collections);
    check_references(url.as_str(), list, known, errors);
    let ghost references = references_violations(
        facts.url.href,
        facts.collections,
        known@.dom(),
        facts.collections.len() as int,
    );
    assert(text::texts(errors@) =~= start + (address + references));
    let ghost middle = text::texts(errors@);
    if let Some(country) = entry.entry_country() {
        check_country(url.as_str(), country.as_str(), tor_country, errors);
    }
    if let Some(geohash) = entry.entry_geohash() {
        check_geohash(url.as_str(), geohash.as_str(), errors);
    }
    assert(text::texts(errors@) =~= middle + location_violations(facts, tor_country));
    assert(text::texts(errors@) =~= start + relay_violations(facts, known@.dom(), tor_country));
}

// ---- counting references --------------------------------------------------

/// How often `id` stands among the first `n` texts of a list.
spec fn occurrences(list: Seq<Seq<char>>, id: Seq<char>, n: int) -> nat
    decreases n,
{
    if n <= 0 {
        0
    } else {
        occurrences(list, id, n - 1) + if list[n - 1] == id {
            1nat
        } else {
            0nat
        }
    }
}

/// How often the first `n` entries refer to `id`, repetitions counted.
spec fn mentions(entries: Seq<EntryFacts>, id: Seq<char>, n: int) -> nat
    decreases n,
{
    if n <= 0 {
        0
    } else {
        mentions(entries, id, n - 1) + occurrences(
            entries[n - 1].collections,
            id,
            entries[n - 1].collections.len() as int,
        )
    }
}

/// `n`, but no more than fits.
spec fn capped(n: nat) -> int {
    if n <= usize::MAX {
        n as int
    } else {
        usize::MAX as int
    }
}

/// The counters stand at `total`, as far as that fits; what is not counted has
/// no counter.
spec fn counters_at(counts: Map<Seq<char>, usize>, total: spec_fn(Seq<char>) -> nat) -> bool {
    forall|id: Seq<char>|
        (#[trigger] counts.contains_key(id) <==> total(id) > 0) && (counts.contains_key(id)
            ==> counts[id] == capped(total(id)))
}

/// Count the references of one relay on top of `total`.
fn count_references(
    list: &Vec<String>,
    counts: &mut TextMap<usize>,
    total: Ghost<spec_fn(Seq<char>) -> nat>,
)
    requires
        counters_at(old(counts)@, total@),
    ensures
        counters_at(
            final(counts)@,
            |id: Seq<char>|
                total@(id) + occurrences(text::texts(list@), id, list@.len() as int),
        ),
{
    let ghost model = text::texts(list@);
    let ghost now = |id: Seq<char>| total@(id) + occurrences(model, id, 0);
    assert(counters_at(counts@, now)) by {
        assert forall|id: Seq<char>| #[trigger] now(id) == total@(id) by {}
    }
    let mut i: usize = 0;
    while i < list.len()
        invariant
            i <= list@.len(),
            model == text::texts(list@),
            now == (|id: Seq<char>| total@(id) + occurrences(model, id, i as int)),
            counters_at(counts@, now),
        decreases list@.len() - i,
    {
        let ghost before = counts@;
        let ghost past = now;
        let id = list[i].as_str();
        assert(model[i as int] == id@);
        let count: usize = match counts.get(id) {
            Some(n) => *n,
            None => 0,
        };
        assert(count == capped(past(id@)));
        counts.insert(list[i].clone(), count.saturating_add(1));
        proof {
            now = |id: Seq<char>| total@(id) + occurrences(model, id, i + 1);
            assert forall|k: Seq<char>|
                (#[trigger] counts@.contains_key(k) <==> now(k) > 0) && (counts@.contains_key(k)
                    ==> counts@[k] == capped(now(k))) by {
                assert(past(k) == total@(k) + occurrences(model, k, i as int));
                assert(now(k) == past(k) + if k == id@ {
                    1nat
                } else {
                    0nat
                });
                assert(before.contains_key(k) <==> past(k) > 0);
            }
        }
        i += 1;
    }
}

/// Report what is wrong with the relays, and count the references to each
/// collection.
fn validate_relays<E: CatalogEntry>(
    entries: &Vec<E>,
    known: &TextMap<()>,
    tor_country: bool,
    errors: &mut Vec<String>,
) -> (counts: TextMap<usize>)
    ensures
        text::texts(final(errors)@) == text::texts(old(errors)@) + relays_violations(
            facts_of(entries@),
            known@.dom(),
            tor_country,
            entries@.len() as int,
        ),
        counters_at(
            counts@,
            |id: Seq<char>| mentions(facts_of(entries@), id, entries@.len() as int),
        ),
{
    let ghost start = text::texts(errors@);
    let ghost model = facts_of(entries@);
    let ghost folded = folded_urls(model);
    let ghost ids = known@.dom();
    let mut urls: TextMap<()> = TextMap::new();
    let mut counts: TextMap<usize> = TextMap::new();
    let ghost now = |id: Seq<char>| mentions(model, id, 0);
    let mut i: usize = 0;
    assert(start + Seq::<Seq<char>>::empty() =~= start);
    while i < entries.len()
        invariant
            i <= entries@.len(),
            model == facts_of(entries@),
            folded == folded_urls(model),
            ids == known@.dom(),
            text::texts(errors@) == start + relays_violations(model, ids, tor_country, i as int),
            now == (|id: Seq<char>| mentions(model, id, i as int)),
            counters_at(counts@, now),
            forall|k: Seq<char>|
                #![trigger urls@.contains_key(k)]
                urls@.contains_key(k) <==> folded.take(i as int).contains(k),
        decreases entries@.len() - i,
    {
        let entry = &entries[i];
        let ghost before = text::texts(errors@);
        let ghost facts = entry.facts();
        assert(model[i as int] == facts);
        validate_relay(entry, known, tor_country, errors);
        let key = text::to_ascii_lowercase(entry.entry_url().as_str());
        let ghost earlier = urls@;
        let ghost k0 = key@;
        assert(folded[i as int] == k0);
        assert(folded.take(i + 1) =~= folded.take(i as int).push(k0));
        let fresh = urls.insert(key, ());
        assert(!fresh == repeated(folded, i as int)) by {
            if earlier.contains_key(k0) {
                let j = folded.take(i as int).index_of(k0);
                assert(folded[j] == folded[i as int]);
            }
            if repeated(folded, i as int) {
                let j = choose|j: int| 0 <= j < i && folded[j] == folded[i as int];
                assert(folded.take(i as int)[j] == k0);
                assert(folded.take(i as int).contains(k0));
            }
        }
        if !fresh {
            let mut message = "duplicate relay url: ".to_owned();
            message.append(entry.entry_url().as_str());
            report(errors, message);
        }
        assert(text::texts(errors@) =~= start + relays_violations(model, ids, tor_country, i + 1));
        assert forall|k: Seq<char>|
            #![trigger urls@.contains_key(k)]
            urls@.contains_key(k) <==> folded.take(i + 1).contains(k) by {
            let prefix = folded.take(i as int);
            if prefix.push(k0).contains(k) {
                let j = prefix.push(k0).index_of(k);
                assert(j < i ==> prefix[j] == k);
            }
            if prefix.contains(k) {
                let j = prefix.index_of(k);
                assert(prefix.push(k0)[j] == k);
            }
            assert(prefix.push(k0)[i as int] == k0);
            assert(urls@.contains_key(k) ==> earlier.contains_key(k) || k == k0);
            assert(earlier.contains_key(k) ==> urls@.contains_key(k));
        }
        let list = entry.entry_collections();
        count_references(list, &mut counts, Ghost(now));
        proof {
            let past = now;
            let counted = |id: Seq<char>|
                past(id) + occurrences(facts.collections, id, facts.collections.len() as int);
            now = |id: Seq<char>| mentions(model, id, i + 1);
            assert forall|id: Seq<char>| #[trigger] now(id) == counted(id) by {}
            assert(now =~= counted);
        }
        i += 1;
    }
    counts
}

/// A list without repetitions holds each text at most once.
proof fn lemma_occurrences_distinct(list: Seq<Seq<char>>, id: Seq<char>, n: int)
    requires
        0 <= n <= list.len(),
        forall|i: int| 0 <= i < n ==> !#[trigger] repeated(list, i),
    ensures
        occurrences(list, id, n) == if list.take(n).contains(id) {
            1nat
        } else {
            0nat
        },
    decreases n,
{
    if n > 0 {
        lemma_occurrences_distinct(list, id, n - 1);
        let prefix = list.take(n - 1);
        assert(list.take(n) =~= prefix.push(list[n - 1]));
        assert(!repeated(list, n - 1));
        if prefix.contains(id) {
            let j = prefix.index_of(id);
            assert(list[j] == id);
            assert(list.take(n)[j] == id);
            assert(list[n - 1] != id);
        } else if list[n - 1] == id {
            assert(list.take(n)[n - 1] == id);
        } else if list.take(n).contains(id) {
            let j = list.take(n).index_of(id);
            assert(prefix[j] == id);
        }
    }
}

/// Where no relay lists a collection twice, the references to a collection are
/// the relays that list it.
proof fn lemma_mentions_are_relays(entries: Seq<EntryFacts>, id: Seq<char>, n: int)
    requires
        0 <= n <= entries.len(),
        forall|e: int, i: int|
            0 <= e < n && 0 <= i < entries[e].collections.len() ==> !#[trigger] repeated(
                entries[e].collections,
                i,
            ),
    ensures
        mentions(entries, id, n) == relays_listing(entries.take(n), id),
        mentions(entries, id, n) <= n,
    decreases n,
{
    if n > 0 {
        lemma_mentions_are_relays(entries, id, n - 1);
        let list = entries[n - 1].collections;
        lemma_occurrences_distinct(list, id, list.len() as int);
        assert(list.take(list.len() as int) =~= list);
        assert(entries.take(n).drop_last() =~= entries.take(n - 1));
    }
}

// ---- validity -------------------------------------------------------------

/// A collection is sound in itself.
pub open spec fn sound_collection(c: crate::model::CollectionView) -> bool {
    !text::is_blank(c.id) && kebab_case(c.id) && !text::is_blank(c.name)
}

/// No text occurs twice.
pub open spec fn distinct(list: Seq<Seq<char>>) -> bool {
    forall|i: int, j: int| 0 <= i < j < list.len() ==> #[trigger] list[i] != #[trigger] list[j]
}

/// A relay entry is sound in itself.
pub open spec fn sound_entry(
    facts: EntryFacts,
    known: Set<Seq<char>>,
    tor_country: bool,
) -> bool {
    &&& web_socket_scheme(facts.url.scheme)
    &&& !plain_outside_tor(facts.url)
    &&& facts.url.host is Some
    &&& facts.collections.len() > 0
    &&& forall|i: int| 0 <= i < facts.collections.len() ==> known.contains(#[trigger] facts.collections[i])
    &&& distinct(facts.collections)
    &&& facts.country matches Some(country) ==> country_text(country, tor_country)
    &&& facts.geohash matches Some(geohash) ==> geohash_text(text::trimmed(geohash))
}

/// A catalog keeps every rule.
pub open spec fn sound(
    schema_version: Seq<char>,
    collections: Seq<crate::model::CollectionView>,
    entries: Seq<EntryFacts>,
    rules: Rules,
) -> bool {
    &&& schema_version == rules.schema_version@
    &&& forall|i: int| 0 <= i < collections.len() ==> sound_collection(#[trigger] collections[i])
    &&& distinct(ids_of(collections))
    &&& forall|i: int|
        0 <= i < entries.len() ==> sound_entry(
            #[trigger] entries[i],
            declared(collections),
            rules.tor_country,
        )
    &&& distinct(folded_urls(entries))
}

proof fn lemma_distinct(list: Seq<Seq<char>>)
    ensures
        distinct(list) <==> (forall|i: int| 0 <= i < list.len() ==> !#[trigger] repeated(list, i)),
{
    if distinct(list) {
        assert forall|i: int| 0 <= i < list.len() implies !#[trigger] repeated(list, i) by {
            if repeated(list, i) {
                let j = choose|j: int| 0 <= j < i && list[j] == list[i];
                assert(list[j] != list[i]);
            }
        }
    }
    if forall|i: int| 0 <= i < list.len() ==> !#[trigger] repeated(list, i) {
        assert forall|i: int, j: int| 0 <= i < j < list.len() implies #[trigger] list[i]
            != #[trigger] list[j] by {
            assert(!repeated(list, j));
        }
    }
}

proof fn lemma_sound_collections(collections: Seq<crate::model::CollectionView>, n: int)
    requires
        0 <= n <= collections.len(),
    ensures
        collections_violations(collections, n).len() == 0 <==> (forall|i: int|
            0 <= i < n ==> sound_collection(#[trigger] collections[i]) && !repeated(
                ids_of(collections),
                i,
            )),
    decreases n,
{
    if n > 0 {
        lemma_sound_collections(collections, n - 1);
        let c = collections[n - 1];
        assert(collection_violations(collections, n - 1).len() == 0 <==> sound_collection(c)
            && !repeated(ids_of(collections), n - 1));
    }
}

proof fn lemma_sound_references(
    href: Seq<char>,
    list: Seq<Seq<char>>,
    known: Set<Seq<char>>,
    n: int,
)
    requires
        0 <= n <= list.len(),
    ensures
        references_violations(href, list, known, n).len() == 0 <==> (forall|i: int|
            0 <= i < n ==> known.contains(#[trigger] list[i]) && !repeated(list, i)),
    decreases n,
{
    if n > 0 {
        lemma_sound_references(href, list, known, n - 1);
        assert(reference_violations(href, list, known, n - 1).len() == 0 <==> known.contains(
            list[n - 1],
        ) && !repeated(list, n - 1));
    }
}

proof fn lemma_sound_entry(facts: EntryFacts, known: Set<Seq<char>>, tor_country: bool)
    ensures
        relay_violations(facts, known, tor_country).len() == 0 <==> sound_entry(
            facts,
            known,
            tor_country,
        ),
{
    let list = facts.collections;
    lemma_sound_references(facts.url.href, list, known, list.len() as int);
    lemma_distinct(list);
    if sound_entry(facts, known, tor_country) {
        assert forall|i: int| 0 <= i < list.len() implies known.contains(#[trigger] list[i])
            && !repeated(list, i) by {}
    }
    if relay_violations(facts, known, tor_country).len() == 0 {
        assert forall|i: int| 0 <= i < list.len() implies !#[trigger] repeated(list, i) by {
            assert(known.contains(list[i]));
        }
    }
}

proof fn lemma_sound_entries(
    entries: Seq<EntryFacts>,
    known: Set<Seq<char>>,
    tor_country: bool,
    n: int,
)
    requires
        0 <= n <= entries.len(),
    ensures
        relays_violations(entries, known, tor_country, n).len() == 0 <==> (forall|i: int|
            0 <= i < n ==> sound_entry(#[trigger] entries[i], known, tor_country) && !repeated(
                folded_urls(entries),
                i,
            )),
    decreases n,
{
    if n > 0 {
        lemma_sound_entries(entries, known, tor_country, n - 1);
        lemma_sound_entry(entries[n - 1], known, tor_country);
        let last = when(
            repeated(folded_urls(entries), n - 1),
            "duplicate relay url: "@ + entries[n - 1].url.href,
        );
        assert(relays_violations(entries, known, tor_country, n).len() == relays_violations(
            entries,
            known,
            tor_country,
            n - 1,
        ).len() + relay_violations(entries[n - 1], known, tor_country).len() + last.len());
    }
}

/// No violation is reported of exactly those catalogs that keep every rule.
pub proof fn law_accepts_exactly_sound_catalogs(
    schema_version: Seq<char>,
    collections: Seq<crate::model::CollectionView>,
    entries: Seq<EntryFacts>,
    rules: Rules,
)
    ensures
        violations(schema_version, collections, entries, rules).len() == 0 <==> sound(
            schema_version,
            collections,
            entries,
            rules,
        ),
{
    let known = declared(collections);
    let ids = ids_of(collections);
    let urls = folded_urls(entries);
    lemma_sound_collections(collections, collections.len() as int);
    lemma_sound_entries(entries, known, rules.tor_country, entries.len() as int);
    lemma_distinct(ids);
    lemma_distinct(urls);
    assert(violations(schema_version, collections, entries, rules).len() == schema_violations(
        schema_version,
        rules.schema_version@,
    ).len() + collections_violations(collections, collections.len() as int).len()
        + relays_violations(entries, known, rules.tor_country, entries.len() as int).len());
    if violations(schema_version, collections, entries, rules).len() == 0 {
        assert forall|i: int| 0 <= i < ids.len() implies !#[trigger] repeated(ids, i) by {
            assert(sound_collection(collections[i]));
        }
        assert forall|i: int| 0 <= i < urls.len() implies !#[trigger] repeated(urls, i) by {
            assert(sound_entry(entries[i], known, rules.tor_country));
        }
    }
}

/// Validate a catalog of any layout, collecting every rule violation.
pub fn validate_entries<E: CatalogEntry>(
    schema_version: &str,
    collections: &Vec<Collection>,
    entries: &Vec<E>,
    rules: &Rules,
) -> (result: Result<ValidationSummary, ValidationError>)
    ensures
        verdict(
            result,
            schema_version@,
            collections_of(collections@),
            facts_of(entries@),
            *rules,
        ),
{
    let ghost model = collections_of(collections@);
    let ghost facts = facts_of(entries@);
    let mut errors: Vec<String> = Vec::new();
    check_schema(schema_version, rules.schema_version, &mut errors);
    let known = validate_collections(collections, &mut errors);
    let counts = validate_relays(entries, &known, rules.tor_country, &mut errors);
    let ghost broken = violations(schema_version@, model, facts, *rules);
    assert(text::texts(errors@) =~= broken);
    let relay_count: usize = entries.len();
    if errors.len() == 0 {
        proof {
            law_accepts_exactly_sound_catalogs(schema_version@, model, facts, *rules);
            assert forall|e: int, i: int|
                0 <= e < facts.len() && 0 <= i < facts[e].collections.len() implies !#[trigger] repeated(
                facts[e].collections,
                i,
            ) by {
                assert(sound_entry(facts[e], declared(model), rules.tor_country));
                lemma_distinct(facts[e].collections);
            }
            assert(facts.take(facts.len() as int) =~= facts);
            assert forall|id: Seq<char>|
                (#[trigger] counts@.contains_key(id) <==> relays_listing(facts, id) > 0) && (
                counts@.contains_key(id) ==> counts@[id] == relays_listing(facts, id)) by {
                lemma_mentions_are_relays(facts, id, facts.len() as int);
            }
        }
        Ok(
            ValidationSummary {
                relay_count,
                collection_count: collections.len(),
                relays_per_collection: counts,
            },
        )
    } else {
        let mut lines: Vec<String> = Vec::new();
        let mut i: usize = 0;
        while i < errors.len()
            invariant
                i <= errors@.len(),
                text::texts(errors@) == broken,
                text::texts(lines@) == report_lines(broken.take(i as int)),
            decreases errors@.len() - i,
        {
            let mut line = "  - ".to_owned();
            line.append(errors[i].as_str());
            assert(broken[i as int] == errors@[i as int]@);
            assert(report_lines(broken.take(i + 1)) =~= report_lines(broken.take(i as int)).push(
                "  - "@ + broken[i as int],
            ));
            report(&mut lines, line);
            i += 1;
        }
        assert(broken.take(i as int) =~= broken);
        let details = text::join(&lines, "\n");
        Err(ValidationError::Failed { count: errors.len(), details })
    }
}

/// The rules of the current catalog layout.
pub open spec fn current_rules() -> Rules {
    Rules { schema_version: "2", tor_country: false }
}

/// Validate the full [`Dataset`], collecting every rule violation.
pub fn validate(dataset: &Dataset) -> (result: Result<ValidationSummary, ValidationError>)
    ensures
        verdict(
            result,
            dataset@.schema_version,
            dataset@.collections,
            facts_of(dataset.relays@),
            current_rules(),
        ),
{
    let rules = Rules { schema_version: "2", tor_country: false };
    validate_entries(
        dataset.schema_version.as_str(),
        &dataset.collections,
        &dataset.relays,
        &rules,
    )
}

// ---- laws -----------------------------------------------------------------

/// An identifier is in kebab case when it is not empty and each of its characters is a
/// small letter from `a` to `z`, a digit from `0` to `9`, or a hyphen that is neither the
/// first nor the last.
pub proof fn law_kebab_case(s: Seq<char>)
    ensures
        kebab_case(s) <==> s.len() > 0 && forall|i: int|
            0 <= i < s.len() ==> ('a' <= #[trigger] s[i] <= 'z' || '0' <= s[i] <= '9' || (s[i]
                == '-' && 0 < i < s.len() - 1)),
{
    if kebab_case(s) {
        assert forall|i: int| 0 <= i < s.len() implies ('a' <= #[trigger] s[i] <= 'z' || '0' <= s[i]
            <= '9' || (s[i] == '-' && 0 < i < s.len() - 1)) by {
            assert(kebab_char(s[i]));
        }
    }
    if s.len() > 0 && forall|i: int|
        0 <= i < s.len() ==> ('a' <= #[trigger] s[i] <= 'z' || '0' <= s[i] <= '9' || (s[i] == '-'
            && 0 < i < s.len() - 1)) {
        assert('a' <= s[0] <= 'z' || '0' <= s[0] <= '9');
        let last = s.len() - 1;
        assert('a' <= s[last] <= 'z' || '0' <= s[last] <= '9');
        assert forall|i: int| 0 <= i < s.len() implies kebab_char(#[trigger] s[i]) by {}
    }
}

/// A geohash has one to twelve characters, each a digit or a small letter other than
/// `a`, `i`, `l` and `o`.
pub proof fn law_geohashes(s: Seq<char>)
    ensures
        geohash_text(s) <==> 1 <= s.len() <= 12 && forall|i: int|
            0 <= i < s.len() ==> ('0' <= #[trigger] s[i] <= '9' || 'b' <= s[i] <= 'h' || s[i] == 'j'
                || s[i] == 'k' || s[i] == 'm' || s[i] == 'n' || 'p' <= s[i] <= 'z'),
{
    if geohash_text(s) {
        assert forall|i: int| 0 <= i < s.len() implies ('0' <= #[trigger] s[i] <= '9' || 'b' <= s[i]
            <= 'h' || s[i] == 'j' || s[i] == 'k' || s[i] == 'm' || s[i] == 'n' || 'p' <= s[i]
            <= 'z') by {
            assert(geohash_char(s[i]));
        }
    }
    if 1 <= s.len() <= 12 && forall|i: int|
        0 <= i < s.len() ==> ('0' <= #[trigger] s[i] <= '9' || 'b' <= s[i] <= 'h' || s[i] == 'j'
            || s[i] == 'k' || s[i] == 'm' || s[i] == 'n' || 'p' <= s[i] <= 'z') {
        assert forall|i: int| 0 <= i < s.len() implies geohash_char(#[trigger] s[i]) by {}
    }
}

/// Every two capital letters from `A` to `Z` are a country under the rules of every
/// layout. Any other text of two characters is one only if it is `T1` and the layout
/// knows that.
pub proof fn law_two_capitals_are_a_country(a: char, b: char, tor_country: bool)
    ensures
        'A' <= a <= 'Z' && 'A' <= b <= 'Z' ==> country_text(seq![a, b], tor_country),
        !('A' <= a <= 'Z' && 'A' <= b <= 'Z') ==> (country_text(seq![a, b], tor_country) <==> (a
            == 'T' && b == '1' && tor_country)),
{
    let s = seq![a, b];
    let (from, to) = text::law_trimming(s);
    reveal_strlit("T1");
    assert("T1"@ =~= seq!['T', '1']);
    let code = text::trimmed(s);
    assert(code =~= s.subrange(from, to));
    if code.len() == 2 {
        assert(code =~= s);
    }
    if 'A' <= a <= 'Z' && 'A' <= b <= 'Z' {
        text::law_trimming_keeps_tight_texts(s);
    }
    if a == 'T' && b == '1' {
        text::law_trimming_keeps_tight_texts(s);
    }
}

/// Of texts without white space at either end, only those of two characters can be a
/// country.
pub proof fn law_countries_have_two_characters(country: Seq<char>, tor_country: bool)
    requires
        country.len() > 0 ==> !text::is_white_space(country[0]) && !text::is_white_space(
            country.last(),
        ),
        country.len() != 2,
    ensures
        !country_text(country, tor_country),
{
    text::law_trimming_keeps_tight_texts(country);
    reveal_strlit("T1");
}

/// White space around a country does not matter.
pub proof fn law_padded_countries(
    before: Seq<char>,
    country: Seq<char>,
    after: Seq<char>,
    tor_country: bool,
)
    requires
        forall|i: int| 0 <= i < before.len() ==> text::is_white_space(#[trigger] before[i]),
        forall|i: int| 0 <= i < after.len() ==> text::is_white_space(#[trigger] after[i]),
        country.len() > 0,
        !text::is_white_space(country[0]),
        !text::is_white_space(country.last()),
    ensures
        country_text(before + country + after, tor_country) == country_text(country, tor_country),
{
    text::law_trimming_cuts_padding(before, country, after);
    text::law_trimming_keeps_tight_texts(country);
}

/// One where the condition holds, else nothing.
pub open spec fn once(condition: bool) -> int {
    if condition {
        1
    } else {
        0
    }
}

/// The text at `i` stands at an earlier place of the list too.
pub open spec fn stands_earlier(list: Seq<Seq<char>>, i: int) -> bool {
    !(forall|j: int| 0 <= j < i ==> #[trigger] list[j] != list[i])
}

/// A text is repeated exactly when one of the earlier texts is the same.
pub proof fn law_repetitions(list: Seq<Seq<char>>, i: int)
    ensures
        repeated(list, i) <==> stands_earlier(list, i),
{
}

/// A catalog of another layout version is told so, with both versions, and one of the
/// right version is not.
pub proof fn law_schema_rule(found: Seq<char>, expected: Seq<char>)
    ensures
        schema_violations(found, expected).len() == once(found != expected),
        found != expected ==> schema_violations(found, expected)[0] == "schema_version must be \""@
            + expected + "\", got "@ + text::quoted(found),
{
}

/// What is reported of a collection: a blank id alone, or a repeated id, an id that is
/// not in kebab case and a blank name, each in its own words.
pub proof fn law_collection_rules(collections: Seq<crate::model::CollectionView>, i: int)
    requires
        0 <= i < collections.len(),
    ensures
        ({
            let c = collections[i];
            let found = collection_violations(collections, i);
            let blank_id = forall|k: int|
                0 <= k < c.id.len() ==> text::is_white_space(#[trigger] c.id[k]);
            let blank_name = forall|k: int|
                0 <= k < c.name.len() ==> text::is_white_space(#[trigger] c.name[k]);
            let again = exists|j: int| 0 <= j < i && (#[trigger] collections[j]).id == c.id;
            &&& blank_id ==> found == seq!["collection with empty id"@]
            &&& !blank_id ==> {
                &&& found.len() == once(again) + once(!kebab_case(c.id)) + once(blank_name)
                &&& again ==> found.contains("duplicate collection id: "@ + c.id)
                &&& !kebab_case(c.id) ==> found.contains(
                    "collection id "@ + text::quoted(c.id) + " must be lowercase kebab-case"@,
                )
                &&& blank_name ==> found.contains(
                    "collection "@ + text::quoted(c.id) + " has empty name"@,
                )
            }
        }),
{
    let c = collections[i];
    text::law_blank(c.id);
    text::law_blank(c.name);
    let again = exists|j: int| 0 <= j < i && (#[trigger] collections[j]).id == c.id;
    let ids = ids_of(collections);
    if again {
        let j = choose|j: int| 0 <= j < i && (#[trigger] collections[j]).id == c.id;
        assert(ids[j] == ids[i]);
    }
    if repeated(ids, i) {
        let j = choose|j: int| 0 <= j < i && #[trigger] ids[j] == ids[i];
        assert(collections[j].id == c.id);
    }
    let first = when(repeated(ids, i), "duplicate collection id: "@ + c.id);
    let second = when(
        !kebab_case(c.id),
        "collection id "@ + text::quoted(c.id) + " must be lowercase kebab-case"@,
    );
    let third = when(
        text::is_blank(c.name),
        "collection "@ + text::quoted(c.id) + " has empty name"@,
    );
    lemma_each_is_contained(first, second, third, Seq::empty());
    assert(first + second + third + Seq::<Seq<char>>::empty() =~= first + second + third);
}

proof fn lemma_each_is_contained(
    a: Seq<Seq<char>>,
    b: Seq<Seq<char>>,
    c: Seq<Seq<char>>,
    d: Seq<Seq<char>>,
)
    ensures
        a.len() > 0 ==> (a + b + c + d).contains(a[0]),
        b.len() > 0 ==> (a + b + c + d).contains(b[0]),
        c.len() > 0 ==> (a + b + c + d).contains(c[0]),
        d.len() > 0 ==> (a + b + c + d).contains(d[0]),
{
    let all = a + b + c + d;
    if a.len() > 0 {
        assert(all[0] == a[0]);
    }
    if b.len() > 0 {
        assert(all[a.len() as int] == b[0]);
    }
    if c.len() > 0 {
        assert(all[(a.len() + b.len()) as int] == c[0]);
    }
    if d.len() > 0 {
        assert(all[(a.len() + b.len() + c.len()) as int] == d[0]);
    }
}

/// What is reported of the collections grows by what is wrong with the last one.
pub proof fn law_collections_are_reported_one_by_one(
    collections: Seq<crate::model::CollectionView>,
    c: crate::model::CollectionView,
)
    ensures
        collections_violations(Seq::<crate::model::CollectionView>::empty(), 0).len() == 0,
        collections_violations(collections.push(c), (collections.len() + 1) as int)
            == collections_violations(collections, collections.len() as int)
            + collection_violations(collections.push(c), collections.len() as int),
{
    lemma_collections_prefix(collections, c, collections.len() as int);
}

proof fn lemma_collections_prefix(
    collections: Seq<crate::model::CollectionView>,
    c: crate::model::CollectionView,
    n: int,
)
    requires
        0 <= n <= collections.len(),
    ensures
        collections_violations(collections.push(c), n) == collections_violations(collections, n),
    decreases n,
{
    if n > 0 {
        lemma_collections_prefix(collections, c, n - 1);
        let longer = ids_of(collections.push(c));
        let ids = ids_of(collections);
        assert forall|j: int| 0 <= j < ids.len() implies #[trigger] longer[j] == ids[j] by {}
        assert(repeated(longer, n - 1) == repeated(ids, n - 1)) by {
            if repeated(longer, n - 1) {
                let j = choose|j: int| 0 <= j < n - 1 && #[trigger] longer[j] == longer[n - 1];
                assert(ids[j] == ids[n - 1]);
            }
            if repeated(ids, n - 1) {
                let j = choose|j: int| 0 <= j < n - 1 && #[trigger] ids[j] == ids[n - 1];
                assert(longer[j] == longer[n - 1]);
            }
        }
    }
}

/// The declared ids are those of the collections, but for blank ones.
pub proof fn law_declared_ids(collections: Seq<crate::model::CollectionView>, id: Seq<char>)
    ensures
        declared(collections).contains(id) <==> (exists|i: int|
            0 <= i < collections.len() && (#[trigger] collections[i]).id == id) && exists|k: int|
            0 <= k < id.len() && !text::is_white_space(#[trigger] id[k]),
{
    text::law_blank(id);
    let ids = ids_of(collections);
    if ids.contains(id) {
        let i = ids.index_of(id);
        assert(collections[i].id == id);
    }
    if exists|i: int| 0 <= i < collections.len() && (#[trigger] collections[i]).id == id {
        let i = choose|i: int| 0 <= i < collections.len() && (#[trigger] collections[i]).id == id;
        assert(ids[i] == id);
    }
}

/// What is reported of the collection references of a relay grows, with one more of
/// them, by a message where its collection is not known and by one where it was listed
/// before.
pub proof fn law_reference_rules(
    href: Seq<char>,
    list: Seq<Seq<char>>,
    known: Set<Seq<char>>,
    id: Seq<char>,
)
    ensures
        ({
            let before = references_violations(href, list, known, list.len() as int);
            let after = references_violations(
                href,
                list.push(id),
                known,
                (list.len() + 1) as int,
            );
            let unknown = !known.contains(id);
            let again = exists|j: int| 0 <= j < list.len() && #[trigger] list[j] == id;
            &&& after.len() == before.len() + once(unknown) + once(again)
            &&& forall|i: int| 0 <= i < before.len() ==> #[trigger] after[i] == before[i]
            &&& unknown ==> after[before.len() as int] == "relay "@ + href
                + " references unknown collection "@ + text::quoted(id)
            &&& again ==> after.last() == "relay "@ + href + " lists collection "@ + text::quoted(
                id,
            ) + " more than once"@
        }),
        references_violations(href, Seq::<Seq<char>>::empty(), known, 0).len() == 0,
{
    lemma_references_prefix(href, list, known, id, list.len() as int);
    let longer = list.push(id);
    let n = list.len() as int;
    let again = exists|j: int| 0 <= j < list.len() && #[trigger] list[j] == id;
    assert(longer[n] == id);
    if again {
        let j = choose|j: int| 0 <= j < list.len() && #[trigger] list[j] == id;
        assert(longer[j] == longer[n]);
    }
    if repeated(longer, n) {
        let j = choose|j: int| 0 <= j < n && #[trigger] longer[j] == longer[n];
        assert(list[j] == id);
    }
}

proof fn lemma_references_prefix(
    href: Seq<char>,
    list: Seq<Seq<char>>,
    known: Set<Seq<char>>,
    id: Seq<char>,
    n: int,
)
    requires
        0 <= n <= list.len(),
    ensures
        references_violations(href, list.push(id), known, n) == references_violations(
            href,
            list,
            known,
            n,
        ),
    decreases n,
{
    if n > 0 {
        lemma_references_prefix(href, list, known, id, n - 1);
        let longer = list.push(id);
        assert(longer[n - 1] == list[n - 1]);
        assert(repeated(longer, n - 1) == repeated(list, n - 1)) by {
            if repeated(longer, n - 1) {
                let j = choose|j: int| 0 <= j < n - 1 && #[trigger] longer[j] == longer[n - 1];
                assert(list[j] == list[n - 1]);
            }
            if repeated(list, n - 1) {
                let j = choose|j: int| 0 <= j < n - 1 && #[trigger] list[j] == list[n - 1];
                assert(longer[j] == longer[n - 1]);
            }
        }
    }
}

/// What is reported of the address of a relay: a scheme other than `wss` and `ws`, `ws`
/// outside Tor, a missing host and an empty list of collections, each in its own words.
pub proof fn law_address_rules(url: crate::relay_url::UrlView, list: Seq<Seq<char>>)
    ensures
        ({
            let found = address_violations(url, list);
            let foreign = url.scheme != "wss"@ && url.scheme != "ws"@;
            let plain = url.scheme == "ws"@ && !(url.host is Some && probe::onion_host(
                url.host->0,
            ));
            &&& found.len() == once(foreign) + once(plain) + once(url.host is None) + once(
                list.len() == 0,
            )
            &&& foreign ==> found.contains(
                "relay "@ + url.href + " must use wss:// or ws:// (got "@ + url.scheme + "://)"@,
            )
            &&& plain ==> found.contains(
                "relay "@ + url.href + " must use wss:// (ws:// is for onion hosts only)"@,
            )
            &&& url.host is None ==> found.contains("relay "@ + url.href + " has no host"@)
            &&& list.len() == 0 ==> found.contains("relay "@ + url.href + " has no collections"@)
        }),
{
    let first = when(
        !web_socket_scheme(url.scheme),
        "relay "@ + url.href + " must use wss:// or ws:// (got "@ + url.scheme + "://)"@,
    );
    let second = when(
        plain_outside_tor(url),
        "relay "@ + url.href + " must use wss:// (ws:// is for onion hosts only)"@,
    );
    let third = when(url.host is None, "relay "@ + url.href + " has no host"@);
    let fourth = when(list.len() == 0, "relay "@ + url.href + " has no collections"@);
    lemma_each_is_contained(first, second, third, fourth);
}

/// What is reported of the location of a relay: a country that is none and a geohash
/// that is none, each in its own words; what is not stated is not wrong.
pub proof fn law_location_rules(facts: EntryFacts, tor_country: bool)
    ensures
        ({
            let found = location_violations(facts, tor_country);
            let astray = facts.country is Some && !country_text(facts.country->0, tor_country);
            let lost = facts.geohash is Some && !geohash_text(text::trimmed(facts.geohash->0));
            &&& found.len() == once(astray) + once(lost)
            &&& astray && tor_country ==> found[0] == "relay "@ + facts.url.href
                + " has invalid country "@ + text::quoted(facts.country->0)
                + " (expected ISO-3166 alpha-2 uppercase, or XX/T1)"@
            &&& astray && !tor_country ==> found[0] == "relay "@ + facts.url.href
                + " has invalid country "@ + text::quoted(facts.country->0)
                + " (expected ISO-3166 alpha-2 uppercase, or XX)"@
            &&& lost ==> found.last() == "relay "@ + facts.url.href + " has invalid geohash "@
                + text::quoted(facts.geohash->0) + " (expected 1–12 base32 geohash chars)"@
        }),
{
}

/// What is reported of a relay is what is wrong with its address, with its references
/// and with its location, in this order and nothing else.
pub proof fn law_relay_rules(facts: EntryFacts, known: Set<Seq<char>>, tor_country: bool)
    ensures
        ({
            let found = relay_violations(facts, known, tor_country);
            let address = address_violations(facts.url, facts.collections);
            let references = references_violations(
                facts.url.href,
                facts.collections,
                known,
                facts.collections.len() as int,
            );
            let location = location_violations(facts, tor_country);
            &&& found.len() == address.len() + references.len() + location.len()
            &&& forall|i: int| 0 <= i < address.len() ==> found[i] == #[trigger] address[i]
            &&& forall|i: int|
                0 <= i < references.len() ==> found[address.len() + i] == #[trigger] references[i]
            &&& forall|i: int|
                0 <= i < location.len() ==> found[address.len() + references.len() + i]
                    == #[trigger] location[i]
        }),
{
}

/// What is reported of the relays grows, with one more of them, by what is wrong with it
/// and by a message where an earlier relay has its address, whatever the case of the
/// letters.
pub proof fn law_relays_are_reported_one_by_one(
    entries: Seq<EntryFacts>,
    entry: EntryFacts,
    known: Set<Seq<char>>,
    tor_country: bool,
)
    ensures
        ({
            let before = relays_violations(entries, known, tor_country, entries.len() as int);
            let after = relays_violations(
                entries.push(entry),
                known,
                tor_country,
                (entries.len() + 1) as int,
            );
            let own = relay_violations(entry, known, tor_country);
            let again = exists|j: int|
                0 <= j < entries.len() && text::equal_ignoring_case(
                    (#[trigger] entries[j]).url.href,
                    entry.url.href,
                );
            &&& after.len() == before.len() + own.len() + once(again)
            &&& forall|i: int| 0 <= i < before.len() ==> #[trigger] after[i] == before[i]
            &&& forall|i: int| 0 <= i < own.len() ==> after[before.len() + i] == #[trigger] own[i]
            &&& again ==> after.last() == "duplicate relay url: "@ + entry.url.href
        }),
        relays_violations(Seq::<EntryFacts>::empty(), known, tor_country, 0).len() == 0,
{
    lemma_relays_prefix(entries, entry, known, tor_country, entries.len() as int);
    let longer = entries.push(entry);
    let urls = folded_urls(longer);
    let n = entries.len() as int;
    let again = exists|j: int|
        0 <= j < entries.len() && text::equal_ignoring_case(
            (#[trigger] entries[j]).url.href,
            entry.url.href,
        );
    assert(longer[n] == entry);
    assert(urls[n] == text::ascii_lower(entry.url.href));
    if again {
        let j = choose|j: int|
            0 <= j < entries.len() && text::equal_ignoring_case(
                (#[trigger] entries[j]).url.href,
                entry.url.href,
            );
        assert(longer[j] == entries[j]);
        assert(urls[j] == urls[n]);
    }
    if repeated(urls, n) {
        let j = choose|j: int| 0 <= j < n && #[trigger] urls[j] == urls[n];
        assert(longer[j] == entries[j]);
        assert(text::equal_ignoring_case(entries[j].url.href, entry.url.href));
    }
}

proof fn lemma_relays_prefix(
    entries: Seq<EntryFacts>,
    entry: EntryFacts,
    known: Set<Seq<char>>,
    tor_country: bool,
    n: int,
)
    requires
        0 <= n <= entries.len(),
    ensures
        relays_violations(entries.push(entry), known, tor_country, n) == relays_violations(
            entries,
            known,
            tor_country,
            n,
        ),
    decreases n,
{
    if n > 0 {
        lemma_relays_prefix(entries, entry, known, tor_country, n - 1);
        let longer = folded_urls(entries.push(entry));
        let urls = folded_urls(entries);
        assert forall|j: int| 0 <= j < urls.len() implies #[trigger] longer[j] == urls[j] by {}
        assert(repeated(longer, n - 1) == repeated(urls, n - 1)) by {
            if repeated(longer, n - 1) {
                let j = choose|j: int| 0 <= j < n - 1 && #[trigger] longer[j] == longer[n - 1];
                assert(urls[j] == urls[n - 1]);
            }
            if repeated(urls, n - 1) {
                let j = choose|j: int| 0 <= j < n - 1 && #[trigger] urls[j] == urls[n - 1];
                assert(longer[j] == longer[n - 1]);
            }
        }
    }
}

/// What is reported of a catalog is what is wrong with its version, with its collections
/// and with its relays, in this order and nothing else.
pub proof fn law_catalog_rules(
    schema_version: Seq<char>,
    collections: Seq<crate::model::CollectionView>,
    entries: Seq<EntryFacts>,
    rules: Rules,
)
    ensures
        ({
            let found = violations(schema_version, collections, entries, rules);
            let version = schema_violations(schema_version, rules.schema_version@);
            let shelves = collections_violations(collections, collections.len() as int);
            let relays = relays_violations(
                entries,
                declared(collections),
                rules.tor_country,
                entries.len() as int,
            );
            &&& found.len() == version.len() + shelves.len() + relays.len()
            &&& forall|i: int| 0 <= i < version.len() ==> found[i] == #[trigger] version[i]
            &&& forall|i: int|
                0 <= i < shelves.len() ==> found[version.len() + i] == #[trigger] shelves[i]
            &&& forall|i: int|
                0 <= i < relays.len() ==> found[version.len() + shelves.len() + i]
                    == #[trigger] relays[i]
        }),
{
}

/// The current layout is version 2 and does not know `T1`.
pub proof fn law_current_rules()
    ensures
        current_rules().schema_version@ == "2"@,
        !current_rules().tor_country,
{
}

/// A relay entry keeps every rule: its scheme is `wss`, or `ws` for an onion host; it has a
/// host and a collection; each of its collections is declared and listed once; its country
/// and geohash, where stated, are such.
pub proof fn law_sound_entries(facts: EntryFacts, known: Set<Seq<char>>, tor_country: bool)
    ensures
        sound_entry(facts, known, tor_country) <==> {
            &&& facts.url.host is Some
            &&& facts.url.scheme == "wss"@ || (facts.url.scheme == "ws"@ && probe::onion_host(
                facts.url.host->0,
            ))
            &&& facts.collections.len() > 0
            &&& forall|i: int|
                0 <= i < facts.collections.len() ==> known.contains(
                    #[trigger] facts.collections[i],
                )
            &&& forall|i: int, j: int|
                0 <= i < j < facts.collections.len() ==> #[trigger] facts.collections[i]
                    != #[trigger] facts.collections[j]
            &&& facts.country is Some ==> country_text(facts.country->0, tor_country)
            &&& facts.geohash is Some ==> geohash_text(text::trimmed(facts.geohash->0))
        },
{
    reveal_strlit("ws");
    reveal_strlit("wss");
    assert("ws"@.len() != "wss"@.len());
}

/// A catalog is accepted exactly when it states its version, its collections have ids in
/// kebab case that differ and names that are not blank, and its relays are sound and have
/// addresses that differ, whatever the case of the letters.
pub proof fn law_accepted_catalogs(
    schema_version: Seq<char>,
    collections: Seq<crate::model::CollectionView>,
    entries: Seq<EntryFacts>,
    rules: Rules,
)
    ensures
        violations(schema_version, collections, entries, rules).len() == 0 <==> {
            &&& schema_version == rules.schema_version@
            &&& forall|i: int|
                0 <= i < collections.len() ==> kebab_case((#[trigger] collections[i]).id)
                    && !text::is_blank(collections[i].name)
            &&& forall|i: int, j: int|
                0 <= i < j < collections.len() ==> (#[trigger] collections[i]).id
                    != (#[trigger] collections[j]).id
            &&& forall|i: int|
                0 <= i < entries.len() ==> sound_entry(
                    #[trigger] entries[i],
                    declared(collections),
                    rules.tor_country,
                )
            &&& forall|i: int, j: int|
                0 <= i < j < entries.len() ==> !text::equal_ignoring_case(
                    (#[trigger] entries[i]).url.href,
                    (#[trigger] entries[j]).url.href,
                )
        },
{
    law_accepts_exactly_sound_catalogs(schema_version, collections, entries, rules);
    let ids = ids_of(collections);
    let urls = folded_urls(entries);
    assert forall|i: int| 0 <= i < collections.len() implies #[trigger] ids[i]
        == collections[i].id by {}
    assert forall|i: int| 0 <= i < entries.len() implies #[trigger] urls[i] == text::ascii_lower(
        entries[i].url.href,
    ) by {}
    assert forall|i: int| 0 <= i < collections.len() && kebab_case((#[trigger] collections[i]).id) implies !text::is_blank(
        collections[i].id,
    ) by {
        let id = collections[i].id;
        text::law_blank(id);
        assert(kebab_char(id[0]));
    }
    if distinct(ids) {
        assert forall|i: int, j: int| 0 <= i < j < collections.len() implies (
        #[trigger] collections[i]).id != (#[trigger] collections[j]).id by {
            assert(ids[i] != ids[j]);
        }
    }
    if distinct(urls) {
        assert forall|i: int, j: int| 0 <= i < j < entries.len() implies !text::equal_ignoring_case(
            (#[trigger] entries[i]).url.href,
            (#[trigger] entries[j]).url.href,
        ) by {
            assert(urls[i] != urls[j]);
        }
    }
    if forall|i: int, j: int|
        0 <= i < j < collections.len() ==> (#[trigger] collections[i]).id
            != (#[trigger] collections[j]).id {
        assert forall|i: int, j: int| 0 <= i < j < ids.len() implies #[trigger] ids[i]
            != #[trigger] ids[j] by {
            assert(collections[i].id != collections[j].id);
        }
    }
    if forall|i: int, j: int|
        0 <= i < j < entries.len() ==> !text::equal_ignoring_case(
            (#[trigger] entries[i]).url.href,
            (#[trigger] entries[j]).url.href,
        ) {
        assert forall|i: int, j: int| 0 <= i < j < urls.len() implies #[trigger] urls[i]
            != #[trigger] urls[j] by {
            assert(!text::equal_ignoring_case(entries[i].url.href, entries[j].url.href));
        }
    }
}

/// The places of the entries that list the collection `id`.
pub open spec fn listing_places(entries: Seq<EntryFacts>, id: Seq<char>) -> Set<int> {
    Set::new(
        |i: int|
            0 <= i < entries.len() && exists|k: int|
                0 <= k < entries[i].collections.len() && #[trigger] entries[i].collections[k] == id,
    )
}

/// The count of a collection is the number of the entries that list it.
pub proof fn law_counts_are_numbers_of_entries(entries: Seq<EntryFacts>, id: Seq<char>)
    ensures
        listing_places(entries, id).finite(),
        relays_listing(entries, id) == listing_places(entries, id).len(),
    decreases entries.len(),
{
    let places = listing_places(entries, id);
    if entries.len() == 0 {
        assert(places =~= Set::<int>::empty());
    } else {
        let front = entries.drop_last();
        law_counts_are_numbers_of_entries(front, id);
        let before = listing_places(front, id);
        let list = entries.last().collections;
        let n = entries.len() - 1;
        assert forall|i: int| before.contains(i) <==> i != n && places.contains(i) by {
            if 0 <= i < n {
                assert(front[i] == entries[i]);
            }
        }
        if list.contains(id) {
            let k = list.index_of(id);
            assert(entries[n].collections[k] == id);
            assert(places =~= before.insert(n));
        } else {
            assert(places =~= before);
        }
    }
}

/// A catalog that breaks no rule is summed up: how many relays and collections it has, and
/// for each collection that a relay lists, how many do.
pub proof fn law_summaries(
    summary: ValidationSummary,
    schema_version: Seq<char>,
    collections: Seq<crate::model::CollectionView>,
    entries: Seq<EntryFacts>,
    rules: Rules,
    id: Seq<char>,
)
    requires
        verdict(Ok(summary), schema_version, collections, entries, rules),
    ensures
        violations(schema_version, collections, entries, rules).len() == 0,
        summary.relay_count == entries.len(),
        summary.collection_count == collections.len(),
        summary.relays_per_collection@.contains_key(id) <==> listing_places(entries, id).len() > 0,
        summary.relays_per_collection@.contains_key(id) ==> summary.relays_per_collection@[id]
            == listing_places(entries, id).len(),
{
    law_counts_are_numbers_of_entries(entries, id);
}

/// A catalog that breaks a rule is answered with how many messages there are and with each
/// of them on a line of its own, in their order.
pub proof fn law_failures(
    count: usize,
    details: String,
    schema_version: Seq<char>,
    collections: Seq<crate::model::CollectionView>,
    entries: Seq<EntryFacts>,
    rules: Rules,
) -> (lines: Seq<Seq<char>>)
    requires
        verdict(
            Err(ValidationError::Failed { count, details }),
            schema_version,
            collections,
            entries,
            rules,
        ),
    ensures
        count > 0,
        count == violations(schema_version, collections, entries, rules).len(),
        lines.len() == count,
        forall|i: int|
            0 <= i < lines.len() ==> #[trigger] lines[i] == "  - "@ + violations(
                schema_version,
                collections,
                entries,
                rules,
            )[i],
        details@ == text::joined(lines, "\n"@),
{
    report_lines(violations(schema_version, collections, entries, rules))
}

/// What the rules see of entries and collections is what these say, in their order.
pub proof fn law_rules_see_the_catalog(
    relays: Seq<Relay>,
    collections: Seq<Collection>,
    i: int,
)
    ensures
        facts_of(relays).len() == relays.len(),
        0 <= i < relays.len() ==> {
            let facts = facts_of(relays)[i];
            let relay = relays[i];
            &&& facts.url == relay.url@
            &&& facts.collections == relay@.collections
            &&& facts.country is Some <==> relay.country is Some
            &&& relay.country is Some ==> facts.country->0 == relay.country->0@
            &&& facts.geohash is Some <==> relay.geohash is Some
            &&& relay.geohash is Some ==> facts.geohash->0 == relay.geohash->0@
        },
        collections_of(collections).len() == collections.len(),
        0 <= i < collections.len() ==> {
            let view = collections_of(collections)[i];
            view.id == collections[i].id@ && view.name == collections[i].name@
        },
{
}

/// The catalog of the current layout is accepted exactly when it breaks no rule of version 2,
/// and is summed up as it stands.
pub proof fn law_validation(dataset: Dataset, result: Result<ValidationSummary, ValidationError>)
    requires
        call_ensures(validate, (&dataset,), result),
    ensures
        ({
            let found = violations(
                dataset.schema_version@,
                dataset@.collections,
                facts_of(dataset.relays@),
                Rules { schema_version: "2", tor_country: false },
            );
            &&& result is Ok <==> found.len() == 0
            &&& result matches Ok(summary) ==> summary.relay_count == dataset.relays@.len()
                && summary.collection_count == dataset.collections@.len()
            &&& result matches Err(ValidationError::Failed { count, .. }) ==> count == found.len()
        }),
{
}

} // verus!
