//! Schema and semantic validation for the second catalog layout.

use vstd::prelude::*;

use super::model::{Dataset, Relay};
use crate::relay_url::RelayUrl;
use crate::validate;
use crate::validate::{validate_entries, CatalogEntry, Rules};

pub use crate::validate::{ValidationError, ValidationSummary};

verus! {

impl CatalogEntry for Relay {
    open spec fn facts(&self) -> validate::EntryFacts {
        validate::EntryFacts {
            url: self@.url,
            collections: self@.collections,
            country: self@.country,
            geohash: None,
        }
    }

    fn entry_url(&self) -> (url: &RelayUrl) {
        &self.url
    }

    fn entry_collections(&self) -> (collections: &Vec<String>) {
        &self.collections
    }

    fn entry_country(&self) -> (country: &Option<String>) {
        &self.country
    }

    fn entry_geohash(&self) -> (geohash: Option<&String>) {
        None
    }
}

/// The rules of this catalog layout.
pub open spec fn layout_rules() -> Rules {
    Rules { schema_version: "1", tor_country: true }
}

/// Validate the full [`Dataset`], collecting every rule violation.
pub fn validate(dataset: &Dataset) -> (result: Result<ValidationSummary, ValidationError>)
    ensures
        validate::verdict(
            result,
            dataset@.schema_version,
            dataset@.collections,
            validate::facts_of(dataset.relays@),
            layout_rules(),
        ),
{
    let rules = Rules { schema_version: "1", tor_country: true };
    validate_entries(
        dataset.schema_version.as_str(),
        &dataset.collections,
        &dataset.relays,
        &rules,
    )
}

// ---- laws -----------------------------------------------------------------

/// This layout is version 1 and knows `T1`.
pub proof fn law_layout_rules()
    ensures
        layout_rules().schema_version@ == "1"@,
        layout_rules().tor_country,
{
}

/// What the rules see of entries is what these say, in their order.
pub proof fn law_rules_see_the_catalog(relays: Seq<Relay>, i: int)
    requires
        0 <= i < relays.len(),
    ensures
        validate::facts_of(relays).len() == relays.len(),
        ({
            let facts = validate::facts_of(relays)[i];
            let relay = relays[i];
            &&& facts.url == relay.url@
            &&& facts.collections == relay@.collections
            &&& facts.country is Some <==> relay.country is Some
            &&& relay.country is Some ==> facts.country->0 == relay.country->0@
            &&& facts.geohash is None
        }),
{
}

} // verus!
