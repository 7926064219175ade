//! JSON artefact generation.
//!
//! Produces the content of three files in the `dist/` directory:
//!
//! * `relays.json` — full dataset including curator metadata and the latest
//!   health status per relay.
//! * `urls.json` — flat list of relay URLs (the most lightweight consumer
//!   format).
//! * `collections.json` — relay URLs grouped by collection id.

use vstd::prelude::*;

pub use crate::render::documents::{
    collections_document, flat_document, full_document, CollectionView, CollectionsDocument,
    FlatDocument, FullDocument, RelayView,
};

verus! {

/// File name of the full dataset artefact.
pub const FULL_FILE: &'static str = "relays.json";

/// File name of the flat URL-list artefact.
pub const URLS_FILE: &'static str = "urls.json";

/// File name of the per-collection index artefact.
pub const COLLECTIONS_FILE: &'static str = "collections.json";

/// The content of a file: the document, ended by a newline.
pub fn file_text(document: String) -> (content: String)
    ensures
        content@ == document@.push('\n'),
{
    let mut content = document;
    content.push('\n');
    content
}

} // verus!
