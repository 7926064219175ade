//! Renderers of the published artefacts.

pub mod documents;
pub mod nip66;
pub mod schema;
