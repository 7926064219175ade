//! Output renderers.
//!
//! [`json`] produces the content of the machine-readable `api/*.json` files.

pub mod json;
