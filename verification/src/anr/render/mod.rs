//! Output renderers.
//!
//! [`json`] produces the content of the machine-readable `dist/*.json` files.

pub mod json;
