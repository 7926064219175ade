//! The first catalog layout, as the `anrelays` tool uses it.
//!
//! A [`Dataset`] is loaded from `relays.toml` and optionally enriched with
//! health data from `health.json`.

pub mod check;
pub mod health;
pub mod model;
pub mod probe;
pub mod render;
pub mod source;

pub use crate::model::Collection;
pub use crate::{
    DEAD_FAILURE_THRESHOLD, README_END_MARKER, README_START_MARKER, WARN_FAILURE_THRESHOLD,
};
pub use model::{Dataset, HealthEntry, HealthReport, Relay};
