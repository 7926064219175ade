//! The second catalog layout: probes can be skipped, failures can be soft, and
//! artefacts are written only when their content changes.

pub mod health;
pub mod model;
pub mod probe;
pub mod render;
pub mod source;
pub mod validate;

pub use crate::{
    DEAD_FAILURE_THRESHOLD, README_END_MARKER, README_START_MARKER, WARN_FAILURE_THRESHOLD,
};
pub use model::{Collection, Dataset, HealthEntry, HealthReport, Relay};
