//! Names of the exported JSON Schema files.

use vstd::prelude::*;

verus! {

/// Sub-directory (under the API output dir) that holds the schema files.
pub const SCHEMA_DIR: &'static str = "schema";

/// Schema of a catalog entry.
pub const RELAY_SCHEMA_FILE: &'static str = "relay.schema.json";

/// Schema of a collection.
pub const COLLECTION_SCHEMA_FILE: &'static str = "collection.schema.json";

/// Schema of a health entry.
pub const HEALTH_ENTRY_SCHEMA_FILE: &'static str = "health-entry.schema.json";

/// Schema of the health snapshot.
pub const HEALTH_REPORT_SCHEMA_FILE: &'static str = "health-report.schema.json";

} // verus!
