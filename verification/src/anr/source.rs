//! Where the catalog and its artefacts lie.

use vstd::prelude::*;
use vstd::string::*;

verus! {

/// Default filename of the TOML catalog.
pub const RELAYS_FILE: &'static str = "relays.toml";

/// Default filename of the JSON health snapshot.
pub const HEALTH_FILE: &'static str = "health.json";

/// Default output directory for generated artefacts.
pub const DIST_DIR: &'static str = "dist";

/// Default README path whose generated section is rewritten.
pub const README_FILE: &'static str = "README.md";

/// Default location of the relay catalog, relative to the current working
/// directory.
pub fn default_relays_path() -> (path: String)
    ensures
        path@ == "relays.toml"@,
{
    RELAYS_FILE.to_owned()
}

/// Default location of the health snapshot.
pub fn default_health_path() -> (path: String)
    ensures
        path@ == "health.json"@,
{
    HEALTH_FILE.to_owned()
}

/// Default output directory for generated JSON artefacts.
pub fn default_dist_dir() -> (path: String)
    ensures
        path@ == "dist"@,
{
    DIST_DIR.to_owned()
}

/// Default README path.
pub fn default_readme_path() -> (path: String)
    ensures
        path@ == "README.md"@,
{
    README_FILE.to_owned()
}

} // verus!
