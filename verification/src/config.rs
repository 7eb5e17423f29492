//! Settings of the service.

use vstd::prelude::*;

verus! {

/// Where the service keeps its files unless it is told otherwise.
pub const DEFAULT_DATA_DIR: &'static str = "/var/lib/render-service";

/// The data directory, given the value of `RENDER_DATA_DIR`, if it is set.
pub fn data_dir(setting: Option<String>) -> (dir: String)
    ensures
        dir@ == match setting {
            Some(value) => value@,
            None => DEFAULT_DATA_DIR@,
        },
{
    match setting {
        Some(value) => value,
        None => DEFAULT_DATA_DIR.to_owned(),
    }
}

} // verus!
