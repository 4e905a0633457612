//! Where the diagnostic log is kept.
use vstd::prelude::*;

use crate::paths::{join_path, joined_path};

verus! {

/// The log directory under the local application-data directory `base`.
pub open spec fn log_directory_text(base: Seq<char>) -> Seq<char> {
    joined_path(joined_path(base, "Codex Pulse"@), "logs"@)
}

/// The log directory, given the value of `LOCALAPPDATA` (none without it).
pub fn log_directory(local_app_data: Option<&str>) -> (directory: Option<String>)
    ensures
        match local_app_data {
            Some(base) => directory matches Some(d) && d@ == log_directory_text(base@),
            None => directory is None,
        },
{
    match local_app_data {
        Some(base) => {
            let product = join_path(base, "Codex Pulse");
            Some(join_path(product.as_str(), "logs"))
        },
        None => None,
    }
}

/// The log file, given the value of `LOCALAPPDATA` (none without it).
pub fn log_path(local_app_data: Option<&str>) -> (path: Option<String>)
    ensures
        match local_app_data {
            Some(base) => path matches Some(p) && p@ == joined_path(
                log_directory_text(base@),
                "codex-pulse.log"@,
            ),
            None => path is None,
        },
{
    match log_directory(local_app_data) {
        Some(directory) => Some(join_path(directory.as_str(), "codex-pulse.log")),
        None => None,
    }
}

} // verus!
