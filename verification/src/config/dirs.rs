//! Where the configuration lives.

use vstd::prelude::*;
use crate::shared::{DirError, opt_view};

verus! {

/// The configuration directory: `$TANO_CONFIG` when it is set, else the
/// project's configuration directory of the platform.
pub fn get_config_dir(tano_config: Option<String>, project_config_dir: Option<String>) -> (r: Result<String, DirError>)
    ensures
        match opt_view(tano_config) {
            Some(d) => r matches Ok(p) && p@ == d,
            None => match opt_view(project_config_dir) {
                Some(d) => r matches Ok(p) && p@ == d,
                None => r matches Err(e) && e == DirError::ProjectConfigDir,
            },
        },
{
    if let Some(s) = tano_config {
        Ok(s)
    } else if let Some(dir) = project_config_dir {
        Ok(dir)
    } else {
        Err(DirError::ProjectConfigDir)
    }
}

} // verus!
