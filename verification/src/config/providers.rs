//! Where songs come from.

use vstd::prelude::*;

verus! {

/// A provider that reads songs from a directory of the local file system.
#[derive(Debug, Clone)]
pub struct LocalConfig {
    /// The directory, with `~` and environment variables already expanded.
    pub path: String,
}

/// One `[[provider]]` table, told apart by its `type`.
#[derive(Debug, Clone)]
pub enum ProviderConfig {
    Local { config: LocalConfig },
}

} // verus!
