//! The user's configuration: providers, keymaps, pages and key bindings.

pub mod action;
pub mod dirs;
pub mod keymap;
pub mod keys;
pub mod one_or_many;
pub mod pages;
pub mod percentage;
pub mod providers;

use vstd::prelude::*;
use crate::config::keymap::Keymap;
use crate::config::providers::ProviderConfig;

verus! {

/// The whole configuration file.
#[derive(Debug, Clone)]
pub struct Config {
    /// The `[[provider]]` tables.
    pub providers: Vec<ProviderConfig>,
    /// The `[[keymap]]` tables, when there are any.
    pub keymaps: Option<Vec<Keymap>>,
}

} // verus!
