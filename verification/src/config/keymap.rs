//! A keymap: the key bindings that run one action.

use vstd::prelude::*;
use crate::config::action::Action;
use crate::config::keys::KeyBind;
use crate::config::one_or_many::OneOrMany;

verus! {

#[derive(Debug, Clone)]
pub struct Keymap {
    /// The bindings, one or several.
    pub on: OneOrMany<KeyBind>,
    /// The action they run.
    pub run: Action,
}

} // verus!
