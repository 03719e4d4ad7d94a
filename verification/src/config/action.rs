//! What a key binding can ask the player to do.

use vstd::prelude::*;

verus! {

#[derive(Debug, Copy, Clone, PartialEq, Eq, Structural)]
pub enum Action {
    Quit,
    Previous,
    Next,
}

} // verus!
