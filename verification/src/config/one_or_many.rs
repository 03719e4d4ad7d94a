//! A value that a configuration file gives either once or as a list.

use vstd::prelude::*;

verus! {

#[derive(Debug, Clone, PartialEq, Eq, Hash)]
pub enum OneOrMany<T> {
    One(T),
    Many(Vec<T>),
}

/// `std::slice::from_ref`: the one-element slice holding `v`.
#[verifier::external_body]
fn slice_from_ref<T>(v: &T) -> (r: &[T])
    ensures
        r@ == seq![*v],
{
    std::slice::from_ref(v)
}

impl<T> OneOrMany<T> {
    /// The values, in order.
    pub open spec fn items(&self) -> Seq<T> {
        match self {
            OneOrMany::One(v) => seq![*v],
            OneOrMany::Many(vec) => vec@,
        }
    }

    /// The values as a slice: the one value, or the list.
    pub fn deref(&self) -> (r: &[T])
        ensures
            r@ == self.items(),
    {
        match self {
            OneOrMany::One(v) => slice_from_ref(v),
            OneOrMany::Many(vec) => vec.as_slice(),
        }
    }
}

impl<T> std::ops::Deref for OneOrMany<T> {
    type Target = [T];

    fn deref(&self) -> (r: &[T])
        ensures
            r@ == self.items(),
    {
        OneOrMany::deref(self)
    }
}

} // verus!
