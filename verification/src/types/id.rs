//! Chain identifiers.

use crate::types::tagged::MonoTagged;
use vstd::prelude::*;

verus! {

/// The identifier of one running chain, such as `ibc-0`.
#[derive(Debug, Clone, PartialEq, Eq)]
pub struct ChainId(pub String);

impl View for ChainId {
    type V = Seq<char>;

    /// The identifier as text.
    open spec fn view(&self) -> Seq<char> {
        self.0@
    }
}

impl ChainId {
    /// The identifier as a string slice.
    pub fn as_str(&self) -> (id: &str)
        ensures
            id@ == self@,
    {
        self.0.as_str()
    }
}

/// A reference to a chain identifier, tagged with the chain it names.
pub type TaggedChainIdRef<'a, Chain> = MonoTagged<Chain, &'a ChainId>;

} // verus!
