//! Token denominations.

use vstd::prelude::*;

verus! {

/// The denomination of a token on one chain, such as `samoleans`.
///
/// The same token has another denomination on every chain it is transferred
/// to, so a denomination means something only together with its chain.
#[derive(Debug, Clone, PartialEq, Eq)]
pub struct Denom(pub String);

} // verus!
