//! The failures that a chain driver reports.

use vstd::prelude::*;

verus! {

/// Why an operation on a chain failed. Each variant carries the driver's own
/// account of the failure.
#[derive(Debug, Clone, PartialEq, Eq)]
pub enum Error {
    /// A transaction could not be submitted, or the chain rejected it.
    TxSubmission(String),
    /// A balance could not be queried.
    BalanceQuery(String),
    /// A wallet did not hold the expected amount when the driver gave up
    /// waiting for it.
    AmountNotReached(String),
    /// The transactions of a recipient could not be queried.
    TransactionQuery(String),
    /// The answer to a transaction query could not be read.
    TransactionParse(String),
}

} // verus!
