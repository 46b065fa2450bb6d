use vstd::prelude::*;

verus! {

/// Why one transaction's balance changes could not be turned into an event.
#[derive(Debug, Clone, Copy, PartialEq, Eq, Structural)]
pub enum HistoryError {
    /// A coin type identifier is not in the table and has fewer than three
    /// `::`-separated segments.
    MalformedCoinType,
    /// A received-token shape whose first record for the wallet does not
    /// credit it.
    ReceiverNotCredited,
}

} // verus!
