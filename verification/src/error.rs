//! The failures that the wallet core reports.

use vstd::prelude::*;

verus! {

/// Why an operation of the wallet core did not produce its result.
///
/// Every failure is a value handed back to the caller; the library itself
/// never aborts. `InvalidEntropy` and `AllocationFailure` belong to the
/// boundary around the library and are listed here so that one type carries
/// every failure a caller can meet.
#[derive(Clone, Copy, Debug, PartialEq, Eq, Structural)]
pub enum WalletError {
    /// The entropy is of no supported length, or its checksum is wrong.
    InvalidEntropy,
    /// A list is no JSON array of objects, or a field of one of its records
    /// is missing, of the wrong kind, or out of range.
    MalformedInput,
    /// The list of spendable outputs or the list of payments is empty.
    EmptyInput,
    /// A text is no valid address encoding.
    InvalidAddress,
    /// The inputs do not cover the payments and the fee.
    InsufficientFunds,
    /// An index yields no valid key. Not fatal: the index is left out.
    DerivationRejected,
    /// Memory ran out. Fatal.
    AllocationFailure,
}

} // verus!
