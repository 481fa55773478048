//! The ways in which the ledger says no.

use vstd::prelude::*;

verus! {

/// Why a transaction or a block was turned away. Each of these is an
/// ordinary answer; the state it was asked of is as before.
#[derive(Clone, Copy, Debug, PartialEq, Eq)]
pub enum LedgerError {
    /// The transaction is unsigned, or its sender's key does not accept the
    /// signature.
    InvalidSignature,
    /// A transaction with the same id is staged already.
    DuplicateTransaction,
    /// The block does not name the hash of the last block of the chain.
    ChainLinkageMismatch,
    /// A transaction of the block names an input that is not, or no longer,
    /// among the unspent outputs.
    UnknownOrSpentInput,
    /// The sender's wallet holds less than the transaction moves.
    InsufficientBalance,
}

} // verus!
