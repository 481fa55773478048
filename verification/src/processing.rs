//! The way into the mempool.

use crate::error::LedgerError;
use crate::mempool::{admitted, holds_id, Mempool};
use crate::transaction::Transaction;
use vstd::prelude::*;

verus! {

/// Stages `transaction` if it is authentic and its id is not staged yet;
/// else gives the reason and leaves the pool as it was. The signature is
/// looked at first.
pub fn stage_transaction(
    mempool: &mut Mempool,
    transaction: &Transaction,
) -> (outcome: Result<(), LedgerError>)
    ensures
        match outcome {
            Ok(_) => transaction@.is_authentic() && !holds_id(old(mempool)@, transaction@.id)
                && final(mempool)@ == old(mempool)@.push(transaction@),
            Err(LedgerError::InvalidSignature) => !transaction@.is_authentic() && final(mempool)@
                == old(mempool)@,
            Err(LedgerError::DuplicateTransaction) => transaction@.is_authentic() && holds_id(
                old(mempool)@,
                transaction@.id,
            ) && final(mempool)@ == old(mempool)@,
            Err(_) => false,
        },
{
    if !transaction.verify() {
        Err(LedgerError::InvalidSignature)
    } else if mempool.add_transaction(*transaction) {
        Ok(())
    } else {
        Err(LedgerError::DuplicateTransaction)
    }
}

/// Stages `transaction` if it is authentic. A transaction that is not, or
/// whose id is staged already, leaves the pool as it was.
pub fn process_transaction(mempool: &mut Mempool, transaction: &Transaction)
    ensures
        final(mempool)@ == (if transaction@.is_authentic() {
            admitted(old(mempool)@, transaction@)
        } else {
            old(mempool)@
        }),
{
    let _ = stage_transaction(mempool, transaction);
}

} // verus!
