//! The staging area for transactions that no block holds yet.

use crate::block::transaction_views;
use crate::encoding::same_bytes;
use crate::transaction::{Transaction, TransactionView};
use vstd::prelude::*;

verus! {

/// Whether some transaction of `pool` has the id `id`.
pub open spec fn holds_id(pool: Seq<TransactionView>, id: Seq<u8>) -> bool {
    exists|i: int| 0 <= i < pool.len() && (#[trigger] pool[i]).id == id
}

/// Whether no id occurs twice in `pool`.
pub open spec fn distinct_ids(pool: Seq<TransactionView>) -> bool {
    forall|i: int, j: int|
        0 <= i < j < pool.len() ==> (#[trigger] pool[i]).id != (#[trigger] pool[j]).id
}

/// `pool` after `tx` has asked to be let in: it goes to the end, unless its
/// id is there already.
pub open spec fn admitted(pool: Seq<TransactionView>, tx: TransactionView) -> Seq<
    TransactionView,
> {
    if holds_id(pool, tx.id) {
        pool
    } else {
        pool.push(tx)
    }
}

/// How many transactions leave `pool` when `count` are asked for.
pub open spec fn drain_count(pool: Seq<TransactionView>, count: nat) -> int {
    if count <= pool.len() {
        count as int
    } else {
        pool.len() as int
    }
}

/// The transactions that leave `pool` when `count` are asked for: the oldest.
pub open spec fn drained(pool: Seq<TransactionView>, count: nat) -> Seq<TransactionView> {
    pool.take(drain_count(pool, count))
}

/// The transactions that stay in `pool` when `count` are asked for.
pub open spec fn remaining(pool: Seq<TransactionView>, count: nat) -> Seq<TransactionView> {
    pool.skip(drain_count(pool, count))
}

/// Staged transactions in the order in which they were let in. No id occurs
/// twice.
pub struct Mempool {
    transactions: Vec<Transaction>,
}

impl View for Mempool {
    type V = Seq<TransactionView>;

    closed spec fn view(&self) -> Seq<TransactionView> {
        transaction_views(self.transactions@)
    }
}

impl Mempool {
    #[verifier::type_invariant]
    spec fn ids_are_distinct(self) -> bool {
        distinct_ids(self@)
    }

    /// A pool that holds nothing.
    pub fn new() -> (pool: Self)
        ensures
            pool@ == Seq::<TransactionView>::empty(),
    {
        Mempool { transactions: Vec::new() }
    }

    /// Lets `transaction` in at the end, unless a transaction with the same
    /// id is staged already, and says whether it did.
    pub fn add_transaction(&mut self, transaction: Transaction) -> (let_in: bool)
        ensures
            let_in == !holds_id(old(self)@, transaction@.id),
            final(self)@ == admitted(old(self)@, transaction@),
            distinct_ids(final(self)@),
    {
        proof {
            use_type_invariant(&*self);
        }
        let mut i: usize = 0;
        while i < self.transactions.len()
            invariant
                i <= self.transactions@.len(),
                distinct_ids(self@),
                forall|j: int| 0 <= j < i ==> (#[trigger] self@[j]).id != transaction@.id,
            decreases self.transactions@.len() - i,
        {
            if same_bytes(self.transactions[i].id.as_slice(), transaction.id.as_slice()) {
                assert(self@[i as int].id == transaction@.id);
                return false;
            }
            i += 1;
        }
        let mut staged: Vec<Transaction> = Vec::new();
        core::mem::swap(&mut self.transactions, &mut staged);
        staged.push(transaction);
        assert(transaction_views(staged@) == old(self)@.push(transaction@));
        core::mem::swap(&mut self.transactions, &mut staged);
        true
    }

    /// Takes out the `count` oldest transactions, or all if there are fewer,
    /// and returns them oldest first.
    pub fn get_transactions(&mut self, count: usize) -> (taken: Vec<Transaction>)
        ensures
            taken@.len() == drain_count(old(self)@, count as nat),
            transaction_views(taken@) == drained(old(self)@, count as nat),
            final(self)@ == remaining(old(self)@, count as nat),
            distinct_ids(final(self)@),
    {
        proof {
            use_type_invariant(&*self);
        }
        let mut taken: Vec<Transaction> = Vec::new();
        core::mem::swap(&mut self.transactions, &mut taken);
        let n: usize = if count <= taken.len() {
            count
        } else {
            taken.len()
        };
        let mut rest = taken.split_off(n);
        proof {
            let before = old(self)@;
            let after = transaction_views(rest@);
            assert forall|i: int, j: int| 0 <= i < j < after.len() implies (#[trigger] after[i]).id
                != (#[trigger] after[j]).id by {
                assert(after[i] == before[i + n]);
                assert(after[j] == before[j + n]);
            }
        }
        core::mem::swap(&mut self.transactions, &mut rest);
        taken
    }

    /// The number of staged transactions.
    pub fn size(&self) -> (count: usize)
        ensures
            count == self@.len(),
    {
        self.transactions.len()
    }
}

/// A transaction that has asked to be let in is in the pool, so that asking
/// again with the same id is refused.
pub proof fn lemma_second_admission_refused(pool: Seq<TransactionView>, tx: TransactionView)
    ensures
        holds_id(admitted(pool, tx), tx.id),
        admitted(admitted(pool, tx), tx) == admitted(pool, tx),
{
    if !holds_id(pool, tx.id) {
        assert(pool.push(tx)[pool.len() as int].id == tx.id);
    }
}

/// What has left the pool is not in it any more: no transaction that stays
/// has the id of one that was taken out, so no later draining returns it.
pub proof fn lemma_drained_are_gone(pool: Seq<TransactionView>, count: nat)
    requires
        distinct_ids(pool),
    ensures
        distinct_ids(remaining(pool, count)),
        forall|i: int|
            0 <= i < drained(pool, count).len() ==> !holds_id(
                remaining(pool, count),
                (#[trigger] drained(pool, count)[i]).id,
            ),
{
}

/// A transaction that one draining has returned is not returned by the
/// next: the two hold no id in common.
pub proof fn lemma_drained_once(pool: Seq<TransactionView>, first: nat, second: nat)
    requires
        distinct_ids(pool),
    ensures
        forall|i: int, j: int|
            0 <= i < drained(pool, first).len() && 0 <= j < drained(
                remaining(pool, first),
                second,
            ).len() ==> (#[trigger] drained(pool, first)[i]).id != (#[trigger] drained(
                remaining(pool, first),
                second,
            )[j]).id,
{
}

} // verus!
