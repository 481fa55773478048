//! The ledger: a chain of blocks and the unspent outputs that it leaves.

use crate::block::{block_at, block_views, transaction_views, Block, BlockView};
use crate::encoding::same_text;
use crate::error::LedgerError;
use crate::merkle::{zero_hash, zero_hash_text};
use crate::transaction::{unsigned_transfer, Transaction, TransactionView};
use crate::utxo::{distinct_keys, has_key, utxo_id_text, with_entry, without_key, UtxoMap};
use crate::wallet::Wallet;
use vstd::prelude::*;

verus! {

/// The blocks accepted so far, oldest first, and the outputs that nobody has
/// spent yet.
///
/// A chain starts with its genesis block and only ever grows at the end, by
/// [`Blockchain::add_block`].
pub struct Blockchain {
    pub blocks: Vec<Block>,
    pub utxos: UtxoMap,
}

/// A ledger as a mathematical value.
pub struct BlockchainView {
    pub blocks: Seq<BlockView>,
    pub utxos: Seq<(Seq<char>, u64)>,
}

impl View for Blockchain {
    type V = BlockchainView;

    open spec fn view(&self) -> BlockchainView {
        BlockchainView { blocks: block_views(self.blocks@), utxos: self.utxos@ }
    }
}

/// The outputs after `tx` alone: its input is gone, and its output is there
/// with the amount as its value.
pub open spec fn spend(utxos: Seq<(Seq<char>, u64)>, tx: TransactionView) -> Seq<
    (Seq<char>, u64),
> {
    with_entry(without_key(utxos, tx.input_id()), tx.output_id(), tx.amount)
}

/// The outputs after all of `transactions`, taken in their order, each of
/// them judged against what those before it have left; nothing if one of
/// them finds its input missing.
pub open spec fn spend_all(
    utxos: Seq<(Seq<char>, u64)>,
    transactions: Seq<TransactionView>,
) -> Option<Seq<(Seq<char>, u64)>>
    decreases transactions.len(),
{
    if transactions.len() == 0 {
        Some(utxos)
    } else if !has_key(utxos, transactions[0].input_id()) {
        None
    } else {
        spend_all(spend(utxos, transactions[0]), transactions.drop_first())
    }
}

/// No output is spent twice: once `tx` has gone through, its input is not
/// among the unspent outputs, so that a second transaction that names the
/// same input finds nothing. (A transaction whose output bears the name of
/// its input puts that name back.)
pub proof fn lemma_spent_is_gone(utxos: Seq<(Seq<char>, u64)>, tx: TransactionView)
    requires
        distinct_keys(utxos),
        tx.output_id() != tx.input_id(),
    ensures
        !has_key(spend(utxos, tx), tx.input_id()),
{
}

impl BlockchainView {
    /// The hash of the last block.
    pub open spec fn tip_hash(self) -> Seq<char>
        recommends
            self.blocks.len() > 0,
    {
        self.blocks.last().hash_text()
    }

    /// Whether each block after the first names the hash of the block
    /// before it.
    pub open spec fn is_linked(self) -> bool {
        forall|i: int|
            0 < i < self.blocks.len() ==> (#[trigger] self.blocks[i]).header.previous_block_hash
                == self.blocks[i - 1].hash_text()
    }

    /// Whether `block` may follow: it names the hash of the last block, and
    /// each of its transactions finds its input.
    pub open spec fn accepts(self, block: BlockView) -> bool {
        &&& block.header.previous_block_hash == self.tip_hash()
        &&& spend_all(self.utxos, block.transactions) is Some
    }

    /// The ledger after `block` has been taken in.
    pub open spec fn extended(self, block: BlockView) -> BlockchainView
        recommends
            self.accepts(block),
    {
        BlockchainView {
            blocks: self.blocks.push(block),
            utxos: spend_all(self.utxos, block.transactions).unwrap(),
        }
    }
}

/// Runs `transactions` against a copy of `utxos` and hands the copy back if
/// all of them found their inputs.
pub fn settle(utxos: &UtxoMap, transactions: &[Transaction]) -> (settled: Option<UtxoMap>)
    ensures
        match settled {
            Some(after) => spend_all(utxos@, transaction_views(transactions@)) == Some(after@),
            None => spend_all(utxos@, transaction_views(transactions@)) is None,
        },
{
    let mut working = utxos.clone();
    let ghost all = transaction_views(transactions@);
    assert(all.skip(0) == all);
    let mut i: usize = 0;
    while i < transactions.len()
        invariant
            i <= transactions@.len(),
            all == transaction_views(transactions@),
            spend_all(utxos@, all) == spend_all(working@, all.skip(i as int)),
        decreases transactions@.len() - i,
    {
        let tx = &transactions[i];
        let input = tx.input_utxo();
        proof {
            assert(all.skip(i as int).drop_first() == all.skip(i + 1));
        }
        if !working.contains_key(input.as_str()) {
            return None;
        }
        working.remove(input.as_str());
        working.insert(tx.output_utxo(), tx.amount);
        i += 1;
    }
    Some(working)
}

impl Blockchain {
    /// A ledger that holds a genesis block alone. The block follows the zero
    /// hash and carries one unsigned transaction, which pays 1000 from one
    /// fresh key to another; the output of that payment is the one unspent
    /// output.
    pub fn new() -> (chain: Self)
        ensures
            chain@.blocks.len() == 1,
            chain@.is_linked(),
            chain@.blocks[0].transactions.len() == 1,
            chain@.blocks[0] == block_at(
                zero_hash_text(),
                chain@.blocks[0].transactions,
                chain@.blocks[0].header.timestamp,
            ),
            chain@.blocks[0].transactions[0] == unsigned_transfer(
                chain@.blocks[0].transactions[0].sender,
                chain@.blocks[0].transactions[0].receiver,
                1000,
                0,
            ),
            chain@.utxos == seq![
                (utxo_id_text(chain@.blocks[0].transactions[0].receiver, 0), 1000u64),
            ],
    {
        let faucet = Wallet::new();
        let wallet = Wallet::new();
        let coinbase = Transaction::new(faucet.verifying_key, wallet.verifying_key, 1000, 0);
        let mut transactions: Vec<Transaction> = Vec::new();
        transactions.push(coinbase);
        let genesis = Block::new(zero_hash(), transactions);
        let mut utxos = UtxoMap::new();
        utxos.insert(coinbase.output_utxo(), coinbase.amount);
        let mut blocks: Vec<Block> = Vec::new();
        blocks.push(genesis);
        Blockchain { blocks, utxos }
    }

    /// The hash of the last block.
    pub fn get_last_block_hash(&self) -> (hash: String)
        requires
            self.blocks@.len() > 0,
        ensures
            hash@ == self@.tip_hash(),
    {
        self.blocks[self.blocks.len() - 1].calculate_hash()
    }

    /// A block with `transactions` that follows the last block, stamped with
    /// the current time.
    pub fn create_block(&self, transactions: Vec<Transaction>) -> (block: Block)
        requires
            self.blocks@.len() > 0,
        ensures
            block@ == block_at(
                self@.tip_hash(),
                transaction_views(transactions@),
                block.header.timestamp,
            ),
    {
        Block::new(self.get_last_block_hash(), transactions)
    }

    /// Judges `block` without taking it in: the unspent outputs as the block
    /// would leave them, or the first reason against it. The linkage is
    /// looked at before the transactions.
    pub fn check_block(&self, block: &Block) -> (outcome: Result<UtxoMap, LedgerError>)
        requires
            self.blocks@.len() > 0,
        ensures
            match outcome {
                Ok(utxos) => self@.accepts(block@) && utxos@ == self@.extended(block@).utxos,
                Err(LedgerError::ChainLinkageMismatch) => block@.header.previous_block_hash
                    != self@.tip_hash(),
                Err(LedgerError::UnknownOrSpentInput) => block@.header.previous_block_hash
                    == self@.tip_hash() && spend_all(self@.utxos, block@.transactions) is None,
                Err(_) => false,
            },
    {
        let tip = self.get_last_block_hash();
        if !same_text(block.header.previous_block_hash.as_str(), tip.as_str()) {
            return Err(LedgerError::ChainLinkageMismatch);
        }
        match settle(&self.utxos, block.transactions.as_slice()) {
            Some(settled) => Ok(settled),
            None => Err(LedgerError::UnknownOrSpentInput),
        }
    }

    /// Takes `block` in at the end of the chain, or leaves the ledger as it
    /// is and says no.
    ///
    /// A block is taken in if it names the hash of the last block and each of
    /// its transactions, in their order, finds its input among the unspent
    /// outputs as the transactions before it have left them. Then all the
    /// inputs are gone and all the outputs are there. A block that fails at
    /// any point changes nothing at all.
    ///
    /// Neither signatures nor amounts are looked at here: a transaction is
    /// authenticated when it is staged, and an output is spent whole, by
    /// whoever names it.
    pub fn add_block(&mut self, block: Block) -> (accepted: bool)
        requires
            old(self).blocks@.len() > 0,
        ensures
            accepted == old(self)@.accepts(block@),
            accepted ==> final(self)@ == old(self)@.extended(block@),
            !accepted ==> *final(self) == *old(self),
            old(self)@.is_linked() ==> final(self)@.is_linked(),
    {
        match self.check_block(&block) {
            Ok(settled) => {
                self.utxos = settled;
                self.blocks.push(block);
                proof {
                    assert(self@.blocks =~= old(self)@.blocks.push(block@));
                }
                true
            },
            Err(_) => false,
        }
    }
}

} // verus!
