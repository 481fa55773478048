//! Blocks: a header that commits to an ordered list of transactions.

use crate::clock::seconds_since_epoch;
use crate::encoding::{decimal_string, decimal_text, hex_encode, hex_text};
use crate::hashing::{sha256, sha256_digest};
use crate::merkle::{id_bytes, merkle_root, merkle_root_text};
use crate::transaction::{Transaction, TransactionView};
use vstd::prelude::*;
use vstd::utf8::encode_utf8;

verus! {

/// What a block says of itself. The two hashes are written as texts of 64
/// hexadecimal digits.
#[derive(Clone, Debug, PartialEq, Eq)]
pub struct BlockHeader {
    /// The hash of the block before this one.
    pub previous_block_hash: String,
    /// The Merkle root of the block's transactions.
    pub merkle_root: String,
    /// Whole seconds since the start of 1970.
    pub timestamp: u64,
    /// Kept in the header and hashed with it; never searched for.
    pub nonce: u32,
}

/// A header with the transactions it commits to, in their order.
#[derive(Clone, Debug, PartialEq, Eq)]
pub struct Block {
    pub header: BlockHeader,
    pub transactions: Vec<Transaction>,
}

/// A header as a mathematical value.
pub struct BlockHeaderView {
    pub previous_block_hash: Seq<char>,
    pub merkle_root: Seq<char>,
    pub timestamp: u64,
    pub nonce: u32,
}

/// A block as a mathematical value.
pub struct BlockView {
    pub header: BlockHeaderView,
    pub transactions: Seq<TransactionView>,
}

impl View for BlockHeader {
    type V = BlockHeaderView;

    open spec fn view(&self) -> BlockHeaderView {
        BlockHeaderView {
            previous_block_hash: self.previous_block_hash@,
            merkle_root: self.merkle_root@,
            timestamp: self.timestamp,
            nonce: self.nonce,
        }
    }
}

impl View for Block {
    type V = BlockView;

    open spec fn view(&self) -> BlockView {
        BlockView { header: self.header@, transactions: transaction_views(self.transactions@) }
    }
}

/// The transactions of a list as mathematical values.
pub open spec fn transaction_views(transactions: Seq<Transaction>) -> Seq<TransactionView> {
    Seq::new(transactions.len(), |i: int| transactions[i]@)
}

/// The blocks of a list as mathematical values.
pub open spec fn block_views(blocks: Seq<Block>) -> Seq<BlockView> {
    Seq::new(blocks.len(), |i: int| blocks[i]@)
}

/// The ids of `transactions`, in their order.
pub open spec fn transaction_ids(transactions: Seq<TransactionView>) -> Seq<Seq<u8>> {
    Seq::new(transactions.len(), |i: int| transactions[i].id)
}

/// The text that a header is hashed as: the two hashes, then timestamp and
/// nonce in decimal, with nothing in between.
pub open spec fn header_text(header: BlockHeaderView) -> Seq<char> {
    header.previous_block_hash + header.merkle_root + decimal_text(header.timestamp as nat)
        + decimal_text(header.nonce as nat)
}

impl BlockView {
    /// The hash of the block: that of its header's text. The transactions
    /// enter it through the Merkle root alone.
    pub open spec fn hash_text(self) -> Seq<char> {
        hex_text(sha256(encode_utf8(header_text(self.header))))
    }
}

/// The block that follows `previous_block_hash` with `transactions`, stamped
/// `timestamp`: its Merkle root is that of the transactions and its nonce 0.
pub open spec fn block_at(
    previous_block_hash: Seq<char>,
    transactions: Seq<TransactionView>,
    timestamp: u64,
) -> BlockView {
    BlockView {
        header: BlockHeaderView {
            previous_block_hash,
            merkle_root: merkle_root_text(transaction_ids(transactions)),
            timestamp,
            nonce: 0,
        },
        transactions,
    }
}

impl Block {
    /// A block after `previous_block_hash`, stamped with the current time in
    /// whole seconds, or with 0 where the clock stands before 1970.
    pub fn new(previous_block_hash: String, transactions: Vec<Transaction>) -> (block: Self)
        ensures
            block@ == block_at(
                previous_block_hash@,
                transaction_views(transactions@),
                block.header.timestamp,
            ),
    {
        let timestamp = match seconds_since_epoch() {
            Some(seconds) => seconds,
            None => 0,
        };
        Block::with_timestamp(previous_block_hash, transactions, timestamp)
    }

    /// A block after `previous_block_hash`, stamped `timestamp`.
    pub fn with_timestamp(
        previous_block_hash: String,
        transactions: Vec<Transaction>,
        timestamp: u64,
    ) -> (block: Self)
        ensures
            block@ == block_at(previous_block_hash@, transaction_views(transactions@), timestamp),
    {
        let merkle_root = Block::calculate_merkle_root(transactions.as_slice());
        let header = BlockHeader { previous_block_hash, merkle_root, timestamp, nonce: 0 };
        Block { header, transactions }
    }

    /// The hash of the block, as text. It is a function of the four header
    /// fields.
    pub fn calculate_hash(&self) -> (hash: String)
        ensures
            hash@ == self@.hash_text(),
    {
        let mut text = self.header.previous_block_hash.clone();
        text.append(self.header.merkle_root.as_str());
        let timestamp = decimal_string(self.header.timestamp);
        text.append(timestamp.as_str());
        let nonce = decimal_string(self.header.nonce as u64);
        text.append(nonce.as_str());
        let digest = sha256_digest(text.as_str().as_bytes());
        hex_encode(digest.as_slice())
    }

    /// The Merkle root of the ids of `transactions`, in their order.
    pub fn calculate_merkle_root(transactions: &[Transaction]) -> (root: String)
        ensures
            root@ == merkle_root_text(transaction_ids(transaction_views(transactions@))),
    {
        let mut ids: Vec<[u8; 32]> = Vec::new();
        let mut i: usize = 0;
        while i < transactions.len()
            invariant
                i <= transactions@.len(),
                ids@.len() == i,
                forall|j: int| 0 <= j < i ==> (#[trigger] ids@[j])@ == transactions@[j].id@,
            decreases transactions@.len() - i,
        {
            ids.push(transactions[i].id);
            i += 1;
        }
        assert(id_bytes(ids@) == transaction_ids(transaction_views(transactions@)));
        let root = merkle_root(ids.as_slice());
        hex_encode(root.as_slice())
    }
}

/// Two blocks with the same header have the same hash, whatever
/// transactions they carry.
pub proof fn lemma_hash_is_of_header(a: BlockView, b: BlockView)
    requires
        a.header == b.header,
    ensures
        a.hash_text() == b.hash_text(),
{
}

} // verus!
