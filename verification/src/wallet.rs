//! Wallets: a key pair, a counter, and the owner's own record of what it
//! may spend.

use crate::block::{block_views, Block, BlockView};
use crate::encoding::same_bytes;
use crate::signing::{
    ed25519_accepts, ed25519_public_key, ed25519_signature, fresh_secret_key, public_key_of,
    sign_message,
};
use crate::transaction::{unsigned_transfer, Transaction, TransactionView};
use crate::utxo::{lemma_credit_adds, total, with_credit, UtxoMap};
use vstd::prelude::*;

verus! {

/// A key pair with the outputs that its owner believes to hold.
///
/// `utxos` is the wallet's own record. Nothing ties it to the ledger's set of
/// unspent outputs; to keep the two in step is the caller's business.
#[derive(Clone)]
pub struct Wallet {
    /// The seed of the secret key.
    pub signing_key: [u8; 32],
    /// The public key, which is the wallet's address.
    pub verifying_key: [u8; 32],
    /// The outputs recorded for this wallet, each with its value.
    pub utxos: UtxoMap,
    /// The number of the next transaction that the wallet makes.
    pub nonce: u64,
}

/// A wallet as a mathematical value.
pub struct WalletView {
    pub signing_key: Seq<u8>,
    pub verifying_key: Seq<u8>,
    pub utxos: Seq<(Seq<char>, u64)>,
    pub nonce: u64,
}

impl View for Wallet {
    type V = WalletView;

    open spec fn view(&self) -> WalletView {
        WalletView {
            signing_key: self.signing_key@,
            verifying_key: self.verifying_key@,
            utxos: self.utxos@,
            nonce: self.nonce,
        }
    }
}

impl WalletView {
    /// Whether the public key is the one that belongs to the secret key.
    pub open spec fn is_key_pair(self) -> bool {
        self.verifying_key == ed25519_public_key(self.signing_key)
    }

    /// The wallet after it has seen `tx`: the amount of a transaction for
    /// the wallet is added under the identifier of its output; any other
    /// transaction changes nothing.
    pub open spec fn credited(self, tx: TransactionView) -> WalletView {
        if tx.receiver == self.verifying_key {
            WalletView { utxos: with_credit(self.utxos, tx.output_id(), tx.amount), ..self }
        } else {
            self
        }
    }

    /// The wallet after it has seen `transactions`, one after the other.
    pub open spec fn credited_all(self, transactions: Seq<TransactionView>) -> WalletView
        decreases transactions.len(),
    {
        if transactions.len() == 0 {
            self
        } else {
            self.credited(transactions[0]).credited_all(transactions.drop_first())
        }
    }

    /// The wallet after it has seen the blocks from place `seen` on, oldest
    /// first.
    pub open spec fn caught_up(self, blocks: Seq<BlockView>, seen: int) -> WalletView
        decreases blocks.len() - seen,
    {
        if seen < 0 || seen >= blocks.len() {
            self
        } else {
            self.credited_all(blocks[seen].transactions).caught_up(blocks, seen + 1)
        }
    }
}

impl Wallet {
    /// A wallet with a fresh key pair, no outputs and the counter at 0.
    pub fn new() -> (wallet: Self)
        ensures
            wallet@.is_key_pair(),
            wallet@.utxos == Seq::<(Seq<char>, u64)>::empty(),
            wallet@.nonce == 0,
    {
        let signing_key = fresh_secret_key();
        let verifying_key = public_key_of(&signing_key);
        Wallet { signing_key, verifying_key, utxos: UtxoMap::new(), nonce: 0 }
    }

    /// The wallet's signature of `message`.
    pub fn sign(&self, message: &[u8]) -> (signature: [u8; 64])
        ensures
            signature@ == ed25519_signature(self@.signing_key, message@),
            self@.is_key_pair() ==> ed25519_accepts(self@.verifying_key, message@, signature@),
    {
        sign_message(&self.signing_key, message)
    }

    /// The sum of the values of the recorded outputs.
    pub fn balance(&self) -> (sum: u64)
        requires
            total(self@.utxos) <= u64::MAX,
        ensures
            sum == total(self@.utxos),
    {
        self.utxos.checked_total().unwrap()
    }

    /// A transfer of `amount` to `receiver_address`, numbered by the counter
    /// and signed, after which the counter stands one higher.
    ///
    /// The balance is not looked at: whether the wallet can pay is for
    /// [`validate_transaction`](crate::transaction::validate_transaction) to
    /// say. A wallet whose two keys are no pair cannot sign as its own
    /// address, and hands the transfer out unsigned.
    pub fn create_transaction(
        &mut self,
        receiver_address: [u8; 32],
        amount: u64,
    ) -> (tx: Transaction)
        requires
            old(self).nonce < u64::MAX,
        ensures
            tx@ == (if old(self)@.is_key_pair() {
                unsigned_transfer(
                    old(self)@.verifying_key,
                    receiver_address@,
                    amount,
                    old(self)@.nonce,
                ).signed_by(old(self)@.signing_key)
            } else {
                unsigned_transfer(
                    old(self)@.verifying_key,
                    receiver_address@,
                    amount,
                    old(self)@.nonce,
                )
            }),
            old(self)@.is_key_pair() ==> tx@.is_authentic(),
            final(self)@ == (WalletView { nonce: (old(self)@.nonce + 1) as u64, ..old(self)@ }),
    {
        let mut tx = Transaction::new(self.verifying_key, receiver_address, amount, self.nonce);
        tx.sign(&self.signing_key);
        self.nonce = self.nonce + 1;
        tx
    }

    /// Credits the amount of `tx` if it is for this wallet: the balance
    /// goes up by the amount, each time.
    ///
    /// The amount is recorded under the identifier of the output, on top of
    /// what is recorded there already. The one credit that is not recorded
    /// is one that would take that record beyond what a `u64` holds; the
    /// balance is beyond it then too.
    pub fn apply_transaction(&mut self, tx: &Transaction)
        ensures
            final(self)@ == old(self)@.credited(tx@),
            tx@.receiver == old(self)@.verifying_key && total(old(self)@.utxos) + tx.amount
                <= u64::MAX ==> total(final(self)@.utxos) == total(old(self)@.utxos) + tx.amount,
            tx@.receiver != old(self)@.verifying_key ==> final(self)@ == old(self)@,
    {
        proof {
            if total(self@.utxos) + tx.amount <= u64::MAX {
                lemma_credit_adds(self@.utxos, tx@.output_id(), tx.amount);
            }
        }
        if same_bytes(tx.receiver.as_slice(), self.verifying_key.as_slice()) {
            let id = tx.output_utxo();
            let credited = match self.utxos.get(id.as_str()) {
                Some(held) => held.checked_add(tx.amount),
                None => Some(tx.amount),
            };
            match credited {
                Some(value) => {
                    self.utxos.insert(id, value);
                },
                None => {},
            }
        }
    }

    /// Credits what the transactions of `block` pay to this wallet.
    pub fn apply_block(&mut self, block: &Block)
        ensures
            final(self)@ == old(self)@.credited_all(block@.transactions),
    {
        let ghost all = block@.transactions;
        assert(all.skip(0) == all);
        let mut i: usize = 0;
        while i < block.transactions.len()
            invariant
                i <= block.transactions@.len(),
                all == block@.transactions,
                old(self)@.credited_all(all) == self@.credited_all(all.skip(i as int)),
            decreases block.transactions@.len() - i,
        {
            proof {
                assert(all.skip(i as int).drop_first() == all.skip(i + 1));
            }
            self.apply_transaction(&block.transactions[i]);
            i += 1;
        }
    }

    /// Credits what the blocks from place `seen` on pay to this wallet, and
    /// returns the place up to which `blocks` have now been seen.
    pub fn catch_up(&mut self, blocks: &[Block], seen: usize) -> (now_seen: usize)
        ensures
            final(self)@ == old(self)@.caught_up(block_views(blocks@), seen as int),
            now_seen == if seen <= blocks@.len() {
                blocks@.len()
            } else {
                seen as nat
            },
    {
        let ghost all = block_views(blocks@);
        let mut i: usize = seen;
        while i < blocks.len()
            invariant
                seen <= i,
                seen <= blocks@.len() ==> i <= blocks@.len(),
                seen > blocks@.len() ==> i == seen,
                all == block_views(blocks@),
                old(self)@.caught_up(all, seen as int) == self@.caught_up(all, i as int),
            decreases blocks@.len() - i,
        {
            self.apply_block(&blocks[i]);
            i += 1;
        }
        i
    }
}

} // verus!
