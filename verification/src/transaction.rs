//! Transfers: content-addressed records that their sender may sign.

use crate::encoding::{append_bytes, same_bytes};
use crate::error::LedgerError;
use crate::hashing::{sha256, sha256_digest};
use crate::signing::{
    ed25519_accepts, ed25519_public_key, ed25519_signature, public_key_of, sign_message,
    verify_signature,
};
use crate::utxo::{total, utxo_id, utxo_id_text};
use crate::wallet::Wallet;
use vstd::bytes::{spec_u64_to_le_bytes, u64_to_le_bytes};
use vstd::prelude::*;

verus! {

/// A transfer of `amount` from `sender` to `receiver`.
///
/// `id` is set once, by [`Transaction::new`]. The fields are open: a field
/// changed afterwards leaves `id` and `signature` as they were.
#[derive(Clone, Copy, Debug, PartialEq, Eq)]
pub struct Transaction {
    /// The hash of the four fields that follow, as they were at construction.
    pub id: [u8; 32],
    /// The public key of the paying side.
    pub sender: [u8; 32],
    /// The public key of the receiving side.
    pub receiver: [u8; 32],
    pub amount: u64,
    /// The sender's counter at the time of the transfer.
    pub nonce: u64,
    /// The sender's signature of `id`, once given.
    pub signature: Option<[u8; 64]>,
}

/// A transaction as a mathematical value.
pub struct TransactionView {
    pub id: Seq<u8>,
    pub sender: Seq<u8>,
    pub receiver: Seq<u8>,
    pub amount: u64,
    pub nonce: u64,
    pub signature: Option<Seq<u8>>,
}

impl View for Transaction {
    type V = TransactionView;

    open spec fn view(&self) -> TransactionView {
        TransactionView {
            id: self.id@,
            sender: self.sender@,
            receiver: self.receiver@,
            amount: self.amount,
            nonce: self.nonce,
            signature: match self.signature {
                Some(signature) => Some(signature@),
                None => None,
            },
        }
    }
}

/// The bytes that a transaction's id is the hash of: sender, receiver, then
/// amount and nonce in little-endian order.
pub open spec fn transaction_content(
    sender: Seq<u8>,
    receiver: Seq<u8>,
    amount: u64,
    nonce: u64,
) -> Seq<u8> {
    sender + receiver + spec_u64_to_le_bytes(amount) + spec_u64_to_le_bytes(nonce)
}

/// The id of a transaction with the given content.
pub open spec fn transaction_id(
    sender: Seq<u8>,
    receiver: Seq<u8>,
    amount: u64,
    nonce: u64,
) -> Seq<u8> {
    sha256(transaction_content(sender, receiver, amount, nonce))
}

/// The unsigned transaction with the given content.
pub open spec fn unsigned_transfer(
    sender: Seq<u8>,
    receiver: Seq<u8>,
    amount: u64,
    nonce: u64,
) -> TransactionView {
    TransactionView {
        id: transaction_id(sender, receiver, amount, nonce),
        sender,
        receiver,
        amount,
        nonce,
        signature: None,
    }
}

/// The number of the output that a transfer numbered `nonce` spends: the
/// one before it, and 0 for the transfer numbered 0.
pub open spec fn nonce_before(nonce: u64) -> u64 {
    if nonce == 0 {
        0
    } else {
        (nonce - 1) as u64
    }
}

impl TransactionView {
    /// The identifier of the output that the transaction spends: the
    /// sender's, numbered one before the transaction's nonce (and 0 where
    /// the nonce is 0).
    pub open spec fn input_id(self) -> Seq<char> {
        utxo_id_text(self.sender, nonce_before(self.nonce))
    }

    /// The identifier of the output that the transaction makes: the
    /// receiver's, numbered by the transaction's nonce.
    pub open spec fn output_id(self) -> Seq<char> {
        utxo_id_text(self.receiver, self.nonce)
    }

    /// Whether the id is the one that the content stands for. A field changed
    /// after construction shows here, unless the id was derived anew.
    pub open spec fn is_intact(self) -> bool {
        self.id == transaction_id(self.sender, self.receiver, self.amount, self.nonce)
    }

    /// Whether the transaction carries a signature of its id that its sender's
    /// key accepts.
    pub open spec fn is_authentic(self) -> bool {
        match self.signature {
            Some(signature) => ed25519_accepts(self.sender, self.id, signature),
            None => false,
        }
    }

    /// The transaction with the signature that `secret` gives to its id.
    pub open spec fn signed_by(self, secret: Seq<u8>) -> TransactionView {
        TransactionView { signature: Some(ed25519_signature(secret, self.id)), ..self }
    }
}

impl Transaction {
    /// An unsigned transfer whose id is derived from the four arguments.
    pub fn new(sender: [u8; 32], receiver: [u8; 32], amount: u64, nonce: u64) -> (tx: Self)
        ensures
            tx@ == unsigned_transfer(sender@, receiver@, amount, nonce),
            tx@.is_intact(),
    {
        let id = derive_id(&sender, &receiver, amount, nonce);
        Transaction { id, sender, receiver, amount, nonce, signature: None }
    }

    /// Whether the id still is the one that the content stands for.
    pub fn is_intact(&self) -> (intact: bool)
        ensures
            intact == self@.is_intact(),
    {
        let id = derive_id(&self.sender, &self.receiver, self.amount, self.nonce);
        same_bytes(id.as_slice(), self.id.as_slice())
    }

    /// Signs the id with `signing_key` if that key is the sender's, and says
    /// whether it did. With any other key the transaction stays as it was.
    ///
    /// A transaction signed here is authentic: [`Transaction::verify`] accepts
    /// it for as long as sender, id and signature stay untouched.
    pub fn sign(&mut self, signing_key: &[u8; 32]) -> (signed: bool)
        ensures
            signed == (ed25519_public_key(signing_key@) == old(self)@.sender),
            signed ==> final(self)@ == old(self)@.signed_by(signing_key@),
            signed ==> final(self)@.is_authentic(),
            !signed ==> *final(self) == *old(self),
    {
        let public = public_key_of(signing_key);
        if !same_bytes(public.as_slice(), self.sender.as_slice()) {
            return false;
        }
        let signature = sign_message(signing_key, self.id.as_slice());
        self.signature = Some(signature);
        true
    }

    /// Whether the transaction is authentic: it is signed, and the sender's
    /// key accepts the signature for the id.
    pub fn verify(&self) -> (authentic: bool)
        ensures
            authentic == self@.is_authentic(),
    {
        match &self.signature {
            Some(signature) => verify_signature(&self.sender, self.id.as_slice(), signature),
            None => false,
        }
    }

    /// The identifier of the output that the transaction spends.
    pub fn input_utxo(&self) -> (id: String)
        ensures
            id@ == self@.input_id(),
    {
        let number: u64 = if self.nonce == 0 {
            0
        } else {
            self.nonce - 1
        };
        utxo_id(&self.sender, number)
    }

    /// The identifier of the output that the transaction makes.
    pub fn output_utxo(&self) -> (id: String)
        ensures
            id@ == self@.output_id(),
    {
        utxo_id(&self.receiver, self.nonce)
    }
}

/// Hashes the content of a transaction into its id.
fn derive_id(sender: &[u8; 32], receiver: &[u8; 32], amount: u64, nonce: u64) -> (id: [u8; 32])
    ensures
        id@ == transaction_id(sender@, receiver@, amount, nonce),
{
    let mut content: Vec<u8> = Vec::new();
    append_bytes(&mut content, sender.as_slice());
    append_bytes(&mut content, receiver.as_slice());
    let amount_bytes = u64_to_le_bytes(amount);
    append_bytes(&mut content, amount_bytes.as_slice());
    let nonce_bytes = u64_to_le_bytes(nonce);
    append_bytes(&mut content, nonce_bytes.as_slice());
    sha256_digest(content.as_slice())
}

/// Judges whether `transaction` may be staged, and gives the first reason
/// against it: the balance of the sender's wallet is looked at before the
/// signature.
pub fn check_transaction(
    transaction: &Transaction,
    sender_wallet: &Wallet,
) -> (outcome: Result<(), LedgerError>)
    ensures
        match outcome {
            Ok(_) => total(sender_wallet@.utxos) >= transaction.amount
                && transaction@.is_authentic(),
            Err(LedgerError::InsufficientBalance) => total(sender_wallet@.utxos)
                < transaction.amount,
            Err(LedgerError::InvalidSignature) => total(sender_wallet@.utxos)
                >= transaction.amount && !transaction@.is_authentic(),
            Err(_) => false,
        },
{
    let funded = match sender_wallet.utxos.checked_total() {
        Some(balance) => balance >= transaction.amount,
        None => true,
    };
    if !funded {
        Err(LedgerError::InsufficientBalance)
    } else if !transaction.verify() {
        Err(LedgerError::InvalidSignature)
    } else {
        Ok(())
    }
}

/// Whether `transaction` may be staged: the sender's wallet holds at least
/// the amount, and the transaction is authentic.
pub fn validate_transaction(transaction: &Transaction, sender_wallet: &Wallet) -> (valid: bool)
    ensures
        valid == (total(sender_wallet@.utxos) >= transaction.amount
            && transaction@.is_authentic()),
{
    check_transaction(transaction, sender_wallet).is_ok()
}

} // verus!
