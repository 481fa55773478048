//! Payment between two wallets, in their own records.

use crate::encoding::{hex_encode, hex_text};
use crate::transaction::{Transaction, TransactionView};
use crate::utxo::{lemma_total_first, total, with_entry, UtxoMap};
use crate::wallet::{Wallet, WalletView};
use vstd::prelude::*;

verus! {

/// The identifier under which the receiver records what `tx` pays.
pub open spec fn receipt_id(tx: TransactionView) -> Seq<char> {
    hex_text(tx.id) + seq![':', '0']
}

/// The identifier under which the sender records what `tx` leaves over.
pub open spec fn change_id(tx: TransactionView) -> Seq<char> {
    hex_text(tx.id) + seq![':', '1']
}

/// The entries left when `amount` is paid from the oldest: entries go, oldest
/// first, until their values reach the amount.
pub open spec fn left_after(entries: Seq<(Seq<char>, u64)>, amount: nat) -> Seq<(Seq<char>, u64)>
    decreases entries.len(),
{
    if amount == 0 || entries.len() == 0 {
        entries
    } else if entries[0].1 >= amount {
        entries.drop_first()
    } else {
        left_after(entries.drop_first(), (amount - entries[0].1) as nat)
    }
}

/// What the entries that go for `amount` hold beyond it.
pub open spec fn change_after(entries: Seq<(Seq<char>, u64)>, amount: nat) -> nat
    decreases entries.len(),
{
    if amount == 0 || entries.len() == 0 {
        0
    } else if entries[0].1 >= amount {
        (entries[0].1 - amount) as nat
    } else {
        change_after(entries.drop_first(), (amount - entries[0].1) as nat)
    }
}

/// The sender's record after it has paid `tx`: the entries that went for the
/// amount are gone, and what they held beyond it is recorded as change.
pub open spec fn debited(entries: Seq<(Seq<char>, u64)>, tx: TransactionView) -> Seq<
    (Seq<char>, u64),
> {
    let left = left_after(entries, tx.amount as nat);
    let change = change_after(entries, tx.amount as nat);
    if change > 0 {
        with_entry(left, change_id(tx), change as u64)
    } else {
        left
    }
}

/// The sender's wallet after `tx` has been asked of it: as it was where its
/// record holds less than the amount, and else debited, with the counter
/// one higher.
pub open spec fn sender_after(sender: WalletView, tx: TransactionView) -> WalletView {
    if total(sender.utxos) < tx.amount {
        sender
    } else {
        WalletView {
            utxos: debited(sender.utxos, tx),
            nonce: (sender.nonce + 1) as u64,
            ..sender
        }
    }
}

/// The receiver's wallet after `tx` has been asked of `sender`: as it was
/// where the sender's record holds less than the amount, and else with one
/// new output of the amount.
pub open spec fn receiver_after(
    sender: WalletView,
    receiver: WalletView,
    tx: TransactionView,
) -> WalletView {
    if total(sender.utxos) < tx.amount {
        receiver
    } else {
        WalletView { utxos: with_entry(receiver.utxos, receipt_id(tx), tx.amount), ..receiver }
    }
}

/// Nothing is lost in paying: what is left, what comes back and the amount
/// add up to what was there.
pub proof fn lemma_payment_conserves(entries: Seq<(Seq<char>, u64)>, amount: nat)
    requires
        total(entries) >= amount,
    ensures
        total(left_after(entries, amount)) + change_after(entries, amount) + amount == total(
            entries,
        ),
    decreases entries.len(),
{
    if amount > 0 && entries.len() > 0 {
        lemma_total_first(entries);
        if entries[0].1 < amount {
            lemma_payment_conserves(entries.drop_first(), (amount - entries[0].1) as nat);
        }
    }
}

/// Takes the oldest entries out of `utxos` until their values reach
/// `amount`, and returns what they held beyond it. Where all the values
/// together fall short of the amount, nothing is taken and nothing returned.
pub fn draw(utxos: &mut UtxoMap, amount: u64) -> (change: Option<u64>)
    ensures
        match change {
            Some(change) => total(old(utxos)@) >= amount && final(utxos)@ == left_after(
                old(utxos)@,
                amount as nat,
            ) && change == change_after(old(utxos)@, amount as nat),
            None => total(old(utxos)@) < amount && final(utxos)@ == old(utxos)@,
        },
{
    let funded = match utxos.checked_total() {
        Some(sum) => sum >= amount,
        None => true,
    };
    if funded {
        Some(draw_funded(utxos, amount))
    } else {
        None
    }
}

/// Draws `amount` from entries that are known to hold it.
fn draw_funded(utxos: &mut UtxoMap, amount: u64) -> (change: u64)
    requires
        total(old(utxos)@) >= amount,
    ensures
        final(utxos)@ == left_after(old(utxos)@, amount as nat),
        change == change_after(old(utxos)@, amount as nat),
    decreases old(utxos)@.len(),
{
    if amount == 0 {
        return 0;
    }
    proof {
        if utxos@.len() > 0 {
            lemma_total_first(utxos@);
        }
    }
    let oldest = utxos.take_first().unwrap();
    if oldest.1 >= amount {
        oldest.1 - amount
    } else {
        draw_funded(utxos, amount - oldest.1)
    }
}

/// Writes an identifier made of the id of `tx` and `suffix`.
fn tagged_id(tx: &Transaction, suffix: &str) -> (id: String)
    ensures
        id@ == hex_text(tx@.id) + suffix@,
{
    let mut id = hex_encode(tx.id.as_slice());
    id.append(suffix);
    id
}

/// Moves the amount of `transaction` from the sender's record to the
/// receiver's, and counts the sender's counter up. A sender whose record
/// holds less than the amount pays nothing: the transaction and both wallets
/// stay as they were.
///
/// The sender pays with its oldest outputs. What they hold beyond the amount
/// comes back to the sender as one new output; the receiver gets one new
/// output of the amount.
pub fn process_transaction(
    transaction: &mut Transaction,
    sender_wallet: &mut Wallet,
    receiver_wallet: &mut Wallet,
)
    requires
        old(sender_wallet).nonce < u64::MAX,
    ensures
        *final(transaction) == *old(transaction),
        final(sender_wallet)@ == sender_after(old(sender_wallet)@, old(transaction)@),
        final(receiver_wallet)@ == receiver_after(
            old(sender_wallet)@,
            old(receiver_wallet)@,
            old(transaction)@,
        ),
{
    let change = match draw(&mut sender_wallet.utxos, transaction.amount) {
        Some(change) => change,
        None => {
            return ;
        },
    };
    proof {
        reveal_strlit(":0");
        reveal_strlit(":1");
        assert(":0"@ == seq![':', '0']);
        assert(":1"@ == seq![':', '1']);
    }
    if change > 0 {
        sender_wallet.utxos.insert(tagged_id(transaction, ":1"), change);
    }
    receiver_wallet.utxos.insert(tagged_id(transaction, ":0"), transaction.amount);
    sender_wallet.nonce = sender_wallet.nonce + 1;
}

} // verus!
