//! Making value out of nothing, in a wallet's own record.

use crate::encoding::{append_bytes, hex_encode, hex_text};
use crate::hashing::{sha256, sha256_digest};
use crate::utxo::with_entry;
use crate::wallet::{Wallet, WalletView};
use vstd::bytes::{spec_u64_to_le_bytes, u64_to_le_bytes};
use vstd::prelude::*;

verus! {

/// The identifier of the output that a wallet with the key `owner` mints
/// when its counter stands at `nonce`: the hash of key, amount and counter,
/// the numbers in little-endian order.
pub open spec fn minted_id(owner: Seq<u8>, amount: u64, nonce: u64) -> Seq<char> {
    hex_text(sha256(owner + spec_u64_to_le_bytes(amount) + spec_u64_to_le_bytes(nonce)))
}

/// Records a new output of `amount` in `wallet` and counts its counter up.
pub fn mint(wallet: &mut Wallet, amount: u64)
    requires
        old(wallet).nonce < u64::MAX,
    ensures
        final(wallet)@ == (WalletView {
            utxos: with_entry(
                old(wallet)@.utxos,
                minted_id(old(wallet)@.verifying_key, amount, old(wallet).nonce),
                amount,
            ),
            nonce: (old(wallet).nonce + 1) as u64,
            ..old(wallet)@
        }),
{
    let mut content: Vec<u8> = Vec::new();
    append_bytes(&mut content, wallet.verifying_key.as_slice());
    let amount_bytes = u64_to_le_bytes(amount);
    append_bytes(&mut content, amount_bytes.as_slice());
    let nonce_bytes = u64_to_le_bytes(wallet.nonce);
    append_bytes(&mut content, nonce_bytes.as_slice());
    let digest = sha256_digest(content.as_slice());
    wallet.utxos.insert(hex_encode(digest.as_slice()), amount);
    wallet.nonce = wallet.nonce + 1;
}

} // verus!
