use ed25519_dalek::{Signer, SigningKey, VerifyingKey};
use sha2::{Digest, Sha256};
use utxo_ledger::error::LedgerError;
use utxo_ledger::transaction::{check_transaction, validate_transaction, Transaction};
use utxo_ledger::wallet::Wallet;

#[test]
fn test_transaction_creation() {
    let wallet_a = Wallet::new();
    let wallet_b = Wallet::new();
    let transaction = Transaction::new(wallet_a.verifying_key, wallet_b.verifying_key, 50, 3);
    assert_eq!(transaction.sender, wallet_a.verifying_key);
    assert_eq!(transaction.receiver, wallet_b.verifying_key);
    assert_eq!(transaction.amount, 50);
    assert_eq!(transaction.nonce, 3);
    assert!(transaction.signature.is_none());
}

#[test]
fn test_sign_and_verify_transaction() {
    let wallet_a = Wallet::new();
    let wallet_b = Wallet::new();

    let mut transaction = Transaction::new(
        wallet_a.verifying_key,
        wallet_b.verifying_key,
        50,
        wallet_a.nonce,
    );
    transaction.sign(&wallet_a.signing_key);

    assert!(transaction.verify());
}

#[test]
fn test_validate_transaction() {
    let mut wallet_a = Wallet::new();
    let wallet_b = Wallet::new();
    wallet_a.utxos.insert("utxo1".to_string(), 100);

    let mut transaction = Transaction::new(
        wallet_a.verifying_key,
        wallet_b.verifying_key,
        50,
        wallet_a.nonce,
    );
    transaction.sign(&wallet_a.signing_key);

    assert!(validate_transaction(&transaction, &wallet_a));
}

#[test]
fn test_invalidate_transaction_insufficient_funds() {
    let mut wallet_a = Wallet::new();
    let wallet_b = Wallet::new();
    wallet_a.utxos.insert("utxo1".to_string(), 30);

    let mut transaction = Transaction::new(
        wallet_a.verifying_key,
        wallet_b.verifying_key,
        50,
        wallet_a.nonce,
    );
    transaction.sign(&wallet_a.signing_key);

    assert!(!validate_transaction(&transaction, &wallet_a));
}

#[test]
fn test_invalidate_tampered_transaction() {
    let mut wallet_a = Wallet::new();
    let wallet_b = Wallet::new();
    wallet_a.utxos.insert("utxo1".to_string(), 100);

    let mut transaction = Transaction::new(
        wallet_a.verifying_key,
        wallet_b.verifying_key,
        50,
        wallet_a.nonce,
    );
    transaction.sign(&wallet_a.signing_key);

    // Tamper with the transaction
    transaction.amount = 1000;

    assert!(!validate_transaction(&transaction, &wallet_a));
}

fn rfc8032_secret() -> [u8; 32] {
    let bytes = hex::decode("9d61b19deffd5a60ba844af492ec2cc44449c5697b326919703bac031cae7f60")
        .unwrap();
    let mut secret = [0u8; 32];
    secret.copy_from_slice(&bytes);
    secret
}

fn rfc8032_public() -> [u8; 32] {
    let bytes = hex::decode("d75a980182b10ab7d54bfed3c964073a0ee172f3daa62325af021a68f707511a")
        .unwrap();
    let mut public = [0u8; 32];
    public.copy_from_slice(&bytes);
    public
}

fn signed_sample() -> (Wallet, Transaction) {
    let mut wallet = Wallet::new();
    wallet.utxos.insert("utxo1".to_string(), 100);
    let mut transaction = Transaction::new(wallet.verifying_key, [5; 32], 50, 0);
    assert!(transaction.sign(&wallet.signing_key));
    (wallet, transaction)
}

#[test]
fn id_is_sha256_of_the_content() {
    let sender = [0x11u8; 32];
    let receiver = [0x22u8; 32];
    let transaction = Transaction::new(sender, receiver, 0x0102030405060708, 9);

    let mut content = Vec::new();
    content.extend_from_slice(&sender);
    content.extend_from_slice(&receiver);
    content.extend_from_slice(&[8, 7, 6, 5, 4, 3, 2, 1]);
    content.extend_from_slice(&[9, 0, 0, 0, 0, 0, 0, 0]);
    let expected: [u8; 32] = Sha256::digest(&content).into();

    assert_eq!(transaction.id, expected);
    assert_ne!(transaction.id, sender);
    assert_eq!(
        hex::encode(transaction.id),
        "74451bcba6484757bfa317841f904d7ea312f851f050f4002877435f282e8209"
    );
}

#[test]
fn id_is_the_same_for_the_same_content() {
    let a = Transaction::new([1; 32], [2; 32], 3, 4);
    let b = Transaction::new([1; 32], [2; 32], 3, 4);
    assert_eq!(a, b);
}

#[test]
fn id_differs_when_any_part_of_the_content_differs() {
    let base = Transaction::new([1; 32], [2; 32], 3, 4);
    assert_ne!(Transaction::new([9; 32], [2; 32], 3, 4).id, base.id);
    assert_ne!(Transaction::new([1; 32], [9; 32], 3, 4).id, base.id);
    assert_ne!(Transaction::new([1; 32], [2; 32], 9, 4).id, base.id);
    assert_ne!(Transaction::new([1; 32], [2; 32], 3, 9).id, base.id);
    assert_ne!(Transaction::new([1; 32], [2; 32], 4, 3).id, base.id);
}

#[test]
fn unsigned_transaction_fails_verification() {
    let wallet = Wallet::new();
    let transaction = Transaction::new(wallet.verifying_key, [5; 32], 50, 0);
    assert!(!transaction.verify());
}

#[test]
fn sign_with_the_senders_key_gives_the_rfc_signature() {
    let mut transaction = Transaction::new(rfc8032_public(), [5; 32], 50, 0);
    assert!(transaction.sign(&rfc8032_secret()));
    let expected = SigningKey::from_bytes(&rfc8032_secret())
        .sign(&transaction.id)
        .to_bytes();
    assert_eq!(transaction.signature, Some(expected));
    assert!(transaction.verify());
}

#[test]
fn sign_with_another_key_is_refused() {
    let wallet = Wallet::new();
    let stranger = Wallet::new();
    let mut transaction = Transaction::new(wallet.verifying_key, [5; 32], 50, 0);
    let before = transaction;
    assert!(!transaction.sign(&stranger.signing_key));
    assert_eq!(transaction, before);
    assert!(!transaction.verify());
}

#[test]
fn sign_twice_gives_the_same_signature() {
    let (wallet, mut transaction) = signed_sample();
    let first = transaction.signature;
    assert!(transaction.sign(&wallet.signing_key));
    assert_eq!(transaction.signature, first);
}

#[test]
fn verify_rejects_a_changed_id() {
    let (_, mut transaction) = signed_sample();
    transaction.id[0] ^= 1;
    assert!(!transaction.verify());
}

#[test]
fn verify_rejects_a_changed_signature() {
    let (_, mut transaction) = signed_sample();
    let mut signature = transaction.signature.unwrap();
    signature[10] ^= 1;
    transaction.signature = Some(signature);
    assert!(!transaction.verify());
}

#[test]
fn verify_rejects_a_changed_sender() {
    let (_, mut transaction) = signed_sample();
    transaction.sender = Wallet::new().verifying_key;
    assert!(!transaction.verify());
}

#[test]
fn verify_rejects_a_sender_that_is_no_key() {
    let (_, mut transaction) = signed_sample();
    // y = 2 is the y-coordinate of no point of the curve.
    let mut not_a_point = [0u8; 32];
    not_a_point[0] = 2;
    assert!(VerifyingKey::from_bytes(&not_a_point).is_err());
    transaction.sender = not_a_point;
    assert!(!transaction.verify());
}

#[test]
fn verify_rejects_an_id_derived_anew_under_the_old_signature() {
    let (_, signed) = signed_sample();
    let mut retargeted = Transaction::new(signed.sender, signed.receiver, 1000, signed.nonce);
    assert_ne!(retargeted.id, signed.id);
    retargeted.signature = signed.signature;
    assert!(!retargeted.verify());
}

#[test]
fn changed_content_under_the_old_id_shows_as_not_intact() {
    let (_, mut transaction) = signed_sample();
    assert!(transaction.is_intact());
    transaction.amount = 1000;
    // The signature covers the id, which has not moved.
    assert!(transaction.verify());
    assert!(!transaction.is_intact());

    let (_, mut transaction) = signed_sample();
    transaction.receiver = [6; 32];
    assert!(!transaction.is_intact());
    let (_, mut transaction) = signed_sample();
    transaction.nonce += 1;
    assert!(!transaction.is_intact());
}

#[test]
fn validate_needs_both_funds_and_signature() {
    let (wallet, signed) = signed_sample();
    assert!(validate_transaction(&signed, &wallet));

    let unsigned = Transaction::new(wallet.verifying_key, [5; 32], 50, 0);
    assert!(!validate_transaction(&unsigned, &wallet));

    let mut exact = Transaction::new(wallet.verifying_key, [5; 32], 100, 0);
    exact.sign(&wallet.signing_key);
    assert!(validate_transaction(&exact, &wallet));

    let mut beyond = Transaction::new(wallet.verifying_key, [5; 32], 101, 0);
    beyond.sign(&wallet.signing_key);
    assert!(!validate_transaction(&beyond, &wallet));
}

#[test]
fn validate_counts_funds_beyond_u64() {
    let (mut wallet, _) = signed_sample();
    wallet.utxos.insert("utxo2".to_string(), u64::MAX);
    let mut transaction = Transaction::new(wallet.verifying_key, [5; 32], u64::MAX, 0);
    transaction.sign(&wallet.signing_key);
    assert!(validate_transaction(&transaction, &wallet));
}

#[test]
fn input_and_output_identifiers() {
    let transaction = Transaction::new([0xaa; 32], [0xbb; 32], 1, 5);
    assert_eq!(transaction.input_utxo(), format!("{}-4", "aa".repeat(32)));
    assert_eq!(transaction.output_utxo(), format!("{}-5", "bb".repeat(32)));
    let first = Transaction::new([0xaa; 32], [0xbb; 32], 1, 0);
    assert_eq!(first.input_utxo(), format!("{}-0", "aa".repeat(32)));
    assert_eq!(first.output_utxo(), format!("{}-0", "bb".repeat(32)));
    let second = Transaction::new([0xaa; 32], [0xbb; 32], 1, 1);
    assert_eq!(second.input_utxo(), format!("{}-0", "aa".repeat(32)));
}

#[test]
fn check_transaction_names_the_reason() {
    let (wallet, signed) = signed_sample();
    assert_eq!(check_transaction(&signed, &wallet), Ok(()));

    let unsigned = Transaction::new(wallet.verifying_key, [5; 32], 50, 0);
    assert_eq!(
        check_transaction(&unsigned, &wallet),
        Err(LedgerError::InvalidSignature)
    );

    let mut beyond = Transaction::new(wallet.verifying_key, [5; 32], 101, 0);
    beyond.sign(&wallet.signing_key);
    assert_eq!(
        check_transaction(&beyond, &wallet),
        Err(LedgerError::InsufficientBalance)
    );

    // Short of funds and unsigned: the funds are looked at first.
    let neither = Transaction::new(wallet.verifying_key, [5; 32], 101, 0);
    assert_eq!(
        check_transaction(&neither, &wallet),
        Err(LedgerError::InsufficientBalance)
    );
}
