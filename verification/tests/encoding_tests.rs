use utxo_ledger::encoding::{append_bytes, decimal_string, same_bytes, same_text};
use utxo_ledger::block::Block;
use utxo_ledger::merkle::{hash_pair, zero_hash};
use utxo_ledger::transaction::Transaction;
use utxo_ledger::utxo::utxo_id;

#[test]
fn decimal_of_single_digits() {
    assert_eq!(decimal_string(0), "0");
    assert_eq!(decimal_string(7), "7");
    assert_eq!(decimal_string(9), "9");
}

#[test]
fn decimal_of_larger_numbers() {
    assert_eq!(decimal_string(10), "10");
    assert_eq!(decimal_string(1000), "1000");
    assert_eq!(decimal_string(1234567890), "1234567890");
    assert_eq!(decimal_string(u64::MAX), "18446744073709551615");
}

#[test]
fn decimal_agrees_with_to_string() {
    let mut n: u64 = 1;
    for _ in 0..64 {
        assert_eq!(decimal_string(n), n.to_string());
        assert_eq!(decimal_string(n - 1), (n - 1).to_string());
        n = n.wrapping_mul(2);
    }
}

#[test]
fn hex_of_one_id_is_lowercase_two_digits_per_byte() {
    let mut id = [0u8; 32];
    id[0] = 0x01;
    id[1] = 0xab;
    id[2] = 0xf0;
    id[31] = 0xff;
    let expected = format!("01abf0{}ff", "00".repeat(28));
    assert_eq!(expected.len(), 64);
    let mut transaction = Transaction::new([1; 32], [2; 32], 3, 4);
    transaction.id = id;
    assert_eq!(Block::calculate_merkle_root(&[transaction]), expected);
}

#[test]
fn zero_hash_is_sixty_four_zeros() {
    assert_eq!(zero_hash(), "0".repeat(64));
}

#[test]
fn hash_pair_is_sha256_of_the_sixty_four_bytes() {
    assert_eq!(
        hex::encode(hash_pair(&[0; 32], &[0; 32])),
        "f5a5fd42d16a20302798ef6ed309979b43003d2320d9f0e8ea9831a92759fb4b"
    );
    assert_eq!(
        hex::encode(hash_pair(&[1; 32], &[2; 32])),
        "f818afd37a6dc3bc92fb44731011277006db4efa6e9023cd7468c02335d22a4d"
    );
}

#[test]
fn hash_pair_depends_on_order() {
    assert_ne!(hash_pair(&[1; 32], &[2; 32]), hash_pair(&[2; 32], &[1; 32]));
}

#[test]
fn utxo_id_joins_hex_key_and_decimal_number() {
    let mut owner = [0u8; 32];
    owner[0] = 0xde;
    owner[1] = 0xad;
    let id = utxo_id(&owner, 42);
    assert_eq!(id, format!("dead{}-42", "00".repeat(30)));
    assert_eq!(utxo_id(&owner, 0), format!("{}-0", hex::encode(owner)));
    assert_eq!(
        utxo_id(&owner, u64::MAX),
        format!("{}-{}", hex::encode(owner), u64::MAX)
    );
}

#[test]
fn append_bytes_adds_at_the_end() {
    let mut buffer = vec![1u8, 2];
    append_bytes(&mut buffer, &[3, 4, 5]);
    assert_eq!(buffer, vec![1, 2, 3, 4, 5]);
    append_bytes(&mut buffer, &[]);
    assert_eq!(buffer, vec![1, 2, 3, 4, 5]);
}

#[test]
fn same_bytes_compares_length_and_content() {
    assert!(same_bytes(&[], &[]));
    assert!(same_bytes(&[1, 2, 3], &[1, 2, 3]));
    assert!(!same_bytes(&[1, 2, 3], &[1, 2]));
    assert!(!same_bytes(&[1, 2, 3], &[1, 2, 4]));
}

#[test]
fn same_text_compares_characters() {
    assert!(same_text("", ""));
    assert!(same_text("grüße", "grüße"));
    assert!(!same_text("abc", "abd"));
    assert!(!same_text("abc", "ab"));
}
