//! A minimal ledger core: signed value transfers, Merkle-committed blocks,
//! a hash-linked chain and the unspent outputs that the chain leaves.
//!
//! A [`wallet::Wallet`] builds and signs a [`transaction::Transaction`]. Once
//! judged authentic and funded it is staged in the [`mempool::Mempool`]. The
//! [`blockchain::Blockchain`] wraps a batch of staged transactions into a
//! [`block::Block`] that follows its last block, and takes the block in as a
//! whole or not at all.
//!
//! Keys, signatures and hashes are plain bytes here, and every function says
//! in its contract what it returns. Hashing, signing and hexadecimal
//! encoding are left to the crates made for them; [`hashing`], [`signing`]
//! and [`encoding`] hold those calls, and [`clock`] the reading of the time,
//! each behind a contract that is stated and not proved.

pub mod block;
pub mod blockchain;
pub mod clock;
pub mod encoding;
pub mod error;
pub mod hashing;
pub mod mempool;
pub mod merkle;
pub mod minting;
pub mod payment;
pub mod processing;
pub mod signing;
pub mod transaction;
pub mod utxo;
pub mod wallet;
