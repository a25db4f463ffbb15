//! Resolution of an account's ed25519 public key from the storage snapshot
//! that precedes a transaction.
//!
//! An account is named by its [`address::Address`]. Its public key lives in
//! storage under the key that [`key::ed25519::pk_key`] derives from the
//! address, and [`key::ed25519::get`] reads and decodes it from the state as
//! it was before the transaction under validation wrote anything.

pub mod address;
pub mod key;
pub mod storage;
