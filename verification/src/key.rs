//! Cryptographic keys of accounts.

pub mod ed25519;
