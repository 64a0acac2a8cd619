//! Content hashing, Ed25519 signing and verification, and the decisions of
//! private-key persistence.
pub mod hashing;
pub mod signing;
pub mod keystore;
