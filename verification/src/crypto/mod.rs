//! Cryptographic primitives.

pub mod keypair;

pub use keypair::generate_keypair;
