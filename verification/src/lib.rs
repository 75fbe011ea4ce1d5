//! Core library of the Ring-Ring peer-to-peer messenger: identity keys,
//! their on-disk record, peer discovery, the gossip node's event handling
//! and the Noise chat session.

use vstd::prelude::*;

pub mod crypto;
pub mod p2p;
pub mod storage;

pub use crypto::keypair::generate_keypair;

verus! {

/// Version of the wire protocol.
pub const PROTOCOL_VERSION: &'static str = "0.1.0-draft";

} // verus!
