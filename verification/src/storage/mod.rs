//! Persistent storage of the node's identity.

pub mod keys;
