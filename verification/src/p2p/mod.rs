//! Peer-to-peer networking: the chat session, peer discovery and the gossip node.

pub mod chat;
pub mod discovery;
pub mod node;
pub mod transport;
