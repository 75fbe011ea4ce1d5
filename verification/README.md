# ring_ring

Core library of the Ring-Ring peer-to-peer messenger, verified with Verus.

- `src/` is the verified library:
  - `crypto/keypair.rs`: Ed25519 identity keys rendered as lowercase hex;
  - `storage/keys.rs`: the record the key pair is stored in;
  - `p2p/chat.rs`: the Noise XX chat session (handshake script, transport
    mode, sending trimmed lines, decrypting and decoding received messages);
  - `p2p/discovery.rs`: the mDNS service record and the peer scan;
  - `p2p/node.rs`: the gossip node's reaction to swarm events, its gossipsub
    configuration and broadcasting;
  - `p2p/transport.rs`: the QUIC server configuration and its certificate
    request.
- `app/` holds what needs the operating system or an async runtime: files,
  sockets, the mDNS daemon, the libp2p swarm's event loop, the QUIC
  endpoint and client configuration (its certificate verifier implements a
  rustls trait), and the chat example's main loop.
- `tests/` exercises the library with the real outside crates.
