use std::collections::HashSet;

use libp2p::{identity::Keypair, Multiaddr, PeerId};
use ring_ring::p2p::node::{
    broadcast_on, broadcast_outcome, broadcast_payload, chat_gossip, chat_gossip_settings, commands_for, on_event,
    GossipSigning, GossipValidation, NodeCommand, NodeError, NodeEvent, CHAT_TOPIC,
};

fn apply(peers: &mut HashSet<u32>, commands: &[NodeCommand<u32>]) {
    for c in commands {
        match c {
            NodeCommand::AddExplicitPeer(p) => {
                peers.insert(*p);
            }
            NodeCommand::RemoveExplicitPeer(p) => {
                peers.remove(p);
            }
        }
    }
}

#[test]
fn discovered_peers_become_explicit_peers() {
    let event: NodeEvent<u32, &str> = NodeEvent::Discovered(vec![(1, "a"), (2, "b"), (1, "c")]);
    assert_eq!(
        commands_for(&event),
        vec![
            NodeCommand::AddExplicitPeer(1),
            NodeCommand::AddExplicitPeer(2),
            NodeCommand::AddExplicitPeer(1),
        ]
    );
}

#[test]
fn expired_peers_are_removed() {
    let event: NodeEvent<u32, &str> = NodeEvent::Expired(vec![(3, "a")]);
    assert_eq!(commands_for(&event), vec![NodeCommand::RemoveExplicitPeer(3)]);
}

#[test]
fn other_events_change_nothing() {
    let events: Vec<NodeEvent<u32, &str>> = vec![
        NodeEvent::NewListenAddr("/ip4/127.0.0.1/tcp/1"),
        NodeEvent::Message(b"hi".to_vec()),
        NodeEvent::Other,
        NodeEvent::Discovered(vec![]),
    ];
    for e in &events {
        assert!(commands_for(e).is_empty());
    }
}

#[test]
fn expiry_undoes_discovery_on_a_peer_set() {
    let mut peers: HashSet<u32> = [1, 5].into_iter().collect();
    let entries = vec![(1, "x"), (2, "y"), (3, "z")];
    apply(&mut peers, &commands_for(&NodeEvent::Discovered(entries.clone())));
    assert_eq!(peers, [1, 2, 3, 5].into_iter().collect());
    apply(&mut peers, &commands_for(&NodeEvent::Expired(entries)));
    assert_eq!(peers, [5].into_iter().collect());
}

#[test]
fn broadcast_sends_the_message_bytes() {
    assert_eq!(broadcast_payload("hello"), b"hello".to_vec());
    assert_eq!(broadcast_payload("ё"), vec![0xd1, 0x91]);
    assert_eq!(CHAT_TOPIC, "ring-ring-chat");
}

#[test]
fn gossip_reacts_to_discovery_and_expiry() {
    let key = Keypair::generate_ed25519();
    let mut gossip = chat_gossip(&key).unwrap();
    let peer = PeerId::random();
    let addr: Multiaddr = "/ip4/127.0.0.1/tcp/4001".parse().unwrap();
    on_event(&mut gossip, &NodeEvent::Discovered(vec![(peer, addr.clone())]));
    on_event(&mut gossip, &NodeEvent::Expired(vec![(peer, addr)]));
    // Nobody is connected, so there is no peer to publish to.
    assert!(matches!(broadcast_on(&mut gossip, "hello"), Err(NodeError::Publish(_))));
}

#[test]
fn gossip_settings_of_the_node() {
    let s = chat_gossip_settings();
    assert_eq!(s.heartbeat_secs, 10);
    assert_eq!(s.validation, GossipValidation::Strict);
    assert_eq!(s.signing, GossipSigning::Signed);
}

#[test]
fn gossip_is_subscribed_to_the_chat_topic() {
    let mut gossip = chat_gossip(&Keypair::generate_ed25519()).unwrap();
    let topic = libp2p::gossipsub::IdentTopic::new(CHAT_TOPIC);
    assert_eq!(gossip.topics().map(|t| t.as_str().to_string()).collect::<Vec<_>>(), vec![CHAT_TOPIC]);
    assert_eq!(gossip.subscribe(&topic).unwrap(), false);
}

#[test]
fn broadcast_outcome_carries_the_publish_error() {
    assert!(matches!(broadcast_outcome(Ok(vec![1, 2, 3])), Ok(())));
    let r = broadcast_outcome(Err(libp2p::gossipsub::PublishError::InsufficientPeers));
    assert!(matches!(
        r,
        Err(NodeError::Publish(libp2p::gossipsub::PublishError::InsufficientPeers))
    ));
}
