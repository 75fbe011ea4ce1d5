//! Decisions of the gossip node.
//!
//! The node runs a gossipsub behaviour next to mDNS discovery. Peers that
//! mDNS discovers become explicit gossip peers, and peers whose mDNS record
//! expires stop being explicit peers. The caller runs the swarm's event
//! loop and hands every event to [`on_event`], which applies the commands
//! [`commands_for`] derives from it to the gossipsub behaviour, in order.
//!
//! In events and commands, peer identifiers and addresses are type
//! parameters: the decisions only move them from events into commands.

use vstd::prelude::*;
use vstd::utf8::encode_utf8;
use std::time::Duration;
use libp2p::gossipsub::{Behaviour, ConfigBuilder, MessageAuthenticity, ValidationMode};

verus! {

#[verifier::external_type_specification]
#[verifier::external_body]
pub struct ExPeerId(libp2p::PeerId);

#[verifier::external_type_specification]
#[verifier::external_body]
#[verifier::reject_recursive_types(D)]
#[verifier::reject_recursive_types(F)]
pub struct ExGossipBehaviour<D, F>(libp2p::gossipsub::Behaviour<D, F>);

#[verifier::external_type_specification]
#[verifier::external_body]
pub struct ExIdentityTransform(libp2p::gossipsub::IdentityTransform);

#[verifier::external_type_specification]
#[verifier::external_body]
pub struct ExAllowAllSubscriptionFilter(libp2p::gossipsub::AllowAllSubscriptionFilter);

#[verifier::external_type_specification]
#[verifier::external_body]
pub struct ExIdentityKeypair(libp2p::identity::Keypair);

#[verifier::external_type_specification]
#[verifier::external_body]
pub struct ExSubscriptionError(libp2p::gossipsub::SubscriptionError);

#[verifier::external_type_specification]
#[verifier::external_body]
pub struct ExPublishError(libp2p::gossipsub::PublishError);

/// The explicit peers of a gossipsub behaviour: the set it keeps them in.
pub uninterp spec fn explicit_peers(gossip: libp2p::gossipsub::Behaviour) -> Set<libp2p::PeerId>;

/// The topics a gossipsub behaviour is subscribed to: the keys of its mesh,
/// each a topic hash, which for an `IdentTopic` is the topic's name.
pub uninterp spec fn subscribed_topics(gossip: libp2p::gossipsub::Behaviour) -> Set<Seq<char>>;

/// The message cache of a gossipsub behaviour: for each message id (its
/// bytes), the topic (its hash, which for an `IdentTopic` is the topic's
/// name) and the data of the message kept under that id.
pub uninterp spec fn cached_messages(gossip: libp2p::gossipsub::Behaviour) -> Map<
    Seq<u8>,
    (Seq<char>, Seq<u8>),
>;

/// The message cache after publishing `data` on `topic` under `id`: the
/// cache keeps an entry it already has under that id, and otherwise gains
/// the new message.
pub open spec fn cache_after_publish(
    cache: Map<Seq<u8>, (Seq<char>, Seq<u8>)>,
    id: Seq<u8>,
    topic: Seq<char>,
    data: Seq<u8>,
) -> Map<Seq<u8>, (Seq<char>, Seq<u8>)> {
    if cache.contains_key(id) {
        cache
    } else {
        cache.insert(id, (topic, data))
    }
}

/// `libp2p::gossipsub::Behaviour::add_explicit_peer`: inserts the peer into
/// the set of explicit peers (and, if it is not connected, asks the swarm
/// to dial it). Cache, subscriptions and settings stay as they are.
#[verifier::external_body]
fn add_explicit_peer(gossip: &mut libp2p::gossipsub::Behaviour, peer: &libp2p::PeerId)
    ensures
        explicit_peers(*final(gossip)) == explicit_peers(*old(gossip)).insert(*peer),
        cached_messages(*final(gossip)) == cached_messages(*old(gossip)),
        subscribed_topics(*final(gossip)) == subscribed_topics(*old(gossip)),
        gossip_made_with(*final(gossip)) == gossip_made_with(*old(gossip)),
{
    gossip.add_explicit_peer(peer)
}

/// `libp2p::gossipsub::Behaviour::remove_explicit_peer`: removes the peer
/// from the set of explicit peers (without disconnecting it). Cache,
/// subscriptions and settings stay as they are.
#[verifier::external_body]
fn remove_explicit_peer(gossip: &mut libp2p::gossipsub::Behaviour, peer: &libp2p::PeerId)
    ensures
        explicit_peers(*final(gossip)) == explicit_peers(*old(gossip)).remove(*peer),
        cached_messages(*final(gossip)) == cached_messages(*old(gossip)),
        subscribed_topics(*final(gossip)) == subscribed_topics(*old(gossip)),
        gossip_made_with(*final(gossip)) == gossip_made_with(*old(gossip)),
{
    gossip.remove_explicit_peer(peer)
}

/// How incoming gossip messages are validated (gossipsub's `ValidationMode`).
#[derive(Clone, Copy, Debug, PartialEq, Eq, Structural)]
pub enum GossipValidation {
    /// Author, sequence number and a valid signature are required.
    Strict,
    /// Missing fields are allowed; present ones are validated.
    Permissive,
    /// Author, sequence number and signature must be absent.
    Anonymous,
    /// Nothing is checked.
    Unchecked,
}

/// How published gossip messages are authored (gossipsub's `MessageAuthenticity`).
#[derive(Clone, Copy, Debug, PartialEq, Eq, Structural)]
pub enum GossipSigning {
    /// Signed with the node's key, which is also the author.
    Signed,
    /// Unsigned, with a random author for every message.
    RandomAuthor,
    /// Unsigned and without author or sequence number.
    Anonymous,
}

/// The settings a gossipsub behaviour was made with: its heartbeat interval
/// in seconds, its validation mode and how it authors published messages.
/// The behaviour keeps them unchanged for its whole life.
pub uninterp spec fn gossip_made_with(gossip: libp2p::gossipsub::Behaviour) -> (
    u64,
    GossipValidation,
    GossipSigning,
);

/// Whether gossipsub accepts a signing choice together with a validation
/// mode: strict validation needs signed messages, and anonymous validation
/// needs anonymous messages.
pub open spec fn signing_fits(signing: GossipSigning, validation: GossipValidation) -> bool {
    match validation {
        GossipValidation::Strict => signing == GossipSigning::Signed,
        GossipValidation::Anonymous => signing == GossipSigning::Anonymous,
        _ => true,
    }
}

/// `libp2p::gossipsub::ConfigBuilder::default()` with
/// `heartbeat_interval(Duration::from_secs(heartbeat_secs))` and
/// `validation_mode(..)`, then `build()`, then `Behaviour::new` with the
/// chosen authenticity (`Signed` with a copy of `key`). Building the config
/// cannot fail: its checks concern only settings left at their defaults, which
/// pass them. `Behaviour::new` fails exactly when the authenticity does not
/// fit the validation mode. A new behaviour is made with the given settings,
/// and has no explicit peers, an empty
/// message cache and no subscriptions. The heartbeat interval must not be
/// zero: the crate divides by it when it sets up its backoff storage.
#[verifier::external_body]
fn new_gossip(
    signing: GossipSigning,
    key: &libp2p::identity::Keypair,
    heartbeat_secs: u64,
    validation: GossipValidation,
) -> (r: Result<libp2p::gossipsub::Behaviour, &'static str>)
    requires
        heartbeat_secs > 0,
    ensures
        r is Ok <==> signing_fits(signing, validation),
        r matches Ok(g) ==> explicit_peers(g) == Set::<libp2p::PeerId>::empty()
            && subscribed_topics(g) == Set::<Seq<char>>::empty()
            && cached_messages(g).is_empty()
            && gossip_made_with(g) == (heartbeat_secs, validation, signing),
{
    let mode = match validation {
        GossipValidation::Strict => ValidationMode::Strict,
        GossipValidation::Permissive => ValidationMode::Permissive,
        GossipValidation::Anonymous => ValidationMode::Anonymous,
        GossipValidation::Unchecked => ValidationMode::None,
    };
    let authenticity = match signing {
        GossipSigning::Signed => MessageAuthenticity::Signed(key.clone()),
        GossipSigning::RandomAuthor => MessageAuthenticity::RandomAuthor,
        GossipSigning::Anonymous => MessageAuthenticity::Anonymous,
    };
    let interval = Duration::from_secs(heartbeat_secs);
    let config = ConfigBuilder::default().heartbeat_interval(interval).validation_mode(mode).build();
    Behaviour::new(authenticity, config.map_err(|_| "invalid gossipsub configuration")?)
}

/// `libp2p::gossipsub::Behaviour::subscribe` to the topic
/// `IdentTopic::new(name)`. The behaviour's subscription filter allows every
/// topic, so it succeeds: `true` if the topic was new, `false` if it was
/// already subscribed; afterwards the topic is subscribed (it joins the
/// mesh). Subscribing leaves the explicit peers and the message cache as
/// they are.
#[verifier::external_body]
fn subscribe_topic(
    gossip: &mut libp2p::gossipsub::Behaviour,
    name: &str,
) -> (r: Result<bool, libp2p::gossipsub::SubscriptionError>)
    ensures
        explicit_peers(*final(gossip)) == explicit_peers(*old(gossip)),
        r == Ok::<bool, libp2p::gossipsub::SubscriptionError>(
            !subscribed_topics(*old(gossip)).contains(name@),
        ),
        subscribed_topics(*final(gossip)) == subscribed_topics(*old(gossip)).insert(name@),
        cached_messages(*final(gossip)) == cached_messages(*old(gossip)),
        gossip_made_with(*final(gossip)) == gossip_made_with(*old(gossip)),
{
    gossip.subscribe(&libp2p::gossipsub::IdentTopic::new(name))
}

/// `libp2p::gossipsub::Behaviour::publish` of `data` on the topic
/// `IdentTopic::new(name)`, with the id of a published message handed back
/// as its bytes. Whether it succeeds depends on the connected peers. The
/// explicit peers are left as they are. Every failure is returned before the
/// message cache is touched; on success the crate puts the message (its data
/// unchanged by the identity transform, its topic hash the topic's name)
/// into the cache under the returned id, which keeps an entry it already has
/// under that id. Publishing leaves the subscriptions (the mesh) and the
/// settings as they are.
#[verifier::external_body]
fn publish_on_topic(
    gossip: &mut libp2p::gossipsub::Behaviour,
    name: &str,
    data: Vec<u8>,
) -> (r: Result<Vec<u8>, libp2p::gossipsub::PublishError>)
    ensures
        explicit_peers(*final(gossip)) == explicit_peers(*old(gossip)),
        r matches Ok(id) ==> cached_messages(*final(gossip)) == cache_after_publish(
            cached_messages(*old(gossip)),
            id@,
            name@,
            data@,
        ),
        r is Err ==> cached_messages(*final(gossip)) == cached_messages(*old(gossip)),
        subscribed_topics(*final(gossip)) == subscribed_topics(*old(gossip)),
        gossip_made_with(*final(gossip)) == gossip_made_with(*old(gossip)),
{
    match gossip.publish(libp2p::gossipsub::IdentTopic::new(name), data) {
        Ok(id) => Ok(id.0),
        Err(e) => Err(e),
    }
}

/// Errors of the gossip node.
#[derive(Debug)]
pub enum NodeError {
    /// The gossipsub behaviour could not be created.
    Gossip(&'static str),
    /// Subscribing to the chat topic failed.
    Subscribe(libp2p::gossipsub::SubscriptionError),
    /// Publishing a message failed.
    Publish(libp2p::gossipsub::PublishError),
}

/// The gossip settings of a node.
#[derive(Clone, Copy, Debug, PartialEq, Eq, Structural)]
pub struct GossipSettings {
    pub heartbeat_secs: u64,
    pub validation: GossipValidation,
    pub signing: GossipSigning,
}

/// The node's gossip settings: a heartbeat every [`HEARTBEAT_INTERVAL_SECS`]
/// seconds, strict validation, and messages signed with the node's key.
pub fn chat_gossip_settings() -> (s: GossipSettings)
    ensures
        s == (GossipSettings {
            heartbeat_secs: HEARTBEAT_INTERVAL_SECS,
            validation: GossipValidation::Strict,
            signing: GossipSigning::Signed,
        }),
{
    GossipSettings {
        heartbeat_secs: HEARTBEAT_INTERVAL_SECS,
        validation: GossipValidation::Strict,
        signing: GossipSigning::Signed,
    }
}

/// The node's gossip behaviour, built with [`chat_gossip_settings`] and
/// `local_key`: it always succeeds, is made with those settings, has no
/// explicit peers and nothing cached yet, and is subscribed to exactly
/// [`CHAT_TOPIC`].
pub fn chat_gossip(local_key: &libp2p::identity::Keypair) -> (r: Result<libp2p::gossipsub::Behaviour, NodeError>)
    ensures
        r is Ok,
        r matches Ok(g) ==> explicit_peers(g) == Set::<libp2p::PeerId>::empty()
            && subscribed_topics(g) == set![CHAT_TOPIC@]
            && cached_messages(g).is_empty()
            && gossip_made_with(g) == (
                HEARTBEAT_INTERVAL_SECS,
                GossipValidation::Strict,
                GossipSigning::Signed,
            ),
{
    let settings = chat_gossip_settings();
    let mut gossip = match new_gossip(
        settings.signing,
        local_key,
        settings.heartbeat_secs,
        settings.validation,
    ) {
        Ok(g) => g,
        Err(e) => return Err(NodeError::Gossip(e)),
    };
    match subscribe_topic(&mut gossip, CHAT_TOPIC) {
        Ok(_) => {
            assert(Set::<Seq<char>>::empty().insert(CHAT_TOPIC@) =~= set![CHAT_TOPIC@]);
            Ok(gossip)
        },
        Err(e) => Err(NodeError::Subscribe(e)),
    }
}

/// What a broadcast reports for the outcome of its publish: success for a
/// published message, and otherwise the very error that publishing returned.
pub fn broadcast_outcome(
    published: Result<Vec<u8>, libp2p::gossipsub::PublishError>,
) -> (r: Result<(), NodeError>)
    ensures
        r is Ok <==> published is Ok,
        published matches Err(e) ==> r == Err::<(), NodeError>(NodeError::Publish(e)),
{
    match published {
        Ok(_) => Ok(()),
        Err(e) => Err(NodeError::Publish(e)),
    }
}

/// Publishes a chat message on [`CHAT_TOPIC`]: the payload is the message's
/// UTF-8 bytes, and the outcome is reported by [`broadcast_outcome`]. On
/// success the message cache holds the message under its new id; on failure
/// the cache is as it was. The explicit peers, the subscriptions and the
/// settings are left as they are.
pub fn broadcast_on(gossip: &mut libp2p::gossipsub::Behaviour, message: &str) -> (r: Result<(), NodeError>)
    ensures
        explicit_peers(*final(gossip)) == explicit_peers(*old(gossip)),
        r is Ok ==> exists|id: Seq<u8>|
            cached_messages(*final(gossip)) == cache_after_publish(
                cached_messages(*old(gossip)),
                id,
                CHAT_TOPIC@,
                encode_utf8(message@),
            ),
        r is Err ==> cached_messages(*final(gossip)) == cached_messages(*old(gossip)),
        r matches Err(e) ==> e is Publish,
        subscribed_topics(*final(gossip)) == subscribed_topics(*old(gossip)),
        gossip_made_with(*final(gossip)) == gossip_made_with(*old(gossip)),
{
    let data = broadcast_payload(message);
    let published = publish_on_topic(gossip, CHAT_TOPIC, data);
    assert(published matches Ok(id) ==> cached_messages(*gossip) == cache_after_publish(
        cached_messages(*old(gossip)),
        id@,
        CHAT_TOPIC@,
        encode_utf8(message@),
    ));
    broadcast_outcome(published)
}

/// Applies commands to a gossipsub behaviour, in order.
pub fn apply_to_gossip(gossip: &mut libp2p::gossipsub::Behaviour, commands: &Vec<NodeCommand<libp2p::PeerId>>)
    ensures
        explicit_peers(*final(gossip)) == apply_commands(explicit_peers(*old(gossip)), commands@),
        cached_messages(*final(gossip)) == cached_messages(*old(gossip)),
        subscribed_topics(*final(gossip)) == subscribed_topics(*old(gossip)),
        gossip_made_with(*final(gossip)) == gossip_made_with(*old(gossip)),
{
    let n: usize = commands.len();
    let mut i: usize = 0;
    while i < n
        invariant
            n == commands@.len(),
            i <= n,
            explicit_peers(*gossip) == apply_commands(
                explicit_peers(*old(gossip)),
                commands@.subrange(0, i as int),
            ),
            cached_messages(*gossip) == cached_messages(*old(gossip)),
            subscribed_topics(*gossip) == subscribed_topics(*old(gossip)),
            gossip_made_with(*gossip) == gossip_made_with(*old(gossip)),
        decreases n - i,
    {
        match &commands[i] {
            NodeCommand::AddExplicitPeer(p) => add_explicit_peer(gossip, p),
            NodeCommand::RemoveExplicitPeer(p) => remove_explicit_peer(gossip, p),
        }
        assert(commands@.subrange(0, i + 1).drop_last() =~= commands@.subrange(0, i as int));
        i = i + 1;
    }
    assert(commands@.subrange(0, n as int) =~= commands@);
}

/// The gossipsub topic all chat messages are published on.
pub const CHAT_TOPIC: &'static str = "ring-ring-chat";

/// Interval between two gossipsub heartbeats, in seconds.
pub const HEARTBEAT_INTERVAL_SECS: u64 = 10;

/// Address the node listens on when no other is configured.
pub const DEFAULT_LISTEN_ADDR: &'static str = "/ip4/0.0.0.0/tcp/0";

/// An event of the node's swarm, as far as the node reacts to it.
pub enum NodeEvent<P, A> {
    /// The swarm listens on a new address.
    NewListenAddr(A),
    /// mDNS discovered peers, each at an address.
    Discovered(Vec<(P, A)>),
    /// The mDNS records of these peers at these addresses expired.
    Expired(Vec<(P, A)>),
    /// A gossip message arrived with this payload.
    Message(Vec<u8>),
    /// Any other event.
    Other,
}

/// A change to the set of explicit gossip peers.
#[derive(Clone, Copy, Debug, PartialEq, Eq)]
pub enum NodeCommand<P> {
    /// Make the peer an explicit gossip peer.
    AddExplicitPeer(P),
    /// Stop treating the peer as an explicit gossip peer.
    RemoveExplicitPeer(P),
}

/// The commands an event calls for: one addition per discovered entry and
/// one removal per expired entry, in the order of the entries; none for
/// any other event.
pub open spec fn event_commands<P, A>(event: NodeEvent<P, A>) -> Seq<NodeCommand<P>> {
    match event {
        NodeEvent::Discovered(entries) => entries@.map_values(
            |e: (P, A)| NodeCommand::AddExplicitPeer(e.0),
        ),
        NodeEvent::Expired(entries) => entries@.map_values(
            |e: (P, A)| NodeCommand::RemoveExplicitPeer(e.0),
        ),
        _ => Seq::empty(),
    }
}

/// The peers named in a list of entries.
pub open spec fn entry_peers<P, A>(entries: Seq<(P, A)>) -> Set<P> {
    entries.map_values(|e: (P, A)| e.0).to_set()
}

/// The explicit peer set after one command: gossipsub keeps its explicit
/// peers in a set, inserting on addition and removing on removal.
pub open spec fn apply_command<P>(peers: Set<P>, command: NodeCommand<P>) -> Set<P> {
    match command {
        NodeCommand::AddExplicitPeer(p) => peers.insert(p),
        NodeCommand::RemoveExplicitPeer(p) => peers.remove(p),
    }
}

/// The explicit peer set after a sequence of commands, applied in order.
pub open spec fn apply_commands<P>(peers: Set<P>, commands: Seq<NodeCommand<P>>) -> Set<P>
    decreases commands.len(),
{
    if commands.len() == 0 {
        peers
    } else {
        apply_command(apply_commands(peers, commands.drop_last()), commands.last())
    }
}

/// The command for one entry: an addition or a removal of its peer.
pub open spec fn entry_command<P, A>(add: bool, e: (P, A)) -> NodeCommand<P> {
    if add {
        NodeCommand::AddExplicitPeer(e.0)
    } else {
        NodeCommand::RemoveExplicitPeer(e.0)
    }
}

/// Pushes one command per entry: an addition or a removal of the entry's peer.
fn push_entry_commands<P: Copy, A>(
    entries: &Vec<(P, A)>,
    add: bool,
    commands: &mut Vec<NodeCommand<P>>,
)
    ensures
        add ==> final(commands)@ == old(commands)@ + entries@.map_values(
            |e: (P, A)| NodeCommand::AddExplicitPeer(e.0),
        ),
        !add ==> final(commands)@ == old(commands)@ + entries@.map_values(
            |e: (P, A)| NodeCommand::RemoveExplicitPeer(e.0),
        ),
{
    let ghost start = commands@;
    let ghost make = |e: (P, A)| entry_command(add, e);
    let n: usize = entries.len();
    let mut i: usize = 0;
    while i < n
        invariant
            n == entries@.len(),
            i <= n,
            make == (|e: (P, A)| entry_command(add, e)),
            commands@ == start + entries@.subrange(0, i as int).map_values(make),
        decreases n - i,
    {
        let peer = entries[i].0;
        if add {
            commands.push(NodeCommand::AddExplicitPeer(peer));
        } else {
            commands.push(NodeCommand::RemoveExplicitPeer(peer));
        }
        assert(entries@.subrange(0, i + 1).map_values(make) =~= entries@.subrange(
            0,
            i as int,
        ).map_values(make).push(make(entries@[i as int])));
        i = i + 1;
    }
    assert(entries@.subrange(0, n as int) == entries@);
    if add {
        assert(entries@.map_values(make) == entries@.map_values(
            |e: (P, A)| NodeCommand::AddExplicitPeer(e.0),
        ));
    } else {
        assert(entries@.map_values(make) == entries@.map_values(
            |e: (P, A)| NodeCommand::RemoveExplicitPeer(e.0),
        ));
    }
}

/// The commands the node applies in reaction to a swarm event.
pub fn commands_for<P: Copy, A>(event: &NodeEvent<P, A>) -> (commands: Vec<NodeCommand<P>>)
    ensures
        commands@ == event_commands(*event),
{
    let mut commands: Vec<NodeCommand<P>> = Vec::new();
    match event {
        NodeEvent::Discovered(entries) => push_entry_commands(entries, true, &mut commands),
        NodeEvent::Expired(entries) => push_entry_commands(entries, false, &mut commands),
        _ => {},
    }
    commands
}

/// The node's reaction to a swarm event: the commands the event calls for,
/// applied to the gossip behaviour in order.
pub fn on_event<A>(gossip: &mut libp2p::gossipsub::Behaviour, event: &NodeEvent<libp2p::PeerId, A>)
    ensures
        explicit_peers(*final(gossip)) == apply_commands(
            explicit_peers(*old(gossip)),
            event_commands(*event),
        ),
        cached_messages(*final(gossip)) == cached_messages(*old(gossip)),
        subscribed_topics(*final(gossip)) == subscribed_topics(*old(gossip)),
        gossip_made_with(*final(gossip)) == gossip_made_with(*old(gossip)),
{
    let commands = commands_for(event);
    apply_to_gossip(gossip, &commands);
}

/// The payload a broadcast publishes: the message's UTF-8 bytes.
pub fn broadcast_payload(message: &str) -> (data: Vec<u8>)
    ensures
        data@ == encode_utf8(message@),
{
    vstd::slice::slice_to_vec(message.as_bytes())
}

/// The peers of a non-empty list are those of all but its last entry,
/// together with the last entry's peer.
proof fn lemma_entry_peers_step<P, A>(entries: Seq<(P, A)>)
    requires
        entries.len() > 0,
    ensures
        entry_peers(entries) == entry_peers(entries.drop_last()).insert(entries.last().0),
{
    broadcast use vstd::seq_lib::group_seq_properties, vstd::set::group_set_axioms;

    let names = entries.map_values(|e: (P, A)| e.0);
    assert(entries.drop_last().map_values(|e: (P, A)| e.0) =~= names.drop_last());
    assert(names.drop_last().to_set().insert(names.last()) =~= names.to_set());
}

/// Applying the additions for a list of entries puts every listed peer in
/// the set and keeps every other member.
pub proof fn lemma_additions<P, A>(peers: Set<P>, entries: Seq<(P, A)>)
    ensures
        apply_commands(peers, entries.map_values(|e: (P, A)| NodeCommand::AddExplicitPeer(e.0)))
            == peers.union(entry_peers(entries)),
    decreases entries.len(),
{
    let cmds = entries.map_values(|e: (P, A)| NodeCommand::<P>::AddExplicitPeer(e.0));
    if entries.len() == 0 {
        assert(entry_peers(entries) =~= Set::empty());
        assert(peers.union(entry_peers(entries)) =~= peers);
    } else {
        let rest = entries.drop_last();
        lemma_additions(peers, rest);
        assert(cmds.drop_last() =~= rest.map_values(
            |e: (P, A)| NodeCommand::<P>::AddExplicitPeer(e.0),
        ));
        lemma_entry_peers_step(entries);
        assert(apply_commands(peers, cmds) =~= peers.union(entry_peers(entries)));
    }
}

/// Applying the removals for a list of entries takes every listed peer out
/// of the set and keeps every other member.
pub proof fn lemma_removals<P, A>(peers: Set<P>, entries: Seq<(P, A)>)
    ensures
        apply_commands(
            peers,
            entries.map_values(|e: (P, A)| NodeCommand::RemoveExplicitPeer(e.0)),
        ) == peers.difference(entry_peers(entries)),
    decreases entries.len(),
{
    let cmds = entries.map_values(|e: (P, A)| NodeCommand::<P>::RemoveExplicitPeer(e.0));
    if entries.len() == 0 {
        assert(entry_peers(entries) =~= Set::empty());
        assert(peers.difference(entry_peers(entries)) =~= peers);
    } else {
        let rest = entries.drop_last();
        lemma_removals(peers, rest);
        assert(cmds.drop_last() =~= rest.map_values(
            |e: (P, A)| NodeCommand::<P>::RemoveExplicitPeer(e.0),
        ));
        lemma_entry_peers_step(entries);
        assert(apply_commands(peers, cmds) =~= peers.difference(entry_peers(entries)));
    }
}

/// Discovery followed by the expiry of the same entries leaves the explicit
/// peer set as it was, except that the listed peers are gone: expiry undoes
/// discovery.
pub proof fn law_expiry_undoes_discovery<P, A>(peers: Set<P>, entries: Vec<(P, A)>)
    ensures
        apply_commands(
            apply_commands(peers, event_commands(NodeEvent::Discovered(entries))),
            event_commands(NodeEvent::<P, A>::Expired(entries)),
        ) == peers.difference(entry_peers(entries@)),
{
    lemma_additions(peers, entries@);
    lemma_removals(peers.union(entry_peers(entries@)), entries@);
    assert(peers.union(entry_peers(entries@)).difference(entry_peers(entries@))
        =~= peers.difference(entry_peers(entries@)));
}

/// After a discovery event every discovered peer is an explicit peer, and
/// every peer that was one before still is.
pub proof fn law_discovery_adds_peers<P, A>(peers: Set<P>, entries: Vec<(P, A)>)
    ensures
        apply_commands(peers, event_commands(NodeEvent::<P, A>::Discovered(entries)))
            == peers.union(entry_peers(entries@)),
{
    lemma_additions(peers, entries@);
}

} // verus!
