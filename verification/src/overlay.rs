//! The broadcast overlay: the flood-broadcast behaviour of `libp2p`, with its
//! partial view of peers and its record of subscribed topics.

use vstd::prelude::*;
use vstd::multiset::Multiset;
use vstd::slice::slice_to_vec;
use vstd::utf8::encode_utf8;
use crate::peer::{is_peer_id, PeerAddress};

verus! {

#[verifier::external_type_specification]
#[verifier::external_body]
pub struct ExFloodsub(libp2p::floodsub::Behaviour);

/// The partial view of an overlay: the peers to which it propagates
/// messages (`target_peers` in `libp2p::floodsub::Behaviour`), each as the
/// bytes that `libp2p::PeerId::to_bytes` gives.
pub uninterp spec fn partial_view(overlay: libp2p::floodsub::Behaviour) -> Set<Seq<u8>>;

/// The names of the topics an overlay is subscribed to (`subscribed_topics`
/// in `libp2p::floodsub::Behaviour`).
pub uninterp spec fn subscriptions(overlay: libp2p::floodsub::Behaviour) -> Set<Seq<char>>;

/// The peers an overlay has a connection to, each with the names of the
/// topics it is known to be subscribed to (`connected_peers` in
/// `libp2p::floodsub::Behaviour`).
pub uninterp spec fn connected_peers(overlay: libp2p::floodsub::Behaviour) -> Map<
    Seq<u8>,
    Set<Seq<char>>,
>;

/// The messages an overlay holds ready to be sent (the messages of the
/// `NotifyHandler` entries of `events` in `libp2p::floodsub::Behaviour`):
/// one entry of recipient, source, topic and payload for each topic of each
/// message, as often as it is queued.
pub uninterp spec fn queued_messages(overlay: libp2p::floodsub::Behaviour) -> Multiset<
    (Seq<u8>, Seq<u8>, Seq<char>, Seq<u8>),
>;

/// The peer an overlay was made for, which it names as the source of what it
/// publishes (`config.local_peer_id` in `libp2p::floodsub::Behaviour`), as
/// the bytes that `libp2p::PeerId::to_bytes` gives.
pub uninterp spec fn local_peer(overlay: libp2p::floodsub::Behaviour) -> Seq<u8>;

/// No connected peer.
pub open spec fn nobody_connected() -> Map<Seq<u8>, Set<Seq<char>>> {
    Map::empty()
}

/// No queued message.
pub open spec fn nothing_queued() -> Multiset<(Seq<u8>, Seq<u8>, Seq<char>, Seq<u8>)> {
    Multiset::empty()
}

/// Calls `libp2p::floodsub::Behaviour::new`, which keeps the local peer and
/// starts with no target peer, no subscribed topic, no connected peer and
/// nothing to send. The local peer goes in as `libp2p::PeerId::from_bytes`
/// reads it.
#[verifier::external_body]
fn floodsub_new(local: &Vec<u8>) -> (overlay: libp2p::floodsub::Behaviour)
    requires
        is_peer_id(local@),
    ensures
        local_peer(overlay) == local@,
        partial_view(overlay) == Set::<Seq<u8>>::empty(),
        subscriptions(overlay) == Set::<Seq<char>>::empty(),
        connected_peers(overlay) == nobody_connected(),
        queued_messages(overlay) == nothing_queued(),
{
    let id = libp2p::PeerId::from_bytes(local.as_slice()).expect("peer identifier");
    libp2p::floodsub::Behaviour::new(id)
}

/// Calls `libp2p::floodsub::Behaviour::subscribe`, which adds the topic
/// unless one of that name is there already and says which of the two
/// happened. It queues no message and touches neither the target peers nor
/// the connected ones.
#[verifier::external_body]
fn floodsub_subscribe(overlay: &mut libp2p::floodsub::Behaviour, topic: &str) -> (fresh: bool)
    ensures
        fresh == !subscriptions(*old(overlay)).contains(topic@),
        subscriptions(*final(overlay)) == subscriptions(*old(overlay)).insert(topic@),
        partial_view(*final(overlay)) == partial_view(*old(overlay)),
        connected_peers(*final(overlay)) == connected_peers(*old(overlay)),
        queued_messages(*final(overlay)) == queued_messages(*old(overlay)),
        local_peer(*final(overlay)) == local_peer(*old(overlay)),
{
    overlay.subscribe(libp2p::floodsub::Topic::new(topic))
}

/// Calls `libp2p::floodsub::Behaviour::publish` with one topic. If the
/// overlay is subscribed to the topic, the call queues the message, with the
/// local peer as its source, once for every connected peer that is a target
/// peer and subscribed to the topic; if not, it queues nothing. The local
/// peer, target peers, subscribed topics and connected peers stay as they
/// are.
#[verifier::external_body]
fn floodsub_publish(overlay: &mut libp2p::floodsub::Behaviour, topic: &str, payload: Vec<u8>)
    ensures
        local_peer(*final(overlay)) == local_peer(*old(overlay)),
        partial_view(*final(overlay)) == partial_view(*old(overlay)),
        subscriptions(*final(overlay)) == subscriptions(*old(overlay)),
        connected_peers(*final(overlay)) == connected_peers(*old(overlay)),
        queued_by_publish(
            queued_messages(*old(overlay)),
            queued_messages(*final(overlay)),
            subscriptions(*old(overlay)),
            audience(partial_view(*old(overlay)), connected_peers(*old(overlay)), topic@),
            local_peer(*old(overlay)),
            topic@,
            payload@,
        ),
{
    overlay.publish(libp2p::floodsub::Topic::new(topic), payload)
}

/// Calls `libp2p::floodsub::Behaviour::add_node_to_partial_view`, which
/// inserts the peer into the target peers and queues no message. The peer
/// goes in as `libp2p::PeerId::from_bytes` reads it.
#[verifier::external_body]
fn floodsub_add(overlay: &mut libp2p::floodsub::Behaviour, peer: &Vec<u8>)
    requires
        is_peer_id(peer@),
    ensures
        partial_view(*final(overlay)) == partial_view(*old(overlay)).insert(peer@),
        subscriptions(*final(overlay)) == subscriptions(*old(overlay)),
        connected_peers(*final(overlay)) == connected_peers(*old(overlay)),
        queued_messages(*final(overlay)) == queued_messages(*old(overlay)),
        local_peer(*final(overlay)) == local_peer(*old(overlay)),
{
    let id = libp2p::PeerId::from_bytes(peer.as_slice()).expect("peer identifier");
    overlay.add_node_to_partial_view(id)
}

/// Calls `libp2p::floodsub::Behaviour::remove_node_from_partial_view`, which
/// takes the peer out of the target peers and does nothing else. The peer
/// goes in as `libp2p::PeerId::from_bytes` reads it.
#[verifier::external_body]
fn floodsub_remove(overlay: &mut libp2p::floodsub::Behaviour, peer: &Vec<u8>)
    requires
        is_peer_id(peer@),
    ensures
        partial_view(*final(overlay)) == partial_view(*old(overlay)).remove(peer@),
        subscriptions(*final(overlay)) == subscriptions(*old(overlay)),
        connected_peers(*final(overlay)) == connected_peers(*old(overlay)),
        queued_messages(*final(overlay)) == queued_messages(*old(overlay)),
        local_peer(*final(overlay)) == local_peer(*old(overlay)),
{
    let id = libp2p::PeerId::from_bytes(peer.as_slice()).expect("peer identifier");
    overlay.remove_node_from_partial_view(&id)
}

/// Whether two overlays agree in everything but the partial view: local
/// peer, subscribed topics, connected peers and queued messages.
pub open spec fn same_but_view(
    before: libp2p::floodsub::Behaviour,
    after: libp2p::floodsub::Behaviour,
) -> bool {
    &&& local_peer(after) == local_peer(before)
    &&& subscriptions(after) == subscriptions(before)
    &&& connected_peers(after) == connected_peers(before)
    &&& queued_messages(after) == queued_messages(before)
}

/// The peers that get what is published on `topic`: those in the partial
/// view that are connected and subscribed to the topic. A peer in the view
/// that is not connected is passed over.
pub open spec fn audience(
    view: Set<Seq<u8>>,
    connected: Map<Seq<u8>, Set<Seq<char>>>,
    topic: Seq<char>,
) -> Set<Seq<u8>> {
    Set::new(
        |peer: Seq<u8>|
            view.contains(peer) && connected.dom().contains(peer) && connected[peer].contains(
                topic,
            ),
    )
}

/// Whether `after` is what is queued once `payload` has been published on
/// `topic` by `source`, `before` being what was queued until then. An overlay
/// that is subscribed to the topic queues the message once more for each
/// peer of the audience and nothing else; one that is not queues nothing.
pub open spec fn queued_by_publish(
    before: Multiset<(Seq<u8>, Seq<u8>, Seq<char>, Seq<u8>)>,
    after: Multiset<(Seq<u8>, Seq<u8>, Seq<char>, Seq<u8>)>,
    subscribed: Set<Seq<char>>,
    audience: Set<Seq<u8>>,
    source: Seq<u8>,
    topic: Seq<char>,
    payload: Seq<u8>,
) -> bool {
    forall|entry: (Seq<u8>, Seq<u8>, Seq<char>, Seq<u8>)|
        #[trigger] after.count(entry) == before.count(entry) + if subscribed.contains(topic)
            && audience.contains(entry.0) && entry.1 == source && entry.2 == topic && entry.3
            == payload {
            1nat
        } else {
            0nat
        }
}

/// Whether `after` is `before` with `payload` published on the chat topic.
pub open spec fn published(
    before: libp2p::floodsub::Behaviour,
    after: libp2p::floodsub::Behaviour,
    payload: Seq<u8>,
) -> bool {
    &&& local_peer(after) == local_peer(before)
    &&& partial_view(after) == partial_view(before)
    &&& subscriptions(after) == subscriptions(before)
    &&& connected_peers(after) == connected_peers(before)
    &&& queued_by_publish(
        queued_messages(before),
        queued_messages(after),
        subscriptions(before),
        audience(partial_view(before), connected_peers(before), chat_topic_name()),
        local_peer(before),
        chat_topic_name(),
        payload,
    )
}

/// Publishing with an empty partial view sends nothing: no peer is in the
/// audience, and what is queued stays as it is.
pub proof fn lemma_publish_to_empty_view(
    before: libp2p::floodsub::Behaviour,
    after: libp2p::floodsub::Behaviour,
    payload: Seq<u8>,
)
    requires
        partial_view(before) == Set::<Seq<u8>>::empty(),
        published(before, after, payload),
    ensures
        audience(partial_view(before), connected_peers(before), chat_topic_name())
            == Set::<Seq<u8>>::empty(),
        queued_messages(after) == queued_messages(before),
{
    let nobody = audience(partial_view(before), connected_peers(before), chat_topic_name());
    assert(nobody =~= Set::<Seq<u8>>::empty());
    assert(queued_messages(after) =~= queued_messages(before));
}

/// What is published reaches each peer at most once, and only a peer that is
/// in the partial view and connected: the count of an entry grows by one for
/// such a peer and by nothing for any other.
pub proof fn lemma_published_once(
    before: libp2p::floodsub::Behaviour,
    after: libp2p::floodsub::Behaviour,
    payload: Seq<u8>,
    entry: (Seq<u8>, Seq<u8>, Seq<char>, Seq<u8>),
)
    requires
        published(before, after, payload),
    ensures
        queued_messages(after).count(entry) <= queued_messages(before).count(entry) + 1,
        queued_messages(after).count(entry) > queued_messages(before).count(entry) ==> {
            &&& partial_view(before).contains(entry.0)
            &&& connected_peers(before).dom().contains(entry.0)
            &&& entry.1 == local_peer(before)
            &&& entry.2 == chat_topic_name()
            &&& entry.3 == payload
        },
{
}

/// The name of the one topic of this node.
pub open spec fn chat_topic_name() -> Seq<char> {
    "chat"@
}

/// The one topic of this node.
pub fn chat_topic() -> (topic: &'static str)
    ensures
        topic@ == chat_topic_name(),
{
    "chat"
}

/// The subscribed topics after a request to subscribe to `topic`.
pub open spec fn subscribed_after(topics: Set<Seq<char>>, topic: Seq<char>) -> Set<Seq<char>> {
    topics.insert(topic)
}

/// Subscribing twice to a topic comes to the same as subscribing once: the
/// topic is there after the first request, and the second changes nothing.
pub proof fn lemma_subscribe_idempotent(topics: Set<Seq<char>>, topic: Seq<char>)
    ensures
        subscribed_after(topics, topic).contains(topic),
        subscribed_after(subscribed_after(topics, topic), topic) == subscribed_after(topics, topic),
{
    assert(topics.insert(topic).insert(topic) =~= topics.insert(topic));
}

/// The payload that carries a line of input: its UTF-8 bytes.
pub open spec fn payload_of(line: Seq<char>) -> Seq<u8> {
    encode_utf8(line)
}

/// A fresh overlay for the node named `local`: no peer in view, subscribed to
/// the chat topic and to nothing else, with no peer connected and nothing to
/// send.
pub fn new_overlay(local: &PeerAddress) -> (overlay: libp2p::floodsub::Behaviour)
    ensures
        local_peer(overlay) == local@,
        partial_view(overlay) == Set::<Seq<u8>>::empty(),
        subscriptions(overlay) == Set::<Seq<char>>::empty().insert(chat_topic_name()),
        connected_peers(overlay) == nobody_connected(),
        queued_messages(overlay) == nothing_queued(),
{
    let mut overlay = floodsub_new(local.as_bytes());
    let _ = floodsub_subscribe(&mut overlay, chat_topic());
    overlay
}

/// Records interest in `topic`. Returns whether the topic is new; asking
/// again for a topic already there changes nothing.
pub fn subscribe(overlay: &mut libp2p::floodsub::Behaviour, topic: &str) -> (fresh: bool)
    ensures
        fresh == !subscriptions(*old(overlay)).contains(topic@),
        subscriptions(*final(overlay)) == subscribed_after(subscriptions(*old(overlay)), topic@),
        partial_view(*final(overlay)) == partial_view(*old(overlay)),
        local_peer(*final(overlay)) == local_peer(*old(overlay)),
        connected_peers(*final(overlay)) == connected_peers(*old(overlay)),
        queued_messages(*final(overlay)) == queued_messages(*old(overlay)),
{
    floodsub_subscribe(overlay, topic)
}

/// Puts `peer` into the partial view.
pub fn add_to_view(overlay: &mut libp2p::floodsub::Behaviour, peer: &PeerAddress)
    ensures
        partial_view(*final(overlay)) == partial_view(*old(overlay)).insert(peer@),
        same_but_view(*old(overlay), *final(overlay)),
{
    floodsub_add(overlay, peer.as_bytes())
}

/// Takes `peer` out of the partial view.
pub fn remove_from_view(overlay: &mut libp2p::floodsub::Behaviour, peer: &PeerAddress)
    ensures
        partial_view(*final(overlay)) == partial_view(*old(overlay)).remove(peer@),
        same_but_view(*old(overlay), *final(overlay)),
{
    floodsub_remove(overlay, peer.as_bytes())
}

/// Publishes a line of input on the chat topic, best effort, and returns the
/// payload: the UTF-8 bytes of the line. The payload is queued for every peer
/// in the partial view that is connected and subscribed to the topic; a peer
/// that is not connected is passed over, and with nobody to send to the call
/// succeeds all the same.
pub fn publish(overlay: &mut libp2p::floodsub::Behaviour, line: &str) -> (payload: Vec<u8>)
    ensures
        payload@ == payload_of(line@),
        published(*old(overlay), *final(overlay), payload@),
{
    let payload = slice_to_vec(line.as_bytes());
    let sent = payload.clone();
    floodsub_publish(overlay, chat_topic(), sent);
    payload
}

} // verus!
