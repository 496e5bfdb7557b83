use flood_chat::coordinator::{handle_discovery, is_listed, DiscoveryEvent};
use flood_chat::overlay::{
    add_to_view, chat_topic, new_overlay, publish, remove_from_view, subscribe,
};
use flood_chat::peer::PeerAddress;
use libp2p::floodsub::protocol::{FloodsubRpc, FloodsubSubscription, FloodsubSubscriptionAction};
use libp2p::floodsub::{Behaviour, Event, Topic};
use libp2p::swarm::behaviour::{ConnectionEstablished, FromSwarm};
use libp2p::swarm::{ConnectionId, NetworkBehaviour, ToSwarm};
use libp2p::{Multiaddr, PeerId};
use std::task::{Context, Poll, Waker};

fn peer(fill: u8) -> PeerAddress {
    let mut bytes = vec![0u8, 32u8];
    bytes.extend(vec![fill; 32]);
    PeerAddress::from_bytes(bytes).unwrap()
}

fn id_of(address: &PeerAddress) -> PeerId {
    PeerId::from_bytes(address.as_bytes()).unwrap()
}

fn drain(overlay: &mut Behaviour) -> Vec<ToSwarm<Event, FloodsubRpc>> {
    let mut cx = Context::from_waker(Waker::noop());
    let mut events = Vec::new();
    while let Poll::Ready(event) = overlay.poll(&mut cx) {
        events.push(event);
    }
    events
}

fn dialled(events: &[ToSwarm<Event, FloodsubRpc>]) -> Vec<PeerId> {
    let mut peers = Vec::new();
    for event in events {
        if let ToSwarm::Dial { opts } = event {
            peers.push(opts.get_peer_id().unwrap());
        }
    }
    peers
}

fn sent_to(events: &[ToSwarm<Event, FloodsubRpc>]) -> Vec<(PeerId, Vec<u8>, Vec<String>)> {
    let mut sent = Vec::new();
    for event in events {
        if let ToSwarm::NotifyHandler { peer_id, event, .. } = event {
            for message in &event.messages {
                let topics = message.topics.iter().map(|t| t.id().to_string()).collect();
                sent.push((*peer_id, message.data.to_vec(), topics));
            }
        }
    }
    sent
}

fn connect(overlay: &mut Behaviour, remote: &PeerAddress, connection: usize) {
    let address: Multiaddr = "/ip4/127.0.0.1/tcp/4001".parse().unwrap();
    let endpoint = libp2p::core::ConnectedPoint::Listener {
        local_addr: address.clone(),
        send_back_addr: address,
    };
    overlay.on_swarm_event(FromSwarm::ConnectionEstablished(ConnectionEstablished {
        peer_id: id_of(remote),
        connection_id: ConnectionId::new_unchecked(connection),
        endpoint: &endpoint,
        failed_addresses: &[],
        other_established: 0,
    }));
}

fn remote_subscribes(overlay: &mut Behaviour, remote: &PeerAddress, connection: usize, topic: &str) {
    let rpc = FloodsubRpc {
        messages: Vec::new(),
        subscriptions: vec![FloodsubSubscription {
            action: FloodsubSubscriptionAction::Subscribe,
            topic: Topic::new(topic),
        }],
    };
    overlay.on_connection_handler_event(
        id_of(remote),
        ConnectionId::new_unchecked(connection),
        Ok(rpc.into()),
    );
}

/// An overlay of node 1 with `remote` connected and subscribed to the chat
/// topic, and nothing queued.
fn overlay_with_listener(remote: &PeerAddress) -> Behaviour {
    let mut overlay = new_overlay(&peer(1));
    connect(&mut overlay, remote, 1);
    remote_subscribes(&mut overlay, remote, 1, "chat");
    drain(&mut overlay);
    overlay
}

#[test]
fn chat_topic_is_chat() {
    assert_eq!(chat_topic(), "chat");
}

#[test]
fn new_overlay_is_subscribed_to_chat_only() {
    let mut overlay = new_overlay(&peer(1));
    assert!(!subscribe(&mut overlay, "chat"));
    assert!(subscribe(&mut overlay, "news"));
}

#[test]
fn new_overlay_has_nothing_queued() {
    let mut overlay = new_overlay(&peer(1));
    assert!(drain(&mut overlay).is_empty());
}

#[test]
fn subscribe_twice_is_subscribe_once() {
    let mut overlay = new_overlay(&peer(1));
    assert!(subscribe(&mut overlay, "news"));
    assert!(!subscribe(&mut overlay, "news"));
    assert!(!subscribe(&mut overlay, "news"));
    // A peer that connects is told of each topic once.
    let remote = peer(2);
    add_to_view(&mut overlay, &remote);
    drain(&mut overlay);
    connect(&mut overlay, &remote, 1);
    let mut announced = Vec::new();
    for event in drain(&mut overlay) {
        if let ToSwarm::NotifyHandler { event, .. } = event {
            for subscription in event.subscriptions {
                announced.push(subscription.topic.id().to_string());
            }
        }
    }
    assert_eq!(announced, vec!["chat".to_string(), "news".to_string()]);
}

#[test]
fn add_to_view_dials_a_new_peer_once() {
    let mut overlay = new_overlay(&peer(1));
    let x = peer(2);
    add_to_view(&mut overlay, &x);
    assert_eq!(dialled(&drain(&mut overlay)), vec![id_of(&x)]);
    add_to_view(&mut overlay, &x);
    assert!(dialled(&drain(&mut overlay)).is_empty());
}

#[test]
fn remove_from_view_forgets_the_peer() {
    let mut overlay = new_overlay(&peer(1));
    let x = peer(2);
    add_to_view(&mut overlay, &x);
    remove_from_view(&mut overlay, &x);
    remove_from_view(&mut overlay, &x);
    drain(&mut overlay);
    add_to_view(&mut overlay, &x);
    assert_eq!(dialled(&drain(&mut overlay)), vec![id_of(&x)]);
}

#[test]
fn is_listed_searches_the_live_set() {
    let live = vec![peer(2), peer(3)];
    assert!(is_listed(&live, &peer(2)));
    assert!(is_listed(&live, &peer(3)));
    assert!(!is_listed(&live, &peer(4)));
    assert!(!is_listed(&Vec::new(), &peer(2)));
}

#[test]
fn appeared_peers_enter_the_view() {
    let mut overlay = new_overlay(&peer(1));
    let event = DiscoveryEvent::Appeared(vec![peer(2), peer(3), peer(2)]);
    handle_discovery(&mut overlay, &Vec::new(), &event);
    assert_eq!(dialled(&drain(&mut overlay)), vec![id_of(&peer(2)), id_of(&peer(3))]);
    // Both are in the view now: adding them again dials nobody.
    add_to_view(&mut overlay, &peer(2));
    add_to_view(&mut overlay, &peer(3));
    assert!(dialled(&drain(&mut overlay)).is_empty());
}

#[test]
fn empty_events_change_nothing() {
    let mut overlay = new_overlay(&peer(1));
    add_to_view(&mut overlay, &peer(2));
    drain(&mut overlay);
    handle_discovery(&mut overlay, &Vec::new(), &DiscoveryEvent::Appeared(Vec::new()));
    handle_discovery(&mut overlay, &Vec::new(), &DiscoveryEvent::Disappeared(Vec::new()));
    assert!(drain(&mut overlay).is_empty());
    add_to_view(&mut overlay, &peer(2));
    assert!(dialled(&drain(&mut overlay)).is_empty());
}

#[test]
fn disappearance_is_ignored_while_discovery_lists_the_peer() {
    let x = peer(2);
    let mut overlay = overlay_with_listener(&x);
    handle_discovery(&mut overlay, &vec![x.duplicate()], &DiscoveryEvent::Appeared(vec![x.duplicate()]));
    handle_discovery(
        &mut overlay,
        &vec![x.duplicate()],
        &DiscoveryEvent::Disappeared(vec![x.duplicate()]),
    );
    drain(&mut overlay);
    // Still in the view: the peer gets what is published, and adding it again
    // dials nobody.
    publish(&mut overlay, "ping");
    assert_eq!(
        sent_to(&drain(&mut overlay)),
        vec![(id_of(&x), b"ping".to_vec(), vec!["chat".to_string()])]
    );
    add_to_view(&mut overlay, &x);
    assert!(dialled(&drain(&mut overlay)).is_empty());
}

#[test]
fn disappearance_is_accepted_when_discovery_lists_the_peer_no_more() {
    let x = peer(2);
    let mut overlay = overlay_with_listener(&x);
    handle_discovery(&mut overlay, &vec![x.duplicate()], &DiscoveryEvent::Appeared(vec![x.duplicate()]));
    handle_discovery(&mut overlay, &Vec::new(), &DiscoveryEvent::Disappeared(vec![x.duplicate()]));
    drain(&mut overlay);
    // Out of the view: the peer gets nothing, and adding it again dials it.
    publish(&mut overlay, "ping");
    assert!(sent_to(&drain(&mut overlay)).is_empty());
    add_to_view(&mut overlay, &x);
    assert_eq!(dialled(&drain(&mut overlay)), vec![id_of(&x)]);
}

#[test]
fn disappearance_of_listed_and_unlisted_peers_in_one_event() {
    let mut overlay = new_overlay(&peer(1));
    let appeared = DiscoveryEvent::Appeared(vec![peer(2), peer(3), peer(4)]);
    handle_discovery(&mut overlay, &Vec::new(), &appeared);
    let live = vec![peer(3)];
    let gone = DiscoveryEvent::Disappeared(vec![peer(2), peer(3)]);
    handle_discovery(&mut overlay, &live, &gone);
    drain(&mut overlay);
    add_to_view(&mut overlay, &peer(2));
    add_to_view(&mut overlay, &peer(3));
    add_to_view(&mut overlay, &peer(4));
    assert_eq!(dialled(&drain(&mut overlay)), vec![id_of(&peer(2))]);
}

#[test]
fn disappearance_without_appearance_is_a_no_op() {
    let mut overlay = new_overlay(&peer(1));
    handle_discovery(&mut overlay, &Vec::new(), &DiscoveryEvent::Disappeared(vec![peer(2)]));
    assert!(drain(&mut overlay).is_empty());
    handle_discovery(&mut overlay, &Vec::new(), &DiscoveryEvent::Appeared(vec![peer(2)]));
    assert_eq!(dialled(&drain(&mut overlay)), vec![id_of(&peer(2))]);
}

#[test]
fn reappearance_after_an_accepted_disappearance() {
    let x = peer(2);
    let mut overlay = overlay_with_listener(&x);
    handle_discovery(&mut overlay, &Vec::new(), &DiscoveryEvent::Appeared(vec![x.duplicate()]));
    handle_discovery(&mut overlay, &Vec::new(), &DiscoveryEvent::Disappeared(vec![x.duplicate()]));
    handle_discovery(&mut overlay, &Vec::new(), &DiscoveryEvent::Appeared(vec![x.duplicate()]));
    drain(&mut overlay);
    publish(&mut overlay, "again");
    assert_eq!(
        sent_to(&drain(&mut overlay)),
        vec![(id_of(&x), b"again".to_vec(), vec!["chat".to_string()])]
    );
}

#[test]
fn publish_with_an_empty_view_sends_nothing_and_succeeds() {
    let mut overlay = new_overlay(&peer(1));
    let payload = publish(&mut overlay, "anyone there?");
    assert_eq!(payload, b"anyone there?".to_vec());
    assert!(drain(&mut overlay).is_empty());
}

#[test]
fn publish_skips_peers_that_are_not_connected() {
    let mut overlay = new_overlay(&peer(1));
    add_to_view(&mut overlay, &peer(2));
    drain(&mut overlay);
    publish(&mut overlay, "hello");
    assert!(sent_to(&drain(&mut overlay)).is_empty());
}

#[test]
fn publish_hands_the_bytes_of_the_line_to_peers_in_view() {
    let x = peer(2);
    let mut overlay = overlay_with_listener(&x);
    add_to_view(&mut overlay, &x);
    drain(&mut overlay);
    let payload = publish(&mut overlay, "grüße, 世界");
    assert_eq!(payload, "grüße, 世界".as_bytes().to_vec());
    assert_eq!(
        sent_to(&drain(&mut overlay)),
        vec![(id_of(&x), "grüße, 世界".as_bytes().to_vec(), vec!["chat".to_string()])]
    );
}

#[test]
fn publish_of_an_empty_line() {
    let x = peer(2);
    let mut overlay = overlay_with_listener(&x);
    add_to_view(&mut overlay, &x);
    drain(&mut overlay);
    assert_eq!(publish(&mut overlay, ""), Vec::<u8>::new());
    assert_eq!(
        sent_to(&drain(&mut overlay)),
        vec![(id_of(&x), Vec::new(), vec!["chat".to_string()])]
    );
}
