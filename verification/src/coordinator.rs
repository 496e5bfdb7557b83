//! The behaviour coordinator: routes what discovery and the overlay report.
//! Discovered peers enter the partial view; expired peers leave it unless
//! discovery still lists them; received messages are handed on as text.

use vstd::prelude::*;
use vstd::string::StringExecFns;
use vstd::utf8::{decode_utf8, encode_utf8_decode_utf8, encode_utf8_valid_utf8, valid_utf8};
use crate::overlay::{
    add_to_view, chat_topic, chat_topic_name, partial_view, payload_of, remove_from_view,
    same_but_view,
};
use crate::peer::PeerAddress;

verus! {

/// What discovery said about one peer: that it appeared, or that it
/// disappeared, together with whether discovery still listed the peer when it
/// said so.
pub enum Report {
    Appeared { peer: Seq<u8> },
    Disappeared { peer: Seq<u8>, still_listed: bool },
}

/// The partial view after one report. A disappearance counts only when
/// discovery no longer lists the peer.
pub open spec fn view_after(view: Set<Seq<u8>>, report: Report) -> Set<Seq<u8>> {
    match report {
        Report::Appeared { peer } => view.insert(peer),
        Report::Disappeared { peer, still_listed } => if still_listed {
            view
        } else {
            view.remove(peer)
        },
    }
}

/// The partial view after a run of reports, taken in order.
pub open spec fn view_after_all(view: Set<Seq<u8>>, reports: Seq<Report>) -> Set<Seq<u8>>
    decreases reports.len(),
{
    if reports.len() == 0 {
        view
    } else {
        view_after(view_after_all(view, reports.drop_last()), reports.last())
    }
}

impl Report {
    /// Whether the report puts `peer` into the view.
    pub open spec fn brings(self, peer: Seq<u8>) -> bool {
        self == (Report::Appeared { peer })
    }

    /// Whether the report takes `peer` out of the view: a disappearance that
    /// is accepted, discovery not listing the peer any more.
    pub open spec fn takes(self, peer: Seq<u8>) -> bool {
        self == (Report::Disappeared { peer, still_listed: false })
    }
}

/// Whether, in a run of reports, `peer` appeared and no disappearance of it
/// was accepted afterwards.
pub open spec fn appeared_last(reports: Seq<Report>, peer: Seq<u8>) -> bool {
    exists|i: int|
        0 <= i < reports.len() && #[trigger] reports[i].brings(peer) && forall|j: int|
            i < j < reports.len() ==> !#[trigger] reports[j].takes(peer)
}

/// Whether a run of reports holds no accepted disappearance of `peer`.
pub open spec fn never_taken(reports: Seq<Report>, peer: Seq<u8>) -> bool {
    forall|j: int| 0 <= j < reports.len() ==> !#[trigger] reports[j].takes(peer)
}

/// After a run of reports a peer is in the partial view exactly if it
/// appeared with no accepted disappearance after that, or was in the view
/// before and no disappearance of it was accepted at all.
pub proof fn lemma_view_follows_reports(view: Set<Seq<u8>>, reports: Seq<Report>, peer: Seq<u8>)
    ensures
        view_after_all(view, reports).contains(peer) <==> appeared_last(reports, peer) || (
        view.contains(peer) && never_taken(reports, peer)),
    decreases reports.len(),
{
    if reports.len() > 0 {
        let earlier = reports.drop_last();
        let last = reports.last();
        let n = earlier.len() as int;
        lemma_view_follows_reports(view, earlier, peer);
        assert(forall|j: int| 0 <= j < n ==> earlier[j] == reports[j]);
        if last.brings(peer) {
            assert(reports[n].brings(peer));
        } else if last.takes(peer) {
            assert(reports[n].takes(peer));
        } else {
            assert(view_after(view_after_all(view, earlier), last).contains(peer)
                == view_after_all(view, earlier).contains(peer));
            if appeared_last(earlier, peer) {
                let i = choose|i: int|
                    0 <= i < earlier.len() && #[trigger] earlier[i].brings(peer) && forall|j: int|
                        i < j < earlier.len() ==> !#[trigger] earlier[j].takes(peer);
                assert(reports[i].brings(peer));
                assert forall|j: int| i < j < reports.len() implies !#[trigger] reports[j].takes(
                    peer,
                ) by {
                    if j < n {
                        assert(!earlier[j].takes(peer));
                    }
                }
            }
            if appeared_last(reports, peer) {
                let i = choose|i: int|
                    0 <= i < reports.len() && #[trigger] reports[i].brings(peer) && forall|j: int|
                        i < j < reports.len() ==> !#[trigger] reports[j].takes(peer);
                assert(earlier[i].brings(peer));
                assert forall|j: int| i < j < earlier.len() implies !#[trigger] earlier[j].takes(
                    peer,
                ) by {
                    assert(!reports[j].takes(peer));
                }
            }
            if never_taken(earlier, peer) {
                assert forall|j: int| 0 <= j < reports.len() implies !#[trigger] reports[j].takes(
                    peer,
                ) by {
                    if j < n {
                        assert(!earlier[j].takes(peer));
                    }
                }
            }
            if never_taken(reports, peer) {
                assert forall|j: int| 0 <= j < earlier.len() implies !#[trigger] earlier[j].takes(
                    peer,
                ) by {
                    assert(!reports[j].takes(peer));
                }
            }
        }
    }
}

/// Starting from an empty view, a peer is in the partial view exactly if the
/// last report that counted for it was an appearance: it appeared, and no
/// disappearance of it was accepted since. A disappearance is not accepted
/// while discovery still lists the peer.
pub proof fn lemma_view_follows_discovery(reports: Seq<Report>, peer: Seq<u8>)
    ensures
        view_after_all(Set::<Seq<u8>>::empty(), reports).contains(peer) <==> appeared_last(
            reports,
            peer,
        ),
{
    lemma_view_follows_reports(Set::<Seq<u8>>::empty(), reports, peer);
}

/// The addresses in a list of peers, as a set.
pub open spec fn addresses(peers: Seq<PeerAddress>) -> Set<Seq<u8>> {
    Set::new(|address: Seq<u8>| exists|i: int| 0 <= i < peers.len() && peers[i]@ == address)
}

/// An event of local-network discovery: the peers of one batch.
#[derive(Debug)]
pub enum DiscoveryEvent {
    Appeared(Vec<PeerAddress>),
    Disappeared(Vec<PeerAddress>),
}

impl DiscoveryEvent {
    /// The peers the event speaks of.
    pub open spec fn peers(self) -> Seq<PeerAddress> {
        match self {
            DiscoveryEvent::Appeared(peers) => peers@,
            DiscoveryEvent::Disappeared(peers) => peers@,
        }
    }

    /// The event as reports, one for each peer, in order; `live` is the set
    /// of peers that discovery lists when the event is handled.
    pub open spec fn reports(self, live: Set<Seq<u8>>) -> Seq<Report> {
        match self {
            DiscoveryEvent::Appeared(peers) => Seq::new(
                peers@.len(),
                |i: int| Report::Appeared { peer: peers@[i]@ },
            ),
            DiscoveryEvent::Disappeared(peers) => Seq::new(
                peers@.len(),
                |i: int|
                    Report::Disappeared { peer: peers@[i]@, still_listed: live.contains(peers@[i]@) },
            ),
        }
    }
}

/// The partial view after a whole event, said at once: peers that appeared
/// are joined to it; of the peers that disappeared, those that `live` does
/// not hold are taken from it.
pub open spec fn view_after_event(
    view: Set<Seq<u8>>,
    live: Set<Seq<u8>>,
    event: DiscoveryEvent,
) -> Set<Seq<u8>> {
    match event {
        DiscoveryEvent::Appeared(peers) => view.union(addresses(peers@)),
        DiscoveryEvent::Disappeared(peers) => view.difference(addresses(peers@).difference(live)),
    }
}

proof fn lemma_reports_prefix(
    view: Set<Seq<u8>>,
    live: Set<Seq<u8>>,
    event: DiscoveryEvent,
    n: nat,
)
    requires
        n <= event.peers().len(),
    ensures
        event is Appeared ==> view_after_all(view, event.reports(live).take(n as int))
            == view.union(addresses(event.peers().take(n as int))),
        event is Disappeared ==> view_after_all(view, event.reports(live).take(n as int))
            == view.difference(addresses(event.peers().take(n as int)).difference(live)),
    decreases n,
{
    let reports = event.reports(live);
    let peers = event.peers();
    if n == 0 {
        assert(addresses(peers.take(0)) =~= Set::<Seq<u8>>::empty());
        assert(view.union(Set::<Seq<u8>>::empty()) =~= view);
        assert(view.difference(Set::<Seq<u8>>::empty().difference(live)) =~= view);
    } else {
        let m = (n - 1) as nat;
        lemma_reports_prefix(view, live, event, m);
        assert(reports.take(n as int).drop_last() == reports.take(m as int));
        let last = peers[m as int]@;
        assert(addresses(peers.take(n as int)) =~= addresses(peers.take(m as int)).insert(last))
            by {
            assert forall|a: Seq<u8>| addresses(peers.take(n as int)).contains(a) implies addresses(
                peers.take(m as int),
            ).insert(last).contains(a) by {
                let i = choose|i: int| 0 <= i < n && peers.take(n as int)[i]@ == a;
                if i < m {
                    assert(peers.take(m as int)[i]@ == a);
                }
            }
            assert forall|a: Seq<u8>|
                addresses(peers.take(m as int)).insert(last).contains(a) implies addresses(
                peers.take(n as int),
            ).contains(a) by {
                if a == last {
                    assert(peers.take(n as int)[m as int]@ == a);
                } else {
                    let i = choose|i: int| 0 <= i < m && peers.take(m as int)[i]@ == a;
                    assert(peers.take(n as int)[i]@ == a);
                }
            }
        }
        let before = addresses(peers.take(m as int));
        if event is Appeared {
            assert(view.union(before).insert(last) =~= view.union(before.insert(last)));
        } else {
            if live.contains(last) {
                assert(view.difference(before.difference(live)) =~= view.difference(
                    before.insert(last).difference(live),
                ));
            } else {
                assert(view.difference(before.difference(live)).remove(last) =~= view.difference(
                    before.insert(last).difference(live),
                ));
            }
        }
    }
}

/// Handling the reports of an event one by one comes to the same as the
/// event's effect said at once.
pub proof fn lemma_event_effect(view: Set<Seq<u8>>, live: Set<Seq<u8>>, event: DiscoveryEvent)
    ensures
        view_after_all(view, event.reports(live)) == view_after_event(view, live, event),
{
    let n = event.peers().len();
    lemma_reports_prefix(view, live, event, n);
    assert(event.reports(live).take(n as int) == event.reports(live));
    assert(event.peers().take(n as int) == event.peers());
}

/// Whether `peer` is among `live`.
pub fn is_listed(live: &Vec<PeerAddress>, peer: &PeerAddress) -> (listed: bool)
    ensures
        listed == addresses(live@).contains(peer@),
{
    let mut i: usize = 0;
    while i < live.len()
        invariant
            i <= live.len(),
            forall|j: int| 0 <= j < i ==> live@[j]@ != peer@,
        decreases live.len() - i,
    {
        if live[i].same_as(peer) {
            return true;
        }
        i = i + 1;
    }
    false
}

/// Brings the partial view up to date with one discovery event. Every peer
/// that appeared is put into the view. A peer that disappeared is taken out
/// only if `live`, the peers that discovery lists now, does not hold it.
pub fn handle_discovery(
    overlay: &mut libp2p::floodsub::Behaviour,
    live: &Vec<PeerAddress>,
    event: &DiscoveryEvent,
)
    ensures
        partial_view(*final(overlay)) == view_after_all(
            partial_view(*old(overlay)),
            event.reports(addresses(live@)),
        ),
        partial_view(*final(overlay)) == view_after_event(
            partial_view(*old(overlay)),
            addresses(live@),
            *event,
        ),
        same_but_view(*old(overlay), *final(overlay)),
{
    proof {
        lemma_event_effect(partial_view(*overlay), addresses(live@), *event);
    }
    let ghost reports = event.reports(addresses(live@));
    let ghost before = partial_view(*overlay);
    match event {
        DiscoveryEvent::Appeared(peers) => {
            let mut i: usize = 0;
            while i < peers.len()
                invariant
                    i <= peers.len(),
                    reports.len() == peers.len(),
                    forall|j: int|
                        0 <= j < peers.len() ==> reports[j] == (Report::Appeared {
                            peer: peers@[j]@,
                        }),
                    partial_view(*overlay) == view_after_all(before, reports.take(i as int)),
                    same_but_view(*old(overlay), *overlay),
                decreases peers.len() - i,
            {
                add_to_view(overlay, &peers[i]);
                assert(reports.take(i + 1).drop_last() == reports.take(i as int));
                i = i + 1;
            }
            assert(reports.take(i as int) == reports);
        },
        DiscoveryEvent::Disappeared(peers) => {
            let mut i: usize = 0;
            while i < peers.len()
                invariant
                    i <= peers.len(),
                    reports.len() == peers.len(),
                    forall|j: int|
                        0 <= j < peers.len() ==> reports[j] == (Report::Disappeared {
                            peer: peers@[j]@,
                            still_listed: addresses(live@).contains(peers@[j]@),
                        }),
                    partial_view(*overlay) == view_after_all(before, reports.take(i as int)),
                    same_but_view(*old(overlay), *overlay),
                decreases peers.len() - i,
            {
                if !is_listed(live, &peers[i]) {
                    remove_from_view(overlay, &peers[i]);
                }
                assert(reports.take(i + 1).drop_last() == reports.take(i as int));
                i = i + 1;
            }
            assert(reports.take(i as int) == reports);
        },
    }
}

/// What `String::from_utf8_lossy` makes of bytes that are not valid UTF-8:
/// the text with each invalid sequence replaced by U+FFFD.
pub uninterp spec fn lossy_text(bytes: Seq<u8>) -> Seq<char>;

/// The text a payload is delivered as: the string it encodes, or, where it
/// encodes none, its lossy reading.
pub open spec fn text_of(payload: Seq<u8>) -> Seq<char> {
    if valid_utf8(payload) {
        decode_utf8(payload)
    } else {
        lossy_text(payload)
    }
}

/// Calls `String::from_utf8_lossy`. Valid UTF-8 comes back as the string it
/// encodes; of other input only the name of the result is known.
#[verifier::external_body]
fn decode_lossy(payload: &Vec<u8>) -> (text: String)
    ensures
        valid_utf8(payload@) ==> text@ == decode_utf8(payload@),
        !valid_utf8(payload@) ==> text@ == lossy_text(payload@),
{
    String::from_utf8_lossy(payload.as_slice()).into_owned()
}

/// A line that is published and then delivered reads as it was written:
/// the text of its payload is the line itself.
pub proof fn lemma_line_round_trip(line: Seq<char>)
    ensures
        valid_utf8(payload_of(line)),
        text_of(payload_of(line)) == line,
{
    encode_utf8_valid_utf8(line);
    encode_utf8_decode_utf8(line);
}

/// An event of the broadcast overlay.
#[derive(Debug)]
pub enum BroadcastEvent {
    /// A message arrived from `source`, published on `topics`.
    Message { source: PeerAddress, payload: Vec<u8>, topics: Vec<String> },
    /// A remote peer subscribed to a topic.
    Subscribed { peer: PeerAddress, topic: String },
    /// A remote peer unsubscribed from a topic.
    Unsubscribed { peer: PeerAddress, topic: String },
}

/// A received message, ready for the output sink.
#[derive(Debug)]
pub struct Delivery {
    pub source: PeerAddress,
    pub text: String,
}

/// The names in a list of topics, as a set.
pub open spec fn topic_names(topics: Seq<String>) -> Set<Seq<char>> {
    Set::new(|name: Seq<char>| exists|i: int| 0 <= i < topics.len() && topics[i]@ == name)
}

impl BroadcastEvent {
    /// Whether the event is a message on the chat topic.
    pub open spec fn is_chat_message(self) -> bool {
        self matches BroadcastEvent::Message { topics, .. } && topic_names(topics@).contains(
            chat_topic_name(),
        )
    }
}

/// Whether `topics` holds the chat topic.
pub fn names_chat_topic(topics: &Vec<String>) -> (found: bool)
    ensures
        found == topic_names(topics@).contains(chat_topic_name()),
{
    let chat = String::from_str(chat_topic());
    let mut i: usize = 0;
    while i < topics.len()
        invariant
            i <= topics.len(),
            chat@ == chat_topic_name(),
            forall|j: int| 0 <= j < i ==> topics@[j]@ != chat_topic_name(),
        decreases topics.len() - i,
    {
        if topics[i] == chat {
            return true;
        }
        i = i + 1;
    }
    false
}

/// Decides what an overlay event hands to the output sink. A message on the
/// chat topic is delivered, whatever its bytes: as the string they encode,
/// or, where they encode none, with the invalid sequences replaced. Every
/// other event delivers nothing.
pub fn handle_broadcast(event: BroadcastEvent) -> (delivery: Option<Delivery>)
    ensures
        delivery is Some <==> event.is_chat_message(),
        delivery matches Some(d) ==> event matches BroadcastEvent::Message { source, payload, .. }
            && d.source == source && d.text@ == text_of(payload@),
{
    match event {
        BroadcastEvent::Message { source, payload, topics } => {
            if names_chat_topic(&topics) {
                let text = decode_lossy(&payload);
                Some(Delivery { source, text })
            } else {
                None
            }
        },
        BroadcastEvent::Subscribed { .. } => None,
        BroadcastEvent::Unsubscribed { .. } => None,
    }
}

} // verus!
