//! The node runtime: the decisions of the control loop. The loop itself
//! waits for the next input line, network event or termination signal and
//! hands each to `ControlLoop::step`, which acts on the overlay and says what
//! the caller is to do next.

use vstd::prelude::*;
use crate::coordinator::{
    addresses, handle_broadcast, handle_discovery, text_of, view_after_all, view_after_event,
    BroadcastEvent, Delivery, DiscoveryEvent,
};
use crate::overlay::{partial_view, payload_of, publish, published, same_but_view};
use crate::peer::PeerAddress;

verus! {

/// One thing that the control loop can be woken by.
#[derive(Debug)]
pub enum LoopEvent {
    /// A line of local input, without its delimiter.
    Line(String),
    /// The local input has ended.
    InputClosed,
    /// Reading the local input failed.
    InputFailed,
    /// Discovery reported peers; `live` is what it lists now.
    Discovery { live: Vec<PeerAddress>, event: DiscoveryEvent },
    /// The overlay reported something.
    Broadcast(BroadcastEvent),
    /// Termination was requested.
    Terminate,
    /// Waiting for the termination signal failed: the signal could not be
    /// registered.
    SignalFailed,
}

/// Why the loop gave up.
#[derive(Clone, Copy, Debug, PartialEq, Eq, Structural)]
pub enum Failure {
    /// The local input has ended.
    InputClosed,
    /// Reading the local input failed.
    InputFailed,
    /// The termination signal cannot be waited for.
    SignalFailed,
}

/// What the caller of `step` is to do next.
#[derive(Debug)]
pub enum Action {
    /// The line went out with this payload; go on.
    Published(Vec<u8>),
    /// The partial view was brought up to date; go on.
    ViewUpdated,
    /// Hand this to the output sink; go on.
    Deliver(Delivery),
    /// Nothing to do but go on.
    Proceed,
    /// Leave the loop: termination was requested.
    ShutDown,
    /// Give up: the input is gone, or the termination signal cannot be
    /// waited for.
    Abort(Failure),
    /// The loop has ended before; the event was not looked at.
    Halted,
}

impl LoopEvent {
    /// Whether the event ends the loop.
    pub open spec fn ends_loop(self) -> bool {
        self is Terminate || self is InputClosed || self is InputFailed || self is SignalFailed
    }
}

/// Whether a loop that had ended, or had not, has ended after a run of
/// events.
pub open spec fn ended_after(ended: bool, events: Seq<LoopEvent>) -> bool
    decreases events.len(),
{
    if events.len() == 0 {
        ended
    } else {
        ended_after(ended, events.drop_last()) || events.last().ends_loop()
    }
}

/// Whether, in a run of events handed to a fresh loop one after the other,
/// the event at `at` is acted on: none before it ended the loop.
pub open spec fn acted_on(events: Seq<LoopEvent>, at: int) -> bool {
    !ended_after(false, events.take(at))
}

/// Whether the event at `at` of such a run is a line that is published.
pub open spec fn published_at(events: Seq<LoopEvent>, at: int) -> bool {
    acted_on(events, at) && events[at] is Line
}

/// A loop has ended after a run of events exactly if it had ended before or
/// one of the events ends it.
pub proof fn lemma_ended_after(ended: bool, events: Seq<LoopEvent>)
    ensures
        ended_after(ended, events) <==> ended || exists|k: int|
            0 <= k < events.len() && #[trigger] events[k].ends_loop(),
    decreases events.len(),
{
    if events.len() > 0 {
        let earlier = events.drop_last();
        lemma_ended_after(ended, earlier);
        if exists|k: int| 0 <= k < earlier.len() && #[trigger] earlier[k].ends_loop() {
            let k = choose|k: int| 0 <= k < earlier.len() && #[trigger] earlier[k].ends_loop();
            assert(events[k].ends_loop());
        }
        if events.last().ends_loop() {
            assert(events[events.len() - 1].ends_loop());
        }
        if exists|k: int| 0 <= k < events.len() && #[trigger] events[k].ends_loop() {
            let k = choose|k: int| 0 <= k < events.len() && #[trigger] events[k].ends_loop();
            if k < earlier.len() {
                assert(earlier[k].ends_loop());
            }
        }
    }
}

/// Once an event has ended the loop, whether a termination request or a
/// failure, no later event is acted on: in particular no line that
/// was waiting is published.
pub proof fn lemma_nothing_after_end(events: Seq<LoopEvent>, end: int, at: int)
    requires
        0 <= end < at < events.len(),
        events[end].ends_loop(),
    ensures
        !acted_on(events, at),
        !published_at(events, at),
{
    lemma_ended_after(false, events.take(at));
    assert(events.take(at)[end].ends_loop());
}

/// The state of the control loop: whether it has ended. Once ended it stays
/// so.
#[derive(Debug)]
pub struct ControlLoop {
    ended: bool,
}

impl ControlLoop {
    /// Whether the loop has ended.
    pub closed spec fn has_ended(&self) -> bool {
        self.ended
    }

    /// A loop that has not ended.
    pub fn new() -> (control: ControlLoop)
        ensures
            !control.has_ended(),
    {
        ControlLoop { ended: false }
    }

    /// Whether the loop has ended.
    pub fn is_ended(&self) -> (ended: bool)
        ensures
            ended == self.has_ended(),
    {
        self.ended
    }

    /// Handles one event.
    ///
    /// After the loop has ended no event is looked at and the overlay is left
    /// as it is. Before that: a line is published on the chat topic; a
    /// discovery event updates the partial view; an overlay event is
    /// delivered if it is a message on the chat topic; a termination request
    /// ends the loop in good order; the loss of the input, or of the means to
    /// wait for the termination signal, ends it as a failure.
    pub fn step(&mut self, overlay: &mut libp2p::floodsub::Behaviour, event: LoopEvent) -> (action:
        Action)
        ensures
            final(self).has_ended() == (old(self).has_ended() || event.ends_loop()),
            final(self).has_ended() == ended_after(old(self).has_ended(), seq![event]),
            old(self).has_ended() ==> action is Halted && *final(overlay) == *old(overlay),
            !old(self).has_ended() ==> match event {
                LoopEvent::Line(line) => {
                    &&& action matches Action::Published(payload)
                    &&& payload@ == payload_of(line@)
                    &&& published(*old(overlay), *final(overlay), payload@)
                },
                LoopEvent::InputClosed => {
                    &&& action == Action::Abort(Failure::InputClosed)
                    &&& *final(overlay) == *old(overlay)
                },
                LoopEvent::InputFailed => {
                    &&& action == Action::Abort(Failure::InputFailed)
                    &&& *final(overlay) == *old(overlay)
                },
                LoopEvent::Discovery { live, event } => {
                    &&& action is ViewUpdated
                    &&& same_but_view(*old(overlay), *final(overlay))
                    &&& partial_view(*final(overlay)) == view_after_all(
                        partial_view(*old(overlay)),
                        event.reports(addresses(live@)),
                    )
                    &&& partial_view(*final(overlay)) == view_after_event(
                        partial_view(*old(overlay)),
                        addresses(live@),
                        event,
                    )
                },
                LoopEvent::Broadcast(event) => {
                    &&& *final(overlay) == *old(overlay)
                    &&& event.is_chat_message() ==> {
                        &&& action matches Action::Deliver(delivery)
                        &&& event matches BroadcastEvent::Message { source, payload, .. }
                        &&& delivery.source == source
                        &&& delivery.text@ == text_of(payload@)
                    }
                    &&& !event.is_chat_message() ==> action is Proceed
                },
                LoopEvent::Terminate => {
                    &&& action is ShutDown
                    &&& *final(overlay) == *old(overlay)
                },
                LoopEvent::SignalFailed => {
                    &&& action == Action::Abort(Failure::SignalFailed)
                    &&& *final(overlay) == *old(overlay)
                },
            },
    {
        proof {
            assert(seq![event].drop_last().len() == 0);
            assert(seq![event].last() == event);
            assert(ended_after(self.ended, seq![event].drop_last()) == self.ended);
        }
        if self.ended {
            return Action::Halted;
        }
        match event {
            LoopEvent::Line(line) => {
                let payload = publish(overlay, line.as_str());
                Action::Published(payload)
            },
            LoopEvent::InputClosed => {
                self.ended = true;
                Action::Abort(Failure::InputClosed)
            },
            LoopEvent::InputFailed => {
                self.ended = true;
                Action::Abort(Failure::InputFailed)
            },
            LoopEvent::Discovery { live, event } => {
                handle_discovery(overlay, &live, &event);
                Action::ViewUpdated
            },
            LoopEvent::Broadcast(event) => {
                match handle_broadcast(event) {
                    Some(delivery) => Action::Deliver(delivery),
                    None => Action::Proceed,
                }
            },
            LoopEvent::Terminate => {
                self.ended = true;
                Action::ShutDown
            },
            LoopEvent::SignalFailed => {
                self.ended = true;
                Action::Abort(Failure::SignalFailed)
            },
        }
    }
}

} // verus!
