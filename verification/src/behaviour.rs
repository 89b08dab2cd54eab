//! The periodic-identify behaviour: the per-peer orchestrator of the
//! identify protocol family.
//!
//! The behaviour owns one [`PeriodicIdentification`] handler per active
//! connection (created through
//! [`PeriodicIdentifyBehaviour::new_handler`]), receives connection
//! lifecycle notifications and the handlers' emitted events from the swarm
//! driver, and surfaces its own events through a first-in-first-out queue
//! drained one element per poll. Its state is mutated only by this single
//! inject/poll call sequence — ownership is exclusive, so no internal
//! locking is needed.

use std::collections::VecDeque;
use vstd::prelude::*;

use crate::addr::{Multiaddr, PeerId};
use crate::identify::{IdentifyInfo, PeriodicIdentification, PeriodicIdentificationEvent};
use crate::muxing::Async;

verus! {

/// How the connection a notification speaks of came to be.
#[derive(Debug, Clone, PartialEq, Eq)]
pub enum ConnectedPoint {
    /// We dialed the peer at this address.
    Dialer {
        /// The address that was dialed.
        address: Multiaddr,
    },
    /// The peer reached one of our listeners.
    Listener {
        /// The listening address the peer reached.
        listen_addr: Multiaddr,
    },
}

/// Event generated by the behaviour for its caller.
#[derive(Debug, Clone, PartialEq, Eq)]
pub enum PeriodicIdentifyBehaviourEvent {
    /// We obtained identification information from a remote peer.
    Identified {
        /// The peer that was identified.
        peer_id: PeerId,
        /// What the peer reported about itself.
        info: IdentifyInfo,
        /// The address the peer observes us as.
        observed_addr: Multiaddr,
    },
}

/// What the behaviour asks of the swarm driver when polled: either an
/// event to surface to the application, or an action to carry out.
#[derive(Debug, Clone, PartialEq, Eq)]
pub enum NetworkBehaviourAction {
    /// Surface this event to the application.
    GenerateEvent(PeriodicIdentifyBehaviourEvent),
    /// Dial the given address.
    DialAddress(Multiaddr),
}

/// A behaviour that periodically identifies the peers we are connected to
/// and reports what they said about themselves.
#[derive(Debug)]
pub struct PeriodicIdentifyBehaviour {
    /// Events to be produced outside when polled, oldest first.
    events: VecDeque<PeriodicIdentifyBehaviourEvent>,
}

impl View for PeriodicIdentifyBehaviour {
    type V = Seq<PeriodicIdentifyBehaviourEvent>;

    closed spec fn view(&self) -> Seq<PeriodicIdentifyBehaviourEvent> {
        self.events@
    }
}

impl PeriodicIdentifyBehaviour {
    /// A fresh behaviour with nothing queued.
    pub fn new() -> (b: PeriodicIdentifyBehaviour)
        ensures
            b@ == Seq::<PeriodicIdentifyBehaviourEvent>::empty(),
    {
        PeriodicIdentifyBehaviour { events: VecDeque::new() }
    }

    /// A fresh handler for a newly established connection. The behaviour
    /// itself is unchanged; the swarm driver binds the handler to the
    /// connection and routes its events back through
    /// [`PeriodicIdentifyBehaviour::inject_node_event`].
    pub fn new_handler(&mut self) -> (h: PeriodicIdentification)
        ensures
            final(self)@ == old(self)@,
            h@.events == Seq::<PeriodicIdentificationEvent>::empty(),
            !h@.outbound_wanted,
    {
        PeriodicIdentification::new()
    }

    /// A connection to a peer was established. This behaviour keeps no
    /// per-peer state of its own, so nothing changes.
    pub fn inject_connected(&mut self, _peer_id: PeerId, _endpoint: ConnectedPoint)
        ensures
            final(self)@ == old(self)@,
    {
    }

    /// A connection to a peer was closed. This behaviour keeps no per-peer
    /// state of its own, so nothing changes.
    pub fn inject_disconnected(&mut self, _peer_id: &PeerId, _endpoint: ConnectedPoint)
        ensures
            final(self)@ == old(self)@,
    {
    }

    /// Routes an event a handler emitted for the given peer into this
    /// behaviour. An identification queues the corresponding behaviour
    /// event — with exactly the reported information and observed address —
    /// behind whatever is already queued. Every other handler event is
    /// deliberately ignored: this behaviour only reports successful
    /// identifications, and new handler event kinds must not break it.
    pub fn inject_node_event(&mut self, peer_id: PeerId, event: PeriodicIdentificationEvent)
        ensures
            event matches PeriodicIdentificationEvent::Identified(remote) ==> final(self)@ == old(
                self,
            )@.push(
                PeriodicIdentifyBehaviourEvent::Identified {
                    peer_id: peer_id,
                    info: remote.info,
                    observed_addr: remote.observed_addr,
                },
            ),
            !(event is Identified) ==> final(self)@ == old(self)@,
    {
        match event {
            PeriodicIdentificationEvent::Identified(remote) => {
                self.events.push_back(
                    PeriodicIdentifyBehaviourEvent::Identified {
                        peer_id: peer_id,
                        info: remote.info,
                        observed_addr: remote.observed_addr,
                    },
                );
            },
            _ => {},
        }
    }

    /// One non-blocking poll of the behaviour: surfaces the oldest queued
    /// event, if any — first in, first out, one per call — and otherwise
    /// reports not-ready. Cheap and safe to call repeatedly.
    pub fn poll(&mut self) -> (r: Async<NetworkBehaviourAction>)
        ensures
            old(self)@.len() > 0 ==> r == Async::<NetworkBehaviourAction>::Ready(
                NetworkBehaviourAction::GenerateEvent(old(self)@[0]),
            ) && final(self)@ == old(self)@.skip(1),
            old(self)@.len() == 0 ==> r == Async::<NetworkBehaviourAction>::NotReady
                && final(self)@ == old(self)@,
    {
        match self.events.pop_front() {
            Some(event) => {
                proof {
                    assert(old(self)@.skip(1) =~= old(self)@.subrange(1, old(self)@.len() as int));
                }
                Async::Ready(NetworkBehaviourAction::GenerateEvent(event))
            },
            None => Async::NotReady,
        }
    }
}

} // verus!
