//! The periodic-identification protocol handler: the per-connection state
//! machine of the identify protocol family.
//!
//! A handler is bound to one connection and knows nothing beyond it. The
//! parts of the protocol that touch the outside world — the periodic timer,
//! and running the identify exchange over a substream — are driven by the
//! embedding, which reports their outcomes through the `on_*` methods;
//! the handler decides, through [`PeriodicIdentification::poll`], what its
//! owner should do next: emit a protocol event, open an outbound substream
//! for the next identification round, or nothing yet.

use std::collections::VecDeque;
use vstd::prelude::*;

use crate::addr::Multiaddr;
use crate::muxing::Async;

verus! {

/// What a peer reports about itself when identified.
#[derive(Debug, Clone, PartialEq, Eq)]
pub struct IdentifyInfo {
    /// The peer's public key, in its raw encoding.
    pub public_key: Vec<u8>,
    /// The version of the protocol family the peer speaks.
    pub protocol_version: String,
    /// The name and version of the peer's software.
    pub agent_version: String,
    /// The addresses the peer listens on.
    pub listen_addrs: Vec<Multiaddr>,
    /// The protocols the peer supports.
    pub protocols: Vec<String>,
}

/// The outcome of one successful identification of the remote peer.
#[derive(Debug, Clone, PartialEq, Eq)]
pub struct RemoteInfo {
    /// What the peer reported about itself.
    pub info: IdentifyInfo,
    /// The address the peer observes us as.
    pub observed_addr: Multiaddr,
}

/// A protocol-level event emitted by the handler. Errors are ordinary
/// events, not aborts: the owner decides what to do about them.
#[derive(Debug, Clone, PartialEq, Eq)]
pub enum PeriodicIdentificationEvent {
    /// The remote peer was identified.
    Identified(RemoteInfo),
    /// An identification attempt failed with the given code.
    IdentificationError(u64),
}

/// What the handler asks of its owner when polled.
#[derive(Debug, Clone, PartialEq, Eq)]
pub enum ProtocolsHandlerEvent {
    /// Surface this protocol event.
    Custom(PeriodicIdentificationEvent),
    /// Open a new outbound substream, upgraded to the identify protocol,
    /// and run the next identification round over it.
    OutboundSubstreamRequest,
}

/// The handler as contracts see it: the protocol events it has produced
/// but not yet emitted, oldest first, and whether it wants an outbound
/// substream for the next identification round.
#[verifier::ext_equal]
pub ghost struct HandlerView {
    /// Protocol events awaiting emission, oldest first.
    pub events: Seq<PeriodicIdentificationEvent>,
    /// Whether an identification round is due.
    pub outbound_wanted: bool,
}

/// The per-connection state machine of periodic identification.
#[derive(Debug)]
pub struct PeriodicIdentification {
    events: VecDeque<PeriodicIdentificationEvent>,
    outbound_wanted: bool,
}

impl View for PeriodicIdentification {
    type V = HandlerView;

    closed spec fn view(&self) -> HandlerView {
        HandlerView { events: self.events@, outbound_wanted: self.outbound_wanted }
    }
}

impl PeriodicIdentification {
    /// A fresh handler: nothing to emit, no round due until the first
    /// timer tick.
    pub fn new() -> (h: PeriodicIdentification)
        ensures
            h@ == (HandlerView { events: Seq::empty(), outbound_wanted: false }),
    {
        PeriodicIdentification { events: VecDeque::new(), outbound_wanted: false }
    }

    /// The periodic timer fired: an identification round is due. The timer
    /// itself lives in the embedding; firing twice before the round starts
    /// still means one round.
    pub fn tick(&mut self)
        ensures
            final(self)@ == (HandlerView { outbound_wanted: true, ..old(self)@ }),
    {
        self.outbound_wanted = true;
    }

    /// An identification round completed: the peer reported this about
    /// itself. Queues the corresponding event, behind whatever is already
    /// queued.
    pub fn on_identified(&mut self, remote: RemoteInfo)
        ensures
            final(self)@ == (HandlerView {
                events: old(self)@.events.push(PeriodicIdentificationEvent::Identified(remote)),
                ..old(self)@
            }),
    {
        self.events.push_back(PeriodicIdentificationEvent::Identified(remote));
    }

    /// An identification round failed with the given code. Queues the
    /// corresponding event, behind whatever is already queued.
    pub fn on_identification_error(&mut self, code: u64)
        ensures
            final(self)@ == (HandlerView {
                events: old(self)@.events.push(
                    PeriodicIdentificationEvent::IdentificationError(code),
                ),
                ..old(self)@
            }),
    {
        self.events.push_back(PeriodicIdentificationEvent::IdentificationError(code));
    }

    /// One non-blocking poll of the handler. Queued protocol events come
    /// out first, oldest first; then a due identification round asks for
    /// an outbound substream, once per round; with neither, there is
    /// nothing to report. Never blocks, and safe to call repeatedly.
    pub fn poll(&mut self) -> (r: Async<ProtocolsHandlerEvent>)
        ensures
            old(self)@.events.len() > 0 ==> r == Async::<ProtocolsHandlerEvent>::Ready(
                ProtocolsHandlerEvent::Custom(old(self)@.events[0]),
            ) && final(self)@ == (HandlerView { events: old(self)@.events.skip(1), ..old(self)@ }),
            old(self)@.events.len() == 0 && old(self)@.outbound_wanted ==> r == Async::<
                ProtocolsHandlerEvent,
            >::Ready(ProtocolsHandlerEvent::OutboundSubstreamRequest) && final(self)@
                == (HandlerView { outbound_wanted: false, ..old(self)@ }),
            old(self)@.events.len() == 0 && !old(self)@.outbound_wanted ==> r == Async::<
                ProtocolsHandlerEvent,
            >::NotReady && final(self)@ == old(self)@,
    {
        match self.events.pop_front() {
            Some(ev) => {
                proof {
                    assert(old(self)@.events.skip(1) =~= old(self)@.events.subrange(
                        1,
                        old(self)@.events.len() as int,
                    ));
                }
                Async::Ready(ProtocolsHandlerEvent::Custom(ev))
            },
            None => {
                if self.outbound_wanted {
                    self.outbound_wanted = false;
                    Async::Ready(ProtocolsHandlerEvent::OutboundSubstreamRequest)
                } else {
                    Async::NotReady
                }
            },
        }
    }
}

} // verus!
