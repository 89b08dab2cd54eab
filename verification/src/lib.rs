//! Connection multiplexing and protocol orchestration for a peer-to-peer
//! networking stack.
//!
//! One physical connection to a remote peer is split into many independent
//! logical substreams by a multiplexer ([`yamux::Yamux`]); a negotiated
//! upgrade ([`yamux::Config`]) turns a raw connection into such a
//! multiplexer; a per-connection protocol handler
//! ([`identify::PeriodicIdentification`]) and a per-peer behaviour
//! ([`behaviour::PeriodicIdentifyBehaviour`]) drive the periodic
//! identification protocol over those substreams.
//!
//! Everything is poll-driven: no operation blocks, and every suspendable
//! operation returns not-ready / ready / ended / failed explicitly
//! (see [`muxing::MuxPoll`] and [`muxing::Async`]). The byte-level framing
//! engine, timers and sockets are external; they communicate with this
//! library through plain values (events in, bytes and actions out).

pub mod addr;
pub mod behaviour;
pub mod identify;
pub mod muxing;
pub mod yamux;
