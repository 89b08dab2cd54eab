//! Network addresses and peer identities.
//!
//! Both are carried through this library as plain byte values: the library
//! never interprets them, it only stores, moves and compares them. The
//! external transport is what parses an address into something dialable.

use vstd::prelude::*;

verus! {

/// A self-describing multi-segment network address, held as its raw byte
/// encoding. Opaque to this library beyond being storable and comparable.
#[derive(Debug, Clone, PartialEq, Eq, Hash)]
pub struct Multiaddr {
    /// The raw encoding of the address.
    pub bytes: Vec<u8>,
}

impl View for Multiaddr {
    type V = Seq<u8>;

    open spec fn view(&self) -> Seq<u8> {
        self.bytes@
    }
}

impl Multiaddr {
    /// Wraps a raw address encoding.
    pub fn new(bytes: Vec<u8>) -> (a: Multiaddr)
        ensures
            a@ == bytes@,
    {
        Multiaddr { bytes }
    }
}

/// The identity of a remote peer, held as its raw byte encoding (a hash of
/// the peer's public key). Opaque to this library.
#[derive(Debug, Clone, PartialEq, Eq, Hash)]
pub struct PeerId {
    /// The raw encoding of the identity.
    pub bytes: Vec<u8>,
}

impl View for PeerId {
    type V = Seq<u8>;

    open spec fn view(&self) -> Seq<u8> {
        self.bytes@
    }
}

impl PeerId {
    /// Wraps a raw peer identity encoding.
    pub fn new(bytes: Vec<u8>) -> (p: PeerId)
        ensures
            p@ == bytes@,
    {
        PeerId { bytes }
    }
}

} // verus!
