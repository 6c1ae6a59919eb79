//! What a socket is known to be, from the envelopes that came over it.
use vstd::prelude::*;

use crate::messages::PayloadType;

verus! {

/// The kind of party at the other end of a socket.
#[derive(Clone, Copy, Debug, PartialEq, Eq, Structural)]
pub enum ConnectionType {
    /// Nothing has been received yet.
    Unknown,
    /// A user's client; it said hello.
    Client,
    /// A peer server; it spoke the peer protocol.
    Server,
}

/// Whether a payload type belongs to the protocol between servers.
pub open spec fn is_peer_protocol(kind: PayloadType) -> bool {
    kind is ServerHelloJoin || kind is ServerWelcome || kind is ServerAnnounce || kind is UserAdvertise
        || kind is UserRemove || kind is ServerDeliver || kind is Heartbeat
}

impl ConnectionType {
    /// The kind of a socket after an envelope: an unknown socket becomes a
    /// client on a user's hello and a server on a peer-protocol envelope;
    /// a known socket stays what it is.
    pub fn after_envelope(self, kind: &PayloadType) -> (r: ConnectionType)
        ensures
            self != ConnectionType::Unknown ==> r == self,
            self == ConnectionType::Unknown && *kind is UserHello ==> r == ConnectionType::Client,
            self == ConnectionType::Unknown && is_peer_protocol(*kind) ==> r == ConnectionType::Server,
            self == ConnectionType::Unknown && !(*kind is UserHello) && !is_peer_protocol(*kind)
                ==> r == ConnectionType::Unknown,
    {
        match self {
            ConnectionType::Unknown => match kind {
                PayloadType::UserHello => ConnectionType::Client,
                PayloadType::ServerHelloJoin | PayloadType::ServerWelcome | PayloadType::ServerAnnounce
                | PayloadType::UserAdvertise | PayloadType::UserRemove | PayloadType::ServerDeliver
                | PayloadType::Heartbeat => ConnectionType::Server,
                _ => ConnectionType::Unknown,
            },
            known => known,
        }
    }
}

} // verus!
