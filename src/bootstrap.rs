//! Joining the network: the decisions of the dialler that tries the
//! configured bootstrap peers in turn, and the payloads it sends.
use vstd::prelude::*;

use crate::config::{BootstrapServer, ServerConfig};
use crate::id::{decimal_text, Identifier, IdentifierView};
use crate::payloads::{ServerAnnouncePayload, ServerHelloJoinPayload};
use crate::state::AppState;

verus! {

/// What the dialler asks to be done next.
#[derive(Clone, Copy, Debug, PartialEq, Eq, Structural)]
pub enum BootstrapAction {
    /// Connect to the bootstrap peer at this index, send a hello, and wait
    /// for a welcome (at most ten seconds).
    Dial(usize),
    /// Stop dialling; `joined` tells whether a welcome was processed.
    Ready { joined: bool },
}

/// What came of the last dial.
#[derive(Clone, Copy, Debug, PartialEq, Eq, Structural)]
pub enum BootstrapEvent {
    /// A welcome arrived and was installed.
    Welcomed,
    /// The connection, the send, the wait or the welcome failed.
    Failed,
}

/// The dialler's state: how many peers there are, which one is being tried.
#[derive(Clone, Copy, Debug, PartialEq, Eq, Structural)]
pub struct Bootstrapper {
    pub candidates: usize,
    pub current: usize,
    pub finished: bool,
}

impl Bootstrapper {
    /// Starts joining: with bootstrapping switched off, or no peer
    /// configured, the node is ready at once and alone; else the first peer
    /// is dialled.
    pub fn start(config: &ServerConfig) -> (r: (Bootstrapper, BootstrapAction))
        ensures
            r.0.candidates == config.bootstrap_servers@.len(),
            config.skip_bootstrap || config.bootstrap_servers@.len() == 0 ==> r.0.finished
                && r.1 == (BootstrapAction::Ready { joined: false }),
            !(config.skip_bootstrap || config.bootstrap_servers@.len() == 0) ==> !r.0.finished
                && r.0.current == 0 && r.1 == BootstrapAction::Dial(0),
    {
        let n = config.bootstrap_servers.len();
        if config.skip_bootstrap || n == 0 {
            (Bootstrapper { candidates: n, current: 0, finished: true }, BootstrapAction::Ready { joined: false })
        } else {
            (Bootstrapper { candidates: n, current: 0, finished: false }, BootstrapAction::Dial(0))
        }
    }

    /// The dialler's decision after a dial: done on a welcome; else the next
    /// peer, until none is left, when the node is ready alone.
    pub fn step(&mut self, event: BootstrapEvent) -> (r: BootstrapAction)
        requires
            !old(self).finished,
            old(self).current < old(self).candidates,
        ensures
            final(self).candidates == old(self).candidates,
            event == BootstrapEvent::Welcomed ==> final(self).finished
                && r == (BootstrapAction::Ready { joined: true }),
            event == BootstrapEvent::Failed && old(self).current + 1 < old(self).candidates
                ==> !final(self).finished && final(self).current == old(self).current + 1
                && r == BootstrapAction::Dial((old(self).current + 1) as usize),
            event == BootstrapEvent::Failed && old(self).current + 1 >= old(self).candidates
                ==> final(self).finished && r == (BootstrapAction::Ready { joined: false }),
            !final(self).finished ==> final(self).current < final(self).candidates,
    {
        match event {
            BootstrapEvent::Welcomed => {
                self.finished = true;
                BootstrapAction::Ready { joined: true }
            },
            BootstrapEvent::Failed => {
                if self.current + 1 < self.candidates {
                    self.current = self.current + 1;
                    BootstrapAction::Dial(self.current)
                } else {
                    self.finished = true;
                    BootstrapAction::Ready { joined: false }
                }
            },
        }
    }
}

/// The identifier a hello is addressed to before the peer's id is known.
pub fn bootstrap_target(peer: &BootstrapServer) -> (r: Identifier)
    ensures
        r@ == IdentifierView::Bootstrap(peer.host@ + seq![':'] + decimal_text(peer.port as nat)),
{
    Identifier::bootstrap(peer.host.as_str(), peer.port)
}

impl AppState {
    /// The hello with which this node asks to join: where it listens, and its key.
    pub fn hello_join_payload(&self, host: &str, port: u16) -> (r: ServerHelloJoinPayload)
        ensures
            r.host@ == host@,
            r.port == port,
            r.pubkey == self.server_pubkey,
    {
        ServerHelloJoinPayload { host: host.to_owned(), port, pubkey: self.server_pubkey.clone() }
    }

    /// The announcement this node sends to its peers once it has joined.
    pub fn announce_payload(&self, host: &str, port: u16) -> (r: ServerAnnouncePayload)
        ensures
            r.host@ == host@,
            r.port == port,
            r.pubkey == self.server_pubkey,
    {
        ServerAnnouncePayload { host: host.to_owned(), port, pubkey: self.server_pubkey.clone() }
    }
}

} // verus!
