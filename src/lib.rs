//! A node of a federated, end-to-end encrypted chat network.
//!
//! The node hosts users, knows its peer servers and where every known user
//! lives, routes direct messages to local mailboxes or to the recipient's
//! home server, keeps the public channel, and drops users whose heartbeats
//! stop. Message bodies are ciphertext it never reads.
//!
//! - `id`, `messages`, `payloads`: identifiers, the envelope, its payloads.
//! - `table`: id-keyed tables, viewed as maps.
//! - `state`: the node's tables, user presence and the liveness sweep.
//! - `federation`: joining, welcomes, announcements, user gossip.
//! - `routing`: direct messages, file events and mailboxes.
//! - `channel`: the public channel and its bounded logs.
//! - `bootstrap`: the dialler that joins the network.
//! - `config`, `config_file`: the configuration, which files hold it, and
//!   the configuration built from the values read in them.
//! - `log_level`, `transport`: logging levels and socket kinds.
use vstd::prelude::*;

pub mod id;
pub mod messages;
pub mod payloads;
pub mod table;
pub mod errors;
pub mod config;
pub mod config_file;
pub mod state;
pub mod channel;
pub mod federation;
pub mod routing;
pub mod bootstrap;
pub mod log_level;
pub mod transport;

verus! {

/// The answer to a greeting.
#[derive(Clone, Debug, PartialEq, Eq)]
pub struct GreetResponse {
    pub message: String,
}

/// Greets a client by name.
pub fn greet(name: &str) -> (r: GreetResponse)
    ensures
        r.message@ == "Hello, "@ + name@ + "! You've been greeted from the Rust backend!"@,
{
    let mut message = "Hello, ".to_owned();
    message.append(name);
    message.append("! You've been greeted from the Rust backend!");
    GreetResponse { message }
}

} // verus!
