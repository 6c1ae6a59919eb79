//! The server's configuration: whether to bootstrap, and from which peers.
use vstd::prelude::*;

verus! {

/// A peer to contact when joining the network.
#[derive(Clone, Debug, PartialEq, Eq)]
pub struct BootstrapServer {
    pub host: String,
    pub port: u16,
    pub pubkey: String,
}

/// The server's configuration.
#[derive(Clone, Debug, PartialEq, Eq)]
pub struct ServerConfig {
    pub skip_bootstrap: bool,
    pub bootstrap_servers: Vec<BootstrapServer>,
}

impl ServerConfig {
    /// The configuration used when no file gives one: bootstrap from
    /// `127.0.0.1:8080`, whose key is not known.
    pub fn default() -> (r: ServerConfig)
        ensures
            !r.skip_bootstrap,
            r.bootstrap_servers@.len() == 1,
            r.bootstrap_servers@[0].host@ == "127.0.0.1"@,
            r.bootstrap_servers@[0].port == 8080,
            r.bootstrap_servers@[0].pubkey@ == Seq::<char>::empty(),
    {
        let mut servers: Vec<BootstrapServer> = Vec::new();
        servers.push(BootstrapServer { host: "127.0.0.1".to_owned(), port: 8080, pubkey: String::new() });
        ServerConfig { skip_bootstrap: false, bootstrap_servers: servers }
    }
}

} // verus!
