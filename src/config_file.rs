//! Which configuration files to read, and the configuration built from the
//! values read in them. Reading the files is left to the caller.
use vstd::prelude::*;

use crate::config::{BootstrapServer, ServerConfig};
use crate::id::{decimal_string, decimal_text};

verus! {

/// Why values read from a configuration do not make one.
#[derive(Clone, Copy, Debug, PartialEq, Eq, Structural)]
pub enum ConfigLoadError {
    /// A bootstrap peer's port does not fit in 16 bits.
    PortOutOfRange { index: usize, port: i64 },
}

/// The files to read, in order (later ones override earlier ones), and
/// whether a missing one is an error.
pub struct ConfigSources {
    pub names: Vec<String>,
    pub required: bool,
}

/// The key path of a field of the bootstrap peer at an index.
pub fn peer_key(index: usize, field: &str) -> (r: String)
    ensures
        r@ == "bootstrap_servers["@ + decimal_text(index as nat) + "]."@ + field@,
{
    let mut k = "bootstrap_servers[".to_owned();
    let digits = decimal_string(index as u64);
    k.append(digits.as_str());
    k.append("].");
    k.append(field);
    k
}

/// The files to read: the one given, which must exist; else `config.yaml`
/// and `config.yml`, each if present.
pub fn config_sources(config_path: Option<&str>) -> (r: ConfigSources)
    ensures
        config_path is Some ==> r.names@.len() == 1 && r.names@[0]@ == config_path->Some_0@ && r.required,
        config_path is None ==> r.names@.len() == 2 && r.names@[0]@ == "config.yaml"@
            && r.names@[1]@ == "config.yml"@ && !r.required,
{
    let mut names: Vec<String> = Vec::new();
    match config_path {
        Some(p) => {
            names.push(p.to_owned());
            ConfigSources { names, required: true }
        },
        None => {
            names.push("config.yaml".to_owned());
            names.push("config.yml".to_owned());
            ConfigSources { names, required: false }
        },
    }
}

/// Whether a port read from a file fits in 16 bits.
pub open spec fn port_in_range(port: i64) -> bool {
    0 <= port <= 65535
}

/// The configuration made of the values read: `skip_bootstrap`, and for
/// each bootstrap peer its host, port and key, in order. The first peer
/// whose port does not fit in 16 bits is refused.
pub fn config_from_values(skip_bootstrap: bool, entries: Vec<(String, i64, String)>) -> (r: Result<
    ServerConfig,
    ConfigLoadError,
>)
    ensures
        r is Ok <==> forall|j: int| 0 <= j < entries@.len() ==> port_in_range(#[trigger] entries@[j].1),
        r is Ok ==> ({
            let c = r->Ok_0;
            &&& c.skip_bootstrap == skip_bootstrap
            &&& c.bootstrap_servers@.len() == entries@.len()
            &&& forall|j: int| 0 <= j < entries@.len() ==> {
                &&& (#[trigger] c.bootstrap_servers@[j]).host == entries@[j].0
                &&& c.bootstrap_servers@[j].port == entries@[j].1
                &&& c.bootstrap_servers@[j].pubkey == entries@[j].2
            }
        }),
        r matches Err(ConfigLoadError::PortOutOfRange { index, port }) ==> {
            &&& index < entries@.len()
            &&& port == entries@[index as int].1
            &&& !port_in_range(port)
            &&& forall|j: int| 0 <= j < index ==> port_in_range(#[trigger] entries@[j].1)
        },
{
    let mut servers: Vec<BootstrapServer> = Vec::new();
    let mut j: usize = 0;
    while j < entries.len()
        invariant
            j <= entries@.len(),
            servers@.len() == j,
            forall|a: int| 0 <= a < j ==> port_in_range(#[trigger] entries@[a].1),
            forall|a: int| 0 <= a < j ==> {
                &&& (#[trigger] servers@[a]).host == entries@[a].0
                &&& servers@[a].port == entries@[a].1
                &&& servers@[a].pubkey == entries@[a].2
            },
        decreases entries@.len() - j,
    {
        let port = entries[j].1;
        if port < 0 || port > 65535 {
            return Err(ConfigLoadError::PortOutOfRange { index: j, port });
        }
        servers.push(BootstrapServer {
            host: entries[j].0.clone(),
            port: port as u16,
            pubkey: entries[j].2.clone(),
        });
        j = j + 1;
    }
    Ok(ServerConfig { skip_bootstrap, bootstrap_servers: servers })
}

impl ServerConfig {
    /// The files from which a configuration at `path` is read: that one,
    /// which must exist.
    pub fn from_file(path: &str) -> (r: ConfigSources)
        ensures
            r.names@.len() == 1 && r.names@[0]@ == path@ && r.required,
    {
        config_sources(Some(path))
    }

    /// The files from which the default configuration is read:
    /// `config.yaml` and `config.yml`, each if present.
    pub fn load() -> (r: ConfigSources)
        ensures
            r.names@.len() == 2 && r.names@[0]@ == "config.yaml"@ && r.names@[1]@ == "config.yml"@
                && !r.required,
    {
        config_sources(None)
    }

    /// The files to read: the one given, else those of `load`.
    pub fn load_with_env(config_path: Option<&str>) -> (r: ConfigSources)
        ensures
            config_path is Some ==> r.names@.len() == 1 && r.names@[0]@ == config_path->Some_0@ && r.required,
            config_path is None ==> r.names@.len() == 2 && r.names@[0]@ == "config.yaml"@
                && r.names@[1]@ == "config.yml"@ && !r.required,
    {
        config_sources(config_path)
    }
}

} // verus!
