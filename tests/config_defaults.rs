use secure_chat::bootstrap::{BootstrapAction, BootstrapEvent, Bootstrapper};
use secure_chat::config::{BootstrapServer, ServerConfig};
use secure_chat::config_file::{config_from_values, config_sources, peer_key, ConfigLoadError};

#[test]
fn test_default_config() {
    let config = ServerConfig::default();
    assert!(!config.skip_bootstrap);
    assert_eq!(config.bootstrap_servers.len(), 1);
    assert_eq!(config.bootstrap_servers[0].host, "127.0.0.1");
    assert_eq!(config.bootstrap_servers[0].port, 8080);
}

fn peer(host: &str, port: u16) -> BootstrapServer {
    BootstrapServer { host: host.to_owned(), port, pubkey: "".to_owned() }
}

#[test]
fn bootstrap_skipped_is_ready_alone() {
    let config = ServerConfig { skip_bootstrap: true, bootstrap_servers: vec![peer("127.0.0.1", 8080)] };
    let (b, action) = Bootstrapper::start(&config);
    assert!(b.finished);
    assert_eq!(action, BootstrapAction::Ready { joined: false });
}

#[test]
fn bootstrap_tries_peers_in_turn() {
    let config = ServerConfig {
        skip_bootstrap: false,
        bootstrap_servers: vec![peer("10.0.0.1", 1), peer("10.0.0.2", 2)],
    };
    let (mut b, action) = Bootstrapper::start(&config);
    assert_eq!(action, BootstrapAction::Dial(0));
    assert_eq!(b.step(BootstrapEvent::Failed), BootstrapAction::Dial(1));
    assert_eq!(b.step(BootstrapEvent::Failed), BootstrapAction::Ready { joined: false });
    assert!(b.finished);
}

#[test]
fn bootstrap_stops_at_first_welcome() {
    let config = ServerConfig {
        skip_bootstrap: false,
        bootstrap_servers: vec![peer("10.0.0.1", 1), peer("10.0.0.2", 2)],
    };
    let (mut b, _) = Bootstrapper::start(&config);
    assert_eq!(b.step(BootstrapEvent::Welcomed), BootstrapAction::Ready { joined: true });
}

#[test]
fn config_sources_follow_the_path_given() {
    let given = config_sources(Some("custom.yaml"));
    assert_eq!(given.names, vec!["custom.yaml".to_owned()]);
    assert!(given.required);
    let defaults = config_sources(None);
    assert_eq!(defaults.names, vec!["config.yaml".to_owned(), "config.yml".to_owned()]);
    assert!(!defaults.required);
}

#[test]
fn peer_keys_name_the_indexed_field() {
    assert_eq!(peer_key(3, "host"), "bootstrap_servers[3].host");
    assert_eq!(peer_key(12, "port"), "bootstrap_servers[12].port");
}

#[test]
fn config_is_built_from_values_read() {
    let entries = vec![
        ("192.0.1.2".to_owned(), 12345, "k1".to_owned()),
        ("198.50.100.3".to_owned(), 5432, "k2".to_owned()),
        ("203.0.113.21".to_owned(), 1212, "k3".to_owned()),
    ];
    let config = config_from_values(true, entries).unwrap();
    assert!(config.skip_bootstrap);
    assert_eq!(config.bootstrap_servers.len(), 3);
    assert_eq!(config.bootstrap_servers[0].host, "192.0.1.2");
    assert_eq!(config.bootstrap_servers[0].port, 12345);
    assert_eq!(config.bootstrap_servers[1].host, "198.50.100.3");
    assert_eq!(config.bootstrap_servers[1].port, 5432);
    assert_eq!(config.bootstrap_servers[2].host, "203.0.113.21");
    assert_eq!(config.bootstrap_servers[2].port, 1212);
    assert_eq!(config.bootstrap_servers[2].pubkey, "k3");
}

#[test]
fn first_port_out_of_range_is_named() {
    let entries = vec![
        ("h".to_owned(), 80, "k".to_owned()),
        ("h".to_owned(), 70000, "k".to_owned()),
        ("h".to_owned(), -1, "k".to_owned()),
    ];
    assert_eq!(
        config_from_values(false, entries),
        Err(ConfigLoadError::PortOutOfRange { index: 1, port: 70000 })
    );
    assert!(config_from_values(false, vec![]).unwrap().bootstrap_servers.is_empty());
}

#[test]
fn loaders_name_the_files_to_read() {
    let f = ServerConfig::from_file("/etc/chat.yaml");
    assert_eq!(f.names, vec!["/etc/chat.yaml".to_owned()]);
    assert!(f.required);
    let l = ServerConfig::load();
    assert_eq!(l.names, vec!["config.yaml".to_owned(), "config.yml".to_owned()]);
    assert!(!ServerConfig::load_with_env(None).required);
}
