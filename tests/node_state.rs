use secure_chat::config::{BootstrapServer, ServerConfig};
use secure_chat::errors::ClientError;
use secure_chat::id::{Id, Identifier};
use secure_chat::messages::{message_from_payload, Message, PayloadType};
use secure_chat::payloads::{
    ClientInfo, MetaField, PublicChannelAddPayload, PublicChannelMessageHttpRequest,
    ServerAnnouncePayload, ServerDeliverPayload, ServerHelloJoinPayload, ServerInfo,
    ServerWelcomePayload, UserAdvertisePayload, UserHelloHttpPayload, UserMetadata,
    UserRemovePayload,
};
use secure_chat::routing::{server_deliver_payload, user_deliver_from_forward, DirectRoute};
use secure_chat::state::{AppState, Home};

fn node() -> AppState {
    AppState::new(Id::new(), "server-pubkey".to_owned(), ServerConfig::default())
}

fn hello(user: &Id, name: Option<&str>) -> UserHelloHttpPayload {
    UserHelloHttpPayload {
        user_id: user.to_string(),
        client: "cli-v1".to_owned(),
        pubkey: format!("pub-{}", user.to_string()),
        enc_pubkey: "enc".to_owned(),
        meta: Some(MetaField { display_name: name.map(|n| n.to_owned()) }),
    }
}

fn envelope(kind: PayloadType, from: Identifier, to: Identifier, ts: i64) -> Message {
    message_from_payload(kind, from, to, ts, serde_json::Value::Null, "".to_owned())
}

fn text(s: &str) -> serde_json::Value {
    serde_json::Value::String(s.to_owned())
}

#[test]
fn local_direct_message_is_queued_and_drained() {
    let mut a = node();
    let u1 = Id::new();
    let u2 = Id::new();
    a.user_hello(&hello(&u1, Some("alice")), 1000).unwrap();
    a.user_hello(&hello(&u2, Some("bob")), 1000).unwrap();
    let msg = envelope(PayloadType::MsgDirect, Identifier::Id(u1), Identifier::Id(u2), 1234);
    let route = a.direct_message(&msg, text("ciphertext"), "sig".to_owned()).unwrap();
    assert_eq!(route, DirectRoute::Delivered);
    let polled = a.poll_direct_messages(&u2.to_string()).unwrap();
    assert_eq!(polled.len(), 1);
    assert_eq!(polled[0].payload_type, PayloadType::UserDeliver);
    assert_eq!(polled[0].from, Identifier::Id(a.server_id));
    assert_eq!(polled[0].to, Identifier::Id(u2));
    assert_eq!(polled[0].payload, text("ciphertext"));
    assert_eq!(polled[0].ts, 1234);
    assert!(a.poll_direct_messages(&u2.to_string()).unwrap().is_empty());
}

#[test]
fn mailbox_drains_in_routing_order() {
    let mut a = node();
    let u = Id::new();
    let s = Id::new();
    a.user_hello(&hello(&u, None), 0).unwrap();
    for k in 0..5 {
        let msg = envelope(PayloadType::MsgDirect, Identifier::Id(s), Identifier::Id(u), k);
        a.direct_message(&msg, text(&format!("m{}", k)), "".to_owned()).unwrap();
    }
    let polled = a.poll_direct_messages(&u.to_string()).unwrap();
    assert_eq!(polled.len(), 5);
    for (k, m) in polled.iter().enumerate() {
        assert_eq!(m.ts, k as i64);
        assert_eq!(m.payload, text(&format!("m{}", k)));
    }
    assert!(a.poll_direct_messages(&u.to_string()).unwrap().is_empty());
}

#[test]
fn direct_message_to_remote_user_is_forwarded() {
    let mut a = node();
    let peer = Id::new();
    let remote_user = Id::new();
    let announce = envelope(PayloadType::ServerAnnounce, Identifier::Id(peer), Identifier::Broadcast, 0);
    let payload = ServerAnnouncePayload { host: "10.0.0.2".to_owned(), port: 9000, pubkey: "k".to_owned() };
    a.server_announce(&announce, &payload).unwrap();
    let adv = envelope(PayloadType::UserAdvertise, Identifier::Id(peer), Identifier::Broadcast, 0);
    let adv_payload = UserAdvertisePayload {
        user_id: remote_user.to_string(),
        server_id: peer.to_string(),
        meta: UserMetadata { display_name: None, pronouns: None, age: None, avatar_url: None },
        pubkey: Some("remote-key".to_owned()),
    };
    a.user_advertise(&adv, &adv_payload).unwrap();
    let msg = envelope(PayloadType::MsgDirect, Identifier::Id(Id::new()), Identifier::Id(remote_user), 5);
    assert_eq!(a.direct_message(&msg, text("c"), "".to_owned()).unwrap(), DirectRoute::Forward(peer));
}

#[test]
fn direct_message_to_unknown_user_is_dropped() {
    let mut a = node();
    let msg = envelope(PayloadType::MsgDirect, Identifier::Id(Id::new()), Identifier::Id(Id::new()), 5);
    assert!(matches!(
        a.direct_message(&msg, text("c"), "".to_owned()),
        Err(ClientError::UserNotFound(_))
    ));
}

#[test]
fn heartbeat_envelope_on_direct_message_is_refused() {
    let mut a = node();
    let msg = envelope(PayloadType::Heartbeat, Identifier::Id(Id::new()), Identifier::Id(Id::new()), 5);
    match a.direct_message(&msg, text("c"), "".to_owned()) {
        Err(ClientError::InvalidPayloadType { expected, actual }) => {
            assert_eq!(expected, "MsgDirect");
            assert_eq!(actual, "Heartbeat");
        },
        other => panic!("unexpected {:?}", other),
    }
}

#[test]
fn heartbeat_of_unknown_user_is_not_found() {
    let mut a = node();
    assert_eq!(a.heartbeat(&Id::new().to_string(), 10), "not found");
    assert_eq!(a.heartbeat("nonsense", 10), "invalid id");
    let u = Id::new();
    a.user_hello(&hello(&u, None), 0).unwrap();
    assert_eq!(a.heartbeat(&u.to_string(), 10), "ok");
    assert_eq!(a.local_users.get(u.0).unwrap().last_heartbeat, 10);
}

#[test]
fn sweep_drops_stale_users_only() {
    let mut a = node();
    let stale = Id::new();
    let fresh = Id::new();
    a.user_hello(&hello(&stale, Some("old")), 0).unwrap();
    a.user_hello(&hello(&fresh, Some("new")), 40_000).unwrap();
    let removed = a.sweep_stale_users(45_000);
    assert!(removed.is_empty());
    let removed = a.sweep_stale_users(45_001);
    assert_eq!(removed, vec![stale]);
    assert!(!a.local_users.contains(stale.0));
    assert!(!a.user_locations.contains(stale.0));
    assert!(a.local_users.contains(fresh.0));
    let listed = a.list_users();
    assert_eq!(listed.users.len(), 1);
    assert_eq!(listed.users[0].display_name, "new");
    let gossip = a.remove_payload(stale);
    assert_eq!(gossip.user_id, stale.to_string());
    assert_eq!(gossip.server_id, a.server_id.to_string());
}

#[test]
fn user_remove_twice_equals_once() {
    let mut a = node();
    let peer = Id::new();
    let user = Id::new();
    let adv = envelope(PayloadType::UserAdvertise, Identifier::Id(peer), Identifier::Broadcast, 0);
    let adv_payload = UserAdvertisePayload {
        user_id: user.to_string(),
        server_id: peer.to_string(),
        meta: UserMetadata { display_name: None, pronouns: None, age: None, avatar_url: None },
        pubkey: Some("remote-key".to_owned()),
    };
    a.user_advertise(&adv, &adv_payload).unwrap();
    let rm = envelope(PayloadType::UserRemove, Identifier::Id(peer), Identifier::Broadcast, 0);
    let rm_payload = UserRemovePayload { user_id: user.to_string(), server_id: peer.to_string() };
    a.user_remove(&rm, &rm_payload).unwrap();
    let once: Vec<(u128, Home)> = a.user_locations.entries.clone();
    a.user_remove(&rm, &rm_payload).unwrap();
    assert_eq!(a.user_locations.entries, once);
    assert!(!a.user_locations.contains(user.0));
}

#[test]
fn user_remove_keeps_user_that_moved() {
    let mut a = node();
    let old_home = Id::new();
    let new_home = Id::new();
    let user = Id::new();
    let adv = envelope(PayloadType::UserAdvertise, Identifier::Id(new_home), Identifier::Broadcast, 0);
    let adv_payload = UserAdvertisePayload {
        user_id: user.to_string(),
        server_id: new_home.to_string(),
        meta: UserMetadata { display_name: None, pronouns: None, age: None, avatar_url: None },
        pubkey: Some("remote-key".to_owned()),
    };
    a.user_advertise(&adv, &adv_payload).unwrap();
    let rm = envelope(PayloadType::UserRemove, Identifier::Id(old_home), Identifier::Broadcast, 0);
    let rm_payload = UserRemovePayload { user_id: user.to_string(), server_id: old_home.to_string() };
    a.user_remove(&rm, &rm_payload).unwrap();
    assert_eq!(a.user_locations.get(user.0), Some(&Home::Server(new_home)));
}

#[test]
fn list_users_one_user() {
    let mut a = node();
    a.user_hello(&hello(&Id::new(), Some("alice")), 0).unwrap();
    let users: Vec<String> = a.list_users().users.into_iter().map(|u| u.display_name).collect();
    assert_eq!(users.len(), 1);
    assert!(users.contains(&"alice".to_owned()));
}

#[test]
fn list_users_five_users() {
    let mut a = node();
    let names = ["alice", "bob", "carol", "dave", "eve"];
    for name in &names {
        a.user_hello(&hello(&Id::new(), Some(name)), 0).unwrap();
    }
    let users: Vec<String> = a.list_users().users.into_iter().map(|u| u.display_name).collect();
    assert_eq!(users.len(), 5);
    for name in &names {
        assert!(users.contains(&name.to_string()));
    }
}

#[test]
fn display_name_falls_back_to_id() {
    let mut a = node();
    let u = Id::new();
    a.user_hello(&hello(&u, None), 0).unwrap();
    assert_eq!(a.list_users().users[0].display_name, u.to_string());
    assert!(a.user_hello(&UserHelloHttpPayload { user_id: "bad".to_owned(), ..hello(&u, None) }, 0).is_err());
    assert_eq!(a.get_user_pubkey(&u.to_string()), Some(format!("pub-{}", u.to_string())));
    assert_eq!(a.get_user_pubkey(&Id::new().to_string()), None);
}

fn welcome_message(from: Id, to: Id) -> Message {
    envelope(PayloadType::ServerWelcome, Identifier::Id(from), Identifier::Id(to), 1_700_000_000_500)
}

fn welcome_payload(assigned: &Id, server: &Id, user: &Id) -> ServerWelcomePayload {
    ServerWelcomePayload {
        assigned_id: assigned.to_string(),
        servers: vec![ServerInfo {
            server_id: server.to_string(),
            host: "example.com".to_owned(),
            port: 8080,
            pubkey: "server_pubkey_123".to_owned(),
        }],
        clients: vec![ClientInfo {
            user_id: user.to_string(),
            pubkey: "user_pubkey_456".to_owned(),
            server_id: server.to_string(),
        }],
    }
}

fn introducer() -> BootstrapServer {
    BootstrapServer { host: "127.0.0.1".to_owned(), port: 8080, pubkey: "intro-key".to_owned() }
}

#[test]
fn test_invalid_payload_type_validation() {
    let mut a = node();
    let mut msg = welcome_message(Id::new(), a.server_id);
    msg.payload_type = PayloadType::UserHello;
    let payload = welcome_payload(&a.server_id, &Id::new(), &Id::new());
    let result = a.server_welcome(&msg, &payload, &introducer());
    assert!(matches!(result, Err(ClientError::InvalidPayloadType { .. })));
    assert!(!a.bootstrapped);
}

#[test]
fn test_server_welcome_state_processing() {
    let mut a = node();
    let intro = Id::new();
    let other_server = Id::new();
    let user = Id::new();
    let payload = welcome_payload(&Id::new(), &other_server, &user);
    let peers = a.server_welcome(&welcome_message(intro, a.server_id), &payload, &introducer()).unwrap();
    assert!(a.servers.contains(other_server.0));
    assert_eq!(a.servers.get(other_server.0).unwrap().pubkey, "server_pubkey_123");
    assert!(a.servers.contains(intro.0));
    assert_eq!(a.servers.get(intro.0).unwrap().pubkey, "intro-key");
    assert_eq!(a.user_locations.get(user.0), Some(&Home::Server(other_server)));
    assert_eq!(a.user_pubkeys.get(user.0).map(|k| k.as_str()), Some("user_pubkey_456"));
    assert!(a.bootstrapped);
    assert_eq!(peers.len(), 2);
}

#[test]
fn test_same_server_id_assignment() {
    let mut a = node();
    let own_id = a.server_id;
    let payload = ServerWelcomePayload { assigned_id: own_id.to_string(), servers: vec![], clients: vec![] };
    a.server_welcome(&welcome_message(Id::new(), own_id), &payload, &introducer()).unwrap();
    assert_eq!(a.server_id, own_id);
}

#[test]
fn test_invalid_server_id_handling() {
    let mut a = node();
    let payload = ServerWelcomePayload { assigned_id: "invalid-uuid-format".to_owned(), servers: vec![], clients: vec![] };
    let r = a.server_welcome(&welcome_message(Id::new(), a.server_id), &payload, &introducer());
    assert!(matches!(r, Err(ClientError::PayloadExtraction(_))));
    assert!(!a.bootstrapped);
}

#[test]
fn hello_join_records_peer_and_composes_welcome() {
    let mut a = node();
    let existing = Id::new();
    let announce = envelope(PayloadType::ServerAnnounce, Identifier::Id(existing), Identifier::Broadcast, 0);
    a.server_announce(&announce, &ServerAnnouncePayload { host: "h1".to_owned(), port: 1, pubkey: "k1".to_owned() }).unwrap();
    let u = Id::new();
    a.user_hello(&hello(&u, None), 0).unwrap();
    let joiner = Id::new();
    let msg = envelope(PayloadType::ServerHelloJoin, Identifier::Id(joiner), Identifier::Bootstrap("127.0.0.1:8080".to_owned()), 0);
    let join = ServerHelloJoinPayload { host: "127.0.0.1".to_owned(), port: 8081, pubkey: "jk".to_owned() };
    let welcome = a.server_hello_join(&msg, &join).unwrap();
    assert_eq!(welcome.assigned_id, joiner.to_string());
    assert_eq!(welcome.servers.len(), 1);
    assert_eq!(welcome.servers[0].server_id, existing.to_string());
    assert_eq!(welcome.clients.len(), 1);
    assert_eq!(welcome.clients[0].user_id, u.to_string());
    assert_eq!(welcome.clients[0].server_id, a.server_id.to_string());
    assert_eq!(a.servers.get(joiner.0).unwrap().port, 8081);
}

#[test]
fn announce_from_self_changes_nothing() {
    let mut a = node();
    let me = a.server_id;
    let msg = envelope(PayloadType::ServerAnnounce, Identifier::Id(me), Identifier::Broadcast, 0);
    a.server_announce(&msg, &ServerAnnouncePayload { host: "h".to_owned(), port: 1, pubkey: "k".to_owned() }).unwrap();
    assert_eq!(a.servers.len(), 0);
}

#[test]
fn server_deliver_queues_for_local_user() {
    let mut a = node();
    let u = Id::new();
    a.user_hello(&hello(&u, None), 0).unwrap();
    let msg = envelope(PayloadType::ServerDeliver, Identifier::Id(Id::new()), Identifier::Id(a.server_id), 9);
    let payload = ServerDeliverPayload {
        user_id: u.to_string(),
        ciphertext: "c".to_owned(),
        sender: "Bob".to_owned(),
        sender_pub: "p".to_owned(),
        content_sig: "s".to_owned(),
    };
    a.server_deliver(&msg, &payload, text("c"), "".to_owned()).unwrap();
    let polled = a.poll_direct_messages(&u.to_string()).unwrap();
    assert_eq!(polled.len(), 1);
    assert_eq!(polled[0].payload_type, PayloadType::UserDeliver);
    let missing = ServerDeliverPayload { user_id: Id::new().to_string(), ..payload };
    assert!(matches!(a.server_deliver(&msg, &missing, text("c"), "".to_owned()), Err(ClientError::UserNotFound(_))));
}

#[test]
fn file_events_are_queued_verbatim() {
    let mut a = node();
    let u = Id::new();
    let start = envelope(PayloadType::FileStart, Identifier::Id(Id::new()), Identifier::Id(u), 1);
    let chunk = envelope(PayloadType::FileChunk, Identifier::Id(Id::new()), Identifier::Id(u), 2);
    a.file_event(start).unwrap();
    a.file_event(chunk).unwrap();
    let events = a.poll_file_events(&u.to_string());
    assert_eq!(events.len(), 2);
    assert_eq!(events[0].payload_type, PayloadType::FileStart);
    assert_eq!(events[1].payload_type, PayloadType::FileChunk);
    assert!(a.poll_file_events("nope").is_empty());
    let wrong = envelope(PayloadType::Ack, Identifier::Id(Id::new()), Identifier::Id(u), 3);
    assert!(a.file_event(wrong).is_err());
}

#[test]
fn public_channel_polling_since() {
    let mut a = node();
    let creator = Id::new();
    let add = envelope(PayloadType::PublicChannelAdd, Identifier::Id(creator), Identifier::Broadcast, 0);
    let payload = PublicChannelAddPayload {
        channel_id: "channel-uuid-3333".to_owned(),
        name: "Public Chat".to_owned(),
        description: Some("A place for everyone".to_owned()),
        creator: creator.to_string(),
        created_at: 5678,
    };
    a.public_channel_add(&add, &payload).unwrap();
    assert_eq!(a.public_channel.version, 1);
    assert!(a.public_channel.members.contains(creator.0));
    let post = |content: &str| PublicChannelMessageHttpRequest {
        channel_id: "channel-uuid-3333".to_owned(),
        from: creator.to_string(),
        content: content.to_owned(),
    };
    a.public_channel_message(&post("first"), 10);
    a.public_channel_message(&post("second"), 20);
    let polled = a.poll_public_channel_messages(15, None);
    assert_eq!(polled.len(), 1);
    assert_eq!(polled[0].content, "second");
    assert!(a.poll_public_channel_messages(0, Some(&creator.to_string())).is_empty());
}

#[test]
fn public_channel_log_keeps_last_hundred() {
    let mut a = node();
    for k in 0..150 {
        let req = PublicChannelMessageHttpRequest {
            channel_id: "c".to_owned(),
            from: "f".to_owned(),
            content: format!("m{}", k),
        };
        a.public_channel_message(&req, k);
    }
    assert_eq!(a.public_channel.messages.len(), 100);
    assert_eq!(a.public_channel.messages[0].content, "m50");
    for k in 0..120 {
        a.public_channel_file_event(envelope(PayloadType::FileChunk, Identifier::Broadcast, Identifier::Broadcast, k));
    }
    assert_eq!(a.public_channel.file_events.len(), 100);
    assert_eq!(a.poll_public_channel_file_events(110).len(), 9);
}

#[test]
fn server_heartbeat_requires_known_peer() {
    let mut a = node();
    let peer = Id::new();
    let hb = envelope(PayloadType::Heartbeat, Identifier::Id(peer), Identifier::Id(a.server_id), 0);
    assert!(a.server_heartbeat(&hb, 77).is_err());
    let announce = envelope(PayloadType::ServerAnnounce, Identifier::Id(peer), Identifier::Broadcast, 0);
    a.server_announce(&announce, &ServerAnnouncePayload { host: "h".to_owned(), port: 1, pubkey: "k".to_owned() }).unwrap();
    let resp = a.server_heartbeat(&hb, 77).unwrap();
    assert_eq!(resp.status, "alive");
    assert_eq!(resp.timestamp, 77);
    assert_eq!(a.peer_last_seen.get(peer.0), Some(&77));
}

#[test]
fn bootstrap_and_announce_between_two_nodes() {
    let mut a = AppState::new(Id::new(), "a-key".to_owned(), ServerConfig { skip_bootstrap: true, bootstrap_servers: vec![] });
    let b_config = ServerConfig {
        skip_bootstrap: false,
        bootstrap_servers: vec![BootstrapServer { host: "127.0.0.1".to_owned(), port: 8080, pubkey: "a-key".to_owned() }],
    };
    let mut b = AppState::new(Id::new(), "b-key".to_owned(), b_config.clone());
    let hello_payload = b.hello_join_payload("127.0.0.1", 8081);
    let hello = envelope(
        PayloadType::ServerHelloJoin,
        Identifier::Id(b.server_id),
        secure_chat::bootstrap::bootstrap_target(&b_config.bootstrap_servers[0]),
        0,
    );
    let welcome = a.server_hello_join(&hello, &hello_payload).unwrap();
    assert_eq!(welcome.assigned_id, b.server_id.to_string());
    let welcome_msg = envelope(PayloadType::ServerWelcome, Identifier::Id(a.server_id), Identifier::Id(b.server_id), 1);
    let peers = b.server_welcome(&welcome_msg, &welcome, &b_config.bootstrap_servers[0]).unwrap();
    assert!(b.bootstrapped);
    assert!(b.servers.contains(a.server_id.0));
    assert!(a.servers.contains(b.server_id.0));
    assert_eq!(peers, vec![a.server_id]);
    let announce_payload = b.announce_payload("127.0.0.1", 8081);
    let announce = envelope(PayloadType::ServerAnnounce, Identifier::Id(b.server_id), Identifier::Broadcast, 2);
    let before = a.servers.entries.clone();
    a.server_announce(&announce, &announce_payload).unwrap();
    assert_eq!(a.servers.entries, before);
}

#[test]
fn user_ids_are_listed_with_status() {
    let mut a = node();
    let u = Id::new();
    a.user_hello(&hello(&u, Some("zed")), 0).unwrap();
    let r = a.list_user_ids();
    assert_eq!(r.status, "ok");
    assert_eq!(r.users, vec![u.to_string()]);
}

#[test]
fn advertised_key_is_recorded() {
    let mut a = node();
    let peer = Id::new();
    let user = Id::new();
    let adv = envelope(PayloadType::UserAdvertise, Identifier::Id(peer), Identifier::Broadcast, 0);
    let payload = UserAdvertisePayload {
        user_id: user.to_string(),
        server_id: peer.to_string(),
        meta: UserMetadata { display_name: None, pronouns: None, age: None, avatar_url: None },
        pubkey: Some("remote-key".to_owned()),
    };
    a.user_advertise(&adv, &payload).unwrap();
    assert_eq!(a.get_user_pubkey(&user.to_string()), Some("remote-key".to_owned()));
    let local = Id::new();
    a.user_hello(&hello(&local, None), 0).unwrap();
    let own = a.advertise_payload(local, UserMetadata { display_name: None, pronouns: None, age: None, avatar_url: None });
    assert_eq!(own.pubkey, Some(format!("pub-{}", local.to_string())));
    assert_eq!(own.server_id, a.server_id.to_string());
}

#[test]
fn heartbeat() {
    let mut a = node();
    let body = a.heartbeat(&Id::new().to_string(), 1);
    assert!(body.contains("not found"));
}

#[test]
fn user_is_added_to_local_users_on_hello() {
    let mut a = node();
    let user = Id::new();
    let payload = UserHelloHttpPayload {
        user_id: user.to_string(),
        client: "cli-v1".to_owned(),
        pubkey: "test_pubkey".to_owned(),
        enc_pubkey: "enc".to_owned(),
        meta: None,
    };
    a.user_hello(&payload, 5).unwrap();
    assert!(a.local_users.contains(user.0));
    assert_eq!(a.local_users.get(user.0).unwrap().pubkey, "test_pubkey");
    assert_eq!(a.user_locations.get(user.0), Some(&Home::Local));
}

#[test]
fn deliver_payload_names_the_sender() {
    let mut a = node();
    let u = Id::new();
    a.user_hello(&hello(&u, Some("alice")), 0).unwrap();
    let d = a.user_deliver_payload(&Identifier::Id(u), "spub", "cipher", "csig");
    assert_eq!(d.sender, "alice");
    assert_eq!(d.ciphertext, "cipher");
    let stranger = Id::new();
    assert_eq!(a.user_deliver_payload(&Identifier::Id(stranger), "", "", "").sender, stranger.to_string());
    let f = server_deliver_payload(&Identifier::Id(stranger), &d);
    assert_eq!(f.user_id, stranger.to_string());
    assert_eq!(f.sender, "alice");
    let back = user_deliver_from_forward(&f);
    assert_eq!(back, d);
}

#[test]
fn peer_addresses_skip_self_and_unknown() {
    let mut a = node();
    let peer = Id::new();
    let announce = envelope(PayloadType::ServerAnnounce, Identifier::Id(peer), Identifier::Broadcast, 0);
    a.server_announce(&announce, &ServerAnnouncePayload { host: "h1".to_owned(), port: 7, pubkey: "k".to_owned() }).unwrap();
    let targets = a.peer_addresses(&vec![a.server_id, Id::new(), peer]);
    assert_eq!(targets, vec![("h1".to_owned(), 7)]);
}

#[test]
fn display_name_falls_back_to_id_as_sent() {
    let mut a = node();
    let u = Id::new();
    let upper = u.to_string().to_uppercase();
    let payload = UserHelloHttpPayload { user_id: upper.clone(), ..hello(&u, None) };
    a.user_hello(&UserHelloHttpPayload { meta: None, ..payload }, 0).unwrap();
    assert_eq!(a.list_users().users[0].display_name, upper);
}

#[test]
fn welcome_keeps_own_identity() {
    let mut a = node();
    let me = a.server_id;
    let key = a.server_pubkey.clone();
    let payload = welcome_payload(&Id::new(), &me, &Id::new());
    a.server_welcome(&welcome_message(me, me), &payload, &introducer()).unwrap();
    assert_eq!(a.server_id, me);
    assert_eq!(a.server_pubkey, key);
    assert!(!a.servers.contains(me.0));
    assert!(a.bootstrapped);
}
