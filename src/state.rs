//! The node's state: its peers, its users, where remote users live, the
//! mailboxes of its users and the public channel.
use vstd::prelude::*;

use crate::config::ServerConfig;
use crate::errors::ClientError;
use crate::id::{uuid_parse, uuid_text, Id};
use crate::messages::Message;
use crate::payloads::{ListUsersHttpResponse, ListUsersHttpUser, ListUsersResponse, UserHelloHttpPayload};
use crate::table::Table;

verus! {

/// Milliseconds without a heartbeat after which a local user is dropped.
pub const STALE_AFTER_MS: u64 = 45000;

/// Where a user lives, from this node's point of view.
#[derive(Clone, Copy, Debug, PartialEq, Eq, Structural)]
pub enum Home {
    /// Hosted on this node.
    Local,
    /// Hosted on the peer server with this id.
    Server(Id),
}

/// A user hosted on this node.
#[derive(Clone, Debug, PartialEq, Eq)]
pub struct LocalUser {
    /// Milliseconds since the epoch of the last heartbeat (or of the hello).
    pub last_heartbeat: u64,
    pub pubkey: String,
    pub display_name: String,
}

/// A peer server.
#[derive(Clone, Debug, PartialEq, Eq)]
pub struct PeerServer {
    pub host: String,
    pub port: u16,
    pub pubkey: String,
}

/// The public channel (one per node).
pub struct PublicChannel {
    pub id: Option<String>,
    pub name: Option<String>,
    pub description: Option<String>,
    /// Bumped on every creation or update.
    pub version: u64,
    /// The shared key blob, opaque to the server.
    pub key: Option<String>,
    pub members: Table<()>,
    /// The most recent text messages, oldest first.
    pub messages: Vec<crate::payloads::PublicChannelMessagePayload>,
    /// The most recent file events, oldest first.
    pub file_events: Vec<Message>,
}

/// The node's state.
pub struct AppState {
    pub server_id: Id,
    /// This server's public key (base64url DER).
    pub server_pubkey: String,
    pub config: ServerConfig,
    /// Set once the node has joined the network; never cleared.
    pub bootstrapped: bool,
    /// Peer servers by id.
    pub servers: Table<PeerServer>,
    /// Users hosted here, by id.
    pub local_users: Table<LocalUser>,
    /// Home of every user known to this node.
    pub user_locations: Table<Home>,
    /// Public keys of users, local and remote.
    pub user_pubkeys: Table<String>,
    /// Envelopes waiting for their recipient's next poll, oldest first.
    pub pending_messages: Table<Vec<Message>>,
    /// When each peer server was last heard from, in milliseconds since the epoch.
    pub peer_last_seen: Table<i64>,
    pub public_channel: PublicChannel,
}

/// The node's identity and configuration are the same in both states, and
/// so is whether it has joined the network.
pub open spec fn keeps_identity(after: AppState, before: AppState) -> bool {
    &&& after.server_id == before.server_id
    &&& after.server_pubkey == before.server_pubkey
    &&& after.config == before.config
    &&& after.bootstrapped == before.bootstrapped
}

/// Whether a user's last heartbeat is too old at time `now`.
pub open spec fn is_stale(u: LocalUser, now: u64) -> bool {
    now as int - u.last_heartbeat as int > STALE_AFTER_MS as int
}

/// The local users that are stale at time `now`.
pub open spec fn stale_users(users: Map<u128, LocalUser>, now: u64) -> Set<u128> {
    Set::new(|k: u128| users.contains_key(k) && is_stale(users[k], now))
}

/// The name a user is listed under: the one it gave, else its id as it sent it.
pub open spec fn display_name_of(payload: UserHelloHttpPayload) -> Seq<char> {
    match payload.meta {
        Some(m) => match m.display_name {
            Some(n) => n@,
            None => payload.user_id@,
        },
        None => payload.user_id@,
    }
}

impl AppState {
    /// All tables are well formed and the bounded logs within their bounds.
    pub open spec fn wf(&self) -> bool {
        &&& self.servers.wf()
        &&& self.local_users.wf()
        &&& self.user_locations.wf()
        &&& self.user_pubkeys.wf()
        &&& self.pending_messages.wf()
        &&& self.peer_last_seen.wf()
        &&& self.public_channel.members.wf()
        &&& self.public_channel.messages@.len() <= crate::channel::CHANNEL_LOG_LIMIT
        &&& self.public_channel.file_events@.len() <= crate::channel::CHANNEL_LOG_LIMIT
    }

    /// The envelopes waiting for a user, oldest first.
    pub open spec fn mailbox(&self, user: u128) -> Seq<Message> {
        if self.pending_messages@.contains_key(user) {
            self.pending_messages@[user]@
        } else {
            Seq::empty()
        }
    }

    /// A fresh node, with empty tables and the public channel not created.
    pub fn new(server_id: Id, server_pubkey: String, config: ServerConfig) -> (r: AppState)
        ensures
            r.wf(),
            r.server_id == server_id,
            r.server_pubkey == server_pubkey,
            r.config == config,
            !r.bootstrapped,
            r.servers@.is_empty(),
            r.local_users@.is_empty(),
            r.user_locations@.is_empty(),
            r.user_pubkeys@.is_empty(),
            r.pending_messages@.is_empty(),
            r.peer_last_seen@.is_empty(),
            r.public_channel.version == 0,
            r.public_channel.messages@.len() == 0,
            r.public_channel.file_events@.len() == 0,
    {
        AppState {
            server_id,
            server_pubkey,
            config,
            bootstrapped: false,
            servers: Table::new(),
            local_users: Table::new(),
            user_locations: Table::new(),
            user_pubkeys: Table::new(),
            pending_messages: Table::new(),
            peer_last_seen: Table::new(),
            public_channel: PublicChannel {
                id: None,
                name: None,
                description: None,
                version: 0,
                key: None,
                members: Table::new(),
                messages: Vec::new(),
                file_events: Vec::new(),
            },
        }
    }

    /// The ids of the peer servers, in table order.
    pub fn peer_ids(&self) -> (r: Vec<Id>)
        requires
            self.wf(),
        ensures
            r@.len() == self.servers.entries@.len(),
            forall|i: int| 0 <= i < r@.len() ==> #[trigger] r@[i].0 == self.servers.entries@[i].0,
    {
        let mut r: Vec<Id> = Vec::new();
        let mut i: usize = 0;
        while i < self.servers.entries.len()
            invariant
                i <= self.servers.entries@.len(),
                r@.len() == i,
                forall|j: int| 0 <= j < i ==> #[trigger] r@[j].0 == self.servers.entries@[j].0,
            decreases self.servers.entries@.len() - i,
        {
            r.push(Id(self.servers.entries[i].0));
            i = i + 1;
        }
        r
    }

    /// A user announces itself to this node, its home: it becomes a local
    /// user with a fresh heartbeat, its key is recorded, and its home is
    /// this node. Hands back the peers to which the user is to be advertised.
    /// An id that is no UUID is refused.
    pub fn user_hello(&mut self, payload: &UserHelloHttpPayload, now: u64) -> (r: Result<
        Vec<Id>,
        ClientError,
    >)
        requires
            old(self).wf(),
        ensures
            final(self).wf(),
            keeps_identity(*final(self), *old(self)),
            r is Err <==> uuid_parse(payload.user_id@) is None,
            r is Err ==> *final(self) == *old(self),
            r is Ok ==> ({
                let u = uuid_parse(payload.user_id@)->Some_0;
                &&& final(self).local_users@.contains_key(u)
                &&& final(self).local_users@[u].last_heartbeat == now
                &&& final(self).local_users@[u].pubkey@ == payload.pubkey@
                &&& final(self).local_users@[u].display_name@ == display_name_of(*payload)
                &&& final(self).local_users@.remove(u) == old(self).local_users@.remove(u)
                &&& final(self).user_locations@ == old(self).user_locations@.insert(u, Home::Local)
                &&& final(self).user_pubkeys@.contains_key(u)
                &&& final(self).user_pubkeys@[u]@ == payload.pubkey@
                &&& final(self).user_pubkeys@.remove(u) == old(self).user_pubkeys@.remove(u)
                &&& final(self).servers == old(self).servers
                &&& final(self).pending_messages == old(self).pending_messages
                &&& r->Ok_0@.len() == final(self).servers.entries@.len()
                &&& forall|i: int| 0 <= i < r->Ok_0@.len() ==>
                    #[trigger] r->Ok_0@[i].0 == final(self).servers.entries@[i].0
            }),
    {
        let user_id = match Id::from_str(payload.user_id.as_str()) {
            Some(id) => id,
            None => {
                return Err(ClientError::InvalidPayloadType {
                    expected: "valid user_id".to_owned(),
                    actual: payload.user_id.clone(),
                });
            },
        };
        let display_name = match &payload.meta {
            Some(m) => match &m.display_name {
                Some(n) => n.clone(),
                None => payload.user_id.clone(),
            },
            None => payload.user_id.clone(),
        };
        let user = LocalUser { last_heartbeat: now, pubkey: payload.pubkey.clone(), display_name };
        self.local_users.insert(user_id.0, user);
        self.user_locations.insert(user_id.0, Home::Local);
        self.user_pubkeys.insert(user_id.0, payload.pubkey.clone());
        proof {
            assert(self.local_users@.remove(user_id.0) =~= old(self).local_users@.remove(user_id.0));
            assert(self.user_pubkeys@.remove(user_id.0) =~= old(self).user_pubkeys@.remove(user_id.0));
        }
        Ok(self.peer_ids())
    }

    /// A local user's heartbeat: refreshes its time and answers `ok`; an
    /// unknown user gets `not found`, a text that is no UUID `invalid id`.
    pub fn heartbeat(&mut self, user_id: &str, now: u64) -> (r: String)
        requires
            old(self).wf(),
        ensures
            final(self).wf(),
            keeps_identity(*final(self), *old(self)),
            uuid_parse(user_id@) is None ==> r@ == "invalid id"@ && *final(self) == *old(self),
            uuid_parse(user_id@) is Some && !old(self).local_users@.contains_key(
                uuid_parse(user_id@)->Some_0,
            ) ==> r@ == "not found"@ && *final(self) == *old(self),
            uuid_parse(user_id@) is Some && old(self).local_users@.contains_key(
                uuid_parse(user_id@)->Some_0,
            ) ==> ({
                let u = uuid_parse(user_id@)->Some_0;
                &&& r@ == "ok"@
                &&& final(self).local_users@ == old(self).local_users@.insert(
                    u,
                    LocalUser { last_heartbeat: now, ..old(self).local_users@[u] },
                )
                &&& final(self).user_locations == old(self).user_locations
                &&& final(self).servers == old(self).servers
                &&& final(self).user_pubkeys == old(self).user_pubkeys
                &&& final(self).pending_messages == old(self).pending_messages
            }),
    {
        let id = match Id::from_str(user_id) {
            Some(id) => id,
            None => return "invalid id".to_owned(),
        };
        if !self.local_users.contains(id.0) {
            return "not found".to_owned();
        }
        match self.local_users.remove(id.0) {
            Some(user) => {
                let refreshed = LocalUser { last_heartbeat: now, ..user };
                self.local_users.insert(id.0, refreshed);
                proof {
                    assert(self.local_users@ =~= old(self).local_users@.insert(
                        id.0,
                        LocalUser { last_heartbeat: now, ..old(self).local_users@[id.0] },
                    ));
                }
                "ok".to_owned()
            },
            None => "not found".to_owned(),
        }
    }

    /// Drops every local user whose last heartbeat is more than
    /// `STALE_AFTER_MS` before `now`, from the local users and from the
    /// homes table. Hands back the ids dropped, to be withdrawn from peers.
    pub fn sweep_stale_users(&mut self, now: u64) -> (r: Vec<Id>)
        requires
            old(self).wf(),
        ensures
            final(self).wf(),
            keeps_identity(*final(self), *old(self)),
            final(self).local_users@ == old(self).local_users@.remove_keys(
                stale_users(old(self).local_users@, now),
            ),
            final(self).user_locations@ == old(self).user_locations@.remove_keys(
                stale_users(old(self).local_users@, now),
            ),
            forall|k: u128|
                old(self).local_users@.contains_key(k) && is_stale(old(self).local_users@[k], now)
                    ==> !final(self).local_users@.contains_key(k)
                    && !final(self).user_locations@.contains_key(k),
            forall|k: u128|
                old(self).local_users@.contains_key(k) && !is_stale(old(self).local_users@[k], now)
                    ==> final(self).local_users@.contains_key(k)
                    && final(self).local_users@[k] == old(self).local_users@[k],
            r@.map_values(|x: Id| x.0).to_set() == stale_users(old(self).local_users@, now),
            final(self).servers == old(self).servers,
            final(self).user_pubkeys == old(self).user_pubkeys,
            final(self).pending_messages == old(self).pending_messages,
    {
        let ghost users0 = self.local_users@;
        let ghost homes0 = self.user_locations@;
        let ghost gone = stale_users(users0, now);
        let mut stale: Vec<Id> = Vec::new();
        let mut i: usize = 0;
        while i < self.local_users.entries.len()
            invariant
                self.wf(),
                self.local_users@ == users0,
                gone == stale_users(users0, now),
                i <= self.local_users.entries@.len(),
                forall|j: int| 0 <= j < stale@.len() ==> #[trigger] gone.contains(stale@[j].0),
                forall|b: int| 0 <= b < i && is_stale(#[trigger] self.local_users.entries@[b].1, now)
                    ==> exists|w: int| 0 <= w < stale@.len() && #[trigger] stale@[w].0 == self.local_users.entries@[b].0,
            decreases self.local_users.entries@.len() - i,
        {
            let k = self.local_users.entries[i].0;
            let last = self.local_users.entries[i].1.last_heartbeat;
            proof {
                self.local_users.lemma_entry(i as int);
            }
            if now > last && now - last > STALE_AFTER_MS {
                let ghost before = stale@;
                proof {
                    assert(users0[k].last_heartbeat == last);
                    assert(gone.contains(k));
                }
                stale.push(Id(k));
                proof {
                    assert(stale@[stale@.len() - 1].0 == k);
                    assert forall|j: int| 0 <= j < stale@.len() implies #[trigger] gone.contains(stale@[j].0) by {
                        if j < before.len() {
                            assert(stale@[j] == before[j]);
                            assert(gone.contains(before[j].0));
                        } else {
                            assert(j == before.len());
                            assert(stale@[j].0 == k);
                        }
                    }
                    assert forall|b: int| 0 <= b < i && is_stale(#[trigger] self.local_users.entries@[b].1, now)
                        implies exists|w: int| 0 <= w < stale@.len() && #[trigger] stale@[w].0 == self.local_users.entries@[b].0 by {
                        let w = choose|w: int| 0 <= w < before.len() && #[trigger] before[w].0 == self.local_users.entries@[b].0;
                        assert(stale@[w] == before[w]);
                    }
                }
            }
            i = i + 1;
        }
        let ghost keys = stale@.map_values(|x: Id| x.0);
        proof {
            assert forall|k: u128| #[trigger] gone.contains(k) implies keys.contains(k) by {
                let b = self.local_users.index_of(k);
                self.local_users.lemma_entry(b);
                let w = choose|w: int| 0 <= w < stale@.len() && #[trigger] stale@[w].0 == self.local_users.entries@[b].0;
                assert(keys[w] == k);
            }
            assert forall|k: u128| #[trigger] keys.contains(k) implies gone.contains(k) by {
                let w = choose|w: int| 0 <= w < keys.len() && keys[w] == k;
                assert(gone.contains(stale@[w].0));
            }
            assert(keys.to_set() =~= gone);
        }
        let mut j: usize = 0;
        while j < stale.len()
            invariant
                self.wf(),
                j <= stale@.len(),
                keys == stale@.map_values(|x: Id| x.0),
                self.local_users@ == users0.remove_keys(keys.subrange(0, j as int).to_set()),
                self.user_locations@ == homes0.remove_keys(keys.subrange(0, j as int).to_set()),
                self.servers == old(self).servers,
                self.user_pubkeys == old(self).user_pubkeys,
                self.pending_messages == old(self).pending_messages,
                keeps_identity(*self, *old(self)),
            decreases stale@.len() - j,
        {
            let k = stale[j].0;
            let ghost s0 = keys.subrange(0, j as int).to_set();
            let ghost s1 = keys.subrange(0, j as int + 1).to_set();
            proof {
                assert(keys.subrange(0, j as int + 1) =~= keys.subrange(0, j as int).push(k));
                keys.subrange(0, j as int).lemma_push_to_set_commute(k);
                assert(s1 =~= s0.insert(k));
            }
            self.local_users.remove(k);
            self.user_locations.remove(k);
            proof {
                assert(self.local_users@ =~= users0.remove_keys(s1));
                assert(self.user_locations@ =~= homes0.remove_keys(s1));
            }
            j = j + 1;
        }
        proof {
            assert(keys.subrange(0, stale@.len() as int) =~= keys);
        }
        stale
    }

    /// The users hosted here, each with the name it is listed under.
    pub fn list_users(&self) -> (r: ListUsersHttpResponse)
        requires
            self.wf(),
        ensures
            r.users@.len() == self.local_users.entries@.len(),
            forall|i: int| 0 <= i < r.users@.len() ==> {
                &&& (#[trigger] r.users@[i]).user_id@ == uuid_text(self.local_users.entries@[i].0)
                &&& uuid_parse(r.users@[i].user_id@) == Some(self.local_users.entries@[i].0)
                &&& r.users@[i].display_name@ == self.local_users.entries@[i].1.display_name@
            },
            forall|i: int, j: int| 0 <= i < r.users@.len() && 0 <= j < r.users@.len() && i != j
                ==> #[trigger] r.users@[i].user_id@ != #[trigger] r.users@[j].user_id@,
            forall|k: u128| #[trigger] self.local_users@.contains_key(k) <==> exists|i: int|
                0 <= i < r.users@.len() && uuid_parse(#[trigger] r.users@[i].user_id@) == Some(k),
    {
        let mut users: Vec<ListUsersHttpUser> = Vec::new();
        let mut i: usize = 0;
        while i < self.local_users.entries.len()
            invariant
                i <= self.local_users.entries@.len(),
                users@.len() == i,
                self.wf(),
                forall|j: int| 0 <= j < i ==> {
                    &&& (#[trigger] users@[j]).user_id@ == uuid_text(self.local_users.entries@[j].0)
                    &&& uuid_parse(users@[j].user_id@) == Some(self.local_users.entries@[j].0)
                    &&& users@[j].display_name@ == self.local_users.entries@[j].1.display_name@
                },
            decreases self.local_users.entries@.len() - i,
        {
            let entry = &self.local_users.entries[i];
            users.push(ListUsersHttpUser {
                user_id: Id(entry.0).to_string(),
                display_name: entry.1.display_name.clone(),
            });
            i = i + 1;
        }
        proof {
            assert forall|a: int, b: int| 0 <= a < users@.len() && 0 <= b < users@.len() && a != b
                implies #[trigger] users@[a].user_id@ != #[trigger] users@[b].user_id@ by {
                assert(self.local_users.entries@[a].0 != self.local_users.entries@[b].0);
                assert(uuid_parse(users@[a].user_id@) == Some(self.local_users.entries@[a].0));
                assert(uuid_parse(users@[b].user_id@) == Some(self.local_users.entries@[b].0));
            }
            assert forall|k: u128| #[trigger] self.local_users@.contains_key(k) <==> exists|a: int|
                0 <= a < users@.len() && uuid_parse(#[trigger] users@[a].user_id@) == Some(k) by {
                if self.local_users@.contains_key(k) {
                    let a = self.local_users.index_of(k);
                    self.local_users.lemma_entry(a);
                    assert(uuid_parse(users@[a].user_id@) == Some(k));
                }
                if exists|a: int| 0 <= a < users@.len() && uuid_parse(#[trigger] users@[a].user_id@) == Some(k) {
                    let a = choose|a: int| 0 <= a < users@.len() && uuid_parse(#[trigger] users@[a].user_id@) == Some(k);
                    self.local_users.lemma_entry(a);
                }
            }
        }
        ListUsersHttpResponse { users }
    }

    /// The public key of a user, if the text is a UUID and the key is known.
    pub fn get_user_pubkey(&self, user_id: &str) -> (r: Option<String>)
        requires
            self.wf(),
        ensures
            r is Some <==> (uuid_parse(user_id@) is Some && self.user_pubkeys@.contains_key(
                uuid_parse(user_id@)->Some_0,
            )),
            r is Some ==> r->Some_0 == self.user_pubkeys@[uuid_parse(user_id@)->Some_0],
    {
        let id = match Id::from_str(user_id) {
            Some(id) => id,
            None => return None,
        };
        match self.user_pubkeys.get(id.0) {
            Some(k) => Some(k.clone()),
            None => None,
        }
    }

    /// The ids of the users hosted here, with status `ok`.
    pub fn list_user_ids(&self) -> (r: ListUsersResponse)
        requires
            self.wf(),
        ensures
            r.status@ == "ok"@,
            r.users@.len() == self.local_users.entries@.len(),
            forall|i: int| 0 <= i < r.users@.len() ==>
                (#[trigger] r.users@[i])@ == uuid_text(self.local_users.entries@[i].0),
    {
        let mut users: Vec<String> = Vec::new();
        let mut i: usize = 0;
        while i < self.local_users.entries.len()
            invariant
                i <= self.local_users.entries@.len(),
                users@.len() == i,
                forall|j: int| 0 <= j < i ==> (#[trigger] users@[j])@ == uuid_text(self.local_users.entries@[j].0),
            decreases self.local_users.entries@.len() - i,
        {
            users.push(Id(self.local_users.entries[i].0).to_string());
            i = i + 1;
        }
        ListUsersResponse { status: "ok".to_owned(), users }
    }
}

} // verus!
