//! The federation protocol as seen from one node: joining servers,
//! welcomes, announcements, and the gossip of users' homes.
use vstd::prelude::*;

use crate::errors::{wrong_payload_type, ClientError};
use crate::id::{uuid_parse, uuid_text, Id, Identifier, IdentifierView};
use crate::messages::{Message, PayloadType};
use crate::payloads::{
    ClientInfo, HeartbeatResponse, Status, UserLoginResponse, UserRegisterResponse, ServerAnnouncePayload, ServerHelloJoinPayload, ServerInfo, ServerWelcomePayload,
    UserAdvertisePayload, UserMetadata, UserRemovePayload,
};
use crate::config::BootstrapServer;
use crate::state::{keeps_identity, AppState, Home, PeerServer};

verus! {

/// The homes table after a withdrawal of `user` by `server`: the entry goes
/// only while it still names that server.
pub open spec fn after_user_remove(homes: Map<u128, Home>, user: u128, server: u128) -> Map<
    u128,
    Home,
> {
    if homes.contains_key(user) && homes[user] == Home::Server(Id(server)) {
        homes.remove(user)
    } else {
        homes
    }
}

/// A withdrawal applied twice leaves the table as applying it once does.
pub proof fn lemma_user_remove_idempotent(homes: Map<u128, Home>, user: u128, server: u128)
    ensures
        after_user_remove(after_user_remove(homes, user, server), user, server)
            == after_user_remove(homes, user, server),
{
}

/// The peers table after the servers of a welcome are installed, in order;
/// entries whose id is no UUID, or is this node's own, are skipped.
pub open spec fn after_welcome_servers(
    peers: Map<u128, PeerServer>,
    servers: Seq<ServerInfo>,
    self_id: u128,
) -> Map<u128, PeerServer>
    decreases servers.len(),
{
    if servers.len() == 0 {
        peers
    } else {
        let before = after_welcome_servers(peers, servers.drop_last(), self_id);
        let s = servers.last();
        match uuid_parse(s.server_id@) {
            Some(v) => if v == self_id {
                before
            } else {
                before.insert(v, PeerServer { host: s.host, port: s.port, pubkey: s.pubkey })
            },
            None => before,
        }
    }
}

/// Whether a client entry of a welcome is installed: both ids are UUIDs.
pub open spec fn client_installed(c: ClientInfo) -> bool {
    uuid_parse(c.user_id@) is Some && uuid_parse(c.server_id@) is Some
}

/// The homes table after the clients of a welcome are installed, in order.
pub open spec fn after_welcome_homes(homes: Map<u128, Home>, clients: Seq<ClientInfo>) -> Map<
    u128,
    Home,
>
    decreases clients.len(),
{
    if clients.len() == 0 {
        homes
    } else {
        let before = after_welcome_homes(homes, clients.drop_last());
        let c = clients.last();
        if client_installed(c) {
            before.insert(
                uuid_parse(c.user_id@)->Some_0,
                Home::Server(Id(uuid_parse(c.server_id@)->Some_0)),
            )
        } else {
            before
        }
    }
}

/// The public keys table after the clients of a welcome are installed, in order.
pub open spec fn after_welcome_keys(keys: Map<u128, String>, clients: Seq<ClientInfo>) -> Map<
    u128,
    String,
>
    decreases clients.len(),
{
    if clients.len() == 0 {
        keys
    } else {
        let before = after_welcome_keys(keys, clients.drop_last());
        let c = clients.last();
        if client_installed(c) {
            before.insert(uuid_parse(c.user_id@)->Some_0, c.pubkey)
        } else {
            before
        }
    }
}

/// The text under which a home is listed: the id of its server.
pub open spec fn home_text(h: Home, self_id: u128) -> Seq<char> {
    match h {
        Home::Local => uuid_text(self_id),
        Home::Server(s) => uuid_text(s.0),
    }
}

/// Whether a welcome entry lists the peer `k` with its address and key.
pub open spec fn lists_peer(info: ServerInfo, k: u128, p: PeerServer) -> bool {
    &&& info.server_id@ == uuid_text(k)
    &&& uuid_parse(info.server_id@) == Some(k)
    &&& info.host == p.host
    &&& info.port == p.port
    &&& info.pubkey == p.pubkey
}

/// Whether a welcome entry lists some peer other than the joiner.
pub open spec fn lists_some_peer(info: ServerInfo, peers: Seq<(u128, PeerServer)>, joiner: u128) -> bool {
    exists|k: int| 0 <= k < peers.len() && peers[k].0 != joiner && #[trigger] lists_peer(info, peers[k].0, peers[k].1)
}

/// Whether a welcome entry lists some user whose key is known.
pub open spec fn lists_some_client(info: ClientInfo, homes: Map<u128, Home>, keys: Map<u128, String>, self_id: u128) -> bool {
    exists|k: u128| homes.contains_key(k) && keys.contains_key(k)
        && #[trigger] lists_client(info, k, keys[k], homes[k], self_id)
}

/// No two welcome entries name the same server.
pub open spec fn distinct_servers(servers: Seq<ServerInfo>) -> bool {
    forall|i: int, j: int| 0 <= i < servers.len() && 0 <= j < servers.len() && i != j
        ==> #[trigger] servers[i].server_id@ != #[trigger] servers[j].server_id@
}

/// No two welcome entries name the same user.
pub open spec fn distinct_clients(clients: Seq<ClientInfo>) -> bool {
    forall|i: int, j: int| 0 <= i < clients.len() && 0 <= j < clients.len() && i != j
        ==> #[trigger] clients[i].user_id@ != #[trigger] clients[j].user_id@
}

/// Whether some welcome entry names the server `k`.
pub open spec fn names_peer(servers: Seq<ServerInfo>, k: u128) -> bool {
    exists|i: int| 0 <= i < servers.len() && #[trigger] servers[i].server_id@ == uuid_text(k)
}

/// Whether some welcome entry names the user `k`.
pub open spec fn names_client(clients: Seq<ClientInfo>, k: u128) -> bool {
    exists|i: int| 0 <= i < clients.len() && #[trigger] clients[i].user_id@ == uuid_text(k)
}

/// Whether a welcome entry lists the user `k` with its key and home.
pub open spec fn lists_client(info: ClientInfo, k: u128, key: String, home: Home, self_id: u128) -> bool {
    &&& info.user_id@ == uuid_text(k)
    &&& uuid_parse(info.user_id@) == Some(k)
    &&& info.pubkey == key
    &&& info.server_id@ == home_text(home, self_id)
}

/// The server id that an envelope comes from, if it names one.
fn sender_id(from: &Identifier) -> (r: Option<Id>)
    ensures
        r is Some <==> from@ is Id,
        r is Some ==> from@ == IdentifierView::Id(r->Some_0.0),
{
    match from.as_id() {
        Some(id) => Some(*id),
        None => None,
    }
}

impl AppState {
    /// The advertisement of a local user to the peers, with the user's key
    /// where it is known.
    pub fn advertise_payload(&self, user_id: Id, meta: UserMetadata) -> (r: UserAdvertisePayload)
        requires
            self.wf(),
        ensures
            r.user_id@ == uuid_text(user_id.0),
            r.server_id@ == uuid_text(self.server_id.0),
            r.meta == meta,
            r.pubkey == (if self.user_pubkeys@.contains_key(user_id.0) {
                Some(self.user_pubkeys@[user_id.0])
            } else {
                None::<String>
            }),
    {
        let pubkey = match self.user_pubkeys.get(user_id.0) {
            Some(k) => Some(k.clone()),
            None => None,
        };
        UserAdvertisePayload { user_id: user_id.to_string(), server_id: self.server_id.to_string(), meta, pubkey }
    }

    /// The withdrawal of a local user from the peers.
    pub fn remove_payload(&self, user_id: Id) -> (r: UserRemovePayload)
        ensures
            r.user_id@ == uuid_text(user_id.0),
            r.server_id@ == uuid_text(self.server_id.0),
    {
        UserRemovePayload { user_id: user_id.to_string(), server_id: self.server_id.to_string() }
    }

    /// A peer advertises one of its users: the user's home becomes that
    /// peer, and its key, if given, is recorded.
    pub fn user_advertise(&mut self, msg: &Message, payload: &UserAdvertisePayload) -> (r: Result<
        (),
        ClientError,
    >)
        requires
            old(self).wf(),
        ensures
            final(self).wf(),
            keeps_identity(*final(self), *old(self)),
            r is Ok <==> (msg.payload_type is UserAdvertise && uuid_parse(payload.user_id@) is Some
                && uuid_parse(payload.server_id@) is Some),
            !(msg.payload_type is UserAdvertise) ==> r matches Err(ClientError::InvalidPayloadType { .. }),
            r is Err ==> *final(self) == *old(self),
            r is Ok ==> final(self).user_locations@ == old(self).user_locations@.insert(
                uuid_parse(payload.user_id@)->Some_0,
                Home::Server(Id(uuid_parse(payload.server_id@)->Some_0)),
            ),
            r is Ok ==> final(self).user_pubkeys@ == (match payload.pubkey {
                Some(k) => old(self).user_pubkeys@.insert(uuid_parse(payload.user_id@)->Some_0, k),
                None => old(self).user_pubkeys@,
            }),
            final(self).local_users == old(self).local_users,
            final(self).servers == old(self).servers,
    {
        if !matches!(msg.payload_type, PayloadType::UserAdvertise) {
            return Err(wrong_payload_type("UserAdvertise", &msg.payload_type));
        }
        let user = match Id::from_str(payload.user_id.as_str()) {
            Some(id) => id,
            None => return Err(ClientError::PayloadExtraction("invalid user_id".to_owned())),
        };
        let server = match Id::from_str(payload.server_id.as_str()) {
            Some(id) => id,
            None => return Err(ClientError::PayloadExtraction("invalid server_id".to_owned())),
        };
        self.user_locations.insert(user.0, Home::Server(server));
        match &payload.pubkey {
            Some(k) => self.user_pubkeys.insert(user.0, k.clone()),
            None => {},
        }
        Ok(())
    }

    /// A peer withdraws a user: the user's home entry goes only while it
    /// still names that peer, so that a user who moved keeps its new home.
    pub fn user_remove(&mut self, msg: &Message, payload: &UserRemovePayload) -> (r: Result<
        (),
        ClientError,
    >)
        requires
            old(self).wf(),
        ensures
            final(self).wf(),
            keeps_identity(*final(self), *old(self)),
            r is Ok <==> (msg.payload_type is UserRemove && uuid_parse(payload.user_id@) is Some
                && uuid_parse(payload.server_id@) is Some),
            !(msg.payload_type is UserRemove) ==> r matches Err(ClientError::InvalidPayloadType { .. }),
            r is Err ==> *final(self) == *old(self),
            r is Ok ==> final(self).user_locations@ == after_user_remove(
                old(self).user_locations@,
                uuid_parse(payload.user_id@)->Some_0,
                uuid_parse(payload.server_id@)->Some_0,
            ),
            final(self).local_users == old(self).local_users,
            final(self).servers == old(self).servers,
            final(self).user_pubkeys == old(self).user_pubkeys,
            final(self).pending_messages == old(self).pending_messages,
            final(self).bootstrapped == old(self).bootstrapped,
    {
        if !matches!(msg.payload_type, PayloadType::UserRemove) {
            return Err(wrong_payload_type("UserRemove", &msg.payload_type));
        }
        let user = match Id::from_str(payload.user_id.as_str()) {
            Some(id) => id,
            None => return Err(ClientError::PayloadExtraction("invalid user_id".to_owned())),
        };
        let server = match Id::from_str(payload.server_id.as_str()) {
            Some(id) => id,
            None => return Err(ClientError::PayloadExtraction("invalid server_id".to_owned())),
        };
        let current = match self.user_locations.get(user.0) {
            Some(h) => Some(*h),
            None => None,
        };
        match current {
            Some(Home::Server(s)) => {
                if s.0 == server.0 {
                    self.user_locations.remove(user.0);
                }
            },
            _ => {},
        }
        Ok(())
    }

    /// A peer announces itself: its address and key are recorded, or
    /// replaced. An announcement that claims this node's own id changes nothing.
    pub fn server_announce(&mut self, msg: &Message, payload: &ServerAnnouncePayload) -> (r: Result<
        (),
        ClientError,
    >)
        requires
            old(self).wf(),
        ensures
            final(self).wf(),
            keeps_identity(*final(self), *old(self)),
            r is Ok <==> (msg.payload_type is ServerAnnounce && msg.from@ is Id),
            !(msg.payload_type is ServerAnnounce) ==> r matches Err(ClientError::InvalidPayloadType { .. }),
            r is Err ==> *final(self) == *old(self),
            r is Ok && msg.from@->Id_0 == old(self).server_id.0 ==> *final(self) == *old(self),
            r is Ok && msg.from@->Id_0 != old(self).server_id.0 ==> final(self).servers@
                == old(self).servers@.insert(
                msg.from@->Id_0,
                PeerServer { host: payload.host, port: payload.port, pubkey: payload.pubkey },
            ),
            final(self).local_users == old(self).local_users,
            final(self).user_locations == old(self).user_locations,
    {
        if !matches!(msg.payload_type, PayloadType::ServerAnnounce) {
            return Err(wrong_payload_type("ServerAnnounce", &msg.payload_type));
        }
        let from = match sender_id(&msg.from) {
            Some(id) => id,
            None => return Err(ClientError::PayloadExtraction("invalid sender id".to_owned())),
        };
        if from.0 == self.server_id.0 {
            return Ok(());
        }
        let peer = PeerServer {
            host: payload.host.clone(),
            port: payload.port,
            pubkey: payload.pubkey.clone(),
        };
        self.servers.insert(from.0, peer);
        Ok(())
    }

    /// A server asks to join through this node: it is recorded as a peer,
    /// and the welcome to send back is composed. The welcome echoes the
    /// joiner's own id, lists every other peer, and every user whose key is
    /// known, with the id of its home server.
    pub fn server_hello_join(&mut self, msg: &Message, payload: &ServerHelloJoinPayload) -> (r:
        Result<ServerWelcomePayload, ClientError>)
        requires
            old(self).wf(),
        ensures
            final(self).wf(),
            keeps_identity(*final(self), *old(self)),
            r is Ok <==> (msg.payload_type is ServerHelloJoin && msg.from@ is Id),
            !(msg.payload_type is ServerHelloJoin) ==> r matches Err(ClientError::InvalidPayloadType { .. }),
            r is Err ==> *final(self) == *old(self),
            r is Ok ==> ({
                let j = msg.from@->Id_0;
                let w = r->Ok_0;
                &&& final(self).servers@ == old(self).servers@.insert(
                    j,
                    PeerServer { host: payload.host, port: payload.port, pubkey: payload.pubkey },
                )
                &&& final(self).user_locations == old(self).user_locations
                &&& final(self).user_pubkeys == old(self).user_pubkeys
                &&& final(self).local_users == old(self).local_users
                &&& w.assigned_id@ == uuid_text(j)
                &&& (forall|i: int| 0 <= i < w.servers@.len() ==> lists_some_peer(#[trigger] w.servers@[i], final(self).servers.entries@, j))
                &&& w.servers@.len() + 1 == final(self).servers.entries@.len()
                &&& (forall|k: int| 0 <= k < final(self).servers.entries@.len()
                    && #[trigger] final(self).servers.entries@[k].0 != j
                    ==> names_peer(w.servers@, final(self).servers.entries@[k].0))
                &&& (forall|i: int| 0 <= i < w.clients@.len() ==> lists_some_client(#[trigger] w.clients@[i], final(self).user_locations@, final(self).user_pubkeys@, final(self).server_id.0))
                &&& (forall|k: u128| #[trigger] final(self).user_locations@.contains_key(k)
                    && final(self).user_pubkeys@.contains_key(k) ==> names_client(w.clients@, k))
                &&& distinct_servers(w.servers@)
                &&& distinct_clients(w.clients@)
            }),
    {
        if !matches!(msg.payload_type, PayloadType::ServerHelloJoin) {
            return Err(wrong_payload_type("ServerHelloJoin", &msg.payload_type));
        }
        let joiner = match sender_id(&msg.from) {
            Some(id) => id,
            None => return Err(ClientError::PayloadExtraction("invalid sender id".to_owned())),
        };
        let peer = PeerServer {
            host: payload.host.clone(),
            port: payload.port,
            pubkey: payload.pubkey.clone(),
        };
        self.servers.insert(joiner.0, peer);
        let servers = self.welcome_servers(joiner);
        let clients = self.welcome_clients();
        Ok(ServerWelcomePayload { assigned_id: joiner.to_string(), servers, clients })
    }

    /// Every peer but the joiner, as a welcome lists them.
    fn welcome_servers(&self, joiner: Id) -> (r: Vec<ServerInfo>)
        requires
            self.wf(),
            self.servers@.contains_key(joiner.0),
        ensures
            forall|i: int| 0 <= i < r@.len() ==> lists_some_peer(#[trigger] r@[i], self.servers.entries@, joiner.0),
            r@.len() + 1 == self.servers.entries@.len(),
            forall|k: int| 0 <= k < self.servers.entries@.len()
                && #[trigger] self.servers.entries@[k].0 != joiner.0
                ==> names_peer(r@, self.servers.entries@[k].0),
            distinct_servers(r@),
    {
        let mut r: Vec<ServerInfo> = Vec::new();
        let mut i: usize = 0;
        let ghost mut seen: bool = false;
        let ghost mut src: Seq<int> = Seq::empty();
        let ghost mut at: Seq<int> = Seq::empty();
        while i < self.servers.entries.len()
            invariant
                self.wf(),
                self.servers@.contains_key(joiner.0),
                i <= self.servers.entries@.len(),
                seen <==> exists|b: int| 0 <= b < i && #[trigger] self.servers.entries@[b].0 == joiner.0,
                r@.len() + (if seen { 1int } else { 0int }) == i,
                src.len() == r@.len(),
                forall|a: int| 0 <= a < r@.len() ==> {
                    &&& 0 <= #[trigger] src[a] < self.servers.entries@.len()
                    &&& self.servers.entries@[src[a]].0 != joiner.0
                    &&& lists_peer(r@[a], self.servers.entries@[src[a]].0, self.servers.entries@[src[a]].1)
                },
                forall|a: int| 0 <= a < src.len() ==> #[trigger] src[a] < i,
                forall|a: int, b: int| 0 <= a < b < src.len() ==> #[trigger] src[a] < #[trigger] src[b],
                at.len() == i,
                forall|b: int| 0 <= b < i && #[trigger] self.servers.entries@[b].0 != joiner.0
                    ==> 0 <= at[b] < r@.len() && r@[at[b]].server_id@ == uuid_text(self.servers.entries@[b].0),
            decreases self.servers.entries@.len() - i,
        {
            let entry = &self.servers.entries[i];
            if entry.0 != joiner.0 {
                r.push(ServerInfo {
                    server_id: Id(entry.0).to_string(),
                    host: entry.1.host.clone(),
                    port: entry.1.port,
                    pubkey: entry.1.pubkey.clone(),
                });
                proof {
                    at = at.push(src.len() as int);
                    src = src.push(i as int);
                }
            } else {
                proof {
                    if seen {
                        let b = choose|b: int| 0 <= b < i && #[trigger] self.servers.entries@[b].0 == joiner.0;
                        assert(self.servers.entries@[b].0 == self.servers.entries@[i as int].0);
                    }
                    seen = true;
                    at = at.push(0);
                }
            }
            i = i + 1;
        }
        proof {
            if !seen {
                let k = self.servers.index_of(joiner.0);
                assert(self.servers.entries@[k].0 == joiner.0);
            }
            assert forall|a: int| 0 <= a < r@.len() implies lists_some_peer(#[trigger] r@[a], self.servers.entries@, joiner.0) by {
                let k = src[a];
                assert(lists_peer(r@[a], self.servers.entries@[k].0, self.servers.entries@[k].1));
            }
            assert forall|a: int, b: int| 0 <= a < r@.len() && 0 <= b < r@.len() && a != b
                implies #[trigger] r@[a].server_id@ != #[trigger] r@[b].server_id@ by {
                assert(self.servers.entries@[src[a]].0 != self.servers.entries@[src[b]].0);
            }
            assert forall|k: int| 0 <= k < self.servers.entries@.len()
                && #[trigger] self.servers.entries@[k].0 != joiner.0
                implies names_peer(r@, self.servers.entries@[k].0) by {
                let a = at[k];
                assert(r@[a].server_id@ == uuid_text(self.servers.entries@[k].0));
            }
        }
        r
    }

    /// Every user whose key is known, with the id of its home server.
    fn welcome_clients(&self) -> (r: Vec<ClientInfo>)
        requires
            self.wf(),
        ensures
            forall|i: int| 0 <= i < r@.len() ==> lists_some_client(#[trigger] r@[i], self.user_locations@, self.user_pubkeys@, self.server_id.0),
            forall|k: u128| #[trigger] self.user_locations@.contains_key(k)
                && self.user_pubkeys@.contains_key(k) ==> names_client(r@, k),
            distinct_clients(r@),
    {
        let mut r: Vec<ClientInfo> = Vec::new();
        let ghost mut idx: Seq<int> = Seq::empty();
        let mut i: usize = 0;
        let ghost mut src: Seq<u128> = Seq::empty();
        let ghost mut at: Seq<int> = Seq::empty();
        while i < self.user_locations.entries.len()
            invariant
                self.wf(),
                i <= self.user_locations.entries@.len(),
                src.len() == r@.len(),
                idx.len() == r@.len(),
                forall|a: int| 0 <= a < idx.len() ==> 0 <= #[trigger] idx[a] < i
                    && self.user_locations.entries@[idx[a]].0 == src[a],
                forall|a: int, b: int| 0 <= a < b < idx.len() ==> #[trigger] idx[a] < #[trigger] idx[b],
                at.len() == i,
                forall|a: int| 0 <= a < r@.len() ==> {
                    &&& self.user_locations@.contains_key(#[trigger] src[a])
                    &&& self.user_pubkeys@.contains_key(src[a])
                    &&& lists_client(r@[a], src[a], self.user_pubkeys@[src[a]], self.user_locations@[src[a]], self.server_id.0)
                },
                forall|b: int| 0 <= b < i && self.user_pubkeys@.contains_key(
                    #[trigger] self.user_locations.entries@[b].0,
                ) ==> 0 <= at[b] < r@.len() && src[at[b]] == self.user_locations.entries@[b].0,
            decreases self.user_locations.entries@.len() - i,
        {
            let k = self.user_locations.entries[i].0;
            let home = self.user_locations.entries[i].1;
            proof {
                self.user_locations.lemma_entry(i as int);
            }
            match self.user_pubkeys.get(k) {
                Some(key) => {
                    let server_text = match home {
                        Home::Local => self.server_id.to_string(),
                        Home::Server(s) => s.to_string(),
                    };
                    r.push(ClientInfo { user_id: Id(k).to_string(), pubkey: key.clone(), server_id: server_text });
                    proof {
                        at = at.push(src.len() as int);
                        src = src.push(k);
                        idx = idx.push(i as int);
                    }
                },
                None => {
                    proof {
                        at = at.push(0);
                    }
                },
            }
            i = i + 1;
        }
        proof {
            assert forall|a: int, b: int| 0 <= a < r@.len() && 0 <= b < r@.len() && a != b
                implies #[trigger] r@[a].user_id@ != #[trigger] r@[b].user_id@ by {
                assert(self.user_locations.entries@[idx[a]].0 != self.user_locations.entries@[idx[b]].0);
            }
            assert forall|a: int| 0 <= a < r@.len() implies lists_some_client(#[trigger] r@[a], self.user_locations@, self.user_pubkeys@, self.server_id.0) by {
                let k = src[a];
                assert(lists_client(r@[a], k, self.user_pubkeys@[k], self.user_locations@[k], self.server_id.0));
            }
            assert forall|k: u128| #[trigger] self.user_locations@.contains_key(k)
                && self.user_pubkeys@.contains_key(k) implies names_client(r@, k) by {
                let b = self.user_locations.index_of(k);
                self.user_locations.lemma_entry(b);
                let a = at[b];
                assert(src[a] == k);
                assert(lists_client(r@[a], src[a], self.user_pubkeys@[src[a]], self.user_locations@[src[a]], self.server_id.0));
            }
        }
        r
    }

    /// The introducer's welcome, answering this node's hello: the
    /// introducer is pinned with the address and key this node dialled,
    /// the peers and users it lists are installed in order, and the node
    /// counts as joined; its own id, key and configuration stay as they are.
    /// Hands back the peers to announce to.
    ///
    /// A node never records itself as a peer: an introducer, or a listed
    /// server, that carries this node's own id is not pinned. Entries whose
    /// ids are no UUIDs are skipped; this includes a user whose home server
    /// id is no UUID, since no message could be routed to such a home.
    pub fn server_welcome(
        &mut self,
        msg: &Message,
        payload: &ServerWelcomePayload,
        introducer: &BootstrapServer,
    ) -> (r: Result<Vec<Id>, ClientError>)
        requires
            old(self).wf(),
        ensures
            final(self).wf(),
            final(self).server_id == old(self).server_id,
            final(self).server_pubkey == old(self).server_pubkey,
            final(self).config == old(self).config,
            r is Ok <==> (msg.payload_type is ServerWelcome && uuid_parse(payload.assigned_id@) is Some
                && msg.from@ is Id),
            !(msg.payload_type is ServerWelcome) ==> r matches Err(ClientError::InvalidPayloadType { .. }),
            r is Err ==> *final(self) == *old(self),
            r is Ok ==> ({
                let intro = msg.from@->Id_0;
                let pinned = if intro == old(self).server_id.0 {
                    old(self).servers@
                } else {
                    old(self).servers@.insert(
                        intro,
                        PeerServer { host: introducer.host, port: introducer.port, pubkey: introducer.pubkey },
                    )
                };
                &&& final(self).bootstrapped
                &&& final(self).servers@ == after_welcome_servers(pinned, payload.servers@, old(self).server_id.0)
                &&& final(self).user_locations@ == after_welcome_homes(old(self).user_locations@, payload.clients@)
                &&& final(self).user_pubkeys@ == after_welcome_keys(old(self).user_pubkeys@, payload.clients@)
                &&& final(self).local_users == old(self).local_users
                &&& r->Ok_0@.len() == final(self).servers.entries@.len()
                &&& forall|i: int| 0 <= i < r->Ok_0@.len() ==>
                    #[trigger] r->Ok_0@[i].0 == final(self).servers.entries@[i].0
            }),
    {
        if !matches!(msg.payload_type, PayloadType::ServerWelcome) {
            return Err(wrong_payload_type("ServerWelcome", &msg.payload_type));
        }
        if Id::from_str(payload.assigned_id.as_str()).is_none() {
            return Err(ClientError::PayloadExtraction("invalid assigned id".to_owned()));
        }
        let intro = match sender_id(&msg.from) {
            Some(id) => id,
            None => return Err(ClientError::PayloadExtraction("invalid sender id".to_owned())),
        };
        if intro.0 != self.server_id.0 {
            let peer = PeerServer {
                host: introducer.host.clone(),
                port: introducer.port,
                pubkey: introducer.pubkey.clone(),
            };
            self.servers.insert(intro.0, peer);
        }
        let ghost pinned = self.servers@;
        let self_id = self.server_id.0;
        let mut i: usize = 0;
        while i < payload.servers.len()
            invariant
                self.wf(),
                self.server_id.0 == self_id,
                self.server_id == old(self).server_id,
                self.server_pubkey == old(self).server_pubkey,
                self.config == old(self).config,
                self.local_users == old(self).local_users,
                self.user_locations == old(self).user_locations,
                self.user_pubkeys == old(self).user_pubkeys,
                i <= payload.servers@.len(),
                self.servers@ == after_welcome_servers(pinned, payload.servers@.subrange(0, i as int), self_id),
            decreases payload.servers@.len() - i,
        {
            proof {
                assert(payload.servers@.subrange(0, i as int + 1).drop_last() =~= payload.servers@.subrange(0, i as int));
            }
            let info = &payload.servers[i];
            match Id::from_str(info.server_id.as_str()) {
                Some(id) => {
                    if id.0 != self_id {
                        let peer = PeerServer { host: info.host.clone(), port: info.port, pubkey: info.pubkey.clone() };
                        self.servers.insert(id.0, peer);
                    }
                },
                None => {},
            }
            i = i + 1;
        }
        proof {
            assert(payload.servers@.subrange(0, payload.servers@.len() as int) =~= payload.servers@);
        }
        let mut c: usize = 0;
        while c < payload.clients.len()
            invariant
                self.wf(),
                self.server_id.0 == self_id,
                self.server_id == old(self).server_id,
                self.server_pubkey == old(self).server_pubkey,
                self.config == old(self).config,
                self.local_users == old(self).local_users,
                self.servers@ == after_welcome_servers(pinned, payload.servers@, self_id),
                c <= payload.clients@.len(),
                self.user_locations@ == after_welcome_homes(old(self).user_locations@, payload.clients@.subrange(0, c as int)),
                self.user_pubkeys@ == after_welcome_keys(old(self).user_pubkeys@, payload.clients@.subrange(0, c as int)),
            decreases payload.clients@.len() - c,
        {
            proof {
                assert(payload.clients@.subrange(0, c as int + 1).drop_last() =~= payload.clients@.subrange(0, c as int));
            }
            let info = &payload.clients[c];
            let user = Id::from_str(info.user_id.as_str());
            let server = Id::from_str(info.server_id.as_str());
            match (user, server) {
                (Some(u), Some(s)) => {
                    self.user_locations.insert(u.0, Home::Server(s));
                    self.user_pubkeys.insert(u.0, info.pubkey.clone());
                },
                _ => {},
            }
            c = c + 1;
        }
        proof {
            assert(payload.clients@.subrange(0, payload.clients@.len() as int) =~= payload.clients@);
        }
        self.bootstrapped = true;
        Ok(self.peer_ids())
    }

    /// A peer's heartbeat: accepted from a known peer, which is recorded as
    /// heard from at `now`, and answered `alive` with that time.
    pub fn server_heartbeat(&mut self, msg: &Message, now: i64) -> (r: Result<HeartbeatResponse, ClientError>)
        requires
            old(self).wf(),
        ensures
            final(self).wf(),
            keeps_identity(*final(self), *old(self)),
            r is Ok <==> (msg.payload_type is Heartbeat && msg.from@ is Id
                && old(self).servers@.contains_key(msg.from@->Id_0)),
            !(msg.payload_type is Heartbeat) ==> r matches Err(ClientError::InvalidPayloadType { .. }),
            r is Err ==> *final(self) == *old(self),
            r is Ok ==> r->Ok_0.status@ == "alive"@ && r->Ok_0.timestamp == now,
            r is Ok ==> final(self).peer_last_seen@ == old(self).peer_last_seen@.insert(msg.from@->Id_0, now),
            final(self).servers == old(self).servers,
            final(self).local_users == old(self).local_users,
            final(self).user_locations == old(self).user_locations,
            final(self).pending_messages == old(self).pending_messages,
    {
        if !matches!(msg.payload_type, PayloadType::Heartbeat) {
            return Err(wrong_payload_type("Heartbeat", &msg.payload_type));
        }
        let from = match sender_id(&msg.from) {
            Some(id) => id,
            None => return Err(ClientError::PayloadExtraction("heartbeat must come from a server id".to_owned())),
        };
        if !self.servers.contains(from.0) {
            return Err(ClientError::PayloadExtraction("heartbeat from an unknown server".to_owned()));
        }
        self.peer_last_seen.insert(from.0, now);
        Ok(HeartbeatResponse { status: "alive".to_owned(), timestamp: now })
    }
}

/// Login is not offered yet: every request is answered `NotImplemented`.
pub fn handle_user_login() -> (r: UserLoginResponse)
    ensures
        r.status == Status::NotImplemented,
        r.user is None,
{
    UserLoginResponse { status: Status::NotImplemented, user: None }
}

/// Registration is not offered yet: every request is answered `NotImplemented`.
pub fn handle_user_register() -> (r: UserRegisterResponse)
    ensures
        r.status == Status::NotImplemented,
        r.user is None,
{
    UserRegisterResponse { status: Status::NotImplemented, user: None }
}

} // verus!
