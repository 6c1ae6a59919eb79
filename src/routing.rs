//! Routing of direct messages and file events, and the mailboxes that
//! local users poll.
use vstd::prelude::*;

use crate::errors::{wrong_payload_type, ClientError};
use crate::id::{uuid_parse, Id, Identifier, IdentifierView};
use crate::messages::{Message, PayloadType};
use crate::payloads::{ServerDeliverPayload, UserDeliverPayload};
use crate::state::{keeps_identity, AppState, Home, PeerServer};

verus! {

/// Where a direct message went.
#[derive(Clone, Copy, Debug, PartialEq, Eq, Structural)]
pub enum DirectRoute {
    /// Queued for a user hosted here.
    Delivered,
    /// To be forwarded to the recipient's home server, a peer.
    Forward(Id),
}

/// The mailbox a sequence of deliveries leaves, starting from `queue`.
pub open spec fn after_deliveries(queue: Seq<Message>, delivered: Seq<Message>) -> Seq<Message>
    decreases delivered.len(),
{
    if delivered.len() == 0 {
        queue
    } else {
        after_deliveries(queue, delivered.drop_last()).push(delivered.last())
    }
}

/// Deliveries append to a mailbox in the order of delivery: a mailbox that
/// was empty holds exactly the envelopes delivered, which is what the next
/// poll hands over (and the poll after it finds the mailbox empty).
pub proof fn lemma_mailbox_drain(queue: Seq<Message>, delivered: Seq<Message>)
    ensures
        after_deliveries(queue, delivered) == queue + delivered,
        after_deliveries(Seq::empty(), delivered) == delivered,
    decreases delivered.len(),
{
    if delivered.len() > 0 {
        lemma_mailbox_drain(queue, delivered.drop_last());
        lemma_mailbox_drain(Seq::empty(), delivered.drop_last());
        assert(queue + delivered =~= (queue + delivered.drop_last()).push(delivered.last()));
        assert(Seq::<Message>::empty() + delivered.drop_last() =~= delivered.drop_last());
        assert(delivered.drop_last().push(delivered.last()) =~= delivered);
    } else {
        assert(queue + delivered =~= queue);
    }
}

/// The addresses to send to for a list of peers: this node itself and
/// peers without a known address are left out; a node never sends to itself.
pub open spec fn send_targets(peers: Seq<Id>, servers: Map<u128, PeerServer>, me: u128) -> Seq<(String, u16)>
    decreases peers.len(),
{
    if peers.len() == 0 {
        Seq::empty()
    } else {
        let before = send_targets(peers.drop_last(), servers, me);
        let p = peers.last().0;
        if p != me && servers.contains_key(p) {
            before.push((servers[p].host, servers[p].port))
        } else {
            before
        }
    }
}

/// Whether an envelope is the direct message handed to `to`: authored by
/// the server `from`, carrying the given payload and signature.
pub open spec fn is_user_deliver(
    m: Message,
    from: u128,
    to: u128,
    ts: i64,
    payload: serde_json::Value,
    sig: String,
) -> bool {
    &&& m.payload_type is UserDeliver
    &&& m.from@ == IdentifierView::Id(from)
    &&& m.to@ == IdentifierView::Id(to)
    &&& m.ts == ts
    &&& m.payload == payload
    &&& m.sig == sig
}

/// The payload forwarding a direct message to the recipient's home server.
pub fn server_deliver_payload(to: &Identifier, d: &UserDeliverPayload) -> (r: ServerDeliverPayload)
    ensures
        r.user_id@ == to@.text(),
        r.ciphertext == d.ciphertext,
        r.sender == d.sender,
        r.sender_pub == d.sender_pub,
        r.content_sig == d.content_sig,
{
    ServerDeliverPayload {
        user_id: to.as_str(),
        ciphertext: d.ciphertext.clone(),
        sender: d.sender.clone(),
        sender_pub: d.sender_pub.clone(),
        content_sig: d.content_sig.clone(),
    }
}

/// What the recipient receives of a message forwarded by a peer.
pub fn user_deliver_from_forward(p: &ServerDeliverPayload) -> (r: UserDeliverPayload)
    ensures
        r.sender == p.sender,
        r.sender_pub == p.sender_pub,
        r.ciphertext == p.ciphertext,
        r.content_sig == p.content_sig,
{
    UserDeliverPayload {
        sender: p.sender.clone(),
        sender_pub: p.sender_pub.clone(),
        ciphertext: p.ciphertext.clone(),
        content_sig: p.content_sig.clone(),
    }
}

impl AppState {
    /// The envelope in which this server hands a direct message to `to`.
    pub fn user_deliver_envelope(
        &self,
        to: Id,
        ts: i64,
        payload: serde_json::Value,
        sig: String,
    ) -> (r: Message)
        ensures
            is_user_deliver(r, self.server_id.0, to.0, ts, payload, sig),
    {
        Message {
            payload_type: PayloadType::UserDeliver,
            from: Identifier::Id(self.server_id),
            to: Identifier::Id(to),
            ts,
            payload,
            sig,
        }
    }

    /// Appends an envelope to a user's mailbox.
    pub fn enqueue(&mut self, user: Id, m: Message)
        requires
            old(self).wf(),
        ensures
            final(self).wf(),
            keeps_identity(*final(self), *old(self)),
            final(self).mailbox(user.0) == old(self).mailbox(user.0).push(m),
            forall|u: u128| u != user.0 ==> #[trigger] final(self).mailbox(u) == old(self).mailbox(u),
            final(self).pending_messages@.dom() == old(self).pending_messages@.dom().insert(user.0),
            final(self).local_users == old(self).local_users,
            final(self).servers == old(self).servers,
            final(self).user_locations == old(self).user_locations,
            final(self).user_pubkeys == old(self).user_pubkeys,
            final(self).public_channel == old(self).public_channel,
    {
        let mut queue = match self.pending_messages.remove(user.0) {
            Some(q) => q,
            None => Vec::new(),
        };
        queue.push(m);
        self.pending_messages.insert(user.0, queue);
        proof {
            assert(self.pending_messages@.dom() =~= old(self).pending_messages@.dom().insert(user.0));
        }
    }

    /// Hands over, oldest first, everything queued for a user, and empties
    /// the mailbox. A text that is no UUID is refused.
    pub fn poll_direct_messages(&mut self, user_id: &str) -> (r: Result<Vec<Message>, ClientError>)
        requires
            old(self).wf(),
        ensures
            final(self).wf(),
            keeps_identity(*final(self), *old(self)),
            r is Err <==> uuid_parse(user_id@) is None,
            r is Err ==> *final(self) == *old(self),
            r is Err ==> r->Err_0 == (ClientError::InvalidPayloadType {
                expected: r->Err_0->expected,
                actual: r->Err_0->actual,
            }) && r->Err_0->expected@ == "valid user_id"@ && r->Err_0->actual@ == user_id@,
            r is Ok ==> ({
                let u = uuid_parse(user_id@)->Some_0;
                &&& r->Ok_0@ == old(self).mailbox(u)
                &&& final(self).mailbox(u) == Seq::<Message>::empty()
                &&& final(self).pending_messages@ == old(self).pending_messages@.remove(u)
            }),
            final(self).local_users == old(self).local_users,
            final(self).servers == old(self).servers,
            final(self).user_locations == old(self).user_locations,
    {
        let id = match Id::from_str(user_id) {
            Some(id) => id,
            None => {
                return Err(ClientError::InvalidPayloadType {
                    expected: "valid user_id".to_owned(),
                    actual: user_id.to_owned(),
                });
            },
        };
        match self.pending_messages.remove(id.0) {
            Some(q) => Ok(q),
            None => Ok(Vec::new()),
        }
    }

    /// Same as polling the direct messages; an invalid id gets nothing.
    pub fn poll_file_events(&mut self, user_id: &str) -> (r: Vec<Message>)
        requires
            old(self).wf(),
        ensures
            final(self).wf(),
            keeps_identity(*final(self), *old(self)),
            uuid_parse(user_id@) is None ==> r@.len() == 0 && *final(self) == *old(self),
            uuid_parse(user_id@) is Some ==> ({
                let u = uuid_parse(user_id@)->Some_0;
                &&& r@ == old(self).mailbox(u)
                &&& final(self).pending_messages@ == old(self).pending_messages@.remove(u)
            }),
    {
        match self.poll_direct_messages(user_id) {
            Ok(v) => v,
            Err(_) => Vec::new(),
        }
    }

    /// A direct message posted by a user. To a user hosted here it is
    /// queued, wrapped in an envelope this server authors; to a user whose
    /// home is a peer, it is to be forwarded there; else it is dropped with
    /// `UserNotFound`. Envelopes of another type, and sender or recipient
    /// ids that are not user ids, are refused.
    pub fn direct_message(&mut self, msg: &Message, deliver_payload: serde_json::Value, sig: String) -> (r:
        Result<DirectRoute, ClientError>)
        requires
            old(self).wf(),
        ensures
            final(self).wf(),
            keeps_identity(*final(self), *old(self)),
            !(msg.payload_type is MsgDirect) ==> r == Err::<DirectRoute, ClientError>(
                ClientError::InvalidPayloadType { expected: r->Err_0->expected, actual: r->Err_0->actual },
            ) && r->Err_0->expected@ == "MsgDirect"@ && r->Err_0->actual@ == msg.payload_type.variant_name(),
            msg.payload_type is MsgDirect && !(msg.from@ is Id && msg.to@ is Id) ==> r matches Err(
                ClientError::InvalidPayloadType { .. },
            ),
            r is Err ==> *final(self) == *old(self),
            msg.payload_type is MsgDirect && msg.from@ is Id && msg.to@ is Id ==> ({
                let to = msg.to@->Id_0;
                if old(self).local_users@.contains_key(to) {
                    &&& r == Ok::<DirectRoute, ClientError>(DirectRoute::Delivered)
                    &&& final(self).mailbox(to).len() == old(self).mailbox(to).len() + 1
                    &&& final(self).mailbox(to).drop_last() == old(self).mailbox(to)
                    &&& is_user_deliver(final(self).mailbox(to).last(), old(self).server_id.0, to, msg.ts, deliver_payload, sig)
                    &&& forall|u: u128| u != to ==> #[trigger] final(self).mailbox(u) == old(self).mailbox(u)
                    &&& final(self).local_users == old(self).local_users
                    &&& final(self).user_locations == old(self).user_locations
                    &&& final(self).servers == old(self).servers
                } else if old(self).user_locations@.contains_key(to)
                    && old(self).user_locations@[to] is Server
                    && old(self).servers@.contains_key(old(self).user_locations@[to]->Server_0.0) {
                    &&& r == Ok::<DirectRoute, ClientError>(DirectRoute::Forward(old(self).user_locations@[to]->Server_0))
                    &&& *final(self) == *old(self)
                } else {
                    r matches Err(ClientError::UserNotFound(_))
                }
            }),
    {
        if !matches!(msg.payload_type, PayloadType::MsgDirect) {
            return Err(wrong_payload_type("MsgDirect", &msg.payload_type));
        }
        match (&msg.from, &msg.to) {
            (Identifier::Id(_), Identifier::Id(to)) => {
                let to = *to;
                if self.local_users.contains(to.0) {
                    let deliver = self.user_deliver_envelope(to, msg.ts, deliver_payload, sig);
                    self.enqueue(to, deliver);
                    return Ok(DirectRoute::Delivered);
                }
                let home = match self.user_locations.get(to.0) {
                    Some(h) => Some(*h),
                    None => None,
                };
                match home {
                    Some(Home::Server(s)) => {
                        if self.servers.contains(s.0) {
                            return Ok(DirectRoute::Forward(s));
                        }
                    },
                    _ => {},
                }
                Err(ClientError::UserNotFound(to.to_string()))
            },
            _ => Err(ClientError::InvalidPayloadType {
                expected: "Identifier::Id".to_owned(),
                actual: "another identifier".to_owned(),
            }),
        }
    }

    /// A message forwarded by a peer for a user hosted here: it is queued,
    /// wrapped in an envelope this server authors. A recipient not hosted
    /// here is refused with `UserNotFound`.
    pub fn server_deliver(
        &mut self,
        msg: &Message,
        payload: &ServerDeliverPayload,
        deliver_payload: serde_json::Value,
        sig: String,
    ) -> (r: Result<(), ClientError>)
        requires
            old(self).wf(),
        ensures
            final(self).wf(),
            keeps_identity(*final(self), *old(self)),
            !(msg.payload_type is ServerDeliver) ==> r matches Err(ClientError::InvalidPayloadType { .. }),
            r is Ok <==> (msg.payload_type is ServerDeliver && uuid_parse(payload.user_id@) is Some
                && old(self).local_users@.contains_key(uuid_parse(payload.user_id@)->Some_0)),
            msg.payload_type is ServerDeliver && uuid_parse(payload.user_id@) is Some
                && !old(self).local_users@.contains_key(uuid_parse(payload.user_id@)->Some_0)
                ==> r matches Err(ClientError::UserNotFound(_)),
            r is Err ==> *final(self) == *old(self),
            r is Ok ==> ({
                let to = uuid_parse(payload.user_id@)->Some_0;
                &&& final(self).mailbox(to).drop_last() == old(self).mailbox(to)
                &&& final(self).mailbox(to).len() == old(self).mailbox(to).len() + 1
                &&& is_user_deliver(final(self).mailbox(to).last(), old(self).server_id.0, to, msg.ts, deliver_payload, sig)
                &&& forall|u: u128| u != to ==> #[trigger] final(self).mailbox(u) == old(self).mailbox(u)
            }),
    {
        if !matches!(msg.payload_type, PayloadType::ServerDeliver) {
            return Err(wrong_payload_type("ServerDeliver", &msg.payload_type));
        }
        let to = match Id::from_str(payload.user_id.as_str()) {
            Some(id) => id,
            None => return Err(ClientError::PayloadExtraction("invalid user_id".to_owned())),
        };
        if !self.local_users.contains(to.0) {
            return Err(ClientError::UserNotFound(payload.user_id.clone()));
        }
        let deliver = self.user_deliver_envelope(to, msg.ts, deliver_payload, sig);
        self.enqueue(to, deliver);
        Ok(())
    }

    /// A file event of a direct transfer, queued verbatim for its recipient.
    /// Envelopes of another type, and recipients that are not user ids, are refused.
    pub fn file_event(&mut self, msg: Message) -> (r: Result<(), ClientError>)
        requires
            old(self).wf(),
        ensures
            final(self).wf(),
            keeps_identity(*final(self), *old(self)),
            r is Ok <==> ((msg.payload_type is FileStart || msg.payload_type is FileChunk
                || msg.payload_type is FileEnd) && msg.to@ is Id),
            r is Err ==> *final(self) == *old(self),
            r is Ok ==> final(self).mailbox(msg.to@->Id_0) == old(self).mailbox(msg.to@->Id_0).push(msg),
            r is Ok ==> forall|u: u128| u != msg.to@->Id_0 ==> #[trigger] final(self).mailbox(u) == old(self).mailbox(u),
            final(self).local_users == old(self).local_users,
            final(self).servers == old(self).servers,
            final(self).user_locations == old(self).user_locations,
    {
        if !matches!(msg.payload_type, PayloadType::FileStart | PayloadType::FileChunk | PayloadType::FileEnd) {
            return Err(wrong_payload_type("FileStart, FileChunk or FileEnd", &msg.payload_type));
        }
        let to = match &msg.to {
            Identifier::Id(id) => *id,
            _ => {
                return Err(ClientError::InvalidPayloadType {
                    expected: "Identifier::Id".to_owned(),
                    actual: "another identifier".to_owned(),
                });
            },
        };
        self.enqueue(to, msg);
        Ok(())
    }

    /// The name under which a sender is shown: a local user's display
    /// name, else the identifier's text.
    pub fn sender_display_name(&self, from: &Identifier) -> (r: String)
        requires
            self.wf(),
        ensures
            (from@ is Id && self.local_users@.contains_key(from@->Id_0)) ==> r@
                == self.local_users@[from@->Id_0].display_name@,
            !(from@ is Id && self.local_users@.contains_key(from@->Id_0)) ==> r@ == from@.text(),
    {
        match from {
            Identifier::Id(id) => match self.local_users.get(id.0) {
                Some(u) => u.display_name.clone(),
                None => from.as_str(),
            },
            _ => from.as_str(),
        }
    }

    /// The payload of the envelope that hands a user's direct message to
    /// its recipient: who sent it, under what name, and the sender's fields
    /// passed through unread.
    pub fn user_deliver_payload(
        &self,
        from: &Identifier,
        sender_pub: &str,
        ciphertext: &str,
        content_sig: &str,
    ) -> (r: UserDeliverPayload)
        requires
            self.wf(),
        ensures
            (from@ is Id && self.local_users@.contains_key(from@->Id_0)) ==> r.sender@
                == self.local_users@[from@->Id_0].display_name@,
            !(from@ is Id && self.local_users@.contains_key(from@->Id_0)) ==> r.sender@ == from@.text(),
            r.sender_pub@ == sender_pub@,
            r.ciphertext@ == ciphertext@,
            r.content_sig@ == content_sig@,
    {
        UserDeliverPayload {
            sender: self.sender_display_name(from),
            sender_pub: sender_pub.to_owned(),
            ciphertext: ciphertext.to_owned(),
            content_sig: content_sig.to_owned(),
        }
    }

    /// The peers among `peers` to send to, with their addresses: this node
    /// itself and peers without a known address are left out, the order kept.
    pub fn peer_addresses(&self, peers: &Vec<Id>) -> (r: Vec<(String, u16)>)
        requires
            self.wf(),
        ensures
            r@ == send_targets(peers@, self.servers@, self.server_id.0),
    {
        let mut r: Vec<(String, u16)> = Vec::new();
        let mut i: usize = 0;
        while i < peers.len()
            invariant
                self.wf(),
                i <= peers@.len(),
                r@ == send_targets(peers@.subrange(0, i as int), self.servers@, self.server_id.0),
            decreases peers@.len() - i,
        {
            proof {
                assert(peers@.subrange(0, i as int + 1).drop_last() =~= peers@.subrange(0, i as int));
            }
            let p = peers[i];
            if p.0 != self.server_id.0 {
                match self.servers.get(p.0) {
                    Some(s) => r.push((s.host.clone(), s.port)),
                    None => {},
                }
            }
            i = i + 1;
        }
        proof {
            assert(peers@.subrange(0, peers@.len() as int) =~= peers@);
        }
        r
    }
}

} // verus!
