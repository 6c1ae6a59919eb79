//! The public channel: membership, versions, and the bounded logs of its
//! messages and file events.
use vstd::prelude::*;

use crate::errors::{wrong_payload_type, ClientError};
use crate::id::{uuid_parse, Id};
use crate::messages::{Message, PayloadType};
use crate::payloads::{
    PublicChannelAddPayload, PublicChannelKeySharePayload, PublicChannelMessageHttpRequest,
    PublicChannelMessagePayload, PublicChannelUpdatedPayload,
};
use crate::state::{keeps_identity, AppState};

verus! {

/// How many text messages, and how many file events, the channel keeps.
pub const CHANNEL_LOG_LIMIT: usize = 100;

/// A bounded log after an append: the oldest entry goes when the log is full.
pub open spec fn bounded_push<T>(log: Seq<T>, x: T) -> Seq<T> {
    if log.len() >= CHANNEL_LOG_LIMIT {
        log.subrange(1, log.len() as int).push(x)
    } else {
        log.push(x)
    }
}

/// Whether a message is one a reader polling with `since` and `exclude_from` receives.
pub open spec fn is_polled(m: PublicChannelMessagePayload, since: i64, exclude_from: Option<Seq<char>>) -> bool {
    &&& m.sent_at > since
    &&& match exclude_from {
        Some(x) => m.from@ != x,
        None => true,
    }
}

/// The text of an optional excluded sender.
pub open spec fn excluded_text(x: Option<&str>) -> Option<Seq<char>> {
    match x {
        Some(s) => Some(s@),
        None => None,
    }
}

/// The version after a bump; it never wraps.
pub open spec fn bumped(v: u64) -> u64 {
    if v < u64::MAX { (v + 1) as u64 } else { v }
}

fn push_bounded<T>(log: &mut Vec<T>, x: T)
    requires
        old(log)@.len() <= CHANNEL_LOG_LIMIT,
    ensures
        final(log)@ == bounded_push(old(log)@, x),
        final(log)@.len() <= CHANNEL_LOG_LIMIT,
{
    if log.len() >= CHANNEL_LOG_LIMIT {
        log.remove(0);
        proof {
            assert(log@ =~= old(log)@.subrange(1, old(log)@.len() as int));
        }
    }
    log.push(x);
}

impl AppState {
    /// Creation of the public channel: its id, name and description are
    /// set, every local user and the creator (if its id is a UUID) become
    /// members, and the version is bumped.
    pub fn public_channel_add(&mut self, msg: &Message, payload: &PublicChannelAddPayload) -> (r:
        Result<(), ClientError>)
        requires
            old(self).wf(),
        ensures
            final(self).wf(),
            keeps_identity(*final(self), *old(self)),
            r is Ok <==> msg.payload_type is PublicChannelAdd,
            r is Err ==> (r matches Err(ClientError::InvalidPayloadType { .. })) && *final(self) == *old(self),
            r is Ok ==> ({
                let c = final(self).public_channel;
                &&& c.id == Some(payload.channel_id)
                &&& c.name == Some(payload.name)
                &&& c.description == payload.description
                &&& c.version == bumped(old(self).public_channel.version)
                &&& c.members@.dom() == old(self).public_channel.members@.dom().union(
                    old(self).local_users@.dom(),
                ).union(
                    match uuid_parse(payload.creator@) {
                        Some(v) => set![v],
                        None => Set::<u128>::empty(),
                    },
                )
                &&& c.messages == old(self).public_channel.messages
                &&& c.file_events == old(self).public_channel.file_events
                &&& c.key == old(self).public_channel.key
            }),
            final(self).local_users == old(self).local_users,
            final(self).pending_messages == old(self).pending_messages,
    {
        if !matches!(msg.payload_type, PayloadType::PublicChannelAdd) {
            return Err(wrong_payload_type("PublicChannelAdd", &msg.payload_type));
        }
        self.public_channel.id = Some(payload.channel_id.clone());
        self.public_channel.name = Some(payload.name.clone());
        self.public_channel.description = payload.description.clone();
        let ghost members0 = self.public_channel.members@.dom();
        let mut i: usize = 0;
        while i < self.local_users.entries.len()
            invariant
                self.wf(),
                self.local_users == old(self).local_users,
                self.pending_messages == old(self).pending_messages,
                keeps_identity(*self, *old(self)),
                self.public_channel.id == Some(payload.channel_id),
                self.public_channel.name == Some(payload.name),
                self.public_channel.description == payload.description,
                self.public_channel.version == old(self).public_channel.version,
                self.public_channel.messages == old(self).public_channel.messages,
                self.public_channel.file_events == old(self).public_channel.file_events,
                self.public_channel.key == old(self).public_channel.key,
                members0 == old(self).public_channel.members@.dom(),
                i <= self.local_users.entries@.len(),
                self.public_channel.members@.dom() == members0.union(
                    Set::new(|k: u128| exists|b: int| 0 <= b < i && #[trigger] self.local_users.entries@[b].0 == k),
                ),
            decreases self.local_users.entries@.len() - i,
        {
            let k = self.local_users.entries[i].0;
            self.public_channel.members.insert(k, ());
            proof {
                let s0 = Set::new(|q: u128| exists|b: int| 0 <= b < i && #[trigger] self.local_users.entries@[b].0 == q);
                let s1 = Set::new(|q: u128| exists|b: int| 0 <= b < i + 1 && #[trigger] self.local_users.entries@[b].0 == q);
                assert(s1 =~= s0.insert(k)) by {
                    assert forall|q: u128| s1.contains(q) implies #[trigger] s0.insert(k).contains(q) by {
                        let b = choose|b: int| 0 <= b < i + 1 && #[trigger] self.local_users.entries@[b].0 == q;
                        if b < i {
                            assert(s0.contains(q));
                        }
                    }
                    assert forall|q: u128| s0.insert(k).contains(q) implies #[trigger] s1.contains(q) by {
                        if q == k {
                            assert(self.local_users.entries@[i as int].0 == q);
                        } else {
                            let b = choose|b: int| 0 <= b < i && #[trigger] self.local_users.entries@[b].0 == q;
                            assert(self.local_users.entries@[b].0 == q);
                        }
                    }
                }
                assert(self.public_channel.members@.dom() =~= members0.union(s1));
            }
            i = i + 1;
        }
        proof {
            let s = Set::new(|k: u128| exists|b: int| 0 <= b < i && #[trigger] self.local_users.entries@[b].0 == k);
            assert(s =~= self.local_users@.dom()) by {
                assert forall|k: u128| s.contains(k) implies #[trigger] self.local_users@.dom().contains(k) by {
                    let b = choose|b: int| 0 <= b < i && #[trigger] self.local_users.entries@[b].0 == k;
                    self.local_users.lemma_entry(b);
                }
                assert forall|k: u128| self.local_users@.dom().contains(k) implies #[trigger] s.contains(k) by {
                    let b = self.local_users.index_of(k);
                    assert(self.local_users.entries@[b].0 == k);
                }
            }
        }
        let ghost before = self.public_channel.members@.dom();
        match Id::from_str(payload.creator.as_str()) {
            Some(c) => {
                self.public_channel.members.insert(c.0, ());
                proof {
                    assert(self.public_channel.members@.dom() =~= before.union(set![c.0]));
                }
            },
            None => {
                proof {
                    assert(before =~= before.union(Set::<u128>::empty()));
                }
            },
        }
        if self.public_channel.version < u64::MAX {
            self.public_channel.version = self.public_channel.version + 1;
        }
        Ok(())
    }

    /// An update of the public channel: the name and description are
    /// replaced by those given, and the version is bumped.
    pub fn public_channel_updated(&mut self, msg: &Message, payload: &PublicChannelUpdatedPayload) -> (r:
        Result<(), ClientError>)
        requires
            old(self).wf(),
        ensures
            final(self).wf(),
            keeps_identity(*final(self), *old(self)),
            r is Ok <==> msg.payload_type is PublicChannelUpdated,
            r is Err ==> (r matches Err(ClientError::InvalidPayloadType { .. })) && *final(self) == *old(self),
            r is Ok ==> ({
                let c = final(self).public_channel;
                let c0 = old(self).public_channel;
                &&& c.name == payload.name
                &&& c.description == payload.description
                &&& c.version == bumped(c0.version)
                &&& c.id == c0.id
                &&& c.key == c0.key
                &&& c.members == c0.members
                &&& c.messages == c0.messages
                &&& c.file_events == c0.file_events
            }),
            final(self).local_users == old(self).local_users,
            final(self).pending_messages == old(self).pending_messages,
    {
        if !matches!(msg.payload_type, PayloadType::PublicChannelUpdated) {
            return Err(wrong_payload_type("PublicChannelUpdated", &msg.payload_type));
        }
        self.public_channel.name = payload.name.clone();
        self.public_channel.description = payload.description.clone();
        if self.public_channel.version < u64::MAX {
            self.public_channel.version = self.public_channel.version + 1;
        }
        Ok(())
    }

    /// The channel's shared key blob is stored as given.
    pub fn public_channel_key_share(&mut self, msg: &Message, payload: &PublicChannelKeySharePayload) -> (r:
        Result<(), ClientError>)
        requires
            old(self).wf(),
        ensures
            final(self).wf(),
            keeps_identity(*final(self), *old(self)),
            r is Ok <==> msg.payload_type is PublicChannelKeyShare,
            r is Err ==> (r matches Err(ClientError::InvalidPayloadType { .. })) && *final(self) == *old(self),
            r is Ok ==> final(self).public_channel.key == Some(payload.key),
            r is Ok ==> final(self).public_channel.version == old(self).public_channel.version,
            final(self).local_users == old(self).local_users,
            final(self).pending_messages == old(self).pending_messages,
    {
        if !matches!(msg.payload_type, PayloadType::PublicChannelKeyShare) {
            return Err(wrong_payload_type("PublicChannelKeyShare", &msg.payload_type));
        }
        self.public_channel.key = Some(payload.key.clone());
        Ok(())
    }

    /// A post to the public channel, kept with the time it was received;
    /// when the log is full its oldest message goes.
    pub fn public_channel_message(&mut self, req: &PublicChannelMessageHttpRequest, sent_at: i64) -> (r:
        PublicChannelMessagePayload)
        requires
            old(self).wf(),
        ensures
            final(self).wf(),
            keeps_identity(*final(self), *old(self)),
            r.channel_id == req.channel_id,
            r.from == req.from,
            r.content == req.content,
            r.sent_at == sent_at,
            final(self).public_channel.messages@ == bounded_push(old(self).public_channel.messages@, r),
            final(self).public_channel.file_events == old(self).public_channel.file_events,
            final(self).local_users == old(self).local_users,
            final(self).pending_messages == old(self).pending_messages,
    {
        let m = PublicChannelMessagePayload {
            channel_id: req.channel_id.clone(),
            from: req.from.clone(),
            content: req.content.clone(),
            sent_at,
        };
        push_bounded(&mut self.public_channel.messages, m.duplicate());
        m
    }

    /// A file event of the public channel, kept verbatim; when the log is
    /// full its oldest event goes.
    pub fn public_channel_file_event(&mut self, msg: Message)
        requires
            old(self).wf(),
        ensures
            final(self).wf(),
            keeps_identity(*final(self), *old(self)),
            final(self).public_channel.file_events@ == bounded_push(old(self).public_channel.file_events@, msg),
            final(self).public_channel.messages == old(self).public_channel.messages,
            final(self).local_users == old(self).local_users,
            final(self).pending_messages == old(self).pending_messages,
    {
        push_bounded(&mut self.public_channel.file_events, msg);
    }

    /// The kept messages sent after `since`, but those of `exclude_from`,
    /// oldest first. The log is left as it is.
    pub fn poll_public_channel_messages(&self, since: i64, exclude_from: Option<&str>) -> (r: Vec<
        PublicChannelMessagePayload,
    >)
        requires
            self.wf(),
        ensures
            r@ == self.public_channel.messages@.filter(
                |m: PublicChannelMessagePayload| is_polled(m, since, excluded_text(exclude_from)),
            ),
    {
        let ghost pred = |m: PublicChannelMessagePayload| is_polled(m, since, excluded_text(exclude_from));
        let log = &self.public_channel.messages;
        let mut r: Vec<PublicChannelMessagePayload> = Vec::new();
        let mut i: usize = 0;
        while i < log.len()
            invariant
                i <= log@.len(),
                pred == (|m: PublicChannelMessagePayload| is_polled(m, since, excluded_text(exclude_from))),
                r@ == log@.subrange(0, i as int).filter(pred),
            decreases log@.len() - i,
        {
            let m = &log[i];
            let keep = m.sent_at > since && match exclude_from {
                Some(x) => !(m.from == x.to_owned()),
                None => true,
            };
            if keep {
                r.push(m.duplicate());
            }
            proof {
                let s1 = log@.subrange(0, i as int + 1);
                assert(s1.drop_last() =~= log@.subrange(0, i as int));
                assert(s1.last() == log@[i as int]);
                assert(keep == pred(log@[i as int]));
                reveal(Seq::filter);
                assert(r@ =~= s1.filter(pred));
            }
            i = i + 1;
        }
        proof {
            assert(log@.subrange(0, log@.len() as int) =~= log@);
        }
        r
    }

    /// The kept file events stamped after `since`, oldest first.
    pub fn poll_public_channel_file_events(&self, since: i64) -> (r: Vec<Message>)
        requires
            self.wf(),
        ensures
            r@ == self.public_channel.file_events@.filter(|m: Message| m.ts > since),
    {
        let ghost pred = |m: Message| m.ts > since;
        let log = &self.public_channel.file_events;
        let mut r: Vec<Message> = Vec::new();
        let mut i: usize = 0;
        while i < log.len()
            invariant
                i <= log@.len(),
                pred == (|m: Message| m.ts > since),
                r@ == log@.subrange(0, i as int).filter(pred),
            decreases log@.len() - i,
        {
            if log[i].ts > since {
                r.push(log[i].duplicate());
            }
            proof {
                let s1 = log@.subrange(0, i as int + 1);
                assert(s1.drop_last() =~= log@.subrange(0, i as int));
                assert(s1.last() == log@[i as int]);
                reveal(Seq::filter);
                assert(r@ =~= s1.filter(pred));
            }
            i = i + 1;
        }
        proof {
            assert(log@.subrange(0, log@.len() as int) =~= log@);
        }
        r
    }

    /// A public channel message relayed by a peer: accepted as it is, and
    /// reported as coming from a member or not.
    pub fn handle_public_channel_message(&self, msg: &Message, payload: &PublicChannelMessagePayload) -> (r:
        Result<bool, ClientError>)
        requires
            self.wf(),
        ensures
            r is Ok <==> msg.payload_type is MsgPublicChannel,
            r is Err ==> (r matches Err(ClientError::InvalidPayloadType { .. })),
            r is Ok ==> r->Ok_0 == (uuid_parse(payload.from@) is Some
                && self.public_channel.members@.contains_key(uuid_parse(payload.from@)->Some_0)),
    {
        if !matches!(msg.payload_type, PayloadType::MsgPublicChannel) {
            return Err(wrong_payload_type("MsgPublicChannel", &msg.payload_type));
        }
        match Id::from_str(payload.from.as_str()) {
            Some(id) => Ok(self.public_channel.members.contains(id.0)),
            None => Ok(false),
        }
    }
}

} // verus!
