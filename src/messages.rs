//! The protocol's message envelope, its payload types and error codes.
use vstd::prelude::*;

use crate::id::{same_text, Identifier};

verus! {

#[verifier::external_type_specification]
#[verifier::external_body]
pub struct ExJsonValue(serde_json::Value);

/// Relies on serde_json::Value's derived Clone: a copy equal to the value cloned.
pub assume_specification[ <serde_json::Value as Clone>::clone ](v: &serde_json::Value) -> (r: serde_json::Value)
    ensures
        r == *v,
;

/// The closed set of payload types; an unknown tag is kept as `InvalidType`.
#[derive(Clone, Debug, PartialEq, Eq)]
pub enum PayloadType {
    /// A tag outside the protocol, as it was received.
    InvalidType(String),
    /// A server joining the network.
    ServerHelloJoin,
    /// A member's answer to a joining server.
    ServerWelcome,
    /// A server announcing itself.
    ServerAnnounce,
    /// A server advertising a local user.
    UserAdvertise,
    /// A server withdrawing a user.
    UserRemove,
    /// A message forwarded to a remote user's server.
    ServerDeliver,
    /// Liveness of a peer server.
    Heartbeat,
    /// A user announcing itself to its home server.
    UserHello,
    /// A request for the users online.
    ListUsers,
    /// A login request.
    UserLogin,
    /// A registration request.
    UserRegister,
    /// A direct message from a user.
    MsgDirect,
    /// A direct message handed to its recipient.
    UserDeliver,
    /// Creation of the public channel.
    PublicChannelAdd,
    /// An update of the public channel.
    PublicChannelUpdated,
    /// The public channel's shared key.
    PublicChannelKeyShare,
    /// A public channel message.
    MsgPublicChannel,
    /// Start of a file transfer.
    FileStart,
    /// A chunk of a file transfer.
    FileChunk,
    /// End of a file transfer.
    FileEnd,
    /// An acknowledgement.
    Ack,
    /// An error report.
    Error,
}

/// Whether a text is one of the protocol's payload tags.
pub open spec fn is_payload_tag(s: Seq<char>) -> bool {
    s == "SERVER_HELLO_JOIN"@
    || s == "SERVER_WELCOME"@
    || s == "SERVER_ANNOUNCE"@
    || s == "USER_ADVERTISE"@
    || s == "USER_REMOVE"@
    || s == "SERVER_DELIVER"@
    || s == "HEARTBEAT"@
    || s == "USER_HELLO"@
    || s == "LIST_USERS"@
    || s == "USER_LOGIN"@
    || s == "USER_REGISTER"@
    || s == "MSG_DIRECT"@
    || s == "USER_DELIVER"@
    || s == "PUBLIC_CHANNEL_ADD"@
    || s == "PUBLIC_CHANNEL_UPDATED"@
    || s == "PUBLIC_CHANNEL_KEY_SHARE"@
    || s == "MSG_PUBLIC_CHANNEL"@
    || s == "FILE_START"@
    || s == "FILE_CHUNK"@
    || s == "FILE_END"@
    || s == "ACK"@
    || s == "ERROR"@
}

impl PayloadType {
    /// The wire tag of a payload type; the raw text for an unknown one.
    pub open spec fn wire_name(self) -> Seq<char> {
        match self {
            PayloadType::InvalidType(raw) => raw@,
            PayloadType::ServerHelloJoin => "SERVER_HELLO_JOIN"@,
            PayloadType::ServerWelcome => "SERVER_WELCOME"@,
            PayloadType::ServerAnnounce => "SERVER_ANNOUNCE"@,
            PayloadType::UserAdvertise => "USER_ADVERTISE"@,
            PayloadType::UserRemove => "USER_REMOVE"@,
            PayloadType::ServerDeliver => "SERVER_DELIVER"@,
            PayloadType::Heartbeat => "HEARTBEAT"@,
            PayloadType::UserHello => "USER_HELLO"@,
            PayloadType::ListUsers => "LIST_USERS"@,
            PayloadType::UserLogin => "USER_LOGIN"@,
            PayloadType::UserRegister => "USER_REGISTER"@,
            PayloadType::MsgDirect => "MSG_DIRECT"@,
            PayloadType::UserDeliver => "USER_DELIVER"@,
            PayloadType::PublicChannelAdd => "PUBLIC_CHANNEL_ADD"@,
            PayloadType::PublicChannelUpdated => "PUBLIC_CHANNEL_UPDATED"@,
            PayloadType::PublicChannelKeyShare => "PUBLIC_CHANNEL_KEY_SHARE"@,
            PayloadType::MsgPublicChannel => "MSG_PUBLIC_CHANNEL"@,
            PayloadType::FileStart => "FILE_START"@,
            PayloadType::FileChunk => "FILE_CHUNK"@,
            PayloadType::FileEnd => "FILE_END"@,
            PayloadType::Ack => "ACK"@,
            PayloadType::Error => "ERROR"@,
        }
    }

    /// The name of the variant, as error reports give it.
    pub open spec fn variant_name(self) -> Seq<char> {
        match self {
            PayloadType::InvalidType(_) => "InvalidType"@,
            PayloadType::ServerHelloJoin => "ServerHelloJoin"@,
            PayloadType::ServerWelcome => "ServerWelcome"@,
            PayloadType::ServerAnnounce => "ServerAnnounce"@,
            PayloadType::UserAdvertise => "UserAdvertise"@,
            PayloadType::UserRemove => "UserRemove"@,
            PayloadType::ServerDeliver => "ServerDeliver"@,
            PayloadType::Heartbeat => "Heartbeat"@,
            PayloadType::UserHello => "UserHello"@,
            PayloadType::ListUsers => "ListUsers"@,
            PayloadType::UserLogin => "UserLogin"@,
            PayloadType::UserRegister => "UserRegister"@,
            PayloadType::MsgDirect => "MsgDirect"@,
            PayloadType::UserDeliver => "UserDeliver"@,
            PayloadType::PublicChannelAdd => "PublicChannelAdd"@,
            PayloadType::PublicChannelUpdated => "PublicChannelUpdated"@,
            PayloadType::PublicChannelKeyShare => "PublicChannelKeyShare"@,
            PayloadType::MsgPublicChannel => "MsgPublicChannel"@,
            PayloadType::FileStart => "FileStart"@,
            PayloadType::FileChunk => "FileChunk"@,
            PayloadType::FileEnd => "FileEnd"@,
            PayloadType::Ack => "Ack"@,
            PayloadType::Error => "Error"@,
        }
    }

    /// The name of the variant, as error reports give it.
    pub fn name(&self) -> (r: String)
        ensures
            r@ == self.variant_name(),
    {
        let s = match self {
            PayloadType::InvalidType(_) => "InvalidType",
            PayloadType::ServerHelloJoin => "ServerHelloJoin",
            PayloadType::ServerWelcome => "ServerWelcome",
            PayloadType::ServerAnnounce => "ServerAnnounce",
            PayloadType::UserAdvertise => "UserAdvertise",
            PayloadType::UserRemove => "UserRemove",
            PayloadType::ServerDeliver => "ServerDeliver",
            PayloadType::Heartbeat => "Heartbeat",
            PayloadType::UserHello => "UserHello",
            PayloadType::ListUsers => "ListUsers",
            PayloadType::UserLogin => "UserLogin",
            PayloadType::UserRegister => "UserRegister",
            PayloadType::MsgDirect => "MsgDirect",
            PayloadType::UserDeliver => "UserDeliver",
            PayloadType::PublicChannelAdd => "PublicChannelAdd",
            PayloadType::PublicChannelUpdated => "PublicChannelUpdated",
            PayloadType::PublicChannelKeyShare => "PublicChannelKeyShare",
            PayloadType::MsgPublicChannel => "MsgPublicChannel",
            PayloadType::FileStart => "FileStart",
            PayloadType::FileChunk => "FileChunk",
            PayloadType::FileEnd => "FileEnd",
            PayloadType::Ack => "Ack",
            PayloadType::Error => "Error",
        };
        s.to_owned()
    }

    /// A copy of the payload type.
    pub fn duplicate(&self) -> (r: PayloadType)
        ensures
            r == *self,
    {
        match self {
            PayloadType::InvalidType(raw) => PayloadType::InvalidType(raw.clone()),
            PayloadType::ServerHelloJoin => PayloadType::ServerHelloJoin,
            PayloadType::ServerWelcome => PayloadType::ServerWelcome,
            PayloadType::ServerAnnounce => PayloadType::ServerAnnounce,
            PayloadType::UserAdvertise => PayloadType::UserAdvertise,
            PayloadType::UserRemove => PayloadType::UserRemove,
            PayloadType::ServerDeliver => PayloadType::ServerDeliver,
            PayloadType::Heartbeat => PayloadType::Heartbeat,
            PayloadType::UserHello => PayloadType::UserHello,
            PayloadType::ListUsers => PayloadType::ListUsers,
            PayloadType::UserLogin => PayloadType::UserLogin,
            PayloadType::UserRegister => PayloadType::UserRegister,
            PayloadType::MsgDirect => PayloadType::MsgDirect,
            PayloadType::UserDeliver => PayloadType::UserDeliver,
            PayloadType::PublicChannelAdd => PayloadType::PublicChannelAdd,
            PayloadType::PublicChannelUpdated => PayloadType::PublicChannelUpdated,
            PayloadType::PublicChannelKeyShare => PayloadType::PublicChannelKeyShare,
            PayloadType::MsgPublicChannel => PayloadType::MsgPublicChannel,
            PayloadType::FileStart => PayloadType::FileStart,
            PayloadType::FileChunk => PayloadType::FileChunk,
            PayloadType::FileEnd => PayloadType::FileEnd,
            PayloadType::Ack => PayloadType::Ack,
            PayloadType::Error => PayloadType::Error,
        }
    }

    /// The wire tag of the payload type; the raw text for an unknown one.
    pub fn wire_tag(&self) -> (r: String)
        ensures
            r@ == self.wire_name(),
    {
        match self {
            PayloadType::InvalidType(raw) => raw.clone(),
            PayloadType::ServerHelloJoin => "SERVER_HELLO_JOIN".to_owned(),
            PayloadType::ServerWelcome => "SERVER_WELCOME".to_owned(),
            PayloadType::ServerAnnounce => "SERVER_ANNOUNCE".to_owned(),
            PayloadType::UserAdvertise => "USER_ADVERTISE".to_owned(),
            PayloadType::UserRemove => "USER_REMOVE".to_owned(),
            PayloadType::ServerDeliver => "SERVER_DELIVER".to_owned(),
            PayloadType::Heartbeat => "HEARTBEAT".to_owned(),
            PayloadType::UserHello => "USER_HELLO".to_owned(),
            PayloadType::ListUsers => "LIST_USERS".to_owned(),
            PayloadType::UserLogin => "USER_LOGIN".to_owned(),
            PayloadType::UserRegister => "USER_REGISTER".to_owned(),
            PayloadType::MsgDirect => "MSG_DIRECT".to_owned(),
            PayloadType::UserDeliver => "USER_DELIVER".to_owned(),
            PayloadType::PublicChannelAdd => "PUBLIC_CHANNEL_ADD".to_owned(),
            PayloadType::PublicChannelUpdated => "PUBLIC_CHANNEL_UPDATED".to_owned(),
            PayloadType::PublicChannelKeyShare => "PUBLIC_CHANNEL_KEY_SHARE".to_owned(),
            PayloadType::MsgPublicChannel => "MSG_PUBLIC_CHANNEL".to_owned(),
            PayloadType::FileStart => "FILE_START".to_owned(),
            PayloadType::FileChunk => "FILE_CHUNK".to_owned(),
            PayloadType::FileEnd => "FILE_END".to_owned(),
            PayloadType::Ack => "ACK".to_owned(),
            PayloadType::Error => "ERROR".to_owned(),
        }
    }

    /// Reads a wire tag. The match is exact: case-sensitive, with no
    /// trimming; any other text gives `InvalidType` holding it.
    pub fn from(value: &str) -> (r: PayloadType)
        ensures
            r.wire_name() == value@,
            r is InvalidType <==> !is_payload_tag(value@),
    {
        if same_text(value, "SERVER_HELLO_JOIN") {
            return PayloadType::ServerHelloJoin;
        }
        if same_text(value, "SERVER_WELCOME") {
            return PayloadType::ServerWelcome;
        }
        if same_text(value, "SERVER_ANNOUNCE") {
            return PayloadType::ServerAnnounce;
        }
        if same_text(value, "USER_ADVERTISE") {
            return PayloadType::UserAdvertise;
        }
        if same_text(value, "USER_REMOVE") {
            return PayloadType::UserRemove;
        }
        if same_text(value, "SERVER_DELIVER") {
            return PayloadType::ServerDeliver;
        }
        if same_text(value, "HEARTBEAT") {
            return PayloadType::Heartbeat;
        }
        if same_text(value, "USER_HELLO") {
            return PayloadType::UserHello;
        }
        if same_text(value, "LIST_USERS") {
            return PayloadType::ListUsers;
        }
        if same_text(value, "USER_LOGIN") {
            return PayloadType::UserLogin;
        }
        if same_text(value, "USER_REGISTER") {
            return PayloadType::UserRegister;
        }
        if same_text(value, "MSG_DIRECT") {
            return PayloadType::MsgDirect;
        }
        if same_text(value, "USER_DELIVER") {
            return PayloadType::UserDeliver;
        }
        if same_text(value, "PUBLIC_CHANNEL_ADD") {
            return PayloadType::PublicChannelAdd;
        }
        if same_text(value, "PUBLIC_CHANNEL_UPDATED") {
            return PayloadType::PublicChannelUpdated;
        }
        if same_text(value, "PUBLIC_CHANNEL_KEY_SHARE") {
            return PayloadType::PublicChannelKeyShare;
        }
        if same_text(value, "MSG_PUBLIC_CHANNEL") {
            return PayloadType::MsgPublicChannel;
        }
        if same_text(value, "FILE_START") {
            return PayloadType::FileStart;
        }
        if same_text(value, "FILE_CHUNK") {
            return PayloadType::FileChunk;
        }
        if same_text(value, "FILE_END") {
            return PayloadType::FileEnd;
        }
        if same_text(value, "ACK") {
            return PayloadType::Ack;
        }
        if same_text(value, "ERROR") {
            return PayloadType::Error;
        }
        PayloadType::InvalidType(value.to_owned())
    }
}

/// The closed set of error codes; an unknown code reads as `InvalidErrorCode`.
#[derive(Clone, Copy, Debug, PartialEq, Eq, Structural)]
pub enum ErrorCode {
    /// A code outside the protocol.
    InvalidErrorCode,
    /// The user is not known.
    UserNotFound,
    /// A signature does not verify.
    InvalidSig,
    /// A public key is malformed.
    BadKey,
    /// An operation timed out.
    Timeout,
    /// The payload type is unknown.
    UnknownType,
    /// The name is taken.
    NameInUse,
}

impl ErrorCode {
    /// The wire text of an error code; empty for an unknown one.
    pub open spec fn wire_name(self) -> Seq<char> {
        match self {
            ErrorCode::InvalidErrorCode => Seq::empty(),
            ErrorCode::UserNotFound => "USER_NOT_FOUND"@,
            ErrorCode::InvalidSig => "INVALID_SIG"@,
            ErrorCode::BadKey => "BAD_KEY"@,
            ErrorCode::Timeout => "TIMEOUT"@,
            ErrorCode::UnknownType => "UNKNOWN_TYPE"@,
            ErrorCode::NameInUse => "NAME_IN_USE"@,
        }
    }

    /// Reads a wire code, exactly: case-sensitive and with no trimming.
    pub fn from(value: &str) -> (r: ErrorCode)
        ensures
            r is InvalidErrorCode <==> !(value@ == "USER_NOT_FOUND"@ || value@ == "INVALID_SIG"@ || value@ == "BAD_KEY"@ || value@ == "TIMEOUT"@ || value@ == "UNKNOWN_TYPE"@ || value@ == "NAME_IN_USE"@),
            !(r is InvalidErrorCode) ==> r.wire_name() == value@,
    {
        if same_text(value, "USER_NOT_FOUND") {
            return ErrorCode::UserNotFound;
        }
        if same_text(value, "INVALID_SIG") {
            return ErrorCode::InvalidSig;
        }
        if same_text(value, "BAD_KEY") {
            return ErrorCode::BadKey;
        }
        if same_text(value, "TIMEOUT") {
            return ErrorCode::Timeout;
        }
        if same_text(value, "UNKNOWN_TYPE") {
            return ErrorCode::UnknownType;
        }
        if same_text(value, "NAME_IN_USE") {
            return ErrorCode::NameInUse;
        }
        ErrorCode::InvalidErrorCode
    }
}

} // verus!

verus! {

/// The envelope of every protocol exchange. The payload is carried as it
/// came; its shape is given by the payload type.
#[derive(Clone, Debug)]
pub struct Message {
    pub payload_type: PayloadType,
    pub from: Identifier,
    pub to: Identifier,
    /// Milliseconds since the epoch.
    pub ts: i64,
    pub payload: serde_json::Value,
    /// Base64 signature over the envelope written with an empty `sig`.
    pub sig: String,
}

impl Message {
    /// A copy of the envelope.
    pub fn duplicate(&self) -> (r: Message)
        ensures
            r == *self,
    {
        Message {
            payload_type: self.payload_type.duplicate(),
            from: self.from.duplicate(),
            to: self.to.duplicate(),
            ts: self.ts,
            payload: self.payload.clone(),
            sig: self.sig.clone(),
        }
    }
}

/// Builds an envelope around a payload.
pub fn message_from_payload(
    ptype: PayloadType,
    from: Identifier,
    to: Identifier,
    ts: i64,
    payload: serde_json::Value,
    sig: String,
) -> (r: Message)
    ensures
        r.payload_type == ptype,
        r.from == from,
        r.to == to,
        r.ts == ts,
        r.payload == payload,
        r.sig == sig,
{
    Message { payload_type: ptype, from, to, ts, payload, sig }
}

} // verus!
