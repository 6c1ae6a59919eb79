//! Payloads of the protocol's envelopes and the answers of its handlers.
use vstd::prelude::*;

verus! {

/// Outcome of a handler.
#[derive(Clone, Copy, Debug, PartialEq, Eq, Structural)]
pub enum Status {
    /// Written `ok` on the wire.
    Success,
    Error,
    NotImplemented,
}

/// Payload of a joining server's hello.
#[derive(Clone, Debug, PartialEq, Eq)]
pub struct ServerHelloJoinPayload {
    pub host: String,
    pub port: u16,
    pub pubkey: String,
}

/// Payload of the welcome that answers a joining server.
#[derive(Clone, Debug, PartialEq, Eq)]
pub struct ServerWelcomePayload {
    pub assigned_id: String,
    pub servers: Vec<ServerInfo>,
    pub clients: Vec<ClientInfo>,
}

/// A server as the welcome lists it.
#[derive(Clone, Debug, PartialEq, Eq)]
pub struct ServerInfo {
    pub server_id: String,
    pub host: String,
    pub port: u16,
    pub pubkey: String,
}

/// A user as the welcome lists it, with its home server.
#[derive(Clone, Debug, PartialEq, Eq)]
pub struct ClientInfo {
    pub user_id: String,
    pub pubkey: String,
    pub server_id: String,
}

/// Payload of a server's announcement of itself.
#[derive(Clone, Debug, PartialEq, Eq)]
pub struct ServerAnnouncePayload {
    pub host: String,
    pub port: u16,
    pub pubkey: String,
}

/// Answer to an announcement.
#[derive(Clone, Debug, PartialEq, Eq)]
pub struct ServerAnnounceResponse {
    pub status: Status,
}

/// Answer to a joining server's hello.
#[derive(Clone, Debug, PartialEq, Eq)]
pub struct ServerHelloJoinResponse {
    pub status: Status,
}

/// Answer to a welcome.
#[derive(Clone, Debug, PartialEq, Eq)]
pub struct ServerWelcomeResponse {
    pub status: Status,
}

/// What a recipient receives with a direct message: the sender's name and
/// key, the ciphertext and the sender's signature of it.
#[derive(Clone, Debug, PartialEq, Eq)]
pub struct UserDeliverPayload {
    pub sender: String,
    pub sender_pub: String,
    pub ciphertext: String,
    pub content_sig: String,
}

/// A direct message forwarded to the recipient's home server.
#[derive(Clone, Debug, PartialEq, Eq)]
pub struct ServerDeliverPayload {
    pub user_id: String,
    pub ciphertext: String,
    pub sender: String,
    pub sender_pub: String,
    pub content_sig: String,
}

/// Answer to a forwarded message.
#[derive(Clone, Debug, PartialEq, Eq)]
pub struct ServerDeliverResponse {
    pub status: String,
}

/// Payload of a direct message as a client sends it.
#[derive(Clone, Debug, PartialEq, Eq)]
pub struct DirectMessagePayload {
    pub content: String,
    pub client: String,
    pub pubkey: String,
    pub enc_pubkey: String,
}

/// A user's request for its queued messages.
#[derive(Clone, Debug, PartialEq, Eq)]
pub struct PollDirectMessagesPayload {
    pub user_id: String,
}

/// A user's heartbeat.
#[derive(Clone, Debug, PartialEq, Eq)]
pub struct HeartbeatPayload {
    pub user_id: String,
}

/// Answer to a peer server's heartbeat.
#[derive(Clone, Debug, PartialEq, Eq)]
pub struct HeartbeatResponse {
    pub status: String,
    pub timestamp: i64,
}

/// A user online, as listed to clients.
#[derive(Clone, Debug, PartialEq, Eq)]
pub struct ListUsersHttpUser {
    pub user_id: String,
    pub display_name: String,
}

/// The users online.
#[derive(Clone, Debug, PartialEq, Eq)]
pub struct ListUsersHttpResponse {
    pub users: Vec<ListUsersHttpUser>,
}

/// The ids of the users online, with a status.
#[derive(Clone, Debug, PartialEq, Eq)]
pub struct ListUsersResponse {
    pub status: String,
    pub users: Vec<String>,
}

/// A public channel post as a client sends it.
#[derive(Clone, Debug, PartialEq, Eq)]
pub struct PublicChannelMessageHttpRequest {
    pub channel_id: String,
    pub from: String,
    pub content: String,
}

/// Answer to a public channel post.
#[derive(Clone, Debug, PartialEq, Eq)]
pub struct PublicChannelMessageHttpResponse {
    pub status: String,
    pub delivered: bool,
}

/// A public channel message as it is kept and polled.
#[derive(Clone, Debug, PartialEq, Eq)]
pub struct PublicChannelMessagePayload {
    pub channel_id: String,
    pub from: String,
    pub content: String,
    pub sent_at: i64,
}

impl PublicChannelMessagePayload {
    /// A copy of the message.
    pub fn duplicate(&self) -> (r: PublicChannelMessagePayload)
        ensures
            r == *self,
    {
        PublicChannelMessagePayload {
            channel_id: self.channel_id.clone(),
            from: self.from.clone(),
            content: self.content.clone(),
            sent_at: self.sent_at,
        }
    }
}

/// Creation of the public channel.
#[derive(Clone, Debug, PartialEq, Eq)]
pub struct PublicChannelAddPayload {
    pub channel_id: String,
    pub name: String,
    pub description: Option<String>,
    pub creator: String,
    pub created_at: i64,
}

/// Update of the public channel.
#[derive(Clone, Debug, PartialEq, Eq)]
pub struct PublicChannelUpdatedPayload {
    pub channel_id: String,
    pub name: Option<String>,
    pub description: Option<String>,
    pub updated_by: String,
    pub updated_at: i64,
}

/// The public channel's shared key blob.
#[derive(Clone, Debug, PartialEq, Eq)]
pub struct PublicChannelKeySharePayload {
    pub channel_id: String,
    pub key: String,
    pub shared_by: String,
    pub shared_at: i64,
}

/// Start of a file transfer.
#[derive(Clone, Debug, PartialEq, Eq)]
pub struct FileTransferStartPayload {
    pub file_id: String,
    pub filename: String,
    pub filesize: u64,
    pub sender: String,
    pub receiver: String,
    pub started_at: i64,
}

/// A chunk of a file transfer.
#[derive(Clone, Debug, PartialEq, Eq)]
pub struct FileTransferChunkPayload {
    pub file_id: String,
    pub chunk_index: u64,
    pub chunk_data: String,
    pub sender: String,
    pub receiver: String,
    pub sent_at: i64,
}

/// End of a file transfer.
#[derive(Clone, Debug, PartialEq, Eq)]
pub struct FileTransferEndPayload {
    pub file_id: String,
    pub sender: String,
    pub receiver: String,
    pub ended_at: i64,
}

/// A server's advertisement of one of its users.
#[derive(Clone, Debug, PartialEq, Eq)]
pub struct UserAdvertisePayload {
    pub user_id: String,
    pub server_id: String,
    pub meta: UserMetadata,
    /// The user's public key, where the advertising server knows it.
    pub pubkey: Option<String>,
}

/// What a user tells about itself.
#[derive(Clone, Debug, PartialEq, Eq)]
pub struct UserMetadata {
    pub display_name: Option<String>,
    pub pronouns: Option<String>,
    pub age: Option<u32>,
    pub avatar_url: Option<String>,
}

/// Answer to an advertisement.
#[derive(Clone, Debug, PartialEq, Eq)]
pub struct UserAdvertiseResponse {
    pub status: String,
}

/// A server's withdrawal of a user.
#[derive(Clone, Debug, PartialEq, Eq)]
pub struct UserRemovePayload {
    pub user_id: String,
    pub server_id: String,
}

/// Answer to a withdrawal.
#[derive(Clone, Debug, PartialEq, Eq)]
pub struct UserRemoveResponse {
    pub status: String,
}

/// A user's hello as it comes over HTTP.
#[derive(Clone, Debug, PartialEq, Eq)]
pub struct UserHelloHttpPayload {
    pub user_id: String,
    pub client: String,
    pub pubkey: String,
    pub enc_pubkey: String,
    pub meta: Option<MetaField>,
}

/// Optional details in a user's hello.
#[derive(Clone, Debug, PartialEq, Eq)]
pub struct MetaField {
    pub display_name: Option<String>,
}

/// Payload of a user's hello envelope.
#[derive(Clone, Debug, PartialEq, Eq)]
pub struct UserHelloPayload {
    pub client: String,
    pub pubkey: String,
    pub enc_pubkey: String,
}

/// A login request.
#[derive(Clone, Debug, PartialEq, Eq)]
pub struct UserLoginPayload {
    pub username: String,
    pub password: Option<String>,
}

/// Answer to a login request.
#[derive(Clone, Debug, PartialEq, Eq)]
pub struct UserLoginResponse {
    pub status: Status,
    pub user: Option<String>,
}

/// A registration request.
#[derive(Clone, Debug, PartialEq, Eq)]
pub struct UserRegisterPayload {
    pub username: String,
    pub pubkey: Option<String>,
}

/// Answer to a registration request.
#[derive(Clone, Debug, PartialEq, Eq)]
pub struct UserRegisterResponse {
    pub status: Status,
    pub user: Option<String>,
}

} // verus!
