//! Errors of the handlers: those a client caused, and those of the server.
use vstd::prelude::*;

use crate::messages::PayloadType;

verus! {

/// An error caused by what a client or a peer sent; answered with a 400-class status.
#[derive(Clone, Debug, PartialEq, Eq)]
pub enum ClientError {
    /// The body was not valid JSON of the expected shape.
    Deserialization(String),
    /// A value could not be written as JSON.
    Serialization(String),
    /// A signature did not verify.
    InvalidSig,
    /// The envelope, or an identifier in it, was not of the expected kind.
    InvalidPayloadType { expected: String, actual: String },
    /// A field of the payload could not be read.
    PayloadExtraction(String),
    /// The recipient is not known to this node.
    UserNotFound(String),
}

/// An internal failure of the server; answered with a generic 500-class status.
#[derive(Clone, Debug, PartialEq, Eq)]
pub struct ServerError {
    pub message: String,
}

/// Any error of a handler.
#[derive(Clone, Debug, PartialEq, Eq)]
pub enum HandlerError {
    Client(ClientError),
    Server(ServerError),
}

/// The error for an envelope of another payload type than the one expected.
pub fn wrong_payload_type(expected: &str, actual: &PayloadType) -> (r: ClientError)
    ensures
        r == (ClientError::InvalidPayloadType { expected: r->expected, actual: r->actual }),
        r->expected@ == expected@,
        r->actual@ == actual.variant_name(),
{
    ClientError::InvalidPayloadType { expected: expected.to_owned(), actual: actual.name() }
}

} // verus!
