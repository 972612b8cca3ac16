//! The messages that client and server exchange.
//!
//! Incoming messages carry their parameters untyped, as JSON values that the
//! library hands on without looking inside. What the server sends is typed.

use vstd::prelude::*;
use crate::diagnostics::{DiagnosticsNotification, Range};

verus! {

/// `serde_json::Value`, an untyped JSON value. The library carries such
/// values and never reads them: nothing is known of what one holds.
#[verifier::external_type_specification]
#[verifier::external_body]
pub struct ExJsonValue(serde_json::Value);

/// Correlates a request with its response. Clients choose numbers or strings.
#[derive(Clone, Debug, PartialEq, Eq)]
pub enum RequestId {
    Number(i32),
    Text(String),
}

/// A call that expects exactly one response with the same identifier.
#[derive(Debug, PartialEq)]
pub struct Request {
    pub id: RequestId,
    pub method: String,
    pub params: serde_json::Value,
}

/// A message that expects no answer.
#[derive(Debug, PartialEq)]
pub struct Notification {
    pub method: String,
    pub params: serde_json::Value,
}

/// A place in a document: the document's URI and a range within it.
#[derive(Debug, PartialEq, Eq)]
pub struct Location {
    pub uri: String,
    pub range: Range,
}

/// What a successful response carries.
#[derive(Debug, PartialEq)]
pub enum Payload {
    /// Nothing but the acknowledgment itself.
    Acknowledged,
    /// A list of places in documents.
    Locations(Vec<Location>),
    /// A value that was received and not interpreted.
    Untyped(serde_json::Value),
}

/// Why a request failed, as the protocol reports it.
#[derive(Debug, PartialEq)]
pub struct ResponseError {
    pub code: i32,
    pub message: String,
    pub data: Option<serde_json::Value>,
}

/// A response carries either a result or an error, never both.
#[derive(Debug, PartialEq)]
pub enum Outcome {
    Result(Payload),
    Error(ResponseError),
}

/// The answer to the request with the same identifier.
#[derive(Debug, PartialEq)]
pub struct Response {
    pub id: RequestId,
    pub outcome: Outcome,
}

/// A message as it arrives.
#[derive(Debug, PartialEq)]
pub enum Message {
    Request(Request),
    Response(Response),
    Notification(Notification),
}

/// A message that the server sends.
#[derive(Debug, PartialEq)]
pub enum Outgoing {
    Response(Response),
    Diagnostics(DiagnosticsNotification),
}

impl Response {
    /// The response that acknowledges the request `id` without content.
    pub fn acknowledge(id: RequestId) -> (response: Response)
        ensures
            response == (Response { id, outcome: Outcome::Result(Payload::Acknowledged) }),
    {
        Response { id, outcome: Outcome::Result(Payload::Acknowledged) }
    }

    /// The response that answers the request `id` with an empty list of
    /// locations.
    pub fn no_locations(id: RequestId) -> (response: Response)
        ensures
            response.id == id,
            response.outcome matches Outcome::Result(Payload::Locations(found))
                && found@.len() == 0,
    {
        Response { id, outcome: Outcome::Result(Payload::Locations(Vec::new())) }
    }
}

} // verus!
