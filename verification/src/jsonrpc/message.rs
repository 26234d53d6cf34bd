//! Requests and responses, in both directions.

use super::error::{outcome, Error, ErrorView, Result};
use serde_json::Value;
use vstd::prelude::*;

verus! {

/// What ties a response to its request.
#[derive(Debug, PartialEq, Eq, Hash)]
pub enum Id {
    /// A number.
    Number(i64),
    /// A string.
    String(String),
    /// No id that could be told.
    Null,
}

/// A request, or without an id a notification, that the server received.
#[derive(Debug, PartialEq)]
pub struct Request {
    /// The name of the method.
    pub method: String,
    /// The `params` field, where the message has one.
    pub params: Option<Value>,
    /// The `id` field, which a notification has not.
    pub id: Option<Id>,
}

impl Request {
    /// The name of the method.
    pub fn method(&self) -> (r: &str)
        ensures
            r@ == self.method@,
    {
        self.method.as_str()
    }

    /// The method, the id and the parameters.
    pub fn into_parts(self) -> (r: (String, Option<Id>, Option<Value>))
        ensures
            r == (self.method, self.id, self.params),
    {
        (self.method, self.id, self.params)
    }
}

/// The answer to a request.
#[derive(Debug, PartialEq)]
pub struct Response {
    /// The id of the request.
    pub id: Id,
    /// What the request gave.
    pub result: Result<Value>,
}

/// What a [`Response`] says.
pub struct ResponseView {
    pub id: Id,
    pub result: std::result::Result<Value, ErrorView>,
}

impl View for Response {
    type V = ResponseView;

    open spec fn view(&self) -> ResponseView {
        ResponseView { id: self.id, result: outcome(self.result) }
    }
}

/// What an answer, or the lack of one, says.
pub open spec fn reply(response: Option<Response>) -> Option<ResponseView> {
    match response {
        Some(response) => Some(response@),
        None => None,
    }
}

/// How a message with this `id` is answered with `error`: a request is, a
/// notification is not.
pub open spec fn refusal(id: Option<Id>, error: ErrorView) -> Option<ResponseView> {
    match id {
        Some(id) => Some(ResponseView { id, result: Err(error) }),
        None => None,
    }
}

impl Response {
    /// A successful response.
    pub fn ok(id: Id, result: Value) -> (r: Response)
        ensures
            r@ == (ResponseView { id, result: Ok(result) }),
            r.id == id,
            r.result == Ok::<Value, Error>(result),
    {
        Response { id, result: Ok(result) }
    }

    /// A response that tells an error.
    pub fn error(id: Id, error: Error) -> (r: Response)
        ensures
            r@ == (ResponseView { id, result: Err(error@) }),
            r.id == id,
            r.result == Err::<Value, Error>(error),
    {
        Response { id, result: Err(error) }
    }

    /// A response of its two parts.
    pub fn from_parts(id: Id, result: Result<Value>) -> (r: Response)
        ensures
            r.id == id,
            r.result == result,
    {
        Response { id, result }
    }

    /// The two parts of the response.
    pub fn into_parts(self) -> (r: (Id, Result<Value>))
        ensures
            r == (self.id, self.result),
    {
        (self.id, self.result)
    }

    /// Whether the response tells success.
    pub fn is_ok(&self) -> (r: bool)
        ensures
            r == (self@.result is Ok),
            r == (self.result is Ok),
    {
        self.result.is_ok()
    }
}

/// Answers a message with this `id` with `error`: a request is answered, a
/// notification is not.
pub fn refuse(id: Option<Id>, error: Error) -> (r: Option<Response>)
    ensures
        reply(r) == refusal(id, error@),
        r is Some <==> id is Some,
        r matches Some(response) ==> Some(response.id) == id && response.result == Err::<
            Value,
            Error,
        >(error),
{
    match id {
        Some(id) => Some(Response::error(id, error)),
        None => None,
    }
}

/// A request, or without an id a notification, for the language client.
#[derive(Debug, PartialEq)]
pub struct ClientRequest {
    /// The name of the method.
    pub method: String,
    /// The `params` field.
    pub params: Value,
    /// The `id` field, which a notification has not.
    pub id: Option<Id>,
}

/// What a [`ClientRequest`] says.
pub struct ClientRequestView {
    pub method: Seq<char>,
    pub params: Value,
    pub id: Option<Id>,
}

impl View for ClientRequest {
    type V = ClientRequestView;

    open spec fn view(&self) -> ClientRequestView {
        ClientRequestView { method: self.method@, params: self.params, id: self.id }
    }
}

impl ClientRequest {
    /// A request with the given id.
    pub fn request(method: &str, id: u32, params: Value) -> (r: ClientRequest)
        ensures
            r@ == (ClientRequestView {
                method: method@,
                params,
                id: Some(Id::Number(id as i64)),
            }),
            r.method@ == method@,
            r.params == params,
            r.id == Some(Id::Number(id as i64)),
    {
        ClientRequest { method: method.to_owned(), params, id: Some(Id::Number(id as i64)) }
    }

    /// A notification.
    pub fn notification(method: &str, params: Value) -> (r: ClientRequest)
        ensures
            r@ == (ClientRequestView { method: method@, params, id: None }),
            r.method@ == method@,
            r.params == params,
            r.id is None,
    {
        ClientRequest { method: method.to_owned(), params, id: None }
    }
}

/// A message that leaves the server.
#[derive(Debug, PartialEq)]
pub enum Outgoing {
    /// A request or a notification for the client.
    Request(ClientRequest),
    /// The answer to a request of the client.
    Response(Response),
}

} // verus!
