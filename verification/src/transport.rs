//! One HTTP exchange: the request that is sent for a resource path, and the
//! JSON value that its response body decodes to.
//!
//! Sending is left to the caller. This module decides what is sent and what a
//! received body means.

use crate::json::{parse_bytes, read_bytes};
use serde_json::Value;
use vstd::prelude::*;
use vstd::string::*;

verus! {

/// The versioned root of the remote API. Every resource path is relative to it.
pub const API_BASE_URL: &'static str = "https://api.developers.italia.it/v1";

/// The HTTP methods the client uses.
#[derive(Clone, Copy, Debug, PartialEq, Eq, Structural)]
pub enum Method {
    Get,
    Post,
    Patch,
}

/// One request header.
#[derive(Debug)]
pub struct Header {
    pub name: String,
    pub value: String,
}

impl View for Header {
    type V = (Seq<char>, Seq<char>);

    open spec fn view(&self) -> (Seq<char>, Seq<char>) {
        (self.name@, self.value@)
    }
}

/// A request, ready to be sent: the headers are set in the order given, and
/// the body, where there is one, is sent as JSON.
#[derive(Debug)]
pub struct Request {
    pub method: Method,
    pub url: String,
    pub headers: Vec<Header>,
    pub body: Option<Value>,
}

/// The mathematical content of a [`Request`].
pub struct RequestView {
    pub method: Method,
    pub url: Seq<char>,
    pub headers: Seq<(Seq<char>, Seq<char>)>,
    pub body: Option<Value>,
}

impl View for Request {
    type V = RequestView;

    open spec fn view(&self) -> RequestView {
        RequestView {
            method: self.method,
            url: self.url@,
            headers: self.headers@.map_values(|header: Header| header@),
            body: self.body,
        }
    }
}

/// Why an exchange produced no JSON value.
#[derive(Debug)]
pub enum TransportError {
    /// The network call could not be completed. Holds the failure's
    /// description.
    Network(String),
    /// The response body is not valid JSON.
    InvalidJson(serde_json::Error),
}

impl From<serde_json::Error> for TransportError {
    /// A body that `serde_json` rejects is not valid JSON.
    fn from(reason: serde_json::Error) -> (error: TransportError) {
        TransportError::InvalidJson(reason)
    }
}

impl vstd::std_specs::convert::FromSpecImpl<serde_json::Error> for TransportError {
    open spec fn obeys_from_spec() -> bool {
        true
    }

    open spec fn from_spec(reason: serde_json::Error) -> TransportError {
        TransportError::InvalidJson(reason)
    }
}

/// The URL of a resource path: the base URL, a slash, and the path as given.
pub open spec fn endpoint(resource: Seq<char>) -> Seq<char> {
    API_BASE_URL@ + "/"@ + resource
}

/// The header that carries the bearer credential.
pub open spec fn authorization_header(credential: Seq<char>) -> (Seq<char>, Seq<char>) {
    ("Authorization"@, "Bearer "@ + credential)
}

/// The header that announces a JSON payload.
pub open spec fn content_type_header() -> (Seq<char>, Seq<char>) {
    ("Content-Type"@, "application/json"@)
}

/// The request that is sent for `resource`: the method and body as given, the
/// endpoint of the resource, and the two headers, authorization first.
pub open spec fn request_for(
    resource: Seq<char>,
    method: Method,
    body: Option<Value>,
    credential: Seq<char>,
) -> RequestView {
    RequestView {
        method,
        url: endpoint(resource),
        headers: seq![authorization_header(credential), content_type_header()],
        body,
    }
}

/// The path of one record of a collection.
pub open spec fn record_path(collection: Seq<char>, id: Seq<char>) -> Seq<char> {
    collection + "/"@ + id
}

/// Builds the request for one call against `resource`. The credential is
/// attached as it is, empty or not.
pub fn api_request(resource: &str, method: Method, data: Option<Value>, bearer: &str) -> (request:
    Request)
    ensures
        request@ == request_for(resource@, method, data, bearer@),
{
    let mut url = API_BASE_URL.to_owned();
    url.append("/");
    url.append(resource);
    let mut token = "Bearer ".to_owned();
    token.append(bearer);
    let mut headers: Vec<Header> = Vec::new();
    headers.push(Header { name: "Authorization".to_owned(), value: token });
    headers.push(Header { name: "Content-Type".to_owned(), value: "application/json".to_owned() });
    let request = Request { method, url, headers, body: data };
    assert(request@.headers == request_for(resource@, method, data, bearer@).headers);
    request
}

/// What a response body decodes to: the document it encodes, or the error
/// that says why it is not valid JSON.
pub open spec fn decoded(body: Seq<u8>) -> Result<Value, TransportError> {
    match read_bytes(body) {
        Ok(document) => Ok(document),
        Err(reason) => Err(TransportError::InvalidJson(reason)),
    }
}

/// What the raw outcome of an exchange amounts to: a body that arrived counts
/// for what it decodes to, and a network failure is passed on with its
/// description.
pub open spec fn reply_to(outcome: Result<Vec<u8>, String>) -> Result<Value, TransportError> {
    match outcome {
        Ok(body) => decoded(body@),
        Err(failure) => Err(TransportError::Network(failure)),
    }
}

/// Decodes a response body. The status code plays no part: whatever JSON the
/// server sent is the result.
pub fn decode_body(body: &[u8]) -> (reply: Result<Value, TransportError>)
    ensures
        reply == decoded(body@),
{
    match parse_bytes(body) {
        Ok(document) => Ok(document),
        Err(reason) => Err(TransportError::from(reason)),
    }
}

/// Turns the raw outcome of an exchange, the response body or the
/// description of a network failure, into the reply to the request.
pub fn api_response(outcome: Result<Vec<u8>, String>) -> (reply: Result<Value, TransportError>)
    ensures
        reply == reply_to(outcome),
{
    match outcome {
        Ok(body) => decode_body(body.as_slice()),
        Err(failure) => Err(TransportError::Network(failure)),
    }
}

fn record_path_of(collection: &str, id: &str) -> (path: String)
    ensures
        path@ == record_path(collection@, id@),
{
    let mut path = collection.to_owned();
    path.append("/");
    path.append(id);
    path
}

/// The request that creates a record in `collection`.
pub fn create(collection: &str, body: Value, bearer: &str) -> (request: Request)
    ensures
        request@ == request_for(collection@, Method::Post, Some(body), bearer@),
{
    api_request(collection, Method::Post, Some(body), bearer)
}

/// The request that updates the record `id` of `collection`.
pub fn update(collection: &str, id: &str, body: Value, bearer: &str) -> (request: Request)
    ensures
        request@ == request_for(
            record_path(collection@, id@),
            Method::Patch,
            Some(body),
            bearer@,
        ),
{
    let path = record_path_of(collection, id);
    api_request(path.as_str(), Method::Patch, Some(body), bearer)
}

/// The request that fetches the record `id` of `collection`.
pub fn fetch_by_id(collection: &str, id: &str, bearer: &str) -> (request: Request)
    ensures
        request@ == request_for(record_path(collection@, id@), Method::Get, None, bearer@),
{
    let path = record_path_of(collection, id);
    api_request(path.as_str(), Method::Get, None, bearer)
}

} // verus!
