//! Requests and responses as plain values. The library says what to send and
//! reads what came back; sending is the caller's part.

use crate::error::{HueError, HueErrorView, RequestFailure, RequestFailureView};
use crate::json::{json_document, parse, Json, JsonValue};
use vstd::prelude::*;

verus! {

/// The HTTP methods that the bridge's API uses.
#[derive(Clone, Copy, Debug, PartialEq, Eq, Structural)]
pub enum Method {
    Get,
    Post,
    Put,
}

/// A request to perform.
#[derive(Debug, PartialEq, Eq)]
pub struct Request {
    pub method: Method,
    pub url: String,
    /// The JSON text to send, where the request has a body.
    pub body: Option<String>,
}

/// The mathematical value of a `Request`.
pub struct RequestView {
    pub method: Method,
    pub url: Seq<char>,
    pub body: Option<Seq<char>>,
}

impl View for Request {
    type V = RequestView;

    open spec fn view(&self) -> RequestView {
        RequestView { method: self.method, url: self.url@, body: self.body.deep_view() }
    }
}

impl DeepView for Request {
    type V = RequestView;

    open spec fn deep_view(&self) -> RequestView {
        self@
    }
}

/// What the bridge is told about the sender: the library's name and
/// version.
pub const USER_AGENT: &'static str = "philipshue/0.1.0";

/// How the HTTP client that performs the requests has to be set up.
#[derive(Debug, PartialEq, Eq)]
pub struct ClientSettings {
    /// Whether certificates that do not validate are accepted. A bridge
    /// signs its own certificate, so this has to be on: only talk to
    /// bridges on a network that is trusted.
    pub accept_invalid_certs: bool,
    pub user_agent: String,
}

/// The setup for every request of this library, to the discovery endpoint
/// as to a bridge: certificates that do not validate are accepted, and the
/// user agent names the library.
pub fn client_settings() -> (r: ClientSettings)
    ensures
        r.accept_invalid_certs,
        r.user_agent@ == USER_AGENT@,
{
    ClientSettings { accept_invalid_certs: true, user_agent: String::from_str(USER_AGENT) }
}

/// Whether `status` is one of 200 to 299.
pub open spec fn is_success(status: u16) -> bool {
    200 <= status <= 299
}

/// What a response with a bare JSON body gives: the status is looked at
/// first, then the body, which `parsed` holds as far as it is JSON at all.
pub open spec fn json_response(status: u16, parsed: Option<JsonValue>) -> Result<
    JsonValue,
    HueErrorView,
> {
    if !is_success(status) {
        Err(HueErrorView::RequestError(RequestFailureView::Status(status)))
    } else {
        match parsed {
            Some(doc) => Ok(doc),
            None => Err(HueErrorView::RequestError(RequestFailureView::Body)),
        }
    }
}

/// Fails with `RequestFailure::Status` unless `status` is one of 200 to 299.
pub fn check_status(status: u16) -> (r: Result<(), HueError>)
    ensures
        is_success(status) ==> r is Ok,
        !is_success(status) ==> r is Err && r->Err_0@ == HueErrorView::RequestError(
            RequestFailureView::Status(status),
        ),
{
    if 200 <= status && status <= 299 {
        Ok(())
    } else {
        Err(HueError::RequestError(RequestFailure::Status(status)))
    }
}

/// The failure of a body that is not the expected JSON.
pub fn body_error() -> (e: HueError)
    ensures
        e@ == HueErrorView::RequestError(RequestFailureView::Body),
{
    HueError::RequestError(RequestFailure::Body)
}

/// Reads the response to a request whose answer is a bare JSON document.
pub fn read_json(status: u16, body: &str) -> (r: Result<Json, HueError>)
    ensures
        crate::error::result_view(r) == json_response(status, json_document(body@)),
{
    match check_status(status) {
        Err(e) => Err(e),
        Ok(_) => match parse(body) {
            Some(doc) => Ok(doc),
            None => Err(body_error()),
        },
    }
}

} // verus!
