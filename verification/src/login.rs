//! Pairing: the exchange of a device label for an access token.
//!
//! The bridge only pairs for a short while after its link button was
//! pressed. Before that it answers with the API error 101; ask the user to
//! press the button and send the request again. Keep the token: pairing anew
//! on every run needs the button every time.

use crate::bridge::{envelope_reply, HueBridge};
use crate::device::{device_json, plain_device_json, DeviceType};
use crate::error::{result_view, HueError, HueErrorView};
use crate::http::{Method, Request, RequestView};
use crate::json::{is_plain, json_document, Decode, Json, JsonValue};
use crate::{Hue, HueView};
use vstd::prelude::*;

verus! {

/// The payload of a successful pairing: the token, which the bridge calls
/// a username.
#[derive(Debug, PartialEq, Eq)]
pub struct LoginResponse {
    pub username: String,
}

impl View for LoginResponse {
    type V = Seq<char>;

    /// A login response is its token.
    open spec fn view(&self) -> Seq<char> {
        self.username@
    }
}

impl DeepView for LoginResponse {
    type V = Seq<char>;

    open spec fn deep_view(&self) -> Seq<char> {
        self@
    }
}

impl Decode for LoginResponse {
    /// The payload is an object with the string member `username`.
    open spec fn decoded(doc: JsonValue) -> Option<Seq<char>> {
        doc.field::<String>("username"@)
    }

    fn from_json(doc: &Json) -> (r: Option<LoginResponse>) {
        let username = doc.field::<String>("username")?;
        Some(LoginResponse { username })
    }
}

/// The pairing request: a `POST` to `/api` below the bridge's base URL,
/// with the device label as the body.
pub open spec fn login_request(bridge_url: Seq<char>, label: Seq<char>) -> RequestView {
    RequestView { method: Method::Post, url: bridge_url + "/api"@, body: Some(device_json(label)) }
}

/// The session that a pairing gives: the bridge with the token of a
/// success; a failure stays what it is.
pub open spec fn paired(bridge_url: Seq<char>, login: Result<Seq<char>, HueErrorView>) -> Result<
    HueView,
    HueErrorView,
> {
    match login {
        Ok(username) => Ok(HueView { bridge_url, username }),
        Err(error) => Err(error),
    }
}

impl HueBridge {
    /// The request that asks the bridge to pair with `device_type`.
    pub fn login_request(&self, device_type: &DeviceType) -> (r: Request)
        ensures
            r@ == login_request(self@, device_type@),
            is_plain(device_type@) ==> r@.body == Some(plain_device_json(device_type@)),
    {
        let mut url = self.bridge_url.clone();
        url.append("/api");
        Request { method: Method::Post, url, body: Some(device_type.to_json()) }
    }

    /// Reads the bridge's answer to the pairing request. While the link
    /// button is not pressed this is an `ApiError` with the code 101. A
    /// status outside 200 to 299 is a request failure.
    pub fn login_with_response(&self, status: u16, body: &str) -> (r: Result<
        LoginResponse,
        HueError,
    >)
        ensures
            result_view(r) == envelope_reply::<LoginResponse>(status, json_document(body@)),
    {
        self.read_reply::<LoginResponse>(status, body)
    }

    /// Reads the bridge's answer to the pairing request and, where it
    /// holds a token, turns the bridge into a session.
    pub fn login_to_hue(self, status: u16, body: &str) -> (r: Result<Hue, HueError>)
        ensures
            result_view(r) == paired(
                self@,
                envelope_reply::<LoginResponse>(status, json_document(body@)),
            ),
    {
        match self.login_with_response(status, body) {
            Ok(response) => Ok(Hue::new(self, response.username)),
            Err(error) => Err(error),
        }
    }
}

} // verus!
