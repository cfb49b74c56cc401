//! What can go wrong when talking to a bridge.

use crate::json::{Decode, Json, JsonValue};
use crate::text::{decimal, push_decimal};
use vstd::prelude::*;

verus! {

/// An error that the bridge itself reports inside a successful response.
#[derive(Debug, PartialEq, Eq)]
pub struct ApiError {
    /// The bridge's error code; 101 means that the link button was not pressed.
    pub error_type: u16,
    /// Diagnostic text of the bridge; its meaning is not documented.
    pub address: String,
    pub description: String,
}

/// The mathematical value of an `ApiError`.
pub struct ApiErrorView {
    pub error_type: u16,
    pub address: Seq<char>,
    pub description: Seq<char>,
}

impl View for ApiError {
    type V = ApiErrorView;

    open spec fn view(&self) -> ApiErrorView {
        ApiErrorView {
            error_type: self.error_type,
            address: self.address@,
            description: self.description@,
        }
    }
}

impl DeepView for ApiError {
    type V = ApiErrorView;

    open spec fn deep_view(&self) -> ApiErrorView {
        self@
    }
}

impl ApiErrorView {
    /// One line for people: the code, the address unless it is empty, and
    /// the description.
    pub open spec fn text(self) -> Seq<char> {
        "error_type = "@ + decimal(self.error_type as nat) + ", "@ + (if self.address.len() == 0 {
            Seq::<char>::empty()
        } else {
            "address = "@ + self.address + ", "@
        }) + "description = "@ + self.description
    }
}

impl Decode for ApiError {
    /// An error is an object with the members `type`, `address` and
    /// `description`.
    open spec fn decoded(doc: JsonValue) -> Option<ApiErrorView> {
        if doc.field::<u16>("type"@) is Some && doc.field::<String>("address"@) is Some
            && doc.field::<String>("description"@) is Some {
            Some(
                ApiErrorView {
                    error_type: doc.field::<u16>("type"@)->0,
                    address: doc.field::<String>("address"@)->0,
                    description: doc.field::<String>("description"@)->0,
                },
            )
        } else {
            None
        }
    }

    fn from_json(doc: &Json) -> (r: Option<ApiError>) {
        let error_type = doc.field::<u16>("type")?;
        let address = doc.field::<String>("address")?;
        let description = doc.field::<String>("description")?;
        Some(ApiError { error_type, address, description })
    }
}

impl ApiError {
    /// The error as one line of text.
    pub fn to_text(&self) -> (r: String)
        ensures
            r@ == self@.text(),
    {
        let mut out = String::from_str("error_type = ");
        push_decimal(&mut out, self.error_type as u64);
        out.append(", ");
        if !self.address.as_str().is_empty() {
            out.append("address = ");
            out.append(self.address.as_str());
            out.append(", ");
        }
        out.append("description = ");
        out.append(self.description.as_str());
        proof {
            assert(out@ =~= self@.text());
        }
        out
    }
}

/// Why a request gave no usable response.
#[derive(Debug, PartialEq, Eq)]
pub enum RequestFailure {
    /// The request could not be completed; the text says why.
    Transport(String),
    /// The response came with this status, which is outside 200 to 299.
    Status(u16),
    /// The body of the response is not the JSON that the operation expects.
    Body,
}

/// The mathematical value of a `RequestFailure`.
pub enum RequestFailureView {
    Transport(Seq<char>),
    Status(u16),
    Body,
}

impl View for RequestFailure {
    type V = RequestFailureView;

    open spec fn view(&self) -> RequestFailureView {
        match self {
            RequestFailure::Transport(reason) => RequestFailureView::Transport(reason@),
            RequestFailure::Status(status) => RequestFailureView::Status(*status),
            RequestFailure::Body => RequestFailureView::Body,
        }
    }
}

impl DeepView for RequestFailure {
    type V = RequestFailureView;

    open spec fn deep_view(&self) -> RequestFailureView {
        self@
    }
}

impl RequestFailureView {
    /// One line for people.
    pub open spec fn text(self) -> Seq<char> {
        match self {
            RequestFailureView::Transport(reason) => reason,
            RequestFailureView::Status(status) => "unexpected HTTP status "@ + decimal(
                status as nat,
            ),
            RequestFailureView::Body => "the response body is not the expected JSON"@,
        }
    }
}

impl RequestFailure {
    /// The failure as one line of text.
    pub fn to_text(&self) -> (r: String)
        ensures
            r@ == self@.text(),
    {
        match self {
            RequestFailure::Transport(reason) => reason.clone(),
            RequestFailure::Status(status) => {
                let mut out = String::from_str("unexpected HTTP status ");
                push_decimal(&mut out, *status as u64);
                out
            },
            RequestFailure::Body => String::from_str("the response body is not the expected JSON"),
        }
    }
}

/// Every failure of this library.
#[derive(Debug, PartialEq, Eq)]
pub enum HueError {
    /// The request failed, or its response could not be used.
    RequestError(RequestFailure),
    /// The request went through, but the bridge answered with an error.
    ApiError(ApiError),
    /// Discovery went through and found no bridge.
    NoBridgeFound,
    /// The bridge answered with neither a success nor an error.
    NoData,
}

/// The mathematical value of a `HueError`.
pub enum HueErrorView {
    RequestError(RequestFailureView),
    ApiError(ApiErrorView),
    NoBridgeFound,
    NoData,
}

impl View for HueError {
    type V = HueErrorView;

    open spec fn view(&self) -> HueErrorView {
        match self {
            HueError::RequestError(failure) => HueErrorView::RequestError(failure@),
            HueError::ApiError(error) => HueErrorView::ApiError(error@),
            HueError::NoBridgeFound => HueErrorView::NoBridgeFound,
            HueError::NoData => HueErrorView::NoData,
        }
    }
}

impl DeepView for HueError {
    type V = HueErrorView;

    open spec fn deep_view(&self) -> HueErrorView {
        self@
    }
}

impl HueErrorView {
    /// One line for people.
    pub open spec fn text(self) -> Seq<char> {
        match self {
            HueErrorView::RequestError(failure) =>
                "error while doing the request to the philipshue bridge: "@ + failure.text(),
            HueErrorView::ApiError(error) => "the philipshue bridge replied with an error: "@
                + error.text(),
            HueErrorView::NoBridgeFound => "no philipshue bridge could be found"@,
            HueErrorView::NoData => "the server didn't reply with success or error"@,
        }
    }
}

impl HueError {
    /// The error as one line of text.
    pub fn to_text(&self) -> (r: String)
        ensures
            r@ == self@.text(),
    {
        match self {
            HueError::RequestError(failure) => {
                let mut out = String::from_str(
                    "error while doing the request to the philipshue bridge: ",
                );
                let detail = failure.to_text();
                out.append(detail.as_str());
                out
            },
            HueError::ApiError(error) => {
                let mut out = String::from_str("the philipshue bridge replied with an error: ");
                let detail = error.to_text();
                out.append(detail.as_str());
                out
            },
            HueError::NoBridgeFound => String::from_str("no philipshue bridge could be found"),
            HueError::NoData => String::from_str("the server didn't reply with success or error"),
        }
    }
}

/// The mathematical value of a result of this library.
pub open spec fn result_view<T: DeepView>(r: Result<T, HueError>) -> Result<T::V, HueErrorView> {
    match r {
        Ok(value) => Ok(value.deep_view()),
        Err(error) => Err(error@),
    }
}

} // verus!
