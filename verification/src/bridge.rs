//! A bridge before pairing, and the envelope in which the bridge wraps the
//! answer to a request that changes something.

use crate::discover::DiscoveredHueBridge;
use crate::error::{result_view, ApiError, ApiErrorView, HueError, HueErrorView, RequestFailureView};
use crate::http::{
    body_error, check_status, client_settings, is_success, ClientSettings, USER_AGENT,
};
use crate::json::{json_document, parse, Decode, Json, JsonValue};
use vstd::prelude::*;

verus! {

/// A bridge, known by its base URL and not yet paired with.
#[derive(Clone, Debug, PartialEq, Eq)]
pub struct HueBridge {
    pub bridge_url: String,
}

impl View for HueBridge {
    type V = Seq<char>;

    /// A bridge is its base URL.
    open spec fn view(&self) -> Seq<char> {
        self.bridge_url@
    }
}

impl DeepView for HueBridge {
    type V = Seq<char>;

    open spec fn deep_view(&self) -> Seq<char> {
        self@
    }
}

/// One element of an envelope: the payload of a success, or the bridge's
/// error.
#[derive(Debug, PartialEq, Eq)]
pub enum DataResponse<T> {
    Success(T),
    Error(ApiError),
}

/// The mathematical value of a `DataResponse`.
pub enum DataResponseView<V> {
    Success(V),
    Error(ApiErrorView),
}

impl<T: DeepView> View for DataResponse<T> {
    type V = DataResponseView<T::V>;

    open spec fn view(&self) -> DataResponseView<T::V> {
        match self {
            DataResponse::Success(payload) => DataResponseView::Success(payload.deep_view()),
            DataResponse::Error(error) => DataResponseView::Error(error@),
        }
    }
}

impl<T: DeepView> DeepView for DataResponse<T> {
    type V = DataResponseView<T::V>;

    open spec fn deep_view(&self) -> DataResponseView<T::V> {
        self@
    }
}

impl<V> DataResponseView<V> {
    /// A success is the payload; an error is an `ApiError` failure.
    pub open spec fn into_result(self) -> Result<V, HueErrorView> {
        match self {
            DataResponseView::Success(payload) => Ok(payload),
            DataResponseView::Error(error) => Err(HueErrorView::ApiError(error)),
        }
    }
}

/// The element that `doc` describes: an object with the one member
/// `success`, holding a payload, or with the one member `error`, holding the
/// bridge's error.
pub open spec fn decoded_response<T: Decode>(doc: JsonValue) -> Option<DataResponseView<T::V>> {
    match doc {
        JsonValue::Object(members) => if members.len() != 1 {
            None
        } else if members[0].0 == "success"@ {
            match T::decoded(members[0].1) {
                Some(payload) => Some(DataResponseView::Success(payload)),
                None => None,
            }
        } else if members[0].0 == "error"@ {
            match ApiError::decoded(members[0].1) {
                Some(error) => Some(DataResponseView::Error(error)),
                None => None,
            }
        } else {
            None
        },
        _ => None,
    }
}

/// What an envelope means. It has to be an array of elements that all
/// decode; the first of them decides, and an empty array is `NoData`.
pub open spec fn envelope<T: Decode>(doc: JsonValue) -> Result<T::V, HueErrorView> {
    match doc {
        JsonValue::Array(items) => if exists|i: int|
            0 <= i < items.len() && (#[trigger] decoded_response::<T>(items[i])) is None {
            Err(HueErrorView::RequestError(RequestFailureView::Body))
        } else if items.len() == 0 {
            Err(HueErrorView::NoData)
        } else {
            decoded_response::<T>(items[0])->0.into_result()
        },
        _ => Err(HueErrorView::RequestError(RequestFailureView::Body)),
    }
}

/// What a response body means that should hold an envelope; `parsed` is the
/// body as far as it is JSON at all.
pub open spec fn envelope_response<T: Decode>(parsed: Option<JsonValue>) -> Result<
    T::V,
    HueErrorView,
> {
    match parsed {
        Some(doc) => envelope::<T>(doc),
        None => Err(HueErrorView::RequestError(RequestFailureView::Body)),
    }
}

/// What the response to a request that changes something means. A status
/// outside 200 to 299 is a request failure whatever the body holds; only
/// then is the body read as an envelope. `parsed` is the body as far as it
/// is JSON at all.
pub open spec fn envelope_reply<T: Decode>(status: u16, parsed: Option<JsonValue>) -> Result<
    T::V,
    HueErrorView,
> {
    if !is_success(status) {
        Err(HueErrorView::RequestError(RequestFailureView::Status(status)))
    } else {
        envelope_response::<T>(parsed)
    }
}

/// The envelopes that the bridge sends hold one element. Such an envelope
/// means what its element means; an envelope without an element is
/// `NoData`; one whose element does not decode is a request failure.
pub proof fn lemma_envelope_of_one<T: Decode>(item: JsonValue)
    ensures
        envelope::<T>(JsonValue::Array(Seq::empty())) == Err::<T::V, HueErrorView>(
            HueErrorView::NoData,
        ),
        decoded_response::<T>(item) matches Some(response) ==> envelope::<T>(
            JsonValue::Array(seq![item]),
        ) == response.into_result(),
        decoded_response::<T>(item) is None ==> envelope::<T>(JsonValue::Array(seq![item]))
            == Err::<T::V, HueErrorView>(HueErrorView::RequestError(RequestFailureView::Body)),
{
    let one = seq![item];
    assert(one[0] == item);
}

impl<T> From<DataResponse<T>> for Result<T, HueError> {
    fn from(value: DataResponse<T>) -> (r: Result<T, HueError>) {
        match value {
            DataResponse::Success(payload) => Ok(payload),
            DataResponse::Error(error) => Err(HueError::ApiError(error)),
        }
    }
}

impl<T> vstd::std_specs::convert::FromSpecImpl<DataResponse<T>> for Result<T, HueError> {
    open spec fn obeys_from_spec() -> bool {
        true
    }

    /// A success is its payload; an error is an `ApiError` failure.
    open spec fn from_spec(value: DataResponse<T>) -> Result<T, HueError> {
        match value {
            DataResponse::Success(payload) => Ok(payload),
            DataResponse::Error(error) => Err(HueError::ApiError(error)),
        }
    }
}

impl<T: Decode> DataResponse<T> {
    /// Reads one element of an envelope.
    pub fn from_json(doc: &Json) -> (r: Option<DataResponse<T>>)
        ensures
            r.deep_view() == decoded_response::<T>(doc@),
    {
        match doc.members() {
            Some(members) => {
                if members.len() != 1 {
                    return None;
                }
                if members[0].0 == String::from_str("success") {
                    match T::from_json(&members[0].1) {
                        Some(payload) => Some(DataResponse::Success(payload)),
                        None => None,
                    }
                } else if members[0].0 == String::from_str("error") {
                    match ApiError::from_json(&members[0].1) {
                        Some(error) => Some(DataResponse::Error(error)),
                        None => None,
                    }
                } else {
                    None
                }
            },
            None => None,
        }
    }
}

impl From<DiscoveredHueBridge> for HueBridge {
    fn from(value: DiscoveredHueBridge) -> (r: HueBridge) {
        HueBridge { bridge_url: value.url }
    }
}

impl vstd::std_specs::convert::FromSpecImpl<DiscoveredHueBridge> for HueBridge {
    open spec fn obeys_from_spec() -> bool {
        true
    }

    /// The bridge at the URL that discovery found.
    open spec fn from_spec(value: DiscoveredHueBridge) -> HueBridge {
        HueBridge { bridge_url: value.url }
    }
}

impl HueBridge {
    pub fn new(bridge_url: String) -> (r: HueBridge)
        ensures
            r.bridge_url == bridge_url,
            r@ == bridge_url@,
    {
        HueBridge { bridge_url }
    }

    /// The setup of the HTTP client for every request of this library: it
    /// accepts the bridge's self-signed certificate and names the library
    /// as the user agent.
    pub fn client(&self) -> (r: ClientSettings)
        ensures
            r.accept_invalid_certs,
            r.user_agent@ == USER_AGENT@,
    {
        client_settings()
    }

    /// Reads an envelope that is already parsed.
    pub fn read_envelope<T: Decode>(doc: &Json) -> (r: Result<T, HueError>)
        ensures
            result_view(r) == envelope::<T>(doc@),
    {
        match doc.items() {
            Some(items) => {
                let mut responses: Vec<DataResponse<T>> = Vec::new();
                let mut i: usize = 0;
                while i < items.len()
                    invariant
                        i <= items.len(),
                        doc@ == JsonValue::Array(items.deep_view()),
                        responses.len() == i,
                        forall|k: int|
                            0 <= k < i ==> decoded_response::<T>(#[trigger] items[k]@) == Some(
                                responses[k]@,
                            ),
                    decreases items.len() - i,
                {
                    match DataResponse::<T>::from_json(&items[i]) {
                        Some(response) => {
                            responses.push(response);
                        },
                        None => {
                            proof {
                                assert(items.deep_view()[i as int] == items[i as int]@);
                            }
                            return Err(body_error());
                        },
                    }
                    i += 1;
                }
                proof {
                    assert forall|k: int| 0 <= k < items.len() implies (
                    #[trigger] decoded_response::<T>(items.deep_view()[k])) is Some by {
                        assert(items.deep_view()[k] == items[k]@);
                    }
                }
                if responses.len() == 0 {
                    Err(HueError::NoData)
                } else {
                    proof {
                        assert(items.deep_view()[0] == items[0]@);
                    }
                    let first: DataResponse<T> = responses.swap_remove(0);
                    Result::from(first)
                }
            },
            None => Err(body_error()),
        }
    }

    /// Reads the response to a request that changes something: the status
    /// is looked at first, then the envelope in the body. An error that the
    /// bridge reports inside a response with a status of 200 to 299 is an
    /// `ApiError`; any other status is a `RequestError`.
    pub fn read_reply<T: Decode>(&self, status: u16, body: &str) -> (r: Result<T, HueError>)
        ensures
            result_view(r) == envelope_reply::<T>(status, json_document(body@)),
    {
        match check_status(status) {
            Err(error) => Err(error),
            Ok(_) => self.parse_response::<T>(body),
        }
    }

    /// Reads the body of a response that holds an envelope: a JSON array
    /// whose first element is either `{"success": ..}` with a payload or
    /// `{"error": ..}` with the bridge's error.
    pub fn parse_response<T: Decode>(&self, body: &str) -> (r: Result<T, HueError>)
        ensures
            result_view(r) == envelope_response::<T>(json_document(body@)),
    {
        match parse(body) {
            Some(doc) => HueBridge::read_envelope::<T>(&doc),
            None => Err(body_error()),
        }
    }
}

} // verus!
