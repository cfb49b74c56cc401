//! Discovery through the public endpoint `https://discovery.meethue.com`.
//!
//! The endpoint limits how often it may be asked: discover once and keep the
//! URL that was found.

use crate::discover::{Discover, DiscoveredHueBridge, DiscoveredHueBridgeView};
use crate::error::{result_view, HueError, HueErrorView, RequestFailureView};
use crate::http::{body_error, json_response, read_json, Method, Request, RequestView};
use crate::json::{json_document, Decode, Json, JsonValue};
use crate::text::{decimal, push_decimal};
use vstd::prelude::*;

verus! {

/// The address that discovery asks.
pub const DISCOVER_ADDRESS: &'static str = "https://discovery.meethue.com";

/// One record of the endpoint's answer.
#[derive(Debug, PartialEq, Eq)]
pub struct DiscoveryUrlResponse {
    pub id: String,
    pub internal_ip_address: String,
    pub port: u16,
}

/// The mathematical value of a `DiscoveryUrlResponse`.
pub struct DiscoveryUrlResponseView {
    pub id: Seq<char>,
    pub internal_ip_address: Seq<char>,
    pub port: u16,
}

impl View for DiscoveryUrlResponse {
    type V = DiscoveryUrlResponseView;

    open spec fn view(&self) -> DiscoveryUrlResponseView {
        DiscoveryUrlResponseView {
            id: self.id@,
            internal_ip_address: self.internal_ip_address@,
            port: self.port,
        }
    }
}

impl DeepView for DiscoveryUrlResponse {
    type V = DiscoveryUrlResponseView;

    open spec fn deep_view(&self) -> DiscoveryUrlResponseView {
        self@
    }
}

/// The base URL of a bridge at `ip`: port 443 is the bridge's TLS listener
/// and gives an `https` URL without a port, any other port gives an `http`
/// URL that names it.
pub open spec fn bridge_url(ip: Seq<char>, port: u16) -> Seq<char> {
    if port == 443 {
        "https://"@ + ip
    } else {
        "http://"@ + ip + ":"@ + decimal(port as nat)
    }
}

impl DiscoveryUrlResponseView {
    /// The bridge that the record stands for.
    pub open spec fn bridge(self) -> DiscoveredHueBridgeView {
        DiscoveredHueBridgeView { id: self.id, url: bridge_url(self.internal_ip_address, self.port) }
    }
}

impl Decode for DiscoveryUrlResponse {
    /// A record is an object with the members `id`, `internalipaddress` and
    /// `port`.
    open spec fn decoded(doc: JsonValue) -> Option<DiscoveryUrlResponseView> {
        if doc.field::<String>("id"@) is Some && doc.field::<String>("internalipaddress"@) is Some
            && doc.field::<u16>("port"@) is Some {
            Some(
                DiscoveryUrlResponseView {
                    id: doc.field::<String>("id"@)->0,
                    internal_ip_address: doc.field::<String>("internalipaddress"@)->0,
                    port: doc.field::<u16>("port"@)->0,
                },
            )
        } else {
            None
        }
    }

    fn from_json(doc: &Json) -> (r: Option<DiscoveryUrlResponse>) {
        let id = doc.field::<String>("id")?;
        let internal_ip_address = doc.field::<String>("internalipaddress")?;
        let port = doc.field::<u16>("port")?;
        Some(DiscoveryUrlResponse { id, internal_ip_address, port })
    }
}

impl DiscoveryUrlResponse {
    /// The bridge that the record stands for, with its base URL put
    /// together from the address and the port.
    pub fn into_bridge(self) -> (r: DiscoveredHueBridge)
        ensures
            r@ == self@.bridge(),
            r.id == self.id,
            self.port == 443 ==> r.url@ == "https://"@ + self.internal_ip_address@,
            self.port != 443 ==> r.url@ == "http://"@ + self.internal_ip_address@ + ":"@ + decimal(
                self.port as nat,
            ),
    {
        let mut url: String;
        if self.port == 443 {
            url = String::from_str("https://");
            url.append(self.internal_ip_address.as_str());
        } else {
            url = String::from_str("http://");
            url.append(self.internal_ip_address.as_str());
            url.append(":");
            push_decimal(&mut url, self.port as u64);
        }
        DiscoveredHueBridge { id: self.id, url }
    }
}

/// The bridges that the endpoint's answer lists: the answer has to be an
/// array of records that all decode.
pub open spec fn bridges(doc: JsonValue) -> Result<Seq<DiscoveredHueBridgeView>, HueErrorView> {
    match doc {
        JsonValue::Array(items) => if forall|i: int|
            0 <= i < items.len() ==> (#[trigger] DiscoveryUrlResponse::decoded(items[i])) is Some {
            Ok(Seq::new(items.len(), |i: int| DiscoveryUrlResponse::decoded(items[i])->0.bridge()))
        } else {
            Err(HueErrorView::RequestError(RequestFailureView::Body))
        },
        _ => Err(HueErrorView::RequestError(RequestFailureView::Body)),
    }
}

/// What the endpoint's response means; `parsed` is its body as far as it is
/// JSON at all.
pub open spec fn bridges_response(status: u16, parsed: Option<JsonValue>) -> Result<
    Seq<DiscoveredHueBridgeView>,
    HueErrorView,
> {
    match json_response(status, parsed) {
        Ok(doc) => bridges(doc),
        Err(error) => Err(error),
    }
}

/// Reads the bridges out of the endpoint's answer, once parsed.
pub fn read_bridges(doc: &Json) -> (r: Result<Vec<DiscoveredHueBridge>, HueError>)
    ensures
        result_view(r) == bridges(doc@),
{
    match doc.items() {
        Some(items) => {
            let mut found: Vec<DiscoveredHueBridge> = Vec::new();
            let mut i: usize = 0;
            while i < items.len()
                invariant
                    i <= items.len(),
                    doc@ == JsonValue::Array(items.deep_view()),
                    found.len() == i,
                    forall|k: int|
                        0 <= k < i ==> (#[trigger] DiscoveryUrlResponse::decoded(items[k]@))
                            is Some,
                    forall|k: int|
                        0 <= k < i ==> (#[trigger] found[k])@ == DiscoveryUrlResponse::decoded(
                            items[k]@,
                        )->0.bridge(),
                decreases items.len() - i,
            {
                match DiscoveryUrlResponse::from_json(&items[i]) {
                    Some(record) => {
                        found.push(record.into_bridge());
                    },
                    None => {
                        proof {
                            assert(items.deep_view()[i as int] == items[i as int]@);
                        }
                        return Err(body_error());
                    },
                }
                i += 1;
            }
            proof {
                let ghost views = items.deep_view();
                assert forall|k: int| 0 <= k < views.len() implies (
                #[trigger] DiscoveryUrlResponse::decoded(views[k])) is Some by {
                    assert(views[k] == items[k]@);
                }
                assert(found.deep_view() =~= Seq::new(
                    views.len(),
                    |k: int| DiscoveryUrlResponse::decoded(views[k])->0.bridge(),
                )) by {
                    assert forall|k: int| 0 <= k < views.len() implies found.deep_view()[k]
                        == DiscoveryUrlResponse::decoded(views[k])->0.bridge() by {
                        assert(views[k] == items[k]@);
                        assert(found.deep_view()[k] == found[k]@);
                    }
                }
            }
            Ok(found)
        },
        None => Err(body_error()),
    }
}

/// Discovery through `https://discovery.meethue.com`.
pub struct DiscoveryUrl;

impl Discover for DiscoveryUrl {
    open spec fn discovered(status: u16, body: Seq<char>) -> Result<
        Seq<DiscoveredHueBridgeView>,
        HueErrorView,
    > {
        bridges_response(status, json_document(body))
    }

    /// A `GET` of the discovery address.
    fn request() -> (r: Request)
        ensures
            r@ == (RequestView { method: Method::Get, url: DISCOVER_ADDRESS@, body: None }),
    {
        Request { method: Method::Get, url: String::from_str(DISCOVER_ADDRESS), body: None }
    }

    /// Reads the bridges out of the endpoint's response. A status outside
    /// 200 to 299 and a body that is not an array of records are request
    /// failures.
    fn discover(status: u16, body: &str) -> (r: Result<Vec<DiscoveredHueBridge>, HueError>) {
        match read_json(status, body) {
            Ok(doc) => read_bridges(&doc),
            Err(error) => Err(error),
        }
    }
}

} // verus!
