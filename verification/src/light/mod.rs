//! Reading the lights of a bridge and changing their state.

use crate::error::{result_view, HueError, HueErrorView, RequestFailureView};
use crate::http::{body_error, json_response, read_json, Method, Request, RequestView};
use crate::json::{json_document, Decode, Json, JsonValue};
use crate::light::lights::{entries_map, lemma_entries_map_push};
use crate::light::model::HueLightView;
use crate::{Hue, HueView};
use vstd::prelude::*;

pub mod display;
pub mod lights;
pub mod model;
pub mod state_change;

pub use lights::Lights;
pub use model::{
    Capabilities, CapabilitiesControl, CapabilitiesControlCT, CapabilitiesStreaming, HueLight,
    HueLightConfig, HueLightSoftwareUpdate, HueLightState,
};
pub use state_change::StateChange;

verus! {

/// The lights that the bridge's answer lists: the answer has to be an
/// object whose members all hold a light record; the keys are the lights'
/// numbers.
pub open spec fn lights(doc: JsonValue) -> Result<Map<Seq<char>, HueLightView>, HueErrorView> {
    match doc {
        JsonValue::Object(members) => if forall|i: int|
            0 <= i < members.len() ==> (#[trigger] HueLight::decoded(members[i].1)) is Some {
            Ok(
                entries_map(
                    Seq::new(
                        members.len(),
                        |i: int| (members[i].0, HueLight::decoded(members[i].1)->0),
                    ),
                ),
            )
        } else {
            Err(HueErrorView::RequestError(RequestFailureView::Body))
        },
        _ => Err(HueErrorView::RequestError(RequestFailureView::Body)),
    }
}

/// What the response to the request for all lights means; `parsed` is its
/// body as far as it is JSON at all.
pub open spec fn lights_response(status: u16, parsed: Option<JsonValue>) -> Result<
    Map<Seq<char>, HueLightView>,
    HueErrorView,
> {
    match json_response(status, parsed) {
        Ok(doc) => lights(doc),
        Err(error) => Err(error),
    }
}

/// The light that the bridge's answer describes.
pub open spec fn light(doc: JsonValue) -> Result<HueLightView, HueErrorView> {
    match HueLight::decoded(doc) {
        Some(light) => Ok(light),
        None => Err(HueErrorView::RequestError(RequestFailureView::Body)),
    }
}

/// What the response to the request for one light means; `parsed` is its
/// body as far as it is JSON at all.
pub open spec fn light_response(status: u16, parsed: Option<JsonValue>) -> Result<
    HueLightView,
    HueErrorView,
> {
    match json_response(status, parsed) {
        Ok(doc) => light(doc),
        Err(error) => Err(error),
    }
}

/// The request for all lights: a `GET` of `/lights` below the session's
/// URL.
pub open spec fn lights_request(session: HueView) -> RequestView {
    RequestView { method: Method::Get, url: session.username_url() + "/lights"@, body: None }
}

/// The request for the light `light_number`: a `GET` of
/// `/lights/{light_number}` below the session's URL.
pub open spec fn get_light_request(session: HueView, light_number: Seq<char>) -> RequestView {
    RequestView {
        method: Method::Get,
        url: session.username_url() + "/lights/"@ + light_number,
        body: None,
    }
}

/// Reads all lights out of the bridge's answer, once parsed.
pub fn read_lights(doc: &Json) -> (r: Result<Lights, HueError>)
    ensures
        result_view(r) == lights(doc@),
{
    match doc.members() {
        Some(members) => {
            let ghost views = members.deep_view();
            let ghost decoded = Seq::new(
                views.len(),
                |k: int| (views[k].0, HueLight::decoded(views[k].1)->0),
            );
            let mut found = Lights::new();
            let mut i: usize = 0;
            proof {
                assert(decoded.take(0) =~= Seq::empty());
            }
            while i < members.len()
                invariant
                    i <= members.len(),
                    doc@ == JsonValue::Object(views),
                    views == members.deep_view(),
                    decoded == Seq::new(
                        views.len(),
                        |k: int| (views[k].0, HueLight::decoded(views[k].1)->0),
                    ),
                    forall|k: int|
                        0 <= k < i ==> (#[trigger] HueLight::decoded(views[k].1)) is Some,
                    found@ == entries_map(decoded.take(i as int)),
                decreases members.len() - i,
            {
                proof {
                    assert(views[i as int] == members[i as int].deep_view());
                }
                match HueLight::from_json(&members[i].1) {
                    Some(light) => {
                        proof {
                            lemma_entries_map_push(
                                decoded.take(i as int),
                                decoded[i as int].0,
                                decoded[i as int].1,
                            );
                            assert(decoded.take(i + 1) =~= decoded.take(i as int).push(
                                decoded[i as int],
                            ));
                        }
                        found = found.insert(members[i].0.clone(), light);
                    },
                    None => {
                        return Err(body_error());
                    },
                }
                i += 1;
            }
            proof {
                assert(decoded.take(i as int) =~= decoded);
            }
            Ok(found)
        },
        None => Err(body_error()),
    }
}

/// Reads one light out of the bridge's answer, once parsed.
pub fn read_light(doc: &Json) -> (r: Result<HueLight, HueError>)
    ensures
        result_view(r) == light(doc@),
{
    match HueLight::from_json(doc) {
        Some(light) => Ok(light),
        None => Err(body_error()),
    }
}

impl Hue {
    /// The request that asks for all lights of the bridge.
    pub fn lights_request(&self) -> (r: Request)
        ensures
            r@ == lights_request(self@),
    {
        let mut url = self.get_username_url();
        url.append("/lights");
        Request { method: Method::Get, url, body: None }
    }

    /// Reads all lights out of the bridge's response. A status outside 200
    /// to 299 and a body that is not an object of light records are request
    /// failures.
    pub fn lights(&self, status: u16, body: &str) -> (r: Result<Lights, HueError>)
        ensures
            result_view(r) == lights_response(status, json_document(body@)),
    {
        match read_json(status, body) {
            Ok(doc) => read_lights(&doc),
            Err(error) => Err(error),
        }
    }

    /// The request that asks for the light `light_number`.
    pub fn get_light_request(&self, light_number: &str) -> (r: Request)
        ensures
            r@ == get_light_request(self@, light_number@),
    {
        let mut url = self.get_username_url();
        url.append("/lights/");
        url.append(light_number);
        proof {
            assert(url@ =~= self@.username_url() + "/lights/"@ + light_number@);
        }
        Request { method: Method::Get, url, body: None }
    }

    /// Reads one light out of the bridge's response. The bridge answers a
    /// number that it does not know with a status outside 200 to 299,
    /// which is a request failure like any other.
    pub fn get_light(&self, status: u16, body: &str) -> (r: Result<HueLight, HueError>)
        ensures
            result_view(r) == light_response(status, json_document(body@)),
    {
        match read_json(status, body) {
            Ok(doc) => read_light(&doc),
            Err(error) => Err(error),
        }
    }
}

} // verus!
