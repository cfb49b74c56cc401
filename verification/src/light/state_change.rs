//! Changing the state of a light: a change names only the parts of the
//! state that it sets, and only those are sent.

use crate::bridge::envelope_reply;
use crate::error::{result_view, HueError, HueErrorView};
use crate::http::{Method, Request, RequestView};
use crate::json::{json_document, object_text, Anything, ObjectWriter};
use crate::text::{
    bool_str, decimal_string, optional_bool_text, optional_byte_text, optional_short_text,
};
use crate::{Hue, HueView};
use vstd::prelude::*;

verus! {

/// A change of a light's state, built up call by call:
/// `StateChange::new().on(true).bri(254)` turns the light on at full
/// brightness and leaves the rest as it is. The bridge decides which values
/// it accepts.
#[derive(Clone, Copy, Debug, PartialEq, Eq)]
pub struct StateChange {
    value_on: Option<bool>,
    value_sat: Option<u8>,
    value_bri: Option<u8>,
    value_hue: Option<u16>,
    value_transition_time: Option<u16>,
}

/// The mathematical value of a `StateChange`: for each part of the state
/// the value to set, or `None` to leave it alone.
pub struct StateChangeView {
    pub on: Option<bool>,
    pub sat: Option<u8>,
    pub bri: Option<u8>,
    pub hue: Option<u16>,
    pub transition_time: Option<u16>,
}

/// The member `key` of a JSON object where it has a value, no member where
/// it has none.
pub open spec fn optional_member(key: Seq<char>, value: Option<Seq<char>>) -> Seq<
    (Seq<char>, Seq<char>),
> {
    match value {
        Some(v) => seq![(key, v)],
        None => Seq::empty(),
    }
}

impl StateChangeView {
    /// The change that sets nothing.
    pub open spec fn empty() -> StateChangeView {
        StateChangeView { on: None, sat: None, bri: None, hue: None, transition_time: None }
    }

    /// Whether the change sets nothing.
    pub open spec fn is_empty(self) -> bool {
        self.on is None && self.sat is None && self.bri is None && self.hue is None
            && self.transition_time is None
    }

    /// Whether the change sets the part of the state that the bridge knows
    /// under the name `key`.
    pub open spec fn sets(self, key: Seq<char>) -> bool {
        ||| key == "on"@ && self.on is Some
        ||| key == "sat"@ && self.sat is Some
        ||| key == "bri"@ && self.bri is Some
        ||| key == "hue"@ && self.hue is Some
        ||| key == "transitiontime"@ && self.transition_time is Some
    }

    /// The members of the request body: one for each part that the change
    /// sets, in the order `on`, `sat`, `bri`, `hue`, `transitiontime`.
    pub open spec fn members(self) -> Seq<(Seq<char>, Seq<char>)> {
        optional_member("on"@, optional_bool_text(self.on)) + optional_member(
            "sat"@,
            optional_byte_text(self.sat),
        ) + optional_member("bri"@, optional_byte_text(self.bri)) + optional_member(
            "hue"@,
            optional_short_text(self.hue),
        ) + optional_member("transitiontime"@, optional_short_text(self.transition_time))
    }

    /// The request body: a JSON object of the members.
    pub open spec fn json(self) -> Seq<char> {
        object_text(self.members())
    }
}

impl View for StateChange {
    type V = StateChangeView;

    closed spec fn view(&self) -> StateChangeView {
        StateChangeView {
            on: self.value_on,
            sat: self.value_sat,
            bri: self.value_bri,
            hue: self.value_hue,
            transition_time: self.value_transition_time,
        }
    }
}

impl DeepView for StateChange {
    type V = StateChangeView;

    open spec fn deep_view(&self) -> StateChangeView {
        self@
    }
}

impl Default for StateChange {
    fn default() -> (r: StateChange)
        ensures
            r@ == StateChangeView::empty(),
    {
        StateChange {
            value_on: None,
            value_sat: None,
            value_bri: None,
            value_hue: None,
            value_transition_time: None,
        }
    }
}

impl StateChange {
    /// The change that sets nothing.
    pub fn new() -> (r: StateChange)
        ensures
            r@ == StateChangeView::empty(),
    {
        StateChange {
            value_on: None,
            value_sat: None,
            value_bri: None,
            value_hue: None,
            value_transition_time: None,
        }
    }

    /// Returns `true` if the change sets nothing. Such a change is still
    /// sent when asked for, with an empty object as the body.
    pub fn is_empty(&self) -> (r: bool)
        ensures
            r == self@.is_empty(),
    {
        self.value_on.is_none() && self.value_sat.is_none() && self.value_bri.is_none()
            && self.value_hue.is_none() && self.value_transition_time.is_none()
    }

    /// Turns the light on or off.
    pub fn on(self, on: bool) -> (r: StateChange)
        ensures
            r@ == (StateChangeView { on: Some(on), ..self@ }),
    {
        StateChange { value_on: Some(on), ..self }
    }

    /// Sets the saturation.
    pub fn sat(self, sat: u8) -> (r: StateChange)
        ensures
            r@ == (StateChangeView { sat: Some(sat), ..self@ }),
    {
        StateChange { value_sat: Some(sat), ..self }
    }

    /// Sets the brightness; 254 is the brightest.
    pub fn bri(self, bri: u8) -> (r: StateChange)
        ensures
            r@ == (StateChangeView { bri: Some(bri), ..self@ }),
    {
        StateChange { value_bri: Some(bri), ..self }
    }

    /// Sets the hue.
    pub fn hue(self, hue: u16) -> (r: StateChange)
        ensures
            r@ == (StateChangeView { hue: Some(hue), ..self@ }),
    {
        StateChange { value_hue: Some(hue), ..self }
    }

    /// Sets how long the light takes to reach the new state.
    pub fn transition_time(self, transition_time: u16) -> (r: StateChange)
        ensures
            r@ == (StateChangeView { transition_time: Some(transition_time), ..self@ }),
    {
        StateChange { value_transition_time: Some(transition_time), ..self }
    }

    /// The JSON text that is sent for the change: an object with one member
    /// for each part that the change sets, and no other.
    pub fn to_json(&self) -> (r: String)
        ensures
            r@ == self@.json(),
    {
        let mut writer = ObjectWriter::new();
        if let Some(on) = self.value_on {
            writer = writer.member("on", bool_str(on));
        }
        if let Some(sat) = self.value_sat {
            let value = decimal_string(sat as u64);
            writer = writer.member("sat", value.as_str());
        }
        if let Some(bri) = self.value_bri {
            let value = decimal_string(bri as u64);
            writer = writer.member("bri", value.as_str());
        }
        if let Some(hue) = self.value_hue {
            let value = decimal_string(hue as u64);
            writer = writer.member("hue", value.as_str());
        }
        if let Some(transition_time) = self.value_transition_time {
            let value = decimal_string(transition_time as u64);
            writer = writer.member("transitiontime", value.as_str());
        }
        proof {
            assert(writer.written() =~= self@.members());
        }
        writer.finish()
    }
}

/// The request that changes the state of the light `light_number`: a `PUT`
/// to `/lights/{light_number}/state` below the session's URL, with the
/// change as the body.
pub open spec fn set_light_state_request(
    session: HueView,
    light_number: Seq<char>,
    change: StateChangeView,
) -> RequestView {
    RequestView {
        method: Method::Put,
        url: session.username_url() + "/lights/"@ + light_number + "/state"@,
        body: Some(change.json()),
    }
}

impl Hue {
    /// The request that applies `state_change` to the light `light_number`.
    /// A change that sets nothing is a request all the same, with `{}` as
    /// its body: ask `is_empty` first to leave it out.
    pub fn set_light_state_request(&self, light_number: &str, state_change: &StateChange) -> (r:
        Request)
        ensures
            r@ == set_light_state_request(self@, light_number@, state_change@),
    {
        let mut url = self.get_username_url();
        url.append("/lights/");
        url.append(light_number);
        url.append("/state");
        proof {
            assert(url@ =~= self@.username_url() + "/lights/"@ + light_number@ + "/state"@);
        }
        Request { method: Method::Put, url, body: Some(state_change.to_json()) }
    }

    /// Reads the bridge's answer to a change of state. A status outside
    /// 200 to 299 is a request failure; the payload of a success is not
    /// looked at.
    pub fn set_light_state(&self, status: u16, body: &str) -> (r: Result<(), HueError>)
        ensures
            result_view(r) == envelope_reply::<Anything>(status, json_document(body@)),
    {
        match self.bridge.read_reply::<Anything>(status, body) {
            Ok(_) => Ok(()),
            Err(error) => Err(error),
        }
    }
}

/// The setters of different parts do not get in each other's way: the order
/// of two calls makes no difference to the change, and so none to the body
/// that is sent.
pub proof fn lemma_setters_commute(
    change: StateChangeView,
    on: bool,
    sat: u8,
    bri: u8,
    hue: u16,
    transition_time: u16,
)
    ensures
        (StateChangeView { sat: Some(sat), ..(StateChangeView { on: Some(on), ..change }) })
            == (StateChangeView { on: Some(on), ..(StateChangeView { sat: Some(sat), ..change }) }),
        (StateChangeView { bri: Some(bri), ..(StateChangeView { on: Some(on), ..change }) })
            == (StateChangeView { on: Some(on), ..(StateChangeView { bri: Some(bri), ..change }) }),
        (StateChangeView { hue: Some(hue), ..(StateChangeView { on: Some(on), ..change }) })
            == (StateChangeView { on: Some(on), ..(StateChangeView { hue: Some(hue), ..change }) }),
        (StateChangeView {
            transition_time: Some(transition_time),
            ..(StateChangeView { on: Some(on), ..change })
        }) == (StateChangeView {
            on: Some(on),
            ..(StateChangeView { transition_time: Some(transition_time), ..change })
        }),
        (StateChangeView { bri: Some(bri), ..(StateChangeView { sat: Some(sat), ..change }) })
            == (StateChangeView { sat: Some(sat), ..(StateChangeView { bri: Some(bri), ..change }) }),
        (StateChangeView { hue: Some(hue), ..(StateChangeView { sat: Some(sat), ..change }) })
            == (StateChangeView { sat: Some(sat), ..(StateChangeView { hue: Some(hue), ..change }) }),
        (StateChangeView {
            transition_time: Some(transition_time),
            ..(StateChangeView { sat: Some(sat), ..change })
        }) == (StateChangeView {
            sat: Some(sat),
            ..(StateChangeView { transition_time: Some(transition_time), ..change })
        }),
        (StateChangeView { hue: Some(hue), ..(StateChangeView { bri: Some(bri), ..change }) })
            == (StateChangeView { bri: Some(bri), ..(StateChangeView { hue: Some(hue), ..change }) }),
        (StateChangeView {
            transition_time: Some(transition_time),
            ..(StateChangeView { bri: Some(bri), ..change })
        }) == (StateChangeView {
            bri: Some(bri),
            ..(StateChangeView { transition_time: Some(transition_time), ..change })
        }),
        (StateChangeView {
            transition_time: Some(transition_time),
            ..(StateChangeView { hue: Some(hue), ..change })
        }) == (StateChangeView {
            hue: Some(hue),
            ..(StateChangeView { transition_time: Some(transition_time), ..change })
        }),
{
}

/// The five names under which the parts of the state are sent differ from
/// each other.
pub proof fn lemma_names_differ()
    ensures
        "on"@ != "sat"@,
        "on"@ != "bri"@,
        "on"@ != "hue"@,
        "on"@ != "transitiontime"@,
        "sat"@ != "bri"@,
        "sat"@ != "hue"@,
        "sat"@ != "transitiontime"@,
        "bri"@ != "hue"@,
        "bri"@ != "transitiontime"@,
        "hue"@ != "transitiontime"@,
{
    reveal_strlit("on");
    reveal_strlit("sat");
    reveal_strlit("bri");
    reveal_strlit("hue");
    reveal_strlit("transitiontime");
    assert("on"@.len() == 2);
    assert("transitiontime"@.len() == 14);
    assert("sat"@[0] != "bri"@[0]);
    assert("sat"@[0] != "hue"@[0]);
    assert("bri"@[0] != "hue"@[0]);
}

/// The body holds a member for a part of the state if and only if the
/// change sets that part: every key in the body is the name of a part that
/// is set, and every part that is set has its key in the body.
pub proof fn lemma_only_set_parts_are_sent(change: StateChangeView)
    ensures
        forall|i: int|
            0 <= i < change.members().len() ==> change.sets(#[trigger] change.members()[i].0),
        forall|key: Seq<char>|
            change.sets(key) ==> exists|i: int|
                0 <= i < change.members().len() && #[trigger] change.members()[i].0 == key,
        change.is_empty() <==> change.members().len() == 0,
{
    let on = optional_member("on"@, optional_bool_text(change.on));
    let sat = optional_member("sat"@, optional_byte_text(change.sat));
    let bri = optional_member("bri"@, optional_byte_text(change.bri));
    let hue = optional_member("hue"@, optional_short_text(change.hue));
    let time = optional_member("transitiontime"@, optional_short_text(change.transition_time));
    let all = change.members();
    assert(all == on + sat + bri + hue + time);
    assert forall|key: Seq<char>| change.sets(key) implies exists|i: int|
        0 <= i < all.len() && #[trigger] all[i].0 == key by {
        if key == "on"@ && change.on is Some {
            assert(all[0].0 == key);
        } else if key == "sat"@ && change.sat is Some {
            assert(all[on.len() as int].0 == key);
        } else if key == "bri"@ && change.bri is Some {
            assert(all[(on.len() + sat.len()) as int].0 == key);
        } else if key == "hue"@ && change.hue is Some {
            assert(all[(on.len() + sat.len() + bri.len()) as int].0 == key);
        } else {
            assert(all[(on.len() + sat.len() + bri.len() + hue.len()) as int].0 == key);
        }
    }
}

/// A change that sets nothing is sent as the empty object.
pub proof fn lemma_empty_change_is_empty_object(change: StateChangeView)
    requires
        change.is_empty(),
    ensures
        change.json() == "{}"@,
{
    reveal_strlit("{");
    reveal_strlit("}");
    reveal_strlit("{}");
    assert(change.members() =~= Seq::empty());
    assert(change.json() =~= "{}"@);
}

} // verus!
