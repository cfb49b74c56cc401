//! Finding bridges on the local network.

use crate::error::{result_view, HueError, HueErrorView};
use crate::http::Request;
use vstd::prelude::*;

pub mod discovery_url;

verus! {

/// A bridge that discovery found. It turns into a `HueBridge` with `into`.
#[derive(Clone, Debug, PartialEq, Eq)]
pub struct DiscoveredHueBridge {
    pub id: String,
    pub url: String,
}

/// The mathematical value of a `DiscoveredHueBridge`.
pub struct DiscoveredHueBridgeView {
    pub id: Seq<char>,
    pub url: Seq<char>,
}

impl View for DiscoveredHueBridge {
    type V = DiscoveredHueBridgeView;

    open spec fn view(&self) -> DiscoveredHueBridgeView {
        DiscoveredHueBridgeView { id: self.id@, url: self.url@ }
    }
}

impl DeepView for DiscoveredHueBridge {
    type V = DiscoveredHueBridgeView;

    open spec fn deep_view(&self) -> DiscoveredHueBridgeView {
        self@
    }
}

/// The first of the bridges found, or `NoBridgeFound` where there is none.
/// A failed discovery stays the failure it is.
pub open spec fn first_found(
    found: Result<Seq<DiscoveredHueBridgeView>, HueErrorView>,
) -> Result<DiscoveredHueBridgeView, HueErrorView> {
    match found {
        Ok(bridges) => if bridges.len() == 0 {
            Err(HueErrorView::NoBridgeFound)
        } else {
            Ok(bridges[0])
        },
        Err(error) => Err(error),
    }
}

/// Picks the first of the bridges that a discovery found. The order is the
/// one in which the discovery reported them.
pub fn first_bridge(found: Vec<DiscoveredHueBridge>) -> (r: Result<DiscoveredHueBridge, HueError>)
    ensures
        found.len() == 0 ==> r is Err && r->Err_0@ == HueErrorView::NoBridgeFound,
        found.len() > 0 ==> r == Ok::<DiscoveredHueBridge, HueError>(found[0]),
        result_view(r) == first_found(Ok(found.deep_view())),
{
    let mut found = found;
    if found.len() == 0 {
        Err(HueError::NoBridgeFound)
    } else {
        Ok(found.swap_remove(0))
    }
}

/// A way to discover bridges: a request to send, and the reading of its
/// response.
pub trait Discover {
    /// What a response with this status and body means.
    spec fn discovered(status: u16, body: Seq<char>) -> Result<
        Seq<DiscoveredHueBridgeView>,
        HueErrorView,
    >;

    /// The request that asks for the bridges.
    fn request() -> Request;

    /// Reads all bridges out of the response.
    fn discover(status: u16, body: &str) -> (r: Result<Vec<DiscoveredHueBridge>, HueError>)
        ensures
            result_view(r) == Self::discovered(status, body@),
    ;

    /// Reads the first bridge out of the response. Fails with
    /// `NoBridgeFound` where the response holds none.
    fn discover_one(status: u16, body: &str) -> (r: Result<DiscoveredHueBridge, HueError>)
        ensures
            result_view(r) == first_found(Self::discovered(status, body@)),
    {
        match Self::discover(status, body) {
            Ok(found) => first_bridge(found),
            Err(error) => Err(error),
        }
    }
}

} // verus!
