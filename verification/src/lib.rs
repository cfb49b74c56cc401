//! A client for the local HTTP API of a Philips Hue bridge: bridge discovery,
//! pairing, and reading and changing the state of lights.
//!
//! The library computes what is sent (method, URL and body of each request)
//! and what a response means (a typed value or a `HueError`). Performing the
//! request is left to the caller.

use vstd::prelude::*;

pub mod bridge;
pub mod device;
pub mod discover;
pub mod error;
pub mod http;
pub mod json;
pub mod light;
pub mod login;
pub mod text;

pub use bridge::HueBridge;
pub use device::DeviceType;
pub use discover::discovery_url::DiscoveryUrl;
pub use discover::{Discover, DiscoveredHueBridge};
pub use error::{ApiError, HueError, RequestFailure};

verus! {

/// A session: a bridge together with the token that it issued at pairing.
#[derive(Debug, PartialEq, Eq)]
pub struct Hue {
    pub bridge: HueBridge,
    /// The access token, which the bridge calls a username.
    pub username: String,
}

/// The mathematical value of a `Hue`.
pub struct HueView {
    pub bridge_url: Seq<char>,
    pub username: Seq<char>,
}

impl View for Hue {
    type V = HueView;

    open spec fn view(&self) -> HueView {
        HueView { bridge_url: self.bridge@, username: self.username@ }
    }
}

impl DeepView for Hue {
    type V = HueView;

    open spec fn deep_view(&self) -> HueView {
        self@
    }
}

impl HueView {
    /// The URL below which every request of the session lies:
    /// `{bridge_url}/api/{username}`.
    pub open spec fn username_url(self) -> Seq<char> {
        self.bridge_url + "/api/"@ + self.username
    }
}

impl Hue {
    pub fn new(bridge: HueBridge, username: String) -> (r: Hue)
        ensures
            r.bridge == bridge,
            r.username == username,
            r@ == (HueView { bridge_url: bridge@, username: username@ }),
    {
        Hue { bridge, username }
    }

    /// The URL below which every request of the session lies.
    pub fn get_username_url(&self) -> (r: String)
        ensures
            r@ == self@.username_url(),
    {
        let mut url = self.bridge.bridge_url.clone();
        url.append("/api/");
        url.append(self.username.as_str());
        url
    }
}

} // verus!
