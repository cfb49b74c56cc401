//! What the bridge reports about a light. The records mirror the bridge at
//! the moment of the request and are not kept up to date.

use crate::json::{Decode, Json, JsonValue};
use vstd::prelude::*;

verus! {

/// The state of a light. Which of brightness, hue, saturation and colour
/// temperature a light reports depends on the light; each may be missing on
/// its own.
#[derive(Debug, PartialEq, Eq)]
pub struct HueLightState {
    pub on: bool,
    pub bri: Option<u8>,
    pub hue: Option<u16>,
    pub sat: Option<u8>,
    pub ct: Option<u16>,
    pub alert: String,
    pub colormode: Option<String>,
    pub mode: String,
    pub reachable: bool,
}

/// The mathematical value of a `HueLightState`.
pub struct HueLightStateView {
    pub on: bool,
    pub bri: Option<u8>,
    pub hue: Option<u16>,
    pub sat: Option<u8>,
    pub ct: Option<u16>,
    pub alert: Seq<char>,
    pub colormode: Option<Seq<char>>,
    pub mode: Seq<char>,
    pub reachable: bool,
}

impl View for HueLightState {
    type V = HueLightStateView;

    open spec fn view(&self) -> HueLightStateView {
        HueLightStateView {
            on: self.on,
            bri: self.bri,
            hue: self.hue,
            sat: self.sat,
            ct: self.ct,
            alert: self.alert@,
            colormode: self.colormode.deep_view(),
            mode: self.mode@,
            reachable: self.reachable,
        }
    }
}

impl DeepView for HueLightState {
    type V = HueLightStateView;

    open spec fn deep_view(&self) -> HueLightStateView {
        self@
    }
}

impl Decode for HueLightState {
    /// The members `on`, `alert`, `mode` and `reachable` have to be there;
    /// `bri`, `hue`, `sat`, `ct` and `colormode` may be missing or `null`.
    open spec fn decoded(doc: JsonValue) -> Option<HueLightStateView> {
        if doc.field::<bool>("on"@) is Some && doc.optional_field::<u8>("bri"@) is Some
            && doc.optional_field::<u16>("hue"@) is Some && doc.optional_field::<u8>("sat"@)
            is Some && doc.optional_field::<u16>("ct"@) is Some && doc.field::<String>("alert"@)
            is Some && doc.optional_field::<String>("colormode"@) is Some && doc.field::<String>(
            "mode"@,
        ) is Some && doc.field::<bool>("reachable"@) is Some {
            Some(
                HueLightStateView {
                    on: doc.field::<bool>("on"@)->0,
                    bri: doc.optional_field::<u8>("bri"@)->0,
                    hue: doc.optional_field::<u16>("hue"@)->0,
                    sat: doc.optional_field::<u8>("sat"@)->0,
                    ct: doc.optional_field::<u16>("ct"@)->0,
                    alert: doc.field::<String>("alert"@)->0,
                    colormode: doc.optional_field::<String>("colormode"@)->0,
                    mode: doc.field::<String>("mode"@)->0,
                    reachable: doc.field::<bool>("reachable"@)->0,
                },
            )
        } else {
            None
        }
    }

    fn from_json(doc: &Json) -> (r: Option<HueLightState>) {
        let on = doc.field::<bool>("on")?;
        let bri = doc.optional_field::<u8>("bri")?;
        let hue = doc.optional_field::<u16>("hue")?;
        let sat = doc.optional_field::<u8>("sat")?;
        let ct = doc.optional_field::<u16>("ct")?;
        let alert = doc.field::<String>("alert")?;
        let colormode = doc.optional_field::<String>("colormode")?;
        let mode = doc.field::<String>("mode")?;
        let reachable = doc.field::<bool>("reachable")?;
        Some(HueLightState { on, bri, hue, sat, ct, alert, colormode, mode, reachable })
    }
}

/// Whether the light's firmware can be updated, and when it last was.
#[derive(Debug, PartialEq, Eq)]
pub struct HueLightSoftwareUpdate {
    pub state: String,
    pub last_install: String,
}

/// The mathematical value of a `HueLightSoftwareUpdate`.
pub struct HueLightSoftwareUpdateView {
    pub state: Seq<char>,
    pub last_install: Seq<char>,
}

impl View for HueLightSoftwareUpdate {
    type V = HueLightSoftwareUpdateView;

    open spec fn view(&self) -> HueLightSoftwareUpdateView {
        HueLightSoftwareUpdateView { state: self.state@, last_install: self.last_install@ }
    }
}

impl DeepView for HueLightSoftwareUpdate {
    type V = HueLightSoftwareUpdateView;

    open spec fn deep_view(&self) -> HueLightSoftwareUpdateView {
        self@
    }
}

impl Decode for HueLightSoftwareUpdate {
    /// An object with the string members `state` and `lastinstall`.
    open spec fn decoded(doc: JsonValue) -> Option<HueLightSoftwareUpdateView> {
        if doc.field::<String>("state"@) is Some && doc.field::<String>("lastinstall"@) is Some {
            Some(
                HueLightSoftwareUpdateView {
                    state: doc.field::<String>("state"@)->0,
                    last_install: doc.field::<String>("lastinstall"@)->0,
                },
            )
        } else {
            None
        }
    }

    fn from_json(doc: &Json) -> (r: Option<HueLightSoftwareUpdate>) {
        let state = doc.field::<String>("state")?;
        let last_install = doc.field::<String>("lastinstall")?;
        Some(HueLightSoftwareUpdate { state, last_install })
    }
}

/// The range of colour temperatures that a light can show.
#[derive(Clone, Copy, Debug, PartialEq, Eq, Structural)]
pub struct CapabilitiesControlCT {
    pub min: u16,
    pub max: u16,
}

impl View for CapabilitiesControlCT {
    type V = CapabilitiesControlCT;

    open spec fn view(&self) -> CapabilitiesControlCT {
        *self
    }
}

impl DeepView for CapabilitiesControlCT {
    type V = CapabilitiesControlCT;

    open spec fn deep_view(&self) -> CapabilitiesControlCT {
        *self
    }
}

impl Decode for CapabilitiesControlCT {
    /// An object with the members `min` and `max`.
    open spec fn decoded(doc: JsonValue) -> Option<CapabilitiesControlCT> {
        if doc.field::<u16>("min"@) is Some && doc.field::<u16>("max"@) is Some {
            Some(
                CapabilitiesControlCT {
                    min: doc.field::<u16>("min"@)->0,
                    max: doc.field::<u16>("max"@)->0,
                },
            )
        } else {
            None
        }
    }

    fn from_json(doc: &Json) -> (r: Option<CapabilitiesControlCT>) {
        let min = doc.field::<u16>("min")?;
        let max = doc.field::<u16>("max")?;
        Some(CapabilitiesControlCT { min, max })
    }
}

/// What of a light can be controlled.
#[derive(Clone, Copy, Debug, PartialEq, Eq, Structural)]
pub struct CapabilitiesControl {
    pub ct: Option<CapabilitiesControlCT>,
}

impl View for CapabilitiesControl {
    type V = CapabilitiesControl;

    open spec fn view(&self) -> CapabilitiesControl {
        *self
    }
}

impl DeepView for CapabilitiesControl {
    type V = CapabilitiesControl;

    open spec fn deep_view(&self) -> CapabilitiesControl {
        *self
    }
}

impl Decode for CapabilitiesControl {
    /// An object; its member `ct` may be missing or `null`.
    open spec fn decoded(doc: JsonValue) -> Option<CapabilitiesControl> {
        if doc is Object && doc.optional_field::<CapabilitiesControlCT>("ct"@) is Some {
            Some(CapabilitiesControl { ct: doc.optional_field::<CapabilitiesControlCT>("ct"@)->0 })
        } else {
            None
        }
    }

    fn from_json(doc: &Json) -> (r: Option<CapabilitiesControl>) {
        if doc.members().is_none() {
            return None;
        }
        let ct = doc.optional_field::<CapabilitiesControlCT>("ct")?;
        Some(CapabilitiesControl { ct })
    }
}

/// Whether a light takes part in streaming.
#[derive(Clone, Copy, Debug, PartialEq, Eq, Structural)]
pub struct CapabilitiesStreaming {
    pub renderer: bool,
    pub proxy: bool,
}

impl View for CapabilitiesStreaming {
    type V = CapabilitiesStreaming;

    open spec fn view(&self) -> CapabilitiesStreaming {
        *self
    }
}

impl DeepView for CapabilitiesStreaming {
    type V = CapabilitiesStreaming;

    open spec fn deep_view(&self) -> CapabilitiesStreaming {
        *self
    }
}

impl Decode for CapabilitiesStreaming {
    /// An object with the boolean members `renderer` and `proxy`.
    open spec fn decoded(doc: JsonValue) -> Option<CapabilitiesStreaming> {
        if doc.field::<bool>("renderer"@) is Some && doc.field::<bool>("proxy"@) is Some {
            Some(
                CapabilitiesStreaming {
                    renderer: doc.field::<bool>("renderer"@)->0,
                    proxy: doc.field::<bool>("proxy"@)->0,
                },
            )
        } else {
            None
        }
    }

    fn from_json(doc: &Json) -> (r: Option<CapabilitiesStreaming>) {
        let renderer = doc.field::<bool>("renderer")?;
        let proxy = doc.field::<bool>("proxy")?;
        Some(CapabilitiesStreaming { renderer, proxy })
    }
}

/// What a light can do.
#[derive(Clone, Copy, Debug, PartialEq, Eq, Structural)]
pub struct Capabilities {
    pub certified: bool,
    pub control: CapabilitiesControl,
    pub streaming: CapabilitiesStreaming,
}

impl View for Capabilities {
    type V = Capabilities;

    open spec fn view(&self) -> Capabilities {
        *self
    }
}

impl DeepView for Capabilities {
    type V = Capabilities;

    open spec fn deep_view(&self) -> Capabilities {
        *self
    }
}

impl Decode for Capabilities {
    /// An object with the members `certified`, `control` and `streaming`.
    open spec fn decoded(doc: JsonValue) -> Option<Capabilities> {
        if doc.field::<bool>("certified"@) is Some && doc.field::<CapabilitiesControl>("control"@)
            is Some && doc.field::<CapabilitiesStreaming>("streaming"@) is Some {
            Some(
                Capabilities {
                    certified: doc.field::<bool>("certified"@)->0,
                    control: doc.field::<CapabilitiesControl>("control"@)->0,
                    streaming: doc.field::<CapabilitiesStreaming>("streaming"@)->0,
                },
            )
        } else {
            None
        }
    }

    fn from_json(doc: &Json) -> (r: Option<Capabilities>) {
        let certified = doc.field::<bool>("certified")?;
        let control = doc.field::<CapabilitiesControl>("control")?;
        let streaming = doc.field::<CapabilitiesStreaming>("streaming")?;
        Some(Capabilities { certified, control, streaming })
    }
}

/// How a light is installed.
#[derive(Debug, PartialEq, Eq)]
pub struct HueLightConfig {
    pub archetype: String,
    pub function: String,
    pub direction: String,
}

/// The mathematical value of a `HueLightConfig`.
pub struct HueLightConfigView {
    pub archetype: Seq<char>,
    pub function: Seq<char>,
    pub direction: Seq<char>,
}

impl View for HueLightConfig {
    type V = HueLightConfigView;

    open spec fn view(&self) -> HueLightConfigView {
        HueLightConfigView {
            archetype: self.archetype@,
            function: self.function@,
            direction: self.direction@,
        }
    }
}

impl DeepView for HueLightConfig {
    type V = HueLightConfigView;

    open spec fn deep_view(&self) -> HueLightConfigView {
        self@
    }
}

impl Decode for HueLightConfig {
    /// An object with the string members `archetype`, `function` and
    /// `direction`.
    open spec fn decoded(doc: JsonValue) -> Option<HueLightConfigView> {
        if doc.field::<String>("archetype"@) is Some && doc.field::<String>("function"@) is Some
            && doc.field::<String>("direction"@) is Some {
            Some(
                HueLightConfigView {
                    archetype: doc.field::<String>("archetype"@)->0,
                    function: doc.field::<String>("function"@)->0,
                    direction: doc.field::<String>("direction"@)->0,
                },
            )
        } else {
            None
        }
    }

    fn from_json(doc: &Json) -> (r: Option<HueLightConfig>) {
        let archetype = doc.field::<String>("archetype")?;
        let function = doc.field::<String>("function")?;
        let direction = doc.field::<String>("direction")?;
        Some(HueLightConfig { archetype, function, direction })
    }
}

/// A light as the bridge knows it.
#[derive(Debug, PartialEq, Eq)]
pub struct HueLight {
    pub state: HueLightState,
    pub _type: String,
    pub name: String,
    pub model_id: String,
    pub manufacturer_name: String,
    pub product_name: String,
    pub software_update: HueLightSoftwareUpdate,
    pub unique_id: String,
    pub software_version: String,
    pub capabilities: Capabilities,
    pub config: HueLightConfig,
}

/// The mathematical value of a `HueLight`.
pub struct HueLightView {
    pub state: HueLightStateView,
    pub _type: Seq<char>,
    pub name: Seq<char>,
    pub model_id: Seq<char>,
    pub manufacturer_name: Seq<char>,
    pub product_name: Seq<char>,
    pub software_update: HueLightSoftwareUpdateView,
    pub unique_id: Seq<char>,
    pub software_version: Seq<char>,
    pub capabilities: Capabilities,
    pub config: HueLightConfigView,
}

impl View for HueLight {
    type V = HueLightView;

    open spec fn view(&self) -> HueLightView {
        HueLightView {
            state: self.state@,
            _type: self._type@,
            name: self.name@,
            model_id: self.model_id@,
            manufacturer_name: self.manufacturer_name@,
            product_name: self.product_name@,
            software_update: self.software_update@,
            unique_id: self.unique_id@,
            software_version: self.software_version@,
            capabilities: self.capabilities,
            config: self.config@,
        }
    }
}

impl DeepView for HueLight {
    type V = HueLightView;

    open spec fn deep_view(&self) -> HueLightView {
        self@
    }
}

/// Whether `doc` has every member of a light record, each of its kind.
pub open spec fn is_light(doc: JsonValue) -> bool {
    &&& doc.field::<HueLightState>("state"@) is Some
    &&& doc.field::<String>("type"@) is Some
    &&& doc.field::<String>("name"@) is Some
    &&& doc.field::<String>("modelid"@) is Some
    &&& doc.field::<String>("manufacturername"@) is Some
    &&& doc.field::<String>("productname"@) is Some
    &&& doc.field::<HueLightSoftwareUpdate>("swupdate"@) is Some
    &&& doc.field::<String>("uniqueid"@) is Some
    &&& doc.field::<String>("swversion"@) is Some
    &&& doc.field::<Capabilities>("capabilities"@) is Some
    &&& doc.field::<HueLightConfig>("config"@) is Some
}

impl Decode for HueLight {
    /// A light record is an object with the members `state`, `type`,
    /// `name`, `modelid`, `manufacturername`, `productname`, `swupdate`,
    /// `uniqueid`, `swversion`, `capabilities` and `config`. Other members
    /// are passed over.
    open spec fn decoded(doc: JsonValue) -> Option<HueLightView> {
        if is_light(doc) {
            Some(
                HueLightView {
                    state: doc.field::<HueLightState>("state"@)->0,
                    _type: doc.field::<String>("type"@)->0,
                    name: doc.field::<String>("name"@)->0,
                    model_id: doc.field::<String>("modelid"@)->0,
                    manufacturer_name: doc.field::<String>("manufacturername"@)->0,
                    product_name: doc.field::<String>("productname"@)->0,
                    software_update: doc.field::<HueLightSoftwareUpdate>("swupdate"@)->0,
                    unique_id: doc.field::<String>("uniqueid"@)->0,
                    software_version: doc.field::<String>("swversion"@)->0,
                    capabilities: doc.field::<Capabilities>("capabilities"@)->0,
                    config: doc.field::<HueLightConfig>("config"@)->0,
                },
            )
        } else {
            None
        }
    }

    fn from_json(doc: &Json) -> (r: Option<HueLight>) {
        let state = doc.field::<HueLightState>("state")?;
        let _type = doc.field::<String>("type")?;
        let name = doc.field::<String>("name")?;
        let model_id = doc.field::<String>("modelid")?;
        let manufacturer_name = doc.field::<String>("manufacturername")?;
        let product_name = doc.field::<String>("productname")?;
        let software_update = doc.field::<HueLightSoftwareUpdate>("swupdate")?;
        let unique_id = doc.field::<String>("uniqueid")?;
        let software_version = doc.field::<String>("swversion")?;
        let capabilities = doc.field::<Capabilities>("capabilities")?;
        let config = doc.field::<HueLightConfig>("config")?;
        Some(
            HueLight {
                state,
                _type,
                name,
                model_id,
                manufacturer_name,
                product_name,
                software_update,
                unique_id,
                software_version,
                capabilities,
                config,
            },
        )
    }
}

} // verus!
