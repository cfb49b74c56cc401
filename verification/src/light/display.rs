//! Reports of lights for people to read, one fact per line.

use crate::light::model::{
    Capabilities, CapabilitiesControl, CapabilitiesStreaming, HueLight, HueLightConfig,
    HueLightConfigView, HueLightSoftwareUpdate, HueLightSoftwareUpdateView, HueLightState,
    HueLightStateView, HueLightView,
};
use crate::text::{
    bool_str, bool_text, decimal, line, optional_byte_text, optional_line, optional_short_text,
    push_decimal, push_line, push_number_line,
};
use vstd::prelude::*;

verus! {

impl HueLightSoftwareUpdateView {
    /// The update state and the time of the last installation.
    pub open spec fn text(self) -> Seq<char> {
        line("State: "@, self.state) + line("Last install: "@, self.last_install)
    }
}

impl HueLightSoftwareUpdate {
    /// The report of the software update.
    pub fn to_text(&self) -> (r: String)
        ensures
            r@ == self@.text(),
    {
        let mut out = String::new();
        push_line(&mut out, "State: ", self.state.as_str());
        push_line(&mut out, "Last install: ", self.last_install.as_str());
        proof {
            assert(out@ =~= self@.text());
        }
        out
    }
}

impl HueLightConfigView {
    /// Archetype, function and direction.
    pub open spec fn text(self) -> Seq<char> {
        line("Archetype: "@, self.archetype) + line("Function: "@, self.function) + line(
            "Direction: "@,
            self.direction,
        )
    }
}

impl HueLightConfig {
    /// The report of the configuration.
    pub fn to_text(&self) -> (r: String)
        ensures
            r@ == self@.text(),
    {
        let mut out = String::new();
        push_line(&mut out, "Archetype: ", self.archetype.as_str());
        push_line(&mut out, "Function: ", self.function.as_str());
        push_line(&mut out, "Direction: ", self.direction.as_str());
        proof {
            assert(out@ =~= self@.text());
        }
        out
    }
}

impl HueLightStateView {
    /// One line for each part of the state; a part that the light does not
    /// report has no line.
    pub open spec fn text(self) -> Seq<char> {
        line("On: "@, bool_text(self.on)) + optional_line(
            "Brightness: "@,
            optional_byte_text(self.bri),
        ) + optional_line("Hue: "@, optional_short_text(self.hue)) + optional_line(
            "Saturation: "@,
            optional_byte_text(self.sat),
        ) + optional_line("Color temperature: "@, optional_short_text(self.ct)) + line(
            "Alert: "@,
            self.alert,
        ) + optional_line("Colormode: "@, self.colormode) + line("Mode: "@, self.mode) + line(
            "Reachable: "@,
            bool_text(self.reachable),
        )
    }
}

impl HueLightState {
    /// The report of the state.
    pub fn to_text(&self) -> (r: String)
        ensures
            r@ == self@.text(),
    {
        let mut out = String::new();
        push_line(&mut out, "On: ", bool_str(self.on));
        if let Some(bri) = self.bri {
            push_number_line(&mut out, "Brightness: ", bri as u64);
        }
        if let Some(hue) = self.hue {
            push_number_line(&mut out, "Hue: ", hue as u64);
        }
        if let Some(sat) = self.sat {
            push_number_line(&mut out, "Saturation: ", sat as u64);
        }
        if let Some(ct) = self.ct {
            push_number_line(&mut out, "Color temperature: ", ct as u64);
        }
        push_line(&mut out, "Alert: ", self.alert.as_str());
        if let Some(colormode) = &self.colormode {
            push_line(&mut out, "Colormode: ", colormode.as_str());
        }
        push_line(&mut out, "Mode: ", self.mode.as_str());
        push_line(&mut out, "Reachable: ", bool_str(self.reachable));
        proof {
            assert(out@ =~= self@.text());
        }
        out
    }
}

impl CapabilitiesControl {
    /// The range of colour temperatures, where the light has one.
    pub open spec fn text(self) -> Seq<char> {
        match self.ct {
            Some(ct) => "Color temperature min: "@ + decimal(ct.min as nat) + ", max: "@ + decimal(
                ct.max as nat,
            ) + "\n"@,
            None => Seq::empty(),
        }
    }

    /// The report of what can be controlled.
    pub fn to_text(&self) -> (r: String)
        ensures
            r@ == self.text(),
    {
        let mut out = String::new();
        if let Some(ct) = self.ct {
            out.append("Color temperature min: ");
            push_decimal(&mut out, ct.min as u64);
            out.append(", max: ");
            push_decimal(&mut out, ct.max as u64);
            out.append("\n");
        }
        proof {
            assert(out@ =~= self.text());
        }
        out
    }
}

impl CapabilitiesStreaming {
    /// Whether the light renders and proxies streams.
    pub open spec fn text(self) -> Seq<char> {
        line("Renderer: "@, bool_text(self.renderer)) + line("Proxy: "@, bool_text(self.proxy))
    }

    /// The report of the streaming capabilities.
    pub fn to_text(&self) -> (r: String)
        ensures
            r@ == self.text(),
    {
        let mut out = String::new();
        push_line(&mut out, "Renderer: ", bool_str(self.renderer));
        push_line(&mut out, "Proxy: ", bool_str(self.proxy));
        proof {
            assert(out@ =~= self.text());
        }
        out
    }
}

impl Capabilities {
    /// Certification, then the control capabilities where there are any,
    /// then the streaming capabilities.
    pub open spec fn text(self) -> Seq<char> {
        line("Certified: "@, bool_text(self.certified)) + (if self.control.ct is Some {
            "Control capabilities:\n"@ + self.control.text() + "\n"@
        } else {
            Seq::<char>::empty()
        }) + "Streaming capabilities:\n"@ + self.streaming.text()
    }

    /// The report of the capabilities.
    pub fn to_text(&self) -> (r: String)
        ensures
            r@ == self.text(),
    {
        let mut out = String::new();
        push_line(&mut out, "Certified: ", bool_str(self.certified));
        if self.control.ct.is_some() {
            out.append("Control capabilities:\n");
            let control = self.control.to_text();
            out.append(control.as_str());
            out.append("\n");
        }
        out.append("Streaming capabilities:\n");
        let streaming = self.streaming.to_text();
        out.append(streaming.as_str());
        proof {
            assert(out@ =~= self.text());
        }
        out
    }
}

impl HueLightView {
    /// What identifies the light, then its software update, its
    /// configuration and its state, each under a heading.
    pub open spec fn text(self) -> Seq<char> {
        line("Name: "@, self.name) + line("Type: "@, self._type) + line(
            "Model id: "@,
            self.model_id,
        ) + line("Manufacturer: "@, self.manufacturer_name) + line(
            "Product: "@,
            self.product_name,
        ) + line("Unique id: "@, self.unique_id) + line(
            "Software version: "@,
            self.software_version,
        ) + "Software update:\n"@ + self.software_update.text() + "\n"@ + "Config:\n"@
            + self.config.text() + "\n"@ + "--- Light state: --- \n"@ + self.state.text()
    }
}

impl HueLight {
    /// The report of the light.
    pub fn to_text(&self) -> (r: String)
        ensures
            r@ == self@.text(),
    {
        let mut out = String::new();
        push_line(&mut out, "Name: ", self.name.as_str());
        push_line(&mut out, "Type: ", self._type.as_str());
        push_line(&mut out, "Model id: ", self.model_id.as_str());
        push_line(&mut out, "Manufacturer: ", self.manufacturer_name.as_str());
        push_line(&mut out, "Product: ", self.product_name.as_str());
        push_line(&mut out, "Unique id: ", self.unique_id.as_str());
        push_line(&mut out, "Software version: ", self.software_version.as_str());
        out.append("Software update:\n");
        let software_update = self.software_update.to_text();
        out.append(software_update.as_str());
        out.append("\n");
        out.append("Config:\n");
        let config = self.config.to_text();
        out.append(config.as_str());
        out.append("\n");
        out.append("--- Light state: --- \n");
        let state = self.state.to_text();
        out.append(state.as_str());
        proof {
            assert(out@ =~= self@.text());
        }
        out
    }
}

} // verus!
