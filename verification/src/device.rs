//! The label under which an application pairs with a bridge.

use crate::json::{is_plain, json_string, object_text, string_literal, ObjectWriter};
use vstd::prelude::*;

verus! {

/// The label that identifies an application to the bridge. Any text will
/// do, but a changed label is a new pairing.
#[derive(Debug, PartialEq, Eq)]
pub struct DeviceType {
    pub device_type: String,
}

impl View for DeviceType {
    type V = Seq<char>;

    /// A device type is its label.
    open spec fn view(&self) -> Seq<char> {
        self.device_type@
    }
}

impl DeepView for DeviceType {
    type V = Seq<char>;

    open spec fn deep_view(&self) -> Seq<char> {
        self@
    }
}

/// The body of a pairing request for `label`: an object with the one member
/// `devicetype`, whose value is the label as a JSON string.
pub open spec fn device_json(label: Seq<char>) -> Seq<char> {
    object_text(seq![("devicetype"@, json_string(label))])
}

/// The body of a pairing request for a label that JSON holds as it is:
/// `{"devicetype":"` , the label, and `"}`.
pub open spec fn plain_device_json(label: Seq<char>) -> Seq<char> {
    "{\"devicetype\":\""@ + label + "\"}"@
}

impl DeviceType {
    pub fn new(device_type: String) -> (r: DeviceType)
        ensures
            r.device_type == device_type,
            r@ == device_type@,
    {
        DeviceType { device_type }
    }

    /// The JSON text that pairing sends. A label without a quotation mark,
    /// a backslash or a control character goes out as it is.
    pub fn to_json(&self) -> (r: String)
        ensures
            r@ == device_json(self@),
            is_plain(self@) ==> r@ == plain_device_json(self@),
    {
        let label = string_literal(self.device_type.as_str());
        let writer = ObjectWriter::new().member("devicetype", label.as_str());
        proof {
            assert(writer.written() =~= seq![("devicetype"@, json_string(self@))]);
            if is_plain(self@) {
                reveal_strlit("{");
                reveal_strlit("}");
                reveal_strlit("\"");
                reveal_strlit("\":");
                reveal_strlit("devicetype");
                reveal_strlit("{\"devicetype\":\"");
                reveal_strlit("\"}");
                assert(device_json(self@) =~= plain_device_json(self@));
            }
        }
        writer.finish()
    }
}

} // verus!
