//! Reading typed values out of JSON documents.

use crate::json::{Json, JsonValue};
use vstd::prelude::*;

verus! {

/// A type that can be read from a JSON document.
pub trait Decode: Sized + DeepView {
    /// The value that `doc` describes, or `None` where it describes none.
    spec fn decoded(doc: JsonValue) -> Option<<Self as DeepView>::V>;

    /// Reads a value from `doc`.
    fn from_json(doc: &Json) -> (r: Option<Self>)
        ensures
            r.deep_view() == Self::decoded(doc@),
    ;
}

impl JsonValue {
    /// The member `key` read as a `T`: `None` where the member is missing or
    /// describes no `T`.
    pub open spec fn field<T: Decode>(self, key: Seq<char>) -> Option<T::V> {
        match self.member(key) {
            Some(v) => T::decoded(v),
            None => None,
        }
    }

    /// The member `key` read as a `T` that may be left out: `Some(None)`
    /// where the member is missing or `null`, `None` where it is there and
    /// describes no `T`.
    pub open spec fn optional_field<T: Decode>(self, key: Seq<char>) -> Option<Option<T::V>> {
        match self.member(key) {
            None | Some(JsonValue::Null) => Some(None),
            Some(v) => match T::decoded(v) {
                Some(value) => Some(Some(value)),
                None => None,
            },
        }
    }
}

impl Json {
    /// The member `key` read as a `T`.
    pub fn field<T: Decode>(&self, key: &str) -> (r: Option<T>)
        ensures
            r.deep_view() == self@.field::<T>(key@),
    {
        match self.member(key) {
            Some(v) => T::from_json(v),
            None => None,
        }
    }

    /// The member `key` read as a `T` that may be left out.
    pub fn optional_field<T: Decode>(&self, key: &str) -> (r: Option<Option<T>>)
        ensures
            r.deep_view() == self@.optional_field::<T>(key@),
    {
        match self.member(key) {
            None | Some(Json::Null) => Some(None),
            Some(v) => match T::from_json(v) {
                Some(value) => Some(Some(value)),
                None => None,
            },
        }
    }
}

impl Decode for String {
    /// A string is read from a JSON string.
    open spec fn decoded(doc: JsonValue) -> Option<Seq<char>> {
        doc.text()
    }

    fn from_json(doc: &Json) -> (r: Option<String>) {
        match doc {
            Json::Text(s) => Some(s.clone()),
            _ => None,
        }
    }
}

impl Decode for bool {
    /// A boolean is read from `true` or `false`.
    open spec fn decoded(doc: JsonValue) -> Option<bool> {
        doc.flag()
    }

    fn from_json(doc: &Json) -> (r: Option<bool>) {
        match doc {
            Json::Bool(b) => Some(*b),
            _ => None,
        }
    }
}

impl Decode for u8 {
    /// A `u8` is read from an integer between 0 and 255.
    open spec fn decoded(doc: JsonValue) -> Option<u8> {
        match doc.number_up_to(u8::MAX as nat) {
            Some(n) => Some(n as u8),
            None => None,
        }
    }

    fn from_json(doc: &Json) -> (r: Option<u8>) {
        match doc {
            Json::Number(Some(n)) => if *n <= 255 {
                Some(*n as u8)
            } else {
                None
            },
            _ => None,
        }
    }
}

impl Decode for u16 {
    /// A `u16` is read from an integer between 0 and 65535.
    open spec fn decoded(doc: JsonValue) -> Option<u16> {
        match doc.number_up_to(u16::MAX as nat) {
            Some(n) => Some(n as u16),
            None => None,
        }
    }

    fn from_json(doc: &Json) -> (r: Option<u16>) {
        match doc {
            Json::Number(Some(n)) => if *n <= 65535 {
                Some(*n as u16)
            } else {
                None
            },
            _ => None,
        }
    }
}

/// A payload that is accepted whatever it holds, and not kept.
#[derive(Debug, PartialEq, Eq)]
pub struct Anything;

impl View for Anything {
    type V = ();

    open spec fn view(&self) -> () {
        ()
    }
}

impl DeepView for Anything {
    type V = ();

    open spec fn deep_view(&self) -> () {
        ()
    }
}

impl Decode for Anything {
    open spec fn decoded(doc: JsonValue) -> Option<()> {
        Some(())
    }

    fn from_json(doc: &Json) -> (r: Option<Anything>) {
        Some(Anything)
    }
}

} // verus!
