//! JSON documents as the library reads them.
//!
//! Text is parsed by `serde_json`; the result is held in `Json`, a plain tree
//! that the decoders of the other modules walk.

use vstd::prelude::*;

pub mod decode;
pub mod write;

pub use decode::{Anything, Decode};
pub use write::{
    is_plain, is_plain_char, json_string, member_text, members_text, object_text, string_literal,
    ObjectWriter,
};

verus! {

/// A parsed JSON document.
#[derive(Debug, PartialEq, Eq)]
pub enum Json {
    Null,
    Bool(bool),
    /// A number; `Some(n)` where it is a non-negative integer that fits `u64`.
    Number(Option<u64>),
    Text(String),
    Array(Vec<Json>),
    /// The members of an object, each with its key.
    Object(Vec<(String, Json)>),
}

/// The mathematical value of a `Json`.
pub enum JsonValue {
    Null,
    Bool(bool),
    Number(Option<u64>),
    Text(Seq<char>),
    Array(Seq<JsonValue>),
    Object(Seq<(Seq<char>, JsonValue)>),
}

impl View for Json {
    type V = JsonValue;

    open spec fn view(&self) -> JsonValue
        decreases self,
    {
        match self {
            Json::Null => JsonValue::Null,
            Json::Bool(b) => JsonValue::Bool(*b),
            Json::Number(n) => JsonValue::Number(*n),
            Json::Text(s) => JsonValue::Text(s@),
            Json::Array(items) => JsonValue::Array(
                Seq::new(
                    items.len() as nat,
                    |i: int|
                        if 0 <= i < items.len() {
                            items[i]@
                        } else {
                            JsonValue::Null
                        },
                ),
            ),
            Json::Object(members) => JsonValue::Object(
                Seq::new(
                    members.len() as nat,
                    |i: int|
                        if 0 <= i < members.len() {
                            (members[i].0@, members[i].1@)
                        } else {
                            (Seq::empty(), JsonValue::Null)
                        },
                ),
            ),
        }
    }
}

/// `serde_json::Value`, the tree that `serde_json` parses any JSON text
/// into. Nothing is known of a value but what `value_json` names.
#[verifier::external_type_specification]
#[verifier::external_body]
pub struct ExValue(serde_json::Value);

/// `serde_json::Error`, the reason why `serde_json` rejects a text. The
/// library does not look into it.
#[verifier::external_type_specification]
#[verifier::external_body]
pub struct ExError(serde_json::Error);

/// The document that `serde_json` reads from `text`, or `None` where it
/// rejects the text.
pub uninterp spec fn json_document(text: Seq<char>) -> Option<JsonValue>;

/// What a `serde_json::Value` holds: its variant and, below it, what its
/// items or members hold. `open_value` says so level by level.
pub uninterp spec fn value_json(value: serde_json::Value) -> JsonValue;

/// The top of a `serde_json::Value`: its variant, with what the variant
/// holds.
enum Node<'a> {
    Null,
    Bool(bool),
    Number(Option<u64>),
    Text(&'a str),
    Array(&'a Vec<serde_json::Value>),
    Object(Vec<(&'a String, &'a serde_json::Value)>),
}

impl<'a> Node<'a> {
    /// The document whose top is `self`.
    spec fn json(self) -> JsonValue {
        match self {
            Node::Null => JsonValue::Null,
            Node::Bool(b) => JsonValue::Bool(b),
            Node::Number(n) => JsonValue::Number(n),
            Node::Text(s) => JsonValue::Text(s@),
            Node::Array(items) => JsonValue::Array(
                items@.map_values(|item: serde_json::Value| value_json(item)),
            ),
            Node::Object(members) => JsonValue::Object(
                members@.map_values(
                    |member: (&String, &serde_json::Value)| (member.0@, value_json(*member.1)),
                ),
            ),
        }
    }
}

/// `serde_json::from_str` at the type `serde_json::Value`. The contract only
/// names the outcome: the same text always reads as the same document, or is
/// always rejected.
#[verifier::external_body]
fn read_value(text: &str) -> (r: Result<serde_json::Value, serde_json::Error>)
    ensures
        match r {
            Ok(value) => json_document(text@) == Some(value_json(value)),
            Err(_) => json_document(text@) is None,
        },
{
    serde_json::from_str::<serde_json::Value>(text)
}

/// Tells the variants of `serde_json::Value` apart. A number comes as
/// `serde_json::Number::as_u64` gives it, the members of an object in the
/// order in which `serde_json::Map::iter` hands them out.
#[verifier::external_body]
fn open_value<'a>(value: &'a serde_json::Value) -> (node: Node<'a>)
    ensures
        value_json(*value) == node.json(),
{
    match value {
        serde_json::Value::Null => Node::Null,
        serde_json::Value::Bool(b) => Node::Bool(*b),
        serde_json::Value::Number(n) => Node::Number(n.as_u64()),
        serde_json::Value::String(s) => Node::Text(s),
        serde_json::Value::Array(items) => Node::Array(items),
        serde_json::Value::Object(members) => Node::Object(members.iter().collect()),
    }
}

/// The view of an array, item by item.
pub proof fn lemma_array_view(items: Vec<Json>)
    ensures
        Json::Array(items)@ is Array,
        Json::Array(items)@->Array_0.len() == items@.len(),
        forall|i: int|
            0 <= i < items@.len() ==> (#[trigger] Json::Array(items)@->Array_0[i]) == items@[i]@,
{
    reveal_with_fuel(<Json as View>::view, 2);
}

/// The view of an object, member by member.
pub proof fn lemma_object_view(members: Vec<(String, Json)>)
    ensures
        Json::Object(members)@ is Object,
        Json::Object(members)@->Object_0.len() == members@.len(),
        forall|i: int|
            0 <= i < members@.len() ==> (#[trigger] Json::Object(members)@->Object_0[i]) == (
                members@[i].0@,
                members@[i].1@,
            ),
{
    reveal_with_fuel(<Json as View>::view, 2);
}

impl DeepView for Json {
    type V = JsonValue;

    open spec fn deep_view(&self) -> JsonValue {
        self@
    }
}

/// The value of the last of `entries` whose key is `key`.
pub open spec fn last_with_key<V>(entries: Seq<(Seq<char>, V)>, key: Seq<char>) -> Option<V>
    decreases entries.len(),
{
    if entries.len() == 0 {
        None
    } else if entries.last().0 == key {
        Some(entries.last().1)
    } else {
        last_with_key(entries.drop_last(), key)
    }
}

/// The index of the last of `entries` whose key is `key`, with which
/// `last_with_key` is found.
pub fn find_last<T: DeepView>(entries: &Vec<(String, T)>, key: &str) -> (r: Option<usize>)
    ensures
        match r {
            Some(i) => {
                &&& i < entries.len()
                &&& entries[i as int].0@ == key@
                &&& forall|j: int| i < j < entries.len() ==> (#[trigger] entries[j]).0@ != key@
                &&& last_with_key(entries.deep_view(), key@) == Some(entries.deep_view()[i as int].1)
            },
            None => {
                &&& forall|j: int| 0 <= j < entries.len() ==> (#[trigger] entries[j]).0@ != key@
                &&& last_with_key(entries.deep_view(), key@) is None
            },
        },
{
    let wanted = String::from_str(key);
    let ghost all = entries.deep_view();
    let mut i: usize = entries.len();
    proof {
        assert(all.take(i as int) =~= all);
    }
    while i > 0
        invariant
            i <= entries.len(),
            wanted@ == key@,
            all == entries.deep_view(),
            forall|j: int| i <= j < entries.len() ==> (#[trigger] entries[j]).0@ != key@,
            last_with_key(all, key@) == last_with_key(all.take(i as int), key@),
        decreases i,
    {
        proof {
            assert(all.take(i as int).drop_last() =~= all.take(i - 1));
            assert(all.take(i as int).last() == all[i - 1]);
            assert(all[i - 1].0 == entries[i - 1].0@);
        }
        i -= 1;
        if entries[i].0 == wanted {
            return Some(i);
        }
    }
    None
}

impl JsonValue {
    /// The member `key` of an object. Where a key occurs more than once, the
    /// last occurrence counts.
    pub open spec fn member(self, key: Seq<char>) -> Option<JsonValue> {
        match self {
            JsonValue::Object(members) => last_with_key(members, key),
            _ => None,
        }
    }

    /// The characters of a string.
    pub open spec fn text(self) -> Option<Seq<char>> {
        match self {
            JsonValue::Text(s) => Some(s),
            _ => None,
        }
    }

    /// The truth value of a boolean.
    pub open spec fn flag(self) -> Option<bool> {
        match self {
            JsonValue::Bool(b) => Some(b),
            _ => None,
        }
    }

    /// The number, where it is a non-negative integer no greater than `max`.
    pub open spec fn number_up_to(self, max: nat) -> Option<nat> {
        match self {
            JsonValue::Number(Some(n)) => if n <= max {
                Some(n as nat)
            } else {
                None
            },
            _ => None,
        }
    }

    /// The items of an array.
    pub open spec fn items(self) -> Option<Seq<JsonValue>> {
        match self {
            JsonValue::Array(items) => Some(items),
            _ => None,
        }
    }

    /// The members of an object.
    pub open spec fn members(self) -> Option<Seq<(Seq<char>, JsonValue)>> {
        match self {
            JsonValue::Object(members) => Some(members),
            _ => None,
        }
    }
}

impl Json {
    /// The member `key` of an object; `None` for a missing key and for a
    /// document that is no object.
    pub fn member(&self, key: &str) -> (r: Option<&Json>)
        ensures
            r.deep_view() == self@.member(key@),
    {
        match self.members() {
            Some(members) => {
                match find_last(members, key) {
                    Some(i) => Some(&members[i].1),
                    None => None,
                }
            },
            None => None,
        }
    }

    /// The items of an array.
    pub fn items(&self) -> (r: Option<&Vec<Json>>)
        ensures
            r.deep_view() == self@.items(),
    {
        match self {
            Json::Array(items) => {
                proof {
                    lemma_array_view(*items);
                    assert(items.deep_view() =~= self@->Array_0);
                }
                Some(items)
            },
            _ => None,
        }
    }

    /// The members of an object, each with its key.
    pub fn members(&self) -> (r: Option<&Vec<(String, Json)>>)
        ensures
            r.deep_view() == self@.members(),
    {
        match self {
            Json::Object(members) => {
                proof {
                    lemma_object_view(*members);
                    assert(members.deep_view() =~= self@->Object_0);
                }
                Some(members)
            },
            _ => None,
        }
    }
}

/// Copies what a `serde_json::Value` holds into a `Json`.
fn json_of_value(value: &serde_json::Value) -> (doc: Json)
    ensures
        doc@ == value_json(*value),
    decreases value_json(*value),
{
    match open_value(value) {
        Node::Null => Json::Null,
        Node::Bool(b) => Json::Bool(b),
        Node::Number(n) => Json::Number(n),
        Node::Text(s) => Json::Text(String::from_str(s)),
        Node::Array(items) => {
            let ghost views = items@.map_values(|item: serde_json::Value| value_json(item));
            let mut out: Vec<Json> = Vec::new();
            let mut i: usize = 0;
            while i < items.len()
                invariant
                    i <= items.len(),
                    out.len() == i,
                    value_json(*value) == JsonValue::Array(views),
                    views == items@.map_values(|item: serde_json::Value| value_json(item)),
                    forall|k: int| 0 <= k < i ==> (#[trigger] out[k])@ == views[k],
                decreases items.len() - i,
            {
                proof {
                    assert(views[i as int] == value_json(items[i as int]));
                    let whole = value_json(*value);
                    assert(decreases_to!(whole => whole->Array_0));
                    assert(decreases_to!(whole->Array_0 => whole->Array_0[i as int]));
                }
                out.push(json_of_value(&items[i]));
                i += 1;
            }
            proof {
                lemma_array_view(out);
                assert(Json::Array(out)@->Array_0 =~= views);
            }
            Json::Array(out)
        },
        Node::Object(members) => {
            let ghost views = members@.map_values(
                |member: (&String, &serde_json::Value)| (member.0@, value_json(*member.1)),
            );
            let mut out: Vec<(String, Json)> = Vec::new();
            let mut i: usize = 0;
            while i < members.len()
                invariant
                    i <= members.len(),
                    out.len() == i,
                    value_json(*value) == JsonValue::Object(views),
                    views == members@.map_values(
                        |member: (&String, &serde_json::Value)| (member.0@, value_json(*member.1)),
                    ),
                    forall|k: int| 0 <= k < i ==> ((#[trigger] out[k]).0@, out[k].1@) == views[k],
                decreases members.len() - i,
            {
                proof {
                    assert(views[i as int] == (
                        members[i as int].0@,
                        value_json(*members[i as int].1),
                    ));
                    let whole = value_json(*value);
                    assert(decreases_to!(whole => whole->Object_0));
                    assert(decreases_to!(whole->Object_0 => whole->Object_0[i as int]));
                    assert(decreases_to!(whole->Object_0[i as int] => whole->Object_0[i as int].1));
                }
                let key: String = members[i].0.clone();
                let member = json_of_value(members[i].1);
                out.push((key, member));
                i += 1;
            }
            proof {
                lemma_object_view(out);
                assert(Json::Object(out)@->Object_0 =~= views);
            }
            Json::Object(out)
        },
    }
}

/// Parses `text` as one JSON document.
pub fn parse(text: &str) -> (r: Option<Json>)
    ensures
        r.deep_view() == json_document(text@),
{
    match read_value(text) {
        Ok(value) => Some(json_of_value(&value)),
        Err(_) => None,
    }
}

} // verus!
