//! Writing the text of JSON objects.

use vstd::prelude::*;

verus! {

/// The JSON string literal that `serde_json` writes for `text`: quoted, with
/// the characters that JSON does not admit in a string escaped.
pub uninterp spec fn json_string(text: Seq<char>) -> Seq<char>;

/// Whether a JSON string holds `c` as it is: `c` is no quotation mark, no
/// backslash and no control character below U+0020.
pub open spec fn is_plain_char(c: char) -> bool {
    c != '"' && c != '\\' && c as u32 >= 0x20
}

/// Whether a JSON string holds every character of `text` as it is.
pub open spec fn is_plain(text: Seq<char>) -> bool {
    forall|i: int| 0 <= i < text.len() ==> is_plain_char(#[trigger] text[i])
}

/// `serde_json::Value::String` of `text`, written out with `to_string`:
/// the compact JSON string literal for `text`. The contract names the
/// result, so that the same text always gives the same literal, and says
/// what it is where nothing is escaped: `serde_json` escapes the quotation
/// mark, the backslash and the characters below U+0020, and writes every
/// other character as it is, between two quotation marks.
#[verifier::external_body]
fn quote(text: &str) -> (r: String)
    ensures
        r@ == json_string(text@),
        is_plain(text@) ==> r@ == "\""@ + text@ + "\""@,
{
    serde_json::Value::String(text.to_owned()).to_string()
}

/// The JSON string literal for `text`. Text without a quotation mark, a
/// backslash or a control character is written as it is, between two
/// quotation marks.
pub fn string_literal(text: &str) -> (r: String)
    ensures
        r@ == json_string(text@),
        is_plain(text@) ==> r@ == "\""@ + text@ + "\""@,
{
    quote(text)
}

/// The text of one member of an object: the key between quotes, a colon,
/// and the text of the value.
pub open spec fn member_text(member: (Seq<char>, Seq<char>)) -> Seq<char> {
    "\""@ + member.0 + "\":"@ + member.1
}

/// The texts of the members, separated by commas.
pub open spec fn members_text(members: Seq<(Seq<char>, Seq<char>)>) -> Seq<char>
    decreases members.len(),
{
    if members.len() == 0 {
        Seq::empty()
    } else if members.len() == 1 {
        member_text(members[0])
    } else {
        members_text(members.drop_last()) + ","@ + member_text(members.last())
    }
}

/// The compact text of an object whose members are given as pairs of a key
/// and the JSON text of a value. Keys are written as they are: they must be
/// free of characters that JSON escapes.
pub open spec fn object_text(members: Seq<(Seq<char>, Seq<char>)>) -> Seq<char> {
    "{"@ + members_text(members) + "}"@
}

/// Writes the text of a JSON object, member by member.
pub struct ObjectWriter {
    out: String,
    members: Ghost<Seq<(Seq<char>, Seq<char>)>>,
    empty: bool,
}

impl ObjectWriter {
    /// The text so far is an opening brace and the members written.
    #[verifier::type_invariant]
    spec fn well_formed(&self) -> bool {
        &&& self.out@ == "{"@ + members_text(self.members@)
        &&& self.empty == (self.members@.len() == 0)
    }

    /// The members written so far.
    pub closed spec fn written(&self) -> Seq<(Seq<char>, Seq<char>)> {
        self.members@
    }

    /// A writer that has written no member yet.
    pub fn new() -> (w: ObjectWriter)
        ensures
            w.written() == Seq::<(Seq<char>, Seq<char>)>::empty(),
    {
        let out = String::from_str("{");
        proof {
            assert(out@ =~= "{"@ + members_text(Seq::empty()));
        }
        ObjectWriter { out, members: Ghost(Seq::empty()), empty: true }
    }

    /// Writes one more member; `value` is the JSON text of its value.
    pub fn member(self, key: &str, value: &str) -> (w: ObjectWriter)
        ensures
            w.written() == self.written().push((key@, value@)),
    {
        proof {
            use_type_invariant(&self);
        }
        let ghost before = self.members@;
        let ghost after = before.push((key@, value@));
        let mut out = self.out;
        if !self.empty {
            out.append(",");
        }
        out.append("\"");
        out.append(key);
        out.append("\":");
        out.append(value);
        proof {
            assert(after.drop_last() =~= before);
            assert(after.last() == (key@, value@));
            assert(out@ =~= "{"@ + members_text(after));
        }
        ObjectWriter { out, members: Ghost(after), empty: false }
    }

    /// Closes the object and hands out its text.
    pub fn finish(self) -> (r: String)
        ensures
            r@ == object_text(self.written()),
    {
        proof {
            use_type_invariant(&self);
        }
        let mut out = self.out;
        out.append("}");
        out
    }
}

} // verus!
