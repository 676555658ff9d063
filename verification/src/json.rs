//! The JSON layer: everything that is asked of `serde_json`.
//!
//! Two things are asked of it: to write one string as a JSON string literal,
//! and to read a text as a JSON object. What it answers is not proved here.
//! What it writes for a string is short enough to be stated, and is:
//! [`json_string`]. What it reads from a text is not, and is given a name:
//! [`json_object`].

use vstd::prelude::*;

verus! {

/// One member of a JSON object.
#[derive(Debug)]
pub struct Member {
    /// The member's name.
    pub key: String,
    /// The member's value if it is a JSON string, `None` if it is a value of
    /// any other kind.
    pub text: Option<String>,
}

/// A [`Member`] as mathematics: its name, and its value where that is a string.
pub type MemberView = (Seq<char>, Option<Seq<char>>);

impl View for Member {
    type V = MemberView;

    open spec fn view(&self) -> MemberView {
        (
            self.key@,
            match self.text {
                Some(text) => Some(text@),
                None => None,
            },
        )
    }
}

/// The members of a vector, each taken by its view.
pub open spec fn members_view(members: Seq<Member>) -> Seq<MemberView> {
    members.map_values(|member: Member| member@)
}

#[verifier::external_type_specification]
#[verifier::external_body]
pub struct ExJsonError(serde_json::Error);

/// One hexadecimal digit, in lower case.
pub open spec fn hex_digit(d: int) -> char {
    if d == 0 {
        '0'
    } else if d == 1 {
        '1'
    } else if d == 2 {
        '2'
    } else if d == 3 {
        '3'
    } else if d == 4 {
        '4'
    } else if d == 5 {
        '5'
    } else if d == 6 {
        '6'
    } else if d == 7 {
        '7'
    } else if d == 8 {
        '8'
    } else if d == 9 {
        '9'
    } else if d == 10 {
        'a'
    } else if d == 11 {
        'b'
    } else if d == 12 {
        'c'
    } else if d == 13 {
        'd'
    } else if d == 14 {
        'e'
    } else {
        'f'
    }
}

/// One character as it stands inside a JSON string literal. The quote, the
/// backslash and the control characters below U+0020 are escaped: five of the
/// control characters by a letter, the others by their number in four
/// hexadecimal digits. Every other character stands for itself.
pub open spec fn escaped_char(c: char) -> Seq<char> {
    if c == '"' {
        seq!['\\', '"']
    } else if c == '\\' {
        seq!['\\', '\\']
    } else if c == '\u{8}' {
        seq!['\\', 'b']
    } else if c == '\u{c}' {
        seq!['\\', 'f']
    } else if c == '\n' {
        seq!['\\', 'n']
    } else if c == '\r' {
        seq!['\\', 'r']
    } else if c == '\t' {
        seq!['\\', 't']
    } else if (c as int) < 0x20 {
        seq!['\\', 'u', '0', '0', hex_digit(c as int / 16), hex_digit(c as int % 16)]
    } else {
        seq![c]
    }
}

/// A text as it stands inside a JSON string literal: each character escaped
/// where it must be.
pub open spec fn escaped(text: Seq<char>) -> Seq<char>
    decreases text.len(),
{
    if text.len() == 0 {
        Seq::empty()
    } else {
        escaped(text.drop_last()) + escaped_char(text.last())
    }
}

/// The JSON string literal for a text: a quote, the text escaped, a quote.
pub open spec fn json_string(text: Seq<char>) -> Seq<char> {
    seq!['"'] + escaped(text) + seq!['"']
}

/// The members of the JSON object that `serde_json::from_str` reads from a
/// text, in the order in which a `serde_json::Map` hands them out. `None`
/// where it reports an error: the text is not JSON, is not an object, or is
/// followed by something else.
pub uninterp spec fn json_object(text: Seq<char>) -> Option<Seq<MemberView>>;

/// Calls `serde_json::to_string` on a string slice.
///
/// Trusted: that the call succeeds on every string, since it writes into
/// memory and a string has nothing that could be refused; and that what it
/// writes is [`json_string`], which is the escape table of `serde_json` and
/// the quotes around it.
#[verifier::external_body]
pub(crate) fn write_string(text: &str) -> (written: Result<String, serde_json::Error>)
    ensures
        written is Ok,
        written matches Ok(literal) ==> literal@ == json_string(text@),
{
    serde_json::to_string(text)
}

/// Calls `serde_json::from_str` for a `serde_json::Map<String, Value>` and
/// hands its entries out as [`Member`]s, in the map's own order.
///
/// Trusted: that the outcome depends on the characters of `text` alone, which
/// is what lets it have the name [`json_object`].
#[verifier::external_body]
pub(crate) fn read_object(text: &str) -> (read: Result<Vec<Member>, serde_json::Error>)
    ensures
        match read {
            Ok(members) => json_object(text@) == Some(members_view(members@)),
            Err(_) => json_object(text@) is None,
        },
{
    let object: serde_json::Map<String, serde_json::Value> = serde_json::from_str(text)?;
    let mut members = Vec::new();
    for (key, value) in object {
        let text = match value {
            serde_json::Value::String(text) => Some(text),
            serde_json::Value::Null => None,
            serde_json::Value::Bool(_) => None,
            serde_json::Value::Number(_) => None,
            serde_json::Value::Array(_) => None,
            serde_json::Value::Object(_) => None,
        };
        members.push(Member { key, text });
    }
    Ok(members)
}

} // verus!
