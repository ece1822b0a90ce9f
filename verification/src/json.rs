//! The JSON documents the tool reads and writes, as flat lists of members.
//!
//! Parsing and printing are done by `serde_json`; what comes back is
//! converted at once into plain values, on which the rest of the library works.

use vstd::prelude::*;
use crate::text::str_eq;

verus! {

/// The value of one member of a JSON object, as far as the tool reads it.
#[derive(Debug, PartialEq, Eq)]
pub enum JsonScalar {
    /// A JSON string.
    Text(String),
    /// An integer that fits `i64`.
    Int(i64),
    /// An integer above `i64::MAX` that fits `u64`.
    UInt(u64),
    /// Anything else: null, a boolean, a fraction, an array, an object.
    Other,
}

pub enum JsonScalarView {
    Text(Seq<char>),
    Int(i64),
    UInt(u64),
    Other,
}

impl DeepView for JsonScalar {
    type V = JsonScalarView;

    open spec fn deep_view(&self) -> JsonScalarView {
        match self {
            JsonScalar::Text(s) => JsonScalarView::Text(s@),
            JsonScalar::Int(i) => JsonScalarView::Int(*i),
            JsonScalar::UInt(u) => JsonScalarView::UInt(*u),
            JsonScalar::Other => JsonScalarView::Other,
        }
    }
}

/// One member of a JSON object.
#[derive(Debug, PartialEq, Eq)]
pub struct JsonMember {
    pub key: String,
    pub value: JsonScalar,
}

pub struct JsonMemberView {
    pub key: Seq<char>,
    pub value: JsonScalarView,
}

impl DeepView for JsonMember {
    type V = JsonMemberView;

    open spec fn deep_view(&self) -> JsonMemberView {
        JsonMemberView { key: self.key@, value: self.value.deep_view() }
    }
}

/// What `serde_json` reads from `text`: `None` where `text` is not one JSON
/// value; otherwise the members of the object it holds, or no members where
/// the value is not an object.
pub uninterp spec fn parsed_members(text: Seq<char>) -> Option<Seq<JsonMemberView>>;

/// What `serde_json` prints, with indentation, for the object that has the
/// given members.
pub uninterp spec fn pretty_text(members: Seq<JsonMemberView>) -> Seq<char>;

/// Calls `serde_json::from_str` for a `serde_json::Value` and hands out the
/// members of the object read: strings as `Text`, numbers by
/// `Number::as_i64` and `Number::as_u64`, everything else as `Other`.
/// The contract only names the result.
#[verifier::external_body]
pub(crate) fn parse_members(text: &str) -> (r: Option<Vec<JsonMember>>)
    ensures
        r.deep_view() == parsed_members(text@),
{
    let doc: serde_json::Value = serde_json::from_str(text).ok()?;
    let mut out = Vec::new();
    for (k, v) in doc.as_object().into_iter().flatten() {
        let value = match (v.as_str(), v.as_i64(), v.as_u64()) {
            (Some(s), _, _) => JsonScalar::Text(s.to_owned()),
            (_, Some(i), _) => JsonScalar::Int(i),
            (_, _, Some(u)) => JsonScalar::UInt(u),
            _ => JsonScalar::Other,
        };
        out.push(JsonMember { key: k.clone(), value });
    }
    Some(out)
}

/// Builds a `serde_json::Map` with the given members, in their order, and
/// calls `serde_json::to_string_pretty` on it. `Other` is written as null.
/// Printing fails only where a value refuses to be serialised or a map has
/// a key that is no string; an object of strings, integers and nulls under
/// string keys does neither, so there is always a text. The contract says
/// so, and names the text.
#[verifier::external_body]
pub(crate) fn write_pretty(members: &Vec<JsonMember>) -> (r: Option<String>)
    ensures
        r.deep_view() == Some(pretty_text(members.deep_view())),
{
    let mut map = serde_json::Map::new();
    for m in members {
        let v = match &m.value {
            JsonScalar::Text(s) => serde_json::Value::from(s.as_str()),
            JsonScalar::Int(i) => serde_json::Value::from(*i),
            JsonScalar::UInt(u) => serde_json::Value::from(*u),
            JsonScalar::Other => serde_json::Value::Null,
        };
        map.insert(m.key.clone(), v);
    }
    serde_json::to_string_pretty(&serde_json::Value::Object(map)).ok()
}

/// What `serde_json` reads from `text` as a list of strings: `None` where
/// `text` is not a JSON array of strings.
pub uninterp spec fn parsed_string_list(text: Seq<char>) -> Option<Seq<Seq<char>>>;

/// What `serde_json` prints, on one line, for a list of strings.
pub uninterp spec fn string_list_text(list: Seq<Seq<char>>) -> Seq<char>;

/// Calls `serde_json::from_str` for a `Vec<String>`. The contract only
/// names the result.
#[verifier::external_body]
pub(crate) fn parse_string_list(text: &str) -> (r: Option<Vec<String>>)
    ensures
        r.deep_view() == parsed_string_list(text@),
{
    serde_json::from_str::<Vec<String>>(text).ok()
}

/// Calls `serde_json::to_string` on a list of strings. Printing fails only
/// where a value refuses to be serialised or a map has a key that is no
/// string; a list of strings does neither, so there is always a text. The
/// contract says so, and names the text.
#[verifier::external_body]
pub(crate) fn write_string_list(list: &Vec<String>) -> (r: Option<String>)
    ensures
        r.deep_view() == Some(string_list_text(list.deep_view())),
{
    serde_json::to_string(list).ok()
}

/// The value of the first member called `key`, if there is one.
pub open spec fn lookup(members: Seq<JsonMemberView>, key: Seq<char>) -> Option<JsonScalarView>
    decreases members.len(),
{
    if members.len() == 0 {
        None
    } else if members[0].key == key {
        Some(members[0].value)
    } else {
        lookup(members.drop_first(), key)
    }
}

/// The text of a member that is a JSON string.
pub open spec fn text_of(value: Option<JsonScalarView>) -> Option<Seq<char>> {
    match value {
        Some(JsonScalarView::Text(s)) => Some(s),
        _ => None,
    }
}

/// The number of a member that is an integer within `i64`.
pub open spec fn i64_of(value: Option<JsonScalarView>) -> Option<i64> {
    match value {
        Some(JsonScalarView::Int(i)) => Some(i),
        _ => None,
    }
}

/// The number of a member that is an integer within `u64`.
pub open spec fn u64_of(value: Option<JsonScalarView>) -> Option<u64> {
    match value {
        Some(JsonScalarView::Int(i)) => if i >= 0 {
            Some(i as u64)
        } else {
            None
        },
        Some(JsonScalarView::UInt(u)) => Some(u),
        _ => None,
    }
}

/// The value of the first member called `key`.
pub fn get_member<'a>(members: &'a Vec<JsonMember>, key: &str) -> (r: Option<&'a JsonScalar>)
    ensures
        r.deep_view() == lookup(members.deep_view(), key@),
{
    let mut i: usize = 0;
    proof {
        assert(members.deep_view().subrange(0, members.len() as int) =~= members.deep_view());
    }
    while i < members.len()
        invariant
            i <= members.len(),
            members.deep_view().len() == members.len(),
            lookup(members.deep_view(), key@) == lookup(
                members.deep_view().subrange(i as int, members.len() as int),
                key@,
            ),
        decreases members.len() - i,
    {
        let ghost rest = members.deep_view().subrange(i as int, members.len() as int);
        assert(rest[0] == members[i as int].deep_view());
        if str_eq(members[i].key.as_str(), key) {
            return Some(&members[i].value);
        }
        proof {
            assert(rest.drop_first() =~= members.deep_view().subrange(
                i + 1,
                members.len() as int,
            ));
        }
        i += 1;
    }
    None
}

/// The text of the member called `key`, where it is a JSON string.
pub fn get_text(members: &Vec<JsonMember>, key: &str) -> (r: Option<String>)
    ensures
        r.deep_view() == text_of(lookup(members.deep_view(), key@)),
{
    match get_member(members, key) {
        Some(JsonScalar::Text(s)) => Some(s.clone()),
        _ => None,
    }
}

/// The number of the member called `key`, where it is an integer within `i64`.
pub fn get_i64(members: &Vec<JsonMember>, key: &str) -> (r: Option<i64>)
    ensures
        r == i64_of(lookup(members.deep_view(), key@)),
{
    match get_member(members, key) {
        Some(JsonScalar::Int(i)) => Some(*i),
        _ => None,
    }
}

/// The number of the member called `key`, where it is an integer within `u64`.
pub fn get_u64(members: &Vec<JsonMember>, key: &str) -> (r: Option<u64>)
    ensures
        r == u64_of(lookup(members.deep_view(), key@)),
{
    match get_member(members, key) {
        Some(JsonScalar::Int(i)) => if *i >= 0 {
            Some(*i as u64)
        } else {
            None
        },
        Some(JsonScalar::UInt(u)) => Some(*u),
        _ => None,
    }
}

} // verus!
