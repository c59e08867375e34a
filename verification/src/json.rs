//! JSON text, read and written by `serde_json`.
//!
//! What the JSON grammar makes of a text, and the text it gives for a value,
//! are functions of the input alone. Contracts refer to them by the names
//! declared here; the library's own rules start where those results are
//! taken apart.

use vstd::prelude::*;
use crate::text::texts;

verus! {

/// The list of strings that a JSON text denotes, if it denotes one.
pub uninterp spec fn json_string_list(text: Seq<char>) -> Option<Seq<Seq<char>>>;

/// The compact JSON text of a list of strings.
pub uninterp spec fn json_of_string_list(items: Seq<Seq<char>>) -> Seq<char>;

/// The compact JSON text of a list of lists of strings.
pub uninterp spec fn json_of_string_table(rows: Seq<Seq<Seq<char>>>) -> Seq<char>;

/// What a JSON text holds under each of `keys`, if it is valid JSON: for
/// every key the member's string, its integer and its compact JSON text. A
/// text that is no object, or lacks the key, holds `null` there.
pub uninterp spec fn json_members(text: Seq<char>, keys: Seq<Seq<char>>) -> Option<
    Seq<(Option<Seq<char>>, Option<int>, Option<Seq<char>>)>,
>;

/// The compact JSON text of an object with the given members.
pub uninterp spec fn json_of_object(members: Seq<(Seq<char>, JsonData)>) -> Seq<char>;

/// A value written into a JSON object.
pub enum JsonInput {
    Null,
    Text(String),
    Integer(i64),
    List(Vec<String>),
}

/// The mathematical content of a `JsonInput`.
pub ghost enum JsonData {
    Null,
    Text(Seq<char>),
    Integer(int),
    List(Seq<Seq<char>>),
}

impl View for JsonInput {
    type V = JsonData;

    open spec fn view(&self) -> JsonData {
        match self {
            JsonInput::Null => JsonData::Null,
            JsonInput::Text(s) => JsonData::Text(s@),
            JsonInput::Integer(i) => JsonData::Integer(*i as int),
            JsonInput::List(v) => JsonData::List(texts(v@)),
        }
    }
}

/// One member of a JSON object with its name.
pub struct JsonMember {
    pub name: String,
    pub value: JsonInput,
}

/// The names and contents of a list of members.
pub open spec fn members_view(members: Seq<JsonMember>) -> Seq<(Seq<char>, JsonData)> {
    Seq::new(members.len(), |i: int| (members[i].name@, members[i].value@))
}

/// What one member of a parsed JSON text holds, seen three ways.
#[derive(Debug)]
pub struct JsonField {
    /// The member as a string, where it is one.
    pub text: Option<String>,
    /// The member as an integer, where it is one that fits in 64 bits.
    pub integer: Option<i64>,
    /// The compact JSON text of the member.
    pub source: Option<String>,
}

impl JsonField {
    /// The contents of the field.
    pub open spec fn data(self) -> (Option<Seq<char>>, Option<int>, Option<Seq<char>>) {
        (
            match self.text {
                Some(s) => Some(s@),
                None => None,
            },
            match self.integer {
                Some(i) => Some(i as int),
                None => None,
            },
            match self.source {
                Some(s) => Some(s@),
                None => None,
            },
        )
    }
}

/// The contents of a list of fields.
pub open spec fn fields_view(fields: Seq<JsonField>) -> Seq<
    (Option<Seq<char>>, Option<int>, Option<Seq<char>>),
> {
    Seq::new(fields.len(), |i: int| fields[i].data())
}

/// Reads a JSON array of strings with `serde_json::from_str`.
#[verifier::external_body]
pub(crate) fn parse_string_list(text: &str) -> (r: Option<Vec<String>>)
    ensures
        match json_string_list(text@) {
            Some(items) => r is Some && texts(r->Some_0@) == items,
            None => r is None,
        },
{
    serde_json::from_str::<Vec<String>>(text).ok()
}

/// Writes a list of strings as a JSON array with `serde_json::to_string`,
/// which fails only where a value refuses to be written or a map has a key
/// that is no string; a list of strings is always written.
#[verifier::external_body]
pub(crate) fn string_list_json(items: &Vec<String>) -> (text: String)
    ensures
        text@ == json_of_string_list(texts(items@)),
{
    serde_json::to_string(items).unwrap_or_default()
}

/// The string lists held by `rows`.
pub open spec fn table_view(rows: Seq<Vec<String>>) -> Seq<Seq<Seq<char>>> {
    Seq::new(rows.len(), |i: int| texts(rows[i]@))
}

/// Writes a list of lists of strings as a JSON array of arrays with
/// `serde_json::to_string`; lists of strings are always written.
#[verifier::external_body]
pub(crate) fn string_table_json(rows: &Vec<Vec<String>>) -> (text: String)
    ensures
        text@ == json_of_string_table(table_view(rows@)),
{
    serde_json::to_string(rows).unwrap_or_default()
}

/// Parses `line` with `serde_json::from_str` and looks up each of `keys` in
/// the value by indexing, which gives `null` for a missing member. Each
/// member is reported with `Value::as_str`, `Value::as_i64` and
/// `serde_json::to_string`. One field comes back per key.
#[verifier::external_body]
pub(crate) fn parse_members(line: &str, keys: &Vec<String>) -> (r: Option<Vec<JsonField>>)
    ensures
        match json_members(line@, texts(keys@)) {
            Some(fields) => r is Some && fields_view(r->Some_0@) == fields,
            None => r is None,
        },
        r is Some ==> r->Some_0@.len() == keys@.len(),
{
    let value: serde_json::Value = serde_json::from_str(line).ok()?;
    let read = |key: &String| {
        let member = &value[key.as_str()];
        JsonField {
            text: member.as_str().map(String::from),
            integer: member.as_i64(),
            source: serde_json::to_string(member).ok(),
        }
    };
    Some(keys.iter().map(read).collect())
}

/// Builds a `serde_json::Map` from the members with `Map::insert`, a later
/// member replacing an earlier one of the same name, and writes the object
/// on one line with the `to_string` of `serde_json::Value`. The text depends
/// on the members alone.
#[verifier::external_body]
pub(crate) fn object_json(members: &Vec<JsonMember>) -> (text: String)
    ensures
        text@ == json_of_object(members_view(members@)),
{
    let mut map = serde_json::Map::new();
    for member in members {
        let value = match &member.value {
            JsonInput::Null => serde_json::Value::Null,
            JsonInput::Text(s) => serde_json::Value::from(s.as_str()),
            JsonInput::Integer(i) => serde_json::Value::from(*i),
            JsonInput::List(items) => serde_json::Value::from(items.clone()),
        };
        map.insert(member.name.clone(), value);
    }
    serde_json::Value::Object(map).to_string()
}

} // verus!
