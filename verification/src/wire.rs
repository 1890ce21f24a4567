//! JSON objects as the protocol needs them: one level of members, each a
//! scalar or a list of numbers. The JSON text itself is read and written by
//! `serde_json`.

use vstd::prelude::*;
use crate::message::text_view;

verus! {

/// The value of one member of a JSON object, as far as the protocol reads it.
#[derive(Clone, Debug, PartialEq, Eq)]
pub enum JsonValue {
    Null,
    Bool(bool),
    /// A number: the whole number from 0 to 2^64 - 1 that it is, if it is one.
    Number(Option<u64>),
    Text(String),
    /// A list: of each item, the whole number from 0 to 2^64 - 1 that it is,
    /// if it is one.
    List(Vec<Option<u64>>),
    /// An object inside the object. Nothing of it is kept.
    Object,
}

/// `JsonValue` as a mathematical value.
pub enum JsonValueView {
    Null,
    Bool(bool),
    Number(Option<u64>),
    Text(Seq<char>),
    List(Seq<Option<u64>>),
    Object,
}

impl View for JsonValue {
    type V = JsonValueView;

    open spec fn view(&self) -> JsonValueView {
        match *self {
            JsonValue::Null => JsonValueView::Null,
            JsonValue::Bool(b) => JsonValueView::Bool(b),
            JsonValue::Number(n) => JsonValueView::Number(n),
            JsonValue::Text(t) => JsonValueView::Text(t@),
            JsonValue::List(items) => JsonValueView::List(items@),
            JsonValue::Object => JsonValueView::Object,
        }
    }
}

/// One member of a JSON object: a key and its value.
#[derive(Clone, Debug, PartialEq, Eq)]
pub struct Member {
    pub key: String,
    pub value: JsonValue,
}

/// `Member` as a mathematical value.
pub struct MemberView {
    pub key: Seq<char>,
    pub value: JsonValueView,
}

impl View for Member {
    type V = MemberView;

    open spec fn view(&self) -> MemberView {
        MemberView { key: self.key@, value: self.value@ }
    }
}

/// The views of the members of an object.
pub open spec fn member_views(members: Seq<Member>) -> Seq<MemberView> {
    members.map_values(|m: Member| m@)
}

/// The views of the members of an object, if there is one.
pub open spec fn object_view(members: Option<Vec<Member>>) -> Option<Seq<MemberView>> {
    match members {
        Some(m) => Some(member_views(m@)),
        None => None,
    }
}

/// Whether a value can be written as JSON without loss: every number in it
/// is known, and it is no nested object.
pub open spec fn is_writable_value(value: JsonValueView) -> bool {
    match value {
        JsonValueView::Number(number) => number is Some,
        JsonValueView::List(items) => forall|i: int|
            0 <= i < items.len() ==> (#[trigger] items[i]) is Some,
        JsonValueView::Object => false,
        _ => true,
    }
}

/// Whether the members make an object that can be written as JSON without
/// loss: each value can, and no key occurs twice.
pub open spec fn is_writable(members: Seq<MemberView>) -> bool {
    &&& forall|i: int| 0 <= i < members.len() ==> is_writable_value((#[trigger] members[i]).value)
    &&& forall|i: int, j: int|
        0 <= i < j < members.len() ==> (#[trigger] members[i]).key != (#[trigger] members[j]).key
}

/// The members of the JSON object that `text` is, as `serde_json` reads it;
/// `None` if `text` is no JSON object.
pub uninterp spec fn json_members(text: Seq<char>) -> Option<Seq<MemberView>>;

/// The JSON text that `serde_json` writes for the object with these members;
/// `None` if it writes none.
pub uninterp spec fn json_text(members: Seq<MemberView>) -> Option<Seq<char>>;

/// Reads `text` as a JSON object with `serde_json::from_str`, at the type
/// `serde_json::Map<String, serde_json::Value>`, and hands out its members,
/// each value by its variant. Of a number, and of each item of a list, what
/// `as_u64` gives is kept; of an object inside the object, nothing. The result
/// is a function of the text, named `json_members`; nothing more is claimed of
/// it.
#[verifier::external_body]
pub(crate) fn read_object(text: &str) -> (members: Option<Vec<Member>>)
    ensures
        object_view(members) == json_members(text@),
{
    let object = serde_json::from_str::<serde_json::Map<String, serde_json::Value>>(text).ok()?;
    let mut members = Vec::new();
    for (key, value) in object {
        let value = match value {
            serde_json::Value::Null => JsonValue::Null,
            serde_json::Value::Bool(b) => JsonValue::Bool(b),
            serde_json::Value::Number(n) => JsonValue::Number(n.as_u64()),
            serde_json::Value::String(t) => JsonValue::Text(t),
            serde_json::Value::Array(items) => JsonValue::List(items.iter().map(|i| i.as_u64()).collect()),
            serde_json::Value::Object(_) => JsonValue::Object,
        };
        members.push(Member { key, value });
    }
    Some(members)
}

/// Puts the members, each value by its variant, into a `serde_json::Map` and
/// writes the map with `serde_json::to_string`. The members must make an
/// object that can be written without loss. The result is a function of the
/// members, named `json_text`; nothing more is claimed of it.
#[verifier::external_body]
pub(crate) fn write_object(members: &Vec<Member>) -> (text: Option<String>)
    requires
        is_writable(member_views(members@)),
    ensures
        text_view(text) == json_text(member_views(members@)),
{
    let mut object = serde_json::Map::new();
    for member in members {
        let value = match &member.value {
            JsonValue::Null => serde_json::Value::Null,
            JsonValue::Bool(b) => serde_json::Value::from(*b),
            JsonValue::Number(n) => serde_json::Value::from(*n),
            JsonValue::Text(t) => serde_json::Value::from(t.as_str()),
            JsonValue::List(items) => serde_json::Value::from(items.clone()),
            JsonValue::Object => serde_json::Value::from(serde_json::Map::new()),
        };
        object.insert(member.key.clone(), value);
    }
    serde_json::to_string(&object).ok()
}

} // verus!
