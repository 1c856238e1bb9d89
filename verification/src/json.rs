//! Structured payloads.
//!
//! Tool arguments, server responses and configuration values arrive as
//! JSON text. [`JsonValue`] holds a parsed document in a form that
//! verified code can walk: the scoring engine reads its string leaves in
//! depth-first order, the configuration loaders read members by key.

use crate::text::{
    append, chars_eq, entry_keys, first_index, from_chars, inserted, join, lookup, to_chars,
};
use vstd::prelude::*;
use vstd::string::StringExecFns;

verus! {

/// A parsed JSON document.
///
/// Objects keep their members in the order in which the parser hands them
/// out. A number carries its value where that is an integer from 0 to
/// `u64::MAX`, and nothing else: this crate reads no other numbers.
#[derive(Debug)]
pub enum JsonValue {
    Null,
    Bool(bool),
    Number(Option<u64>),
    Str(String),
    Array(Vec<JsonValue>),
    Object(Vec<(String, JsonValue)>),
}

/// `serde_json::Value`, a parsed JSON document of the `serde_json` crate.
/// Nothing is known of its contents here; it is only handed from the
/// parser to the conversion.
#[verifier::external_type_specification]
#[verifier::external_body]
pub struct ExValue(serde_json::Value);

/// What `serde_json::from_str` makes of a text: the document it parses
/// to, as a [`JsonValue`], or `None` where it reports an error.
pub uninterp spec fn parsed_json(text: Seq<char>) -> Option<JsonValue>;

/// The string leaves of a document, depth first: array items in order,
/// object members in order, keys not included.
pub open spec fn json_strings(value: JsonValue) -> Seq<Seq<char>>
    decreases value,
{
    match value {
        JsonValue::Str(s) => seq![s@],
        JsonValue::Array(items) => item_strings(items@, items@.len() as int),
        JsonValue::Object(members) => member_strings(members@, members@.len() as int),
        _ => Seq::empty(),
    }
}

/// The string leaves of the first `n` items of an array.
pub open spec fn item_strings(items: Seq<JsonValue>, n: int) -> Seq<Seq<char>>
    decreases items, n,
{
    if n <= 0 || n > items.len() {
        Seq::empty()
    } else {
        item_strings(items, n - 1) + json_strings(items[n - 1])
    }
}

/// The string leaves of the first `n` members of an object.
pub open spec fn member_strings(members: Seq<(String, JsonValue)>, n: int) -> Seq<Seq<char>>
    decreases members, n,
{
    if n <= 0 || n > members.len() {
        Seq::empty()
    } else {
        member_strings(members, n - 1) + json_strings(members[n - 1].1)
    }
}

/// Keys and values of a sequence of members.
pub open spec fn fields(members: Seq<(String, JsonValue)>) -> Seq<(Seq<char>, JsonValue)> {
    Seq::new(members.len(), |i: int| (members[i].0@, members[i].1))
}

/// The members of a document with their keys, in order; none where the
/// document is no object.
pub open spec fn fields_of(value: JsonValue) -> Seq<(Seq<char>, JsonValue)> {
    match value {
        JsonValue::Object(members) => fields(members@),
        _ => Seq::empty(),
    }
}

/// The value of the first member with the given key, where the document
/// is an object that has one.
pub open spec fn member(value: JsonValue, key: Seq<char>) -> Option<JsonValue> {
    lookup(fields_of(value), key)
}

/// What a list of raw values, each under its key, amounts to when every
/// value is parsed as JSON: the values that are not empty and parse, each
/// under its key. Where a key comes twice, the later value replaces the
/// earlier.
pub open spec fn assembled(values: Seq<(Seq<char>, Seq<char>)>) -> Seq<(Seq<char>, JsonValue)>
    decreases values.len(),
{
    if values.len() == 0 {
        Seq::empty()
    } else {
        let (key, text) = values.last();
        match parsed_json(text) {
            Some(value) if text.len() > 0 => inserted(assembled(values.drop_last()), key, value),
            _ => assembled(values.drop_last()),
        }
    }
}

/// The strings among the items of an array, in order.
pub open spec fn text_items(items: Seq<JsonValue>) -> Seq<Seq<char>>
    decreases items.len(),
{
    if items.len() == 0 {
        Seq::empty()
    } else {
        match items.last() {
            JsonValue::Str(s) => text_items(items.drop_last()).push(s@),
            _ => text_items(items.drop_last()),
        }
    }
}

/// The text that is scanned for a document: its string leaves joined by
/// single spaces.
pub open spec fn json_text(value: JsonValue) -> Seq<char> {
    join(json_strings(value), " "@)
}

/// The text that is scanned for a payload: the text of the document it
/// parses to, or the payload itself where it is no JSON.
pub open spec fn payload_text(payload: Seq<char>) -> Seq<char> {
    match parsed_json(payload) {
        Some(value) => json_text(value),
        None => payload,
    }
}

/// Turns a document of `serde_json` into a [`JsonValue`], variant by
/// variant; a number keeps what `Number::as_u64` gives, the members of an
/// object come in the order in which `serde_json`'s map yields them.
#[verifier::external_body]
fn from_serde(value: serde_json::Value) -> JsonValue {
    match value {
        serde_json::Value::Null => JsonValue::Null,
        serde_json::Value::Bool(b) => JsonValue::Bool(b),
        serde_json::Value::Number(n) => JsonValue::Number(n.as_u64()),
        serde_json::Value::String(s) => JsonValue::Str(s),
        serde_json::Value::Array(items) => JsonValue::Array(
            items.into_iter().map(from_serde).collect(),
        ),
        serde_json::Value::Object(map) => JsonValue::Object(
            map.into_iter().map(|(k, v)| (k, from_serde(v))).collect(),
        ),
    }
}

/// Parses a text with `serde_json::from_str` into a `serde_json::Value` and
/// converts the outcome. The result depends on the text alone; nothing
/// else is claimed of it.
#[verifier::external_body]
pub(crate) fn parse_json(text: &str) -> (r: Option<JsonValue>)
    ensures
        r == parsed_json(text@),
{
    match serde_json::from_str::<serde_json::Value>(text) {
        Ok(value) => Some(from_serde(value)),
        Err(_) => None,
    }
}

/// The index of the first member with the given key.
pub fn member_position(members: &Vec<(String, JsonValue)>, key: &str) -> (r: Option<usize>)
    ensures
        match r {
            Some(i) => i < members.len() && first_index(entry_keys(fields(members@)), key@, 0)
                == Some(i as int),
            None => first_index(entry_keys(fields(members@)), key@, 0) is None,
        },
{
    let wanted = to_chars(key);
    let ghost keys = entry_keys(fields(members@));
    let mut i: usize = 0;
    while i < members.len()
        invariant
            i <= members.len(),
            wanted@ == key@,
            keys == entry_keys(fields(members@)),
            first_index(keys, key@, 0) == first_index(keys, key@, i as int),
        decreases members.len() - i,
    {
        let candidate = to_chars(members[i].0.as_str());
        assert(keys[i as int] == members@[i as int].0@);
        if chars_eq(&candidate, &wanted) {
            return Some(i);
        }
        i += 1;
    }
    None
}

impl JsonValue {
    /// The value of the first member with the given key, where the document
    /// is an object that has one.
    pub fn get(&self, key: &str) -> (r: Option<&JsonValue>)
        ensures
            match r {
                Some(found) => member(*self, key@) == Some(*found),
                None => member(*self, key@) is None,
            },
    {
        match self {
            JsonValue::Object(members) => match member_position(members, key) {
                Some(i) => {
                    assert(fields(members@)[i as int].1 == members@[i as int].1);
                    Some(&members[i].1)
                },
                None => None,
            },
            _ => None,
        }
    }
}

/// Collects the strings among the items of an array, in order.
pub fn collect_text_items(items: &Vec<JsonValue>) -> (r: Vec<String>)
    ensures
        r.deep_view() == text_items(items@),
{
    let mut r: Vec<String> = Vec::new();
    let mut i: usize = 0;
    assert(r.deep_view() =~= text_items(items@.take(0)));
    while i < items.len()
        invariant
            i <= items.len(),
            r.deep_view() == text_items(items@.take(i as int)),
        decreases items.len() - i,
    {
        let ghost before = r.deep_view();
        proof {
            assert(items@.take(i + 1).drop_last() == items@.take(i as int));
            assert(items@.take(i + 1).last() == items@[i as int]);
        }
        match &items[i] {
            JsonValue::Str(s) => {
                r.push(s.clone());
                assert(r.deep_view() =~= before.push(s@));
            },
            _ => {},
        }
        i += 1;
    }
    assert(items@.take(items.len() as int) == items@);
    r
}

/// Appends the string leaves of `value` to `parts`, depth first.
pub fn collect_strings(value: &JsonValue, parts: &mut Vec<String>)
    ensures
        final(parts).deep_view() == old(parts).deep_view() + json_strings(*value),
    decreases value,
{
    match value {
        JsonValue::Str(s) => {
            parts.push(s.clone());
            assert(parts.deep_view() =~= old(parts).deep_view() + json_strings(*value));
        },
        JsonValue::Array(items) => {
            let mut i: usize = 0;
            while i < items.len()
                invariant
                    i <= items.len(),
                    decreases_to!(value => items),
                    parts.deep_view() == old(parts).deep_view() + item_strings(items@, i as int),
                decreases items.len() - i,
            {
                assert(decreases_to!(items => items[i as int]));
                collect_strings(&items[i], parts);
                i += 1;
            }
        },
        JsonValue::Object(members) => {
            let mut i: usize = 0;
            while i < members.len()
                invariant
                    i <= members.len(),
                    decreases_to!(value => members),
                    parts.deep_view() == old(parts).deep_view() + member_strings(
                        members@,
                        i as int,
                    ),
                decreases members.len() - i,
            {
                assert(decreases_to!(members => members[i as int]));
                assert(decreases_to!(members[i as int] => members[i as int].1));
                collect_strings(&members[i].1, parts);
                i += 1;
            }
        },
        _ => {},
    }
}

/// Joins strings with single spaces.
pub fn join_with_spaces(parts: &Vec<String>) -> (r: String)
    ensures
        r@ == join(parts.deep_view(), " "@),
{
    let ghost views = parts.deep_view();
    let mut out: Vec<char> = Vec::new();
    let mut i: usize = 0;
    while i < parts.len()
        invariant
            i <= parts.len(),
            views == parts.deep_view(),
            out@ == join(views.take(i as int), " "@),
        decreases parts.len() - i,
    {
        proof {
            reveal_strlit(" ");
            assert(views.take(i + 1).drop_last() == views.take(i as int));
            assert(views.take(i + 1).last() == parts@[i as int]@);
            if i == 0 {
                assert(views.take(1)[0] == parts@[0]@);
            }
        }
        if i > 0 {
            out.push(' ');
        }
        let part = to_chars(parts[i].as_str());
        append(&mut out, &part);
        i += 1;
        assert(out@ =~= join(views.take(i as int), " "@));
    }
    assert(views.take(views.len() as int) == views);
    from_chars(&out)
}

/// Extracts all string content of a document: the string leaves in
/// depth-first order, joined by single spaces.
pub fn extract_text_from_json(value: &JsonValue) -> (r: String)
    ensures
        r@ == json_text(*value),
{
    let mut parts: Vec<String> = Vec::new();
    collect_strings(value, &mut parts);
    assert(parts.deep_view() =~= json_strings(*value));
    join_with_spaces(&parts)
}

/// The text to scan for a payload that has gone through the parser: the
/// text of the document, or the raw payload where parsing failed.
pub fn text_of_parsed(parsed: Option<JsonValue>, payload: &str) -> (r: String)
    ensures
        r@ == match parsed {
            Some(value) => json_text(value),
            None => payload@,
        },
{
    match parsed {
        Some(value) => extract_text_from_json(&value),
        None => from_chars(&to_chars(payload)),
    }
}

/// Parses each of the raw values as JSON and keeps, under its key, every
/// value that is not empty and parses. A later value for a key replaces an
/// earlier one.
pub fn assemble(values: &[(String, String)]) -> (members: Vec<(String, JsonValue)>)
    ensures
        fields(members@) == assembled(values.deep_view()),
{
    let ghost raw = values.deep_view();
    let mut members: Vec<(String, JsonValue)> = Vec::new();
    assert(fields(members@) =~= assembled(raw.take(0)));
    let mut i: usize = 0;
    while i < values.len()
        invariant
            i <= values.len(),
            raw == values.deep_view(),
            fields(members@) == assembled(raw.take(i as int)),
        decreases values.len() - i,
    {
        let ghost before = fields(members@);
        proof {
            assert(raw.take(i + 1).drop_last() == raw.take(i as int));
            assert(raw.take(i + 1).last() == values@[i as int].deep_view());
        }
        let text = values[i].1.as_str();
        if !text.is_empty() {
            match parse_json(text) {
                Some(value) => {
                    let key = String::from_str(values[i].0.as_str());
                    match member_position(&members, key.as_str()) {
                        Some(at) => {
                            members.set(at, (key, value));
                            assert(fields(members@) =~= before.update(
                                at as int,
                                (values@[i as int].0@, value),
                            ));
                        },
                        None => {
                            members.push((key, value));
                            assert(fields(members@) =~= before.push(
                                (values@[i as int].0@, value),
                            ));
                        },
                    }
                },
                None => {},
            }
        }
        i += 1;
    }
    assert(raw.take(raw.len() as int) == raw);
    members
}

/// The text to scan for a payload: its string content if it parses as
/// JSON, else the payload verbatim.
pub fn extract_payload_text(payload: &str) -> (r: String)
    ensures
        r@ == payload_text(payload@),
{
    let parsed = parse_json(payload);
    text_of_parsed(parsed, payload)
}

} // verus!
