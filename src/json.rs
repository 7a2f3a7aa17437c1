//! JSON values as the library reads them, and the quoting of text for the
//! protocol's output lines. Decoding and quoting are serde_json's.

use vstd::prelude::*;

use crate::text::{parse_unsigned, parsed_unsigned, same_text};

verus! {

/// A decoded JSON value. A number keeps the text that serde_json writes for
/// it; an object keeps its members in serde_json's order, keys unique.
#[derive(Debug)]
pub enum JsonValue {
    Null,
    Bool(bool),
    Number(String),
    Str(String),
    Array(Vec<JsonValue>),
    Object(Vec<(String, JsonValue)>),
}

#[verifier::external_type_specification]
#[verifier::external_body]
pub struct ExSerdeValue(serde_json::Value);

/// Names what `serde_json::from_str::<serde_json::Value>` decodes from a text,
/// as a `JsonValue`; `None` when the text is not JSON.
pub uninterp spec fn json_decoded(s: Seq<char>) -> Option<JsonValue>;

/// Names the JSON string literal that serde_json writes for a text: the text
/// in double quotes, with quotes, backslashes and control characters escaped.
pub uninterp spec fn json_quoted(s: Seq<char>) -> Seq<char>;

/// Relies on serde_json's `Value` enum: each variant is carried over as it
/// stands, a number as the text that its `Display` writes.
#[verifier::external_body]
fn from_serde(v: serde_json::Value) -> JsonValue {
    match v {
        serde_json::Value::Null => JsonValue::Null,
        serde_json::Value::Bool(b) => JsonValue::Bool(b),
        serde_json::Value::Number(n) => JsonValue::Number(n.to_string()),
        serde_json::Value::String(s) => JsonValue::Str(s),
        serde_json::Value::Array(a) => JsonValue::Array(a.into_iter().map(from_serde).collect()),
        serde_json::Value::Object(m) => JsonValue::Object(
            m.into_iter().map(|(k, x)| (k, from_serde(x))).collect(),
        ),
    }
}

/// Relies on `serde_json::from_str`, which decodes one JSON text; the result
/// depends on the text alone.
#[verifier::external_body]
pub(crate) fn decode_json(s: &str) -> (r: Option<JsonValue>)
    ensures
        r == json_decoded(s@),
{
    serde_json::from_str::<serde_json::Value>(s).ok().map(from_serde)
}

/// Relies on `serde_json::to_string` on a `str`, which writes a JSON string
/// literal and cannot fail on one.
#[verifier::external_body]
pub(crate) fn quote_json(s: &str) -> (r: String)
    ensures
        r@ == json_quoted(s@),
{
    serde_json::to_string(s).unwrap_or_default()
}

/// The value of the first member named `key`.
pub open spec fn member_of(entries: Seq<(String, JsonValue)>, key: Seq<char>) -> Option<JsonValue>
    decreases entries.len(),
{
    if entries.len() == 0 {
        None
    } else if entries[0].0@ == key {
        Some(entries[0].1)
    } else {
        member_of(entries.drop_first(), key)
    }
}

/// The member `key` of an object; nothing for other values.
pub open spec fn field(v: Option<JsonValue>, key: Seq<char>) -> Option<JsonValue> {
    match v {
        Some(JsonValue::Object(entries)) => member_of(entries@, key),
        _ => None,
    }
}

pub open spec fn str_of(v: Option<JsonValue>) -> Option<Seq<char>> {
    match v {
        Some(JsonValue::Str(s)) => Some(s@),
        _ => None,
    }
}

pub open spec fn bool_of(v: Option<JsonValue>) -> Option<bool> {
    match v {
        Some(JsonValue::Bool(b)) => Some(b),
        _ => None,
    }
}

/// A non-negative integer, as serde_json's `as_u64` reads it.
pub open spec fn u64_of(v: Option<JsonValue>) -> Option<nat> {
    match v {
        Some(JsonValue::Number(t)) => if t@.len() > 0 && t@[0] != '+' {
            parsed_unsigned(t@, u64::MAX as nat)
        } else {
            None
        },
        _ => None,
    }
}

pub open spec fn array_of(v: Option<JsonValue>) -> Option<Seq<JsonValue>> {
    match v {
        Some(JsonValue::Array(items)) => Some(items@),
        _ => None,
    }
}

/// The strings among `items`, in order; other items are skipped.
pub open spec fn strings_in(items: Seq<JsonValue>) -> Seq<Seq<char>>
    decreases items.len(),
{
    if items.len() == 0 {
        Seq::empty()
    } else {
        let rest = strings_in(items.drop_last());
        match items.last() {
            JsonValue::Str(s) => rest.push(s@),
            _ => rest,
        }
    }
}

/// The strings of an array; nothing when the value is not an array.
pub open spec fn string_list(v: Option<JsonValue>) -> Option<Seq<Seq<char>>> {
    match v {
        Some(JsonValue::Array(items)) => Some(strings_in(items@)),
        _ => None,
    }
}

pub open spec fn strings_view(v: Seq<String>) -> Seq<Seq<char>> {
    v.map_values(|s: String| s@)
}

/// The member `key` of `v`, when `v` is an object that has one.
pub fn get_field<'a>(v: Option<&'a JsonValue>, key: &str) -> (r: Option<&'a JsonValue>)
    ensures
        opt_ref(r) == field(opt_ref(v), key@),
{
    match v {
        Some(JsonValue::Object(entries)) => {
            let mut i: usize = 0;
            proof {
                assert(entries@.skip(0) =~= entries@);
            }
            while i < entries.len()
                invariant
                    i <= entries@.len(),
                    field(opt_ref(v), key@) == member_of(entries@, key@),
                    member_of(entries@, key@) == member_of(entries@.skip(i as int), key@),
                decreases entries.len() - i,
            {
                proof {
                    let rest = entries@.skip(i as int);
                    assert(rest[0] == entries@[i as int]);
                    assert(rest.drop_first() =~= entries@.skip(i + 1));
                }
                if same_text(entries[i].0.as_str(), key) {
                    proof {
                        let rest = entries@.skip(i as int);
                        assert(rest[0].0@ == key@);
                        assert(member_of(rest, key@) == Some(rest[0].1));
                    }
                    return Some(&entries[i].1);
                }
                i = i + 1;
            }
            proof {
                assert(entries@.skip(entries@.len() as int) =~= Seq::<(String, JsonValue)>::empty());
            }
            None
        },
        _ => None,
    }
}

pub open spec fn opt_ref(v: Option<&JsonValue>) -> Option<JsonValue> {
    match v {
        Some(x) => Some(*x),
        None => None,
    }
}

/// The text of a string value.
pub fn get_str<'a>(v: Option<&'a JsonValue>) -> (r: Option<&'a str>)
    ensures
        match r {
            Some(s) => str_of(opt_ref(v)) == Some(s@),
            None => str_of(opt_ref(v)) is None,
        },
{
    match v {
        Some(JsonValue::Str(s)) => Some(s.as_str()),
        _ => None,
    }
}

/// A boolean value.
pub fn get_bool(v: Option<&JsonValue>) -> (r: Option<bool>)
    ensures
        r == bool_of(opt_ref(v)),
{
    match v {
        Some(JsonValue::Bool(b)) => Some(*b),
        _ => None,
    }
}

/// A non-negative integer value.
pub fn get_u64(v: Option<&JsonValue>) -> (r: Option<u64>)
    ensures
        match r {
            Some(n) => u64_of(opt_ref(v)) == Some(n as nat),
            None => u64_of(opt_ref(v)) is None,
        },
{
    match v {
        Some(JsonValue::Number(t)) => {
            let s = t.as_str();
            if s.unicode_len() > 0 && s.get_char(0) != '+' {
                parse_unsigned(s, u64::MAX)
            } else {
                None
            }
        },
        _ => None,
    }
}

/// The strings of an array value, skipping items that are not strings.
pub fn get_string_list(v: Option<&JsonValue>) -> (r: Option<Vec<String>>)
    ensures
        match r {
            Some(l) => string_list(opt_ref(v)) == Some(strings_view(l@)),
            None => string_list(opt_ref(v)) is None,
        },
{
    match v {
        Some(JsonValue::Array(items)) => {
            let mut out: Vec<String> = Vec::new();
            let mut i: usize = 0;
            while i < items.len()
                invariant
                    i <= items@.len(),
                    strings_view(out@) == strings_in(items@.take(i as int)),
                decreases items.len() - i,
            {
                let ghost before = out@;
                proof {
                    assert(items@.take(i + 1).drop_last() =~= items@.take(i as int));
                    assert(items@.take(i + 1).last() == items@[i as int]);
                }
                match &items[i] {
                    JsonValue::Str(s) => {
                        out.push(s.clone());
                        proof {
                            assert(strings_view(out@) =~= strings_view(before).push(s@));
                        }
                    },
                    _ => {},
                }
                i = i + 1;
            }
            proof {
                assert(items@.take(items@.len() as int) =~= items@);
            }
            Some(out)
        },
        _ => None,
    }
}

} // verus!
