//! JSON values as plain data, with the lookups the indexer performs on
//! event payloads and Horizon responses.

use vstd::prelude::*;
use crate::text::{parse_i64, parse_i64_spec, str_eq};

verus! {

/// A JSON number: its text as written back out, and its value when that is
/// an integer that fits in `i64`.
#[derive(Debug)]
pub struct JsonNumber {
    pub text: String,
    pub integer: Option<i64>,
}

/// A JSON value. An object keeps its entries in iteration order, each key
/// once.
#[derive(Debug)]
pub enum JsonValue {
    Null,
    Bool(bool),
    Number(JsonNumber),
    String(String),
    Array(Vec<JsonValue>),
    Object(Vec<(String, JsonValue)>),
}

/// The value stored under `key` among `entries`.
pub open spec fn entry_value(entries: Seq<(String, JsonValue)>, key: Seq<char>) -> Option<JsonValue>
    decreases entries.len(),
{
    if entries.len() == 0 {
        None
    } else if entries[0].0@ == key {
        Some(entries[0].1)
    } else {
        entry_value(entries.drop_first(), key)
    }
}

/// `v[key]`: the value under `key` when `v` is an object holding it, else
/// null.
pub open spec fn member(v: JsonValue, key: Seq<char>) -> JsonValue {
    match v {
        JsonValue::Object(entries) => match entry_value(entries@, key) {
            Some(x) => x,
            None => JsonValue::Null,
        },
        _ => JsonValue::Null,
    }
}

/// `v[i]`: the `i`-th element when `v` is an array that long, else null.
pub open spec fn element(v: JsonValue, i: int) -> JsonValue {
    match v {
        JsonValue::Array(items) => if 0 <= i < items@.len() {
            items@[i]
        } else {
            JsonValue::Null
        },
        _ => JsonValue::Null,
    }
}

/// The text of a JSON string.
pub open spec fn text_of(v: JsonValue) -> Option<Seq<char>> {
    match v {
        JsonValue::String(t) => Some(t@),
        _ => None,
    }
}

/// The value of a JSON number that is an `i64`.
pub open spec fn integer_of(v: JsonValue) -> Option<i64> {
    match v {
        JsonValue::Number(n) => n.integer,
        _ => None,
    }
}

/// The text a key's direct value contributes to a nested string search: a
/// string's text or a number's written form.
pub open spec fn direct_string(v: Option<JsonValue>) -> Option<Seq<char>> {
    match v {
        Some(JsonValue::String(t)) => Some(t@),
        Some(JsonValue::Number(n)) => Some(n.text@),
        _ => None,
    }
}

/// The first string found under `key`, searching depth first: in an object,
/// its own entry for `key` first, then each value in order; in an array,
/// each item in order.
pub open spec fn nested_string(v: JsonValue, key: Seq<char>) -> Option<Seq<char>>
    decreases v,
{
    match v {
        JsonValue::Object(entries) => {
            let direct = direct_string(entry_value(entries@, key));
            if direct is Some {
                direct
            } else {
                nested_string_in_entries(entries@, key)
            }
        },
        JsonValue::Array(items) => nested_string_in_items(items@, key),
        _ => None,
    }
}

pub open spec fn nested_string_in_items(items: Seq<JsonValue>, key: Seq<char>) -> Option<Seq<char>>
    decreases items,
{
    if items.len() == 0 {
        None
    } else {
        let first = nested_string(items[0], key);
        if first is Some {
            first
        } else {
            nested_string_in_items(items.subrange(1, items.len() as int), key)
        }
    }
}

pub open spec fn nested_string_in_entries(entries: Seq<(String, JsonValue)>, key: Seq<char>) -> Option<
    Seq<char>,
>
    decreases entries,
{
    if entries.len() == 0 {
        None
    } else {
        let first = nested_string(entries[0].1, key);
        if first is Some {
            first
        } else {
            nested_string_in_entries(entries.subrange(1, entries.len() as int), key)
        }
    }
}

/// The integer a key's direct value contributes to a nested integer
/// search: a number that is an `i64`, or a string that parses as one.
pub open spec fn direct_integer(v: Option<JsonValue>) -> Option<i64> {
    match v {
        Some(JsonValue::Number(n)) => n.integer,
        Some(JsonValue::String(t)) => parse_i64_spec(t@),
        _ => None,
    }
}

/// The first integer found under `key`, searching as `nested_string` does.
pub open spec fn nested_integer(v: JsonValue, key: Seq<char>) -> Option<i64>
    decreases v,
{
    match v {
        JsonValue::Object(entries) => {
            let direct = direct_integer(entry_value(entries@, key));
            if direct is Some {
                direct
            } else {
                nested_integer_in_entries(entries@, key)
            }
        },
        JsonValue::Array(items) => nested_integer_in_items(items@, key),
        _ => None,
    }
}

pub open spec fn nested_integer_in_items(items: Seq<JsonValue>, key: Seq<char>) -> Option<i64>
    decreases items,
{
    if items.len() == 0 {
        None
    } else {
        let first = nested_integer(items[0], key);
        if first is Some {
            first
        } else {
            nested_integer_in_items(items.subrange(1, items.len() as int), key)
        }
    }
}

pub open spec fn nested_integer_in_entries(entries: Seq<(String, JsonValue)>, key: Seq<char>) -> Option<i64>
    decreases entries,
{
    if entries.len() == 0 {
        None
    } else {
        let first = nested_integer(entries[0].1, key);
        if first is Some {
            first
        } else {
            nested_integer_in_entries(entries.subrange(1, entries.len() as int), key)
        }
    }
}


/// The text of an optional string.
pub open spec fn opt_text(r: Option<String>) -> Option<Seq<char>> {
    match r {
        Some(t) => Some(t@),
        None => None,
    }
}

/// The value stored under `key` in an object's entries.
pub fn find_entry<'a>(entries: &'a Vec<(String, JsonValue)>, key: &str) -> (r: Option<&'a JsonValue>)
    ensures
        match r {
            Some(v) => entry_value(entries@, key@) == Some(*v),
            None => entry_value(entries@, key@) is None,
        },
{
    let n = entries.len();
    let mut i: usize = 0;
    assert(entries@.subrange(0, n as int) =~= entries@);
    while i < n
        invariant
            n == entries@.len(),
            i <= n,
            entry_value(entries@, key@) == entry_value(entries@.subrange(i as int, n as int), key@),
        decreases n - i,
    {
        assert(entries@.subrange(i as int, n as int)[0] == entries@[i as int]);
        assert(entries@.subrange(i as int, n as int).drop_first() =~= entries@.subrange(i + 1, n as int));
        if str_eq(entries[i].0.as_str(), key) {
            return Some(&entries[i].1);
        }
        i = i + 1;
    }
    None
}

impl JsonValue {
    /// `self[key]`: the value under `key` when this is an object holding it.
    pub fn get(&self, key: &str) -> (r: Option<&JsonValue>)
        ensures
            match r {
                Some(v) => *v == member(*self, key@),
                None => member(*self, key@) == JsonValue::Null,
            },
    {
        match self {
            JsonValue::Object(entries) => find_entry(entries, key),
            _ => None,
        }
    }

    /// `self[i]`: the `i`-th element when this is an array that long.
    pub fn at(&self, i: usize) -> (r: Option<&JsonValue>)
        ensures
            match r {
                Some(v) => *v == element(*self, i as int),
                None => element(*self, i as int) == JsonValue::Null,
            },
    {
        match self {
            JsonValue::Array(items) => if i < items.len() {
                Some(&items[i])
            } else {
                None
            },
            _ => None,
        }
    }

    /// The text of a string value.
    pub fn as_str(&self) -> (r: Option<&str>)
        ensures
            match r {
                Some(t) => text_of(*self) == Some(t@),
                None => text_of(*self) is None,
            },
    {
        match self {
            JsonValue::String(t) => Some(t.as_str()),
            _ => None,
        }
    }

    /// The value of a number that is an `i64`.
    pub fn as_i64(&self) -> (r: Option<i64>)
        ensures
            r == integer_of(*self),
    {
        match self {
            JsonValue::Number(n) => n.integer,
            _ => None,
        }
    }
}

/// `value[key]` as text, when it is a string.
pub fn member_text(value: Option<&JsonValue>) -> (r: Option<&str>)
    ensures
        match value {
            Some(v) => match r {
                Some(t) => text_of(*v) == Some(t@),
                None => text_of(*v) is None,
            },
            None => r is None,
        },
{
    match value {
        Some(v) => v.as_str(),
        None => None,
    }
}

/// The first string under `key` anywhere in `value`, searching depth first;
/// a number's written form counts as a string.
pub fn find_nested_string(value: &JsonValue, key: &str) -> (r: Option<String>)
    ensures
        opt_text(r) == nested_string(*value, key@),
    decreases value,
{
    match value {
        JsonValue::Object(entries) => {
            let direct: Option<String> = match find_entry(entries, key) {
                Some(JsonValue::String(t)) => Some(t.clone()),
                Some(JsonValue::Number(n)) => Some(n.text.clone()),
                _ => None,
            };
            if direct.is_some() {
                return direct;
            }
            let n = entries.len();
            let mut i: usize = 0;
            assert(entries@.subrange(0, n as int) =~= entries@);
            while i < n
                invariant
                    *value == JsonValue::Object(*entries),
                    n == entries@.len(),
                    i <= n,
                    nested_string(*value, key@) == nested_string_in_entries(
                        entries@.subrange(i as int, n as int),
                        key@,
                    ),
                decreases n - i,
            {
                let ghost rest = entries@.subrange(i as int, n as int);
                assert(rest[0] == entries@[i as int]);
                assert(rest.subrange(1, rest.len() as int) =~= entries@.subrange(i + 1, n as int));
                let found = find_nested_string(&entries[i].1, key);
                if found.is_some() {
                    return found;
                }
                i = i + 1;
            }
            None
        },
        JsonValue::Array(items) => {
            let n = items.len();
            let mut i: usize = 0;
            assert(items@.subrange(0, n as int) =~= items@);
            while i < n
                invariant
                    *value == JsonValue::Array(*items),
                    n == items@.len(),
                    i <= n,
                    nested_string(*value, key@) == nested_string_in_items(
                        items@.subrange(i as int, n as int),
                        key@,
                    ),
                decreases n - i,
            {
                let ghost rest = items@.subrange(i as int, n as int);
                assert(rest[0] == items@[i as int]);
                assert(rest.subrange(1, rest.len() as int) =~= items@.subrange(i + 1, n as int));
                let found = find_nested_string(&items[i], key);
                if found.is_some() {
                    return found;
                }
                i = i + 1;
            }
            None
        },
        _ => None,
    }
}

/// The first integer under `key` anywhere in `value`, searching depth
/// first; a string counts when it parses as an `i64`.
pub fn find_nested_i64(value: &JsonValue, key: &str) -> (r: Option<i64>)
    ensures
        r == nested_integer(*value, key@),
    decreases value,
{
    match value {
        JsonValue::Object(entries) => {
            let direct: Option<i64> = match find_entry(entries, key) {
                Some(JsonValue::Number(n)) => n.integer,
                Some(JsonValue::String(t)) => parse_i64(t.as_str()),
                _ => None,
            };
            if direct.is_some() {
                return direct;
            }
            let n = entries.len();
            let mut i: usize = 0;
            assert(entries@.subrange(0, n as int) =~= entries@);
            while i < n
                invariant
                    *value == JsonValue::Object(*entries),
                    n == entries@.len(),
                    i <= n,
                    nested_integer(*value, key@) == nested_integer_in_entries(
                        entries@.subrange(i as int, n as int),
                        key@,
                    ),
                decreases n - i,
            {
                let ghost rest = entries@.subrange(i as int, n as int);
                assert(rest[0] == entries@[i as int]);
                assert(rest.subrange(1, rest.len() as int) =~= entries@.subrange(i + 1, n as int));
                let found = find_nested_i64(&entries[i].1, key);
                if found.is_some() {
                    return found;
                }
                i = i + 1;
            }
            None
        },
        JsonValue::Array(items) => {
            let n = items.len();
            let mut i: usize = 0;
            assert(items@.subrange(0, n as int) =~= items@);
            while i < n
                invariant
                    *value == JsonValue::Array(*items),
                    n == items@.len(),
                    i <= n,
                    nested_integer(*value, key@) == nested_integer_in_items(
                        items@.subrange(i as int, n as int),
                        key@,
                    ),
                decreases n - i,
            {
                let ghost rest = items@.subrange(i as int, n as int);
                assert(rest[0] == items@[i as int]);
                assert(rest.subrange(1, rest.len() as int) =~= items@.subrange(i + 1, n as int));
                let found = find_nested_i64(&items[i], key);
                if found.is_some() {
                    return found;
                }
                i = i + 1;
            }
            None
        },
        _ => None,
    }
}

} // verus!
