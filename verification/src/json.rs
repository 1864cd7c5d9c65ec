//! A model of the JSON documents `gh` prints, and the lookups the commands
//! make in them (GraphQL errors, fields by path).

use vstd::prelude::*;

use crate::text::{copy_str, join, join_strings, str_eq};

verus! {

/// A JSON number: its text as printed and its value when it is a `u64`.
pub struct JsonNumber {
    pub text: String,
    pub unsigned: Option<u64>,
}

/// A JSON value; object keys are distinct.
pub enum JsonValue {
    Null,
    Bool(bool),
    Number(JsonNumber),
    Str(String),
    Array(Vec<JsonValue>),
    Object(Vec<(String, JsonValue)>),
}

/// The member named `key` of an object's members (the first one).
pub open spec fn member(members: Seq<(String, JsonValue)>, key: Seq<char>) -> Option<JsonValue>
    decreases members.len(),
{
    if members.len() == 0 {
        None
    } else if members[0].0@ == key {
        Some(members[0].1)
    } else {
        member(members.drop_first(), key)
    }
}

/// `Value::get(key)`: the member of an object, `None` for other values.
pub open spec fn get(v: JsonValue, key: Seq<char>) -> Option<JsonValue> {
    match v {
        JsonValue::Object(m) => member(m@, key),
        _ => None,
    }
}

/// `Value::as_str`.
pub open spec fn as_str(v: Option<JsonValue>) -> Option<Seq<char>> {
    match v {
        Some(JsonValue::Str(s)) => Some(s@),
        _ => None,
    }
}

/// `Value::as_u64`.
pub open spec fn as_u64(v: Option<JsonValue>) -> Option<u64> {
    match v {
        Some(JsonValue::Number(n)) => n.unsigned,
        _ => None,
    }
}

/// The value at a path of keys.
pub open spec fn at_path(v: JsonValue, path: Seq<Seq<char>>) -> Option<JsonValue>
    decreases path.len(),
{
    if path.len() == 0 {
        Some(v)
    } else {
        match get(v, path[0]) {
            Some(next) => at_path(next, path.drop_first()),
            None => None,
        }
    }
}

/// A string or number at a path, as text; empty otherwise.
pub open spec fn path_text(v: JsonValue, path: Seq<Seq<char>>) -> Seq<char> {
    match at_path(v, path) {
        Some(JsonValue::Str(s)) => s@,
        Some(JsonValue::Number(n)) => n.text@,
        _ => Seq::<char>::empty(),
    }
}

/// The string member `key`, or empty.
pub open spec fn string_member(v: JsonValue, key: Seq<char>) -> Seq<char> {
    match as_str(get(v, key)) {
        Some(s) => s,
        None => Seq::<char>::empty(),
    }
}

/// The `message` texts of the error objects, in order.
pub open spec fn error_messages(errors: Seq<JsonValue>) -> Seq<Seq<char>>
    decreases errors.len(),
{
    if errors.len() == 0 {
        Seq::<Seq<char>>::empty()
    } else {
        let rest = error_messages(errors.drop_last());
        match as_str(get(errors.last(), "message"@)) {
            Some(m) => rest.push(m),
            None => rest,
        }
    }
}

/// The error summary of a GraphQL response: `None` without a non-empty
/// `errors` array; otherwise the messages joined by ` | `, or a generic
/// message when none has a text.
pub open spec fn graphql_errors_of(payload: JsonValue) -> Option<Seq<char>> {
    match get(payload, "errors"@) {
        Some(JsonValue::Array(errors)) => if errors@.len() == 0 {
            None
        } else {
            let messages = error_messages(errors@);
            if messages.len() == 0 {
                Some("Unknown GraphQL error."@)
            } else {
                Some(join(messages, " | "@))
            }
        },
        _ => None,
    }
}

/// `Value::get(key)`.
pub fn get_member<'a>(v: &'a JsonValue, key: &str) -> (r: Option<&'a JsonValue>)
    ensures
        match (r, get(*v, key@)) {
            (Some(a), Some(b)) => *a == b,
            (None, None) => true,
            _ => false,
        },
{
    match v {
        JsonValue::Object(members) => {
            let mut i: usize = 0;
            assert(members@.skip(0) =~= members@);
            while i < members.len()
                invariant
                    i <= members.len(),
                    member(members@, key@) == member(members@.skip(i as int), key@),
                    get(*v, key@) == member(members@, key@),
                decreases members.len() - i,
            {
                assert(members@.skip(i as int)[0] == members@[i as int]);
                assert(members@.skip(i as int).drop_first() =~= members@.skip(i + 1));
                if str_eq(members[i].0.as_str(), key) {
                    assert(members@.skip(i as int).len() > 0);
                    assert(member(members@.skip(i as int), key@) == Some(members@[i as int].1));
                    return Some(&members[i].1);
                }
                i += 1;
            }
            None
        },
        _ => None,
    }
}

/// The `message` texts of the error objects.
fn collect_messages(errors: &Vec<JsonValue>) -> (r: Vec<String>)
    ensures
        r@.map_values(|s: String| s@) == error_messages(errors@),
{
    let mut out: Vec<String> = Vec::new();
    let mut i: usize = 0;
    while i < errors.len()
        invariant
            i <= errors.len(),
            out@.map_values(|s: String| s@) == error_messages(errors@.take(i as int)),
        decreases errors.len() - i,
    {
        assert(errors@.take(i + 1).drop_last() =~= errors@.take(i as int));
        let ghost before = out@.map_values(|s: String| s@);
        match get_member(&errors[i], "message") {
            Some(JsonValue::Str(m)) => {
                out.push(m.clone());
                assert(out@.map_values(|s: String| s@) =~= before.push(m@));
            },
            _ => {},
        }
        i += 1;
    }
    assert(errors@.take(errors.len() as int) =~= errors@);
    out
}

/// The error summary of a GraphQL response.
pub fn graphql_error_messages(payload: &JsonValue) -> (r: Option<String>)
    ensures
        match (r, graphql_errors_of(*payload)) {
            (Some(a), Some(b)) => a@ == b,
            (None, None) => true,
            _ => false,
        },
{
    match get_member(payload, "errors") {
        Some(JsonValue::Array(errors)) => {
            if errors.len() == 0 {
                return None;
            }
            let messages = collect_messages(errors);
            if messages.len() == 0 {
                Some(copy_str("Unknown GraphQL error."))
            } else {
                Some(join_strings(&messages, " | "))
            }
        },
        _ => None,
    }
}

/// A string or number at a path, as text; empty otherwise.
pub fn graphql_string(payload: &JsonValue, path: &Vec<&str>) -> (r: String)
    ensures
        r@ == path_text(*payload, path@.map_values(|k: &str| k@)),
{
    let ghost pv = path@.map_values(|k: &str| k@);
    let mut current = payload;
    let mut i: usize = 0;
    assert(pv.skip(0) =~= pv);
    while i < path.len()
        invariant
            i <= path.len(),
            pv == path@.map_values(|k: &str| k@),
            at_path(*payload, pv) == at_path(*current, pv.skip(i as int)),
        decreases path.len() - i,
    {
        assert(pv.skip(i as int)[0] == path@[i as int]@);
        assert(pv.skip(i as int).drop_first() =~= pv.skip(i + 1));
        match get_member(current, path[i]) {
            Some(next) => {
                current = next;
            },
            None => {
                return String::new();
            },
        }
        i += 1;
    }
    assert(pv.skip(path.len() as int) =~= Seq::<Seq<char>>::empty());
    match current {
        JsonValue::Str(s) => s.clone(),
        JsonValue::Number(n) => n.text.clone(),
        _ => String::new(),
    }
}

/// The string member `key`, or empty (`json_string`).
pub fn json_string(payload: &JsonValue, key: &str) -> (r: String)
    ensures
        r@ == string_member(*payload, key@),
{
    match get_member(payload, key) {
        Some(JsonValue::Str(s)) => s.clone(),
        _ => String::new(),
    }
}

/// The unsigned number member `key`, if any.
pub fn json_u64(payload: &JsonValue, key: &str) -> (r: Option<u64>)
    ensures
        r == as_u64(get(*payload, key@)),
{
    match get_member(payload, key) {
        Some(JsonValue::Number(n)) => n.unsigned,
        _ => None,
    }
}

} // verus!
