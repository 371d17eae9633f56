//! Trusted access to `serde_json` documents. Each reader wraps one
//! navigation through the parsed document and carries a name for what it
//! reads: a JSON document is plain text, so every read is a function of the
//! text and the path alone. The verified model builders call the readers
//! and are held, field by field, to the same names.

use vstd::prelude::*;

verus! {

#[verifier::external_type_specification]
#[verifier::external_body]
pub struct ExJsonValue(serde_json::Value);

#[verifier::external_type_specification]
#[verifier::external_body]
pub struct ExJsonError(serde_json::Error);

/// Reading one field of a JSON document: absent (or `null`) fields are
/// missing, fields of the wrong shape — and unparseable documents — are
/// invalid, and otherwise the field carries a value.
#[derive(Debug, Clone, PartialEq)]
pub enum FieldRead<T> {
    Missing,
    Invalid,
    Value(T),
}

/// The view of an optional key.
pub open spec fn opt_view(o: Option<&str>) -> Option<Seq<char>> {
    match o {
        Some(s) => Some(s@),
        None => None,
    }
}

/// The string at `k1` (or `k1.k2`) of the document `s`.
pub uninterp spec fn jstr_of(s: Seq<char>, k1: Seq<char>, k2: Option<Seq<char>>) -> FieldRead<
    String,
>;

/// The unsigned integer at `k1` (or `k1.k2`) of the document `s`.
pub uninterp spec fn ju64_of(s: Seq<char>, k1: Seq<char>, k2: Option<Seq<char>>) -> FieldRead<u64>;

/// The array of strings at `k1` (or `k1.k2`) of the document `s`.
pub uninterp spec fn jstrlist_of(s: Seq<char>, k1: Seq<char>, k2: Option<Seq<char>>) -> FieldRead<
    Vec<String>,
>;

/// The keys of the object at `k1` (or `k1.k2`) of the document `s`, in the
/// iteration order of serde_json's map.
pub uninterp spec fn jkeys_of(s: Seq<char>, k1: Seq<char>, k2: Option<Seq<char>>) -> FieldRead<
    Vec<String>,
>;

/// The string-valued entries of the object at `k1` (or `k1.k2`) of the
/// document `s`, in the iteration order of serde_json's map.
pub uninterp spec fn jstrmap_of(s: Seq<char>, k1: Seq<char>, k2: Option<Seq<char>>) -> FieldRead<
    Vec<(String, String)>,
>;

/// Whether an object stands at `k1` of the document `s` (the carried value
/// is always `true`).
pub uninterp spec fn jobject_of(s: Seq<char>, k1: Seq<char>) -> FieldRead<bool>;

/// The length of the array at `k1` of the document `s`.
pub uninterp spec fn jarrlen_of(s: Seq<char>, k1: Seq<char>) -> FieldRead<u64>;

/// The string at `k1[i].k2` (or `k1[i].k2.k3`) of the document `s`.
pub uninterp spec fn jarr_str_of(
    s: Seq<char>,
    k1: Seq<char>,
    i: int,
    k2: Seq<char>,
    k3: Option<Seq<char>>,
) -> FieldRead<String>;

/// The unsigned integer at `k1[i].k2` (or `k1[i].k2.k3`) of the document.
pub uninterp spec fn jarr_u64_of(
    s: Seq<char>,
    k1: Seq<char>,
    i: int,
    k2: Seq<char>,
    k3: Option<Seq<char>>,
) -> FieldRead<u64>;

/// The array of strings at `k1[i].k2` (or `k1[i].k2.k3`) of the document.
pub uninterp spec fn jarr_strlist_of(
    s: Seq<char>,
    k1: Seq<char>,
    i: int,
    k2: Seq<char>,
    k3: Option<Seq<char>>,
) -> FieldRead<Vec<String>>;

/// The boolean at `k1[i].k2` (or `k1[i].k2.k3`) of the document.
pub uninterp spec fn jarr_bool_of(
    s: Seq<char>,
    k1: Seq<char>,
    i: int,
    k2: Seq<char>,
    k3: Option<Seq<char>>,
) -> FieldRead<bool>;

/// Relies on serde_json::from_str and Value::{get, is_null, as_str}: read
/// one string field.
#[verifier::external_body]
pub(crate) fn jstr(s: &str, k1: &str, k2: Option<&str>) -> (r: FieldRead<String>)
    ensures
        r == jstr_of(s@, k1@, opt_view(k2)),
{
    let Ok(v) = serde_json::from_str::<serde_json::Value>(s) else { return FieldRead::Invalid };
    let x = match k2 { Some(k) => v.get(k1).and_then(|p| p.get(k)), None => v.get(k1) };
    match x {
        Some(x) if !x.is_null() => match x.as_str() {
            Some(t) => FieldRead::Value(t.to_string()),
            None => FieldRead::Invalid,
        },
        _ => FieldRead::Missing,
    }
}

/// Relies on serde_json::from_str and Value::{get, is_null, as_u64}: read
/// one unsigned-integer field.
#[verifier::external_body]
pub(crate) fn ju64(s: &str, k1: &str, k2: Option<&str>) -> (r: FieldRead<u64>)
    ensures
        r == ju64_of(s@, k1@, opt_view(k2)),
{
    let Ok(v) = serde_json::from_str::<serde_json::Value>(s) else { return FieldRead::Invalid };
    let x = match k2 { Some(k) => v.get(k1).and_then(|p| p.get(k)), None => v.get(k1) };
    match x {
        Some(x) if !x.is_null() => match x.as_u64() {
            Some(n) => FieldRead::Value(n),
            None => FieldRead::Invalid,
        },
        _ => FieldRead::Missing,
    }
}

/// Relies on serde_json::from_str and Value::{get, is_null, as_array,
/// as_str}: read one array-of-strings field.
#[verifier::external_body]
pub(crate) fn jstrlist(s: &str, k1: &str, k2: Option<&str>) -> (r: FieldRead<Vec<String>>)
    ensures
        r == jstrlist_of(s@, k1@, opt_view(k2)),
{
    let Ok(v) = serde_json::from_str::<serde_json::Value>(s) else { return FieldRead::Invalid };
    let x = match k2 { Some(k) => v.get(k1).and_then(|p| p.get(k)), None => v.get(k1) };
    match x {
        Some(x) if !x.is_null() => match x.as_array().map(|a| a.iter().map(|e| e.as_str().map(str::to_string)).collect::<Option<Vec<_>>>()) {
            Some(Some(l)) => FieldRead::Value(l),
            _ => FieldRead::Invalid,
        },
        _ => FieldRead::Missing,
    }
}

/// Relies on serde_json::from_str and Value::{get, is_null, as_object}:
/// read the keys of one object field.
#[verifier::external_body]
pub(crate) fn jkeys(s: &str, k1: &str, k2: Option<&str>) -> (r: FieldRead<Vec<String>>)
    ensures
        r == jkeys_of(s@, k1@, opt_view(k2)),
{
    let Ok(v) = serde_json::from_str::<serde_json::Value>(s) else { return FieldRead::Invalid };
    let x = match k2 { Some(k) => v.get(k1).and_then(|p| p.get(k)), None => v.get(k1) };
    match x {
        Some(x) if !x.is_null() => match x.as_object() {
            Some(m) => FieldRead::Value(m.keys().cloned().collect()),
            None => FieldRead::Invalid,
        },
        _ => FieldRead::Missing,
    }
}

/// Relies on serde_json::from_str and Value::{get, is_null, as_object,
/// as_str}: read the string-valued entries of one object field.
#[verifier::external_body]
pub(crate) fn jstrmap(s: &str, k1: &str, k2: Option<&str>) -> (r: FieldRead<Vec<(String, String)>>)
    ensures
        r == jstrmap_of(s@, k1@, opt_view(k2)),
{
    let Ok(v) = serde_json::from_str::<serde_json::Value>(s) else { return FieldRead::Invalid };
    let x = match k2 { Some(k) => v.get(k1).and_then(|p| p.get(k)), None => v.get(k1) };
    match x {
        Some(x) if !x.is_null() => match x.as_object().map(|m| m.iter().map(|(k, e)| Some((k.clone(), e.as_str()?.to_string()))).collect::<Option<Vec<_>>>()) {
            Some(Some(entries)) => FieldRead::Value(entries),
            _ => FieldRead::Invalid,
        },
        _ => FieldRead::Missing,
    }
}

/// Relies on serde_json::from_str and Value::{get, is_null, is_object}:
/// whether an object stands at the key.
#[verifier::external_body]
pub(crate) fn jobject(s: &str, k1: &str) -> (r: FieldRead<bool>)
    ensures
        r == jobject_of(s@, k1@),
{
    let Ok(v) = serde_json::from_str::<serde_json::Value>(s) else { return FieldRead::Invalid };
    match v.get(k1) {
        None => FieldRead::Missing,
        Some(x) if x.is_null() => FieldRead::Missing,
        Some(x) if x.is_object() => FieldRead::Value(true),
        Some(_) => FieldRead::Invalid,
    }
}

/// Relies on serde_json::from_str and Value::{get, is_null, as_array}: the
/// length of one array field.
#[verifier::external_body]
pub(crate) fn jarrlen(s: &str, k1: &str) -> (r: FieldRead<u64>)
    ensures
        r == jarrlen_of(s@, k1@),
{
    let Ok(v) = serde_json::from_str::<serde_json::Value>(s) else { return FieldRead::Invalid };
    match v.get(k1) {
        None => FieldRead::Missing,
        Some(x) if x.is_null() => FieldRead::Missing,
        Some(x) => match x.as_array() {
            Some(a) => FieldRead::Value(a.len() as u64),
            None => FieldRead::Invalid,
        },
    }
}

/// Relies on serde_json::from_str and Value::{get, is_null, as_str}: read
/// one string field of an array element.
#[verifier::external_body]
pub(crate) fn jarr_str(s: &str, k1: &str, i: usize, k2: &str, k3: Option<&str>) -> (r: FieldRead<
    String,
>)
    ensures
        r == jarr_str_of(s@, k1@, i as int, k2@, opt_view(k3)),
{
    let Ok(v) = serde_json::from_str::<serde_json::Value>(s) else { return FieldRead::Invalid };
    let e = v.get(k1).and_then(|a| a.get(i)).and_then(|e| e.get(k2));
    let x = match k3 { Some(k) => e.and_then(|p| p.get(k)), None => e };
    match x {
        Some(x) if !x.is_null() => match x.as_str() {
            Some(t) => FieldRead::Value(t.to_string()),
            None => FieldRead::Invalid,
        },
        _ => FieldRead::Missing,
    }
}

/// Relies on serde_json::from_str and Value::{get, is_null, as_u64}: read
/// one unsigned-integer field of an array element.
#[verifier::external_body]
pub(crate) fn jarr_u64(s: &str, k1: &str, i: usize, k2: &str, k3: Option<&str>) -> (r: FieldRead<
    u64,
>)
    ensures
        r == jarr_u64_of(s@, k1@, i as int, k2@, opt_view(k3)),
{
    let Ok(v) = serde_json::from_str::<serde_json::Value>(s) else { return FieldRead::Invalid };
    let e = v.get(k1).and_then(|a| a.get(i)).and_then(|e| e.get(k2));
    let x = match k3 { Some(k) => e.and_then(|p| p.get(k)), None => e };
    match x {
        Some(x) if !x.is_null() => match x.as_u64() {
            Some(n) => FieldRead::Value(n),
            None => FieldRead::Invalid,
        },
        _ => FieldRead::Missing,
    }
}

/// Relies on serde_json::from_str and Value::{get, is_null, as_array,
/// as_str}: read one array-of-strings field of an array element.
#[verifier::external_body]
pub(crate) fn jarr_strlist(s: &str, k1: &str, i: usize, k2: &str, k3: Option<&str>) -> (r:
    FieldRead<Vec<String>>)
    ensures
        r == jarr_strlist_of(s@, k1@, i as int, k2@, opt_view(k3)),
{
    let Ok(v) = serde_json::from_str::<serde_json::Value>(s) else { return FieldRead::Invalid };
    let e = v.get(k1).and_then(|a| a.get(i)).and_then(|e| e.get(k2));
    let x = match k3 { Some(k) => e.and_then(|p| p.get(k)), None => e };
    match x {
        Some(x) if !x.is_null() => match x.as_array().map(|a| a.iter().map(|e| e.as_str().map(str::to_string)).collect::<Option<Vec<_>>>()) {
            Some(Some(l)) => FieldRead::Value(l),
            _ => FieldRead::Invalid,
        },
        _ => FieldRead::Missing,
    }
}

/// Relies on serde_json::from_str and Value::{get, is_null, as_bool}: read
/// one boolean field of an array element.
#[verifier::external_body]
pub(crate) fn jarr_bool(s: &str, k1: &str, i: usize, k2: &str, k3: Option<&str>) -> (r: FieldRead<
    bool,
>)
    ensures
        r == jarr_bool_of(s@, k1@, i as int, k2@, opt_view(k3)),
{
    let Ok(v) = serde_json::from_str::<serde_json::Value>(s) else { return FieldRead::Invalid };
    let e = v.get(k1).and_then(|a| a.get(i)).and_then(|e| e.get(k2));
    let x = match k3 { Some(k) => e.and_then(|p| p.get(k)), None => e };
    match x {
        Some(x) if !x.is_null() => match x.as_bool() {
            Some(b) => FieldRead::Value(b),
            None => FieldRead::Invalid,
        },
        _ => FieldRead::Missing,
    }
}

/// Relies on serde::de::Error::custom: a JSON error carrying a message, for
/// documents that parse but lack a required shape.
#[verifier::external_body]
pub(crate) fn json_error(msg: &str) -> (r: serde_json::Error) {
    <serde_json::Error as serde::de::Error>::custom(msg)
}

/// An optional field agrees with a model value: a missing field is `None`,
/// a carried value is that value, and an invalid field never agrees.
pub open spec fn opt_match<T>(r: FieldRead<T>, o: Option<T>) -> bool {
    match r {
        FieldRead::Missing => o is None,
        FieldRead::Value(v) => o == Some(v),
        FieldRead::Invalid => false,
    }
}

/// An optional field can be taken: it is anything but invalid.
pub open spec fn opt_ok<T>(r: FieldRead<T>) -> bool {
    !(r is Invalid)
}

/// Take a required field's value, or fail the parse.
pub(crate) fn req_value<T>(r: FieldRead<T>) -> (out: Result<T, serde_json::Error>)
    ensures
        match out {
            Ok(v) => r == FieldRead::Value(v),
            Err(_) => !(r is Value),
        },
{
    match r {
        FieldRead::Value(v) => Ok(v),
        _ => Err(json_error("missing or invalid required field")),
    }
}

/// Take an optional field's value, failing the parse only on an invalid
/// field.
pub(crate) fn opt_value<T>(r: FieldRead<T>) -> (out: Result<Option<T>, serde_json::Error>)
    ensures
        match out {
            Ok(o) => opt_match(r, o),
            Err(_) => r is Invalid,
        },
{
    match r {
        FieldRead::Value(v) => Ok(Some(v)),
        FieldRead::Missing => Ok(None),
        FieldRead::Invalid => Err(json_error("invalid optional field")),
    }
}

} // verus!
