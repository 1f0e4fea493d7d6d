//! The JSON boundary. Every call arrives as two JSON documents, read here
//! through serde_json. Each observation of a document — does its top
//! object hold a key, what string or list of strings stands under it — is
//! a deterministic function of the document text alone, so each carries a
//! name, and the reader that makes the observation is trusted to return
//! exactly that named value. Everything above this vocabulary is verified:
//! the decoders state, field for field, which documents they accept and
//! what value they produce. Each reader parses the document afresh; the
//! documents are a few lines long, and the boundary stays a handful of
//! one-line observations.

use vstd::prelude::*;

verus! {

/// Whether serde_json's parser accepts `s` as one well-formed JSON
/// document. Deterministic in the text alone.
pub uninterp spec fn json_ok(s: Seq<char>) -> bool;

/// Whether `s` is well-formed and its top-level object has a field `key`
/// (false when the top level is not an object).
pub uninterp spec fn json_has_field(s: Seq<char>, key: Seq<char>) -> bool;

/// The string under `key` in the top-level object of `s`, or None when
/// the document is malformed, the field is absent, or it is not a string.
pub uninterp spec fn json_str_field(s: Seq<char>, key: Seq<char>) -> Option<Seq<char>>;

/// The strings under `key` in the top-level object of `s`, or None when
/// the document is malformed, the field is absent, or it is not an array
/// of strings.
pub uninterp spec fn json_str_list_field(s: Seq<char>, key: Seq<char>) -> Option<Seq<Seq<char>>>;

/// Whether the field `key` of the top-level object of `s` is an array, of
/// whatever elements.
pub uninterp spec fn json_array_field(s: Seq<char>, key: Seq<char>) -> bool;

/// Relies on serde_json::from_str::<Value>: accepts exactly the
/// well-formed documents, and renders the parser's diagnostic as a string
/// for the rest.
#[verifier::external_body]
pub(crate) fn check_json(s: &str) -> (r: Result<(), String>)
    ensures
        r is Ok <==> json_ok(s@),
{
    match serde_json::from_str::<serde_json::Value>(s) {
        Ok(_) => Ok(()),
        Err(e) => Err(e.to_string()),
    }
}

/// Relies on serde_json::from_str::<Value> and Value::get: whether the
/// text parses and its top object holds the key.
#[verifier::external_body]
pub(crate) fn read_has_field(s: &str, key: &str) -> (r: bool)
    ensures
        r == json_has_field(s@, key@),
{
    match serde_json::from_str::<serde_json::Value>(s) {
        Ok(v) => v.get(key).is_some(),
        Err(_) => false,
    }
}

/// Relies on serde_json::from_str::<Value>, Value::get and Value::as_str:
/// the string under the key, when there is one.
#[verifier::external_body]
pub(crate) fn read_string_field(s: &str, key: &str) -> (r: Option<String>)
    ensures
        r.deep_view() == json_str_field(s@, key@),
{
    match serde_json::from_str::<serde_json::Value>(s) {
        Ok(v) => v.get(key).and_then(|f| f.as_str()).map(|t| t.to_owned()),
        Err(_) => None,
    }
}

/// Relies on serde_json::from_str::<Value>, Value::get, Value::as_array
/// and Value::as_str: the strings under the key, when the field is an
/// array of strings.
#[verifier::external_body]
pub(crate) fn read_string_list_field(s: &str, key: &str) -> (r: Option<Vec<String>>)
    ensures
        r.deep_view() == json_str_list_field(s@, key@),
{
    match serde_json::from_str::<serde_json::Value>(s) {
        Ok(v) => v.get(key).and_then(|f| f.as_array()).and_then(
            |items| items.iter().map(|x| x.as_str().map(|t| t.to_owned())).collect(),
        ),
        Err(_) => None,
    }
}

/// Relies on serde_json::from_str::<Value>, Value::get and
/// Value::is_array: whether the field is an array.
#[verifier::external_body]
pub(crate) fn read_array_field(s: &str, key: &str) -> (r: bool)
    ensures
        r == json_array_field(s@, key@),
{
    match serde_json::from_str::<serde_json::Value>(s) {
        Ok(v) => match v.get(key) {
            Some(f) => f.is_array(),
            None => false,
        },
        Err(_) => false,
    }
}

/// The string an optional field contributes: its value where the document
/// holds one, empty where the field is absent.
pub open spec fn opt_seq(o: Option<Seq<char>>) -> Seq<char> {
    match o {
        Some(t) => t,
        None => Seq::empty(),
    }
}

/// The list an optional field contributes: its strings where the document
/// holds them, empty where the field is absent.
pub open spec fn opt_list(o: Option<Seq<Seq<char>>>) -> Seq<Seq<char>> {
    match o {
        Some(l) => l,
        None => Seq::empty(),
    }
}

/// An optional string field is well-formed: absent, or a string.
pub open spec fn str_field_wf(s: Seq<char>, key: Seq<char>) -> bool {
    json_has_field(s, key) ==> json_str_field(s, key) is Some
}

/// What an optional string field contributes, defaulting to empty.
pub open spec fn str_field_of(s: Seq<char>, key: Seq<char>) -> Seq<char> {
    if json_has_field(s, key) {
        opt_seq(json_str_field(s, key))
    } else {
        Seq::empty()
    }
}

/// An optional list field is well-formed: absent, or an array of strings.
pub open spec fn str_list_field_wf(s: Seq<char>, key: Seq<char>) -> bool {
    json_has_field(s, key) ==> json_str_list_field(s, key) is Some
}

/// What an optional list field contributes, defaulting to the empty list.
pub open spec fn str_list_field_of(s: Seq<char>, key: Seq<char>) -> Seq<Seq<char>> {
    if json_has_field(s, key) {
        opt_list(json_str_list_field(s, key))
    } else {
        Seq::empty()
    }
}

/// A decode diagnostic of the form `<what> field `<key>``, built in
/// verified code so the boundary's error texts stay inspectable.
pub(crate) fn field_error(what: &str, key: &str) -> (r: String)
    ensures
        r@ == what@ + " field `"@ + key@ + "`"@,
{
    let mut r = String::from_str(what);
    r.append(" field `");
    r.append(key);
    r.append("`");
    r
}

/// Wraps a decode diagnostic in the boundary's error channel: the fixed
/// prefix that every failure reply begins with, and that the host reads
/// to tell a failure from a command.
pub fn error_reply(detail: &str) -> (r: String)
    ensures
        r@ == "ERROR: "@ + detail@,
{
    let mut r = String::from_str("ERROR: ");
    r.append(detail);
    r
}

/// Reads an optional string field: absent keys are allowed, a present
/// value must be a string.
pub(crate) fn optional_string_field(s: &str, key: &str) -> (r: Result<Option<String>, String>)
    ensures
        r is Ok <==> str_field_wf(s@, key@),
        r matches Ok(o) ==> o.deep_view() == if json_has_field(s@, key@) {
            json_str_field(s@, key@)
        } else {
            None::<Seq<char>>
        },
{
    if !read_has_field(s, key) {
        return Ok(None);
    }
    match read_string_field(s, key) {
        Some(t) => Ok(Some(t)),
        None => Err(field_error("invalid type: expected a string in", key)),
    }
}

/// Reads a required string field, as the module schemas demand of `name`
/// and `type`.
pub(crate) fn required_string_field(s: &str, key: &str) -> (r: Result<String, String>)
    ensures
        r is Ok <==> json_has_field(s@, key@) && json_str_field(s@, key@) is Some,
        r matches Ok(t) ==> json_str_field(s@, key@) == Some(t@),
{
    if !read_has_field(s, key) {
        return Err(field_error("missing", key));
    }
    match read_string_field(s, key) {
        Some(t) => Ok(t),
        None => Err(field_error("invalid type: expected a string in", key)),
    }
}

/// Reads an optional string field that defaults to the empty string, as
/// every context field does.
pub(crate) fn defaulted_string_field(s: &str, key: &str) -> (r: Result<String, String>)
    ensures
        r is Ok <==> str_field_wf(s@, key@),
        r matches Ok(t) ==> t@ == str_field_of(s@, key@),
{
    match optional_string_field(s, key) {
        Ok(Some(t)) => Ok(t),
        Ok(None) => Ok(String::new()),
        Err(e) => Err(e),
    }
}

/// Reads an optional list-of-strings field, defaulting to the empty list
/// when the key is absent; a present value must be an array of strings.
pub(crate) fn string_list_field(s: &str, key: &str) -> (r: Result<Vec<String>, String>)
    ensures
        r is Ok <==> str_list_field_wf(s@, key@),
        r matches Ok(l) ==> l.deep_view() == str_list_field_of(s@, key@),
{
    if !read_has_field(s, key) {
        return Ok(Vec::new());
    }
    match read_string_list_field(s, key) {
        Some(l) => Ok(l),
        None => Err(field_error("invalid type: expected an array of strings in", key)),
    }
}

} // verus!
