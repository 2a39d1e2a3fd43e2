//! Structured field access on CLI output. The node CLI answers with JSON
//! documents; decoding them is serde_json's work and stands behind the
//! trusted wrappers below. Each wrapper parses the document and follows
//! one access path; what it yields is named by an uninterpreted function
//! of the document text, so everything built on top is verified relative
//! to those names. Parse failure is always explicit — no wrapper ever
//! hands back a default in place of a malformed document.

use vstd::prelude::*;
use crate::errors::ParseError;

verus! {

/// Whether serde_json accepts the text as a JSON document.
pub uninterp spec fn json_doc_ok(doc: Seq<char>) -> bool;

/// The text of a top-level string field of the document, if present.
pub uninterp spec fn json_text_field(doc: Seq<char>, key: Seq<char>) -> Option<Seq<char>>;

/// The value of a top-level boolean field of the document, if present.
pub uninterp spec fn json_bool_field(doc: Seq<char>, key: Seq<char>) -> Option<bool>;

/// The value of a top-level unsigned numeric field of the document, if
/// present and integral.
pub uninterp spec fn json_u64_field(doc: Seq<char>, key: Seq<char>) -> Option<u64>;

/// The length of a top-level array field of the document, if present.
pub uninterp spec fn json_list_len(doc: Seq<char>, key: Seq<char>) -> Option<int>;

/// The text of a string field of the `idx`-th element of a top-level
/// array field, if everything along that path is present.
pub uninterp spec fn json_list_text_field(
    doc: Seq<char>,
    key: Seq<char>,
    idx: int,
    field: Seq<char>,
) -> Option<Seq<char>>;

/// The value of a boolean field of the `idx`-th element of a top-level
/// array field, if present.
pub uninterp spec fn json_list_bool_field(
    doc: Seq<char>,
    key: Seq<char>,
    idx: int,
    field: Seq<char>,
) -> Option<bool>;

/// The text of a string field inside the named child object of the
/// `idx`-th element of a top-level array field, if present.
pub uninterp spec fn json_list_child_text_field(
    doc: Seq<char>,
    key: Seq<char>,
    idx: int,
    child: Seq<char>,
    field: Seq<char>,
) -> Option<Seq<char>>;

/// A top-level string field with a default: the field's text where the
/// document parses and holds it, the default otherwise.
pub open spec fn doc_text_or(doc: Seq<char>, key: Seq<char>, dflt: Seq<char>) -> Seq<char> {
    if json_doc_ok(doc) {
        match json_text_field(doc, key) {
            Some(s) => s,
            None => dflt,
        }
    } else {
        dflt
    }
}

/// A top-level boolean field with a default.
pub open spec fn doc_bool_or(doc: Seq<char>, key: Seq<char>, dflt: bool) -> bool {
    if json_doc_ok(doc) {
        match json_bool_field(doc, key) {
            Some(b) => b,
            None => dflt,
        }
    } else {
        dflt
    }
}

/// A top-level unsigned numeric field with a default.
pub open spec fn doc_u64_or(doc: Seq<char>, key: Seq<char>, dflt: u64) -> u64 {
    if json_doc_ok(doc) {
        match json_u64_field(doc, key) {
            Some(n) => n,
            None => dflt,
        }
    } else {
        dflt
    }
}

/// Relies on `serde_json::from_str` and `Value::get`/`as_str`: looks up a
/// top-level string field. Fails exactly when the document does not
/// parse; an absent or non-string field is `None`, never an error.
#[verifier::external_body]
pub fn extract_field(raw: &str, key: &str) -> (r: Result<Option<String>, ParseError>)
    ensures
        r is Ok <==> json_doc_ok(raw@),
        r matches Ok(Some(s)) ==> json_text_field(raw@, key@) == Some(s@),
        r matches Ok(None) ==> json_text_field(raw@, key@) is None,
        r matches Err(e) ==> e is Malformed,
{
    match serde_json::from_str::<serde_json::Value>(raw) {
        Ok(doc) => Ok(doc.get(key).and_then(|f| f.as_str()).map(|s| s.to_string())),
        Err(_) => Err(ParseError::Malformed),
    }
}

/// Relies on `serde_json::from_str` and `Value::as_bool`: looks up a
/// top-level boolean field.
#[verifier::external_body]
pub fn extract_bool_field(raw: &str, key: &str) -> (r: Result<Option<bool>, ParseError>)
    ensures
        r is Ok <==> json_doc_ok(raw@),
        r matches Ok(v) ==> v == json_bool_field(raw@, key@),
        r matches Err(e) ==> e is Malformed,
{
    match serde_json::from_str::<serde_json::Value>(raw) {
        Ok(doc) => Ok(doc.get(key).and_then(|f| f.as_bool())),
        Err(_) => Err(ParseError::Malformed),
    }
}

/// Relies on `serde_json::from_str` and `Value::as_u64`: looks up a
/// top-level unsigned numeric field.
#[verifier::external_body]
pub fn extract_u64_field(raw: &str, key: &str) -> (r: Result<Option<u64>, ParseError>)
    ensures
        r is Ok <==> json_doc_ok(raw@),
        r matches Ok(v) ==> v == json_u64_field(raw@, key@),
        r matches Err(e) ==> e is Malformed,
{
    match serde_json::from_str::<serde_json::Value>(raw) {
        Ok(doc) => Ok(doc.get(key).and_then(|f| f.as_u64())),
        Err(_) => Err(ParseError::Malformed),
    }
}

/// Relies on `serde_json::from_str` and `Value::as_array`: the length of
/// a top-level array field.
#[verifier::external_body]
pub fn extract_list_len(raw: &str, key: &str) -> (r: Result<Option<usize>, ParseError>)
    ensures
        r is Ok <==> json_doc_ok(raw@),
        r matches Ok(Some(n)) ==> json_list_len(raw@, key@) == Some(n as int),
        r matches Ok(None) ==> json_list_len(raw@, key@) is None,
        r matches Err(e) ==> e is Malformed,
{
    match serde_json::from_str::<serde_json::Value>(raw) {
        Ok(doc) => Ok(doc.get(key).and_then(|f| f.as_array()).map(|a| a.len())),
        Err(_) => Err(ParseError::Malformed),
    }
}

/// Relies on `serde_json::from_str`, `Value::as_array` and `Value::get`:
/// a string field of one element of a top-level array field.
#[verifier::external_body]
pub fn extract_list_text_field(raw: &str, key: &str, idx: usize, field: &str) -> (r: Result<
    Option<String>,
    ParseError,
>)
    ensures
        r is Ok <==> json_doc_ok(raw@),
        r matches Ok(v) ==> match v {
            Some(s) => json_list_text_field(raw@, key@, idx as int, field@) == Some(s@),
            None => json_list_text_field(raw@, key@, idx as int, field@) is None,
        },
        r matches Err(e) ==> e is Malformed,
{
    match serde_json::from_str::<serde_json::Value>(raw) {
        Ok(doc) => Ok(
            doc.get(key).and_then(|f| f.as_array()).and_then(|a| a.get(idx)).and_then(
                |e| e.get(field),
            ).and_then(|f| f.as_str()).map(|s| s.to_string()),
        ),
        Err(_) => Err(ParseError::Malformed),
    }
}

/// Relies on `serde_json::from_str`, `Value::as_array`, `Value::get` and
/// `Value::as_bool`: a boolean field of one element of a top-level array
/// field.
#[verifier::external_body]
pub fn extract_list_bool_field(raw: &str, key: &str, idx: usize, field: &str) -> (r: Result<
    Option<bool>,
    ParseError,
>)
    ensures
        r is Ok <==> json_doc_ok(raw@),
        r matches Ok(v) ==> v == json_list_bool_field(raw@, key@, idx as int, field@),
        r matches Err(e) ==> e is Malformed,
{
    match serde_json::from_str::<serde_json::Value>(raw) {
        Ok(doc) => Ok(
            doc.get(key).and_then(|f| f.as_array()).and_then(|a| a.get(idx)).and_then(
                |e| e.get(field),
            ).and_then(|f| f.as_bool()),
        ),
        Err(_) => Err(ParseError::Malformed),
    }
}

/// Relies on `serde_json::from_str`, `Value::as_array` and `Value::get`:
/// a string field inside the named child object of one element of a
/// top-level array field.
#[verifier::external_body]
pub fn extract_list_child_text_field(
    raw: &str,
    key: &str,
    idx: usize,
    child: &str,
    field: &str,
) -> (r: Result<Option<String>, ParseError>)
    ensures
        r is Ok <==> json_doc_ok(raw@),
        r matches Ok(v) ==> match v {
            Some(s) => json_list_child_text_field(raw@, key@, idx as int, child@, field@) == Some(
                s@,
            ),
            None => json_list_child_text_field(raw@, key@, idx as int, child@, field@) is None,
        },
        r matches Err(e) ==> e is Malformed,
{
    match serde_json::from_str::<serde_json::Value>(raw) {
        Ok(doc) => Ok(
            doc.get(key).and_then(|f| f.as_array()).and_then(|a| a.get(idx)).and_then(
                |e| e.get(child),
            ).and_then(|c| c.get(field)).and_then(|f| f.as_str()).map(|s| s.to_string()),
        ),
        Err(_) => Err(ParseError::Malformed),
    }
}

} // verus!
