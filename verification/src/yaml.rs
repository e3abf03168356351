//! Structured-text parsing, delegated to an outside parser.
//!
//! Configuration files are YAML. Parsing is a function of the document text
//! alone, so each lookup is named: `yaml_field_str(doc, key)` stands for the
//! text of the top-level field `key` of the document `doc`, and so on. The
//! trusted calls below tie what the parser answers to those names; the typed
//! records of the [`crate::config`] module are then assembled by verified
//! code whose contracts speak of the same names.

use vstd::prelude::*;
use serde_yaml::Value;

verus! {

/// Whether the parser accepts `doc` as a YAML document.
pub uninterp spec fn yaml_parses(doc: Seq<char>) -> bool;

/// The text of the top-level string field `key` of `doc`: absent, a
/// non-string value, or an unparsable document all give `None`.
pub uninterp spec fn yaml_field_str(doc: Seq<char>, key: Seq<char>) -> Option<Seq<char>>;

/// The truth value of the top-level boolean field `key` of `doc`.
pub uninterp spec fn yaml_field_bool(doc: Seq<char>, key: Seq<char>) -> Option<bool>;

/// The items of the top-level string-list field `key` of `doc`, in order.
pub uninterp spec fn yaml_field_str_list(doc: Seq<char>, key: Seq<char>) -> Option<
    Seq<Seq<char>>,
>;

/// Whether `doc` parses and holds the top-level field `key`, of any shape.
pub uninterp spec fn yaml_field_present(doc: Seq<char>, key: Seq<char>) -> bool;

/// The text of the string field `key2` inside the top-level mapping field
/// `key1` of `doc`.
pub uninterp spec fn yaml_field_str2(
    doc: Seq<char>,
    key1: Seq<char>,
    key2: Seq<char>,
) -> Option<Seq<char>>;

/// Relies on serde_yaml::from_str: whether the document parses, with the
/// parser's own message when it does not. Parsing depends on the text alone.
#[verifier::external_body]
pub(crate) fn yaml_check(data: &str) -> (r: Result<(), String>)
    ensures
        r is Ok <==> yaml_parses(data@),
{
    match serde_yaml::from_str::<Value>(data) {
        Ok(_) => Ok(()),
        Err(e) => Err(e.to_string()),
    }
}

/// Relies on serde_yaml::from_str and Value::get/as_str: the top-level
/// string field `key` of the document.
#[verifier::external_body]
pub(crate) fn yaml_top_str(data: &str, key: &str) -> (r: Option<String>)
    ensures
        match r {
            Some(s) => yaml_field_str(data@, key@) == Some(s@),
            None => yaml_field_str(data@, key@) is None,
        },
{
    serde_yaml::from_str::<Value>(data).ok().and_then(
        |v| v.get(key).and_then(|f| f.as_str()).map(|s| s.to_string()),
    )
}

/// Relies on serde_yaml::from_str and Value::get/as_bool: the top-level
/// boolean field `key` of the document.
#[verifier::external_body]
pub(crate) fn yaml_top_bool(data: &str, key: &str) -> (r: Option<bool>)
    ensures
        r == yaml_field_bool(data@, key@),
{
    serde_yaml::from_str::<Value>(data).ok().and_then(|v| v.get(key).and_then(|f| f.as_bool()))
}

/// Relies on serde_yaml::from_str and Value::get/as_sequence/as_str: the
/// top-level string-list field `key` of the document; a list with a
/// non-string item gives `None`.
#[verifier::external_body]
pub(crate) fn yaml_top_str_list(data: &str, key: &str) -> (r: Option<Vec<String>>)
    ensures
        match r {
            Some(v) => yaml_field_str_list(data@, key@) == Some(v.deep_view()),
            None => yaml_field_str_list(data@, key@) is None,
        },
{
    serde_yaml::from_str::<Value>(data).ok().and_then(
        |v|
            v.get(key).and_then(|f| f.as_sequence()).and_then(
                |items| items.iter().map(|x| x.as_str().map(|s| s.to_string())).collect(),
            ),
    )
}

/// Relies on serde_yaml::from_str and Value::get: whether the document
/// parses and holds the top-level field `key`.
#[verifier::external_body]
pub(crate) fn yaml_top_has(data: &str, key: &str) -> (r: bool)
    ensures
        r == yaml_field_present(data@, key@),
{
    match serde_yaml::from_str::<Value>(data) {
        Ok(v) => v.get(key).is_some(),
        Err(_) => false,
    }
}

/// Relies on serde_yaml::from_str and Value::get/as_str: the string field
/// `key2` inside the top-level mapping field `key1`.
#[verifier::external_body]
pub(crate) fn yaml_nested_str(data: &str, key1: &str, key2: &str) -> (r: Option<String>)
    ensures
        match r {
            Some(s) => yaml_field_str2(data@, key1@, key2@) == Some(s@),
            None => yaml_field_str2(data@, key1@, key2@) is None,
        },
{
    serde_yaml::from_str::<Value>(data).ok().and_then(
        |v| v.get(key1).and_then(|m| m.get(key2)).and_then(|f| f.as_str()).map(|s| s.to_string()),
    )
}

} // verus!
