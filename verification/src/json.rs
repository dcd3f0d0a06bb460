//! The version that an installed application records about itself.
//!
//! Applications ship a JSON document with a string member `version`. The
//! document is read by `serde_json`; what that crate makes of a text is taken
//! on trust and named below, and the rules on top of it are proved.

use crate::outcome::{text_result, Failure};
use vstd::prelude::*;

verus! {

/// `serde_json::Value`, a JSON value of any kind, as an opaque type: nothing
/// is known of what a value holds but what the names below say of it.
#[verifier::external_type_specification]
#[verifier::external_body]
pub struct ExJsonValue(serde_json::Value);

/// `serde_json::Error`, the reason why a text was rejected, as an opaque
/// type.
#[verifier::external_type_specification]
#[verifier::external_body]
pub struct ExJsonError(serde_json::Error);

/// The document that `serde_json::from_str` reads from a text, or `None`
/// where it rejects the text.
pub uninterp spec fn json_document(text: Seq<char>) -> Option<serde_json::Value>;

/// The value found by indexing a JSON value with a string key: the member of
/// that name where the value is an object that has one, and JSON `null`
/// otherwise.
pub uninterp spec fn json_member(value: serde_json::Value, key: Seq<char>) -> serde_json::Value;

/// The text of a JSON value that is a string, as `Value::as_str` gives it,
/// or `None` for a value of any other kind.
pub uninterp spec fn json_string(value: serde_json::Value) -> Option<Seq<char>>;

/// Calls `serde_json::from_str` to read a text as one JSON value. Trusted:
/// the outcome depends on the text alone, so it is the named document.
#[verifier::external_body]
fn parse_document(text: &str) -> (r: Result<serde_json::Value, serde_json::Error>)
    ensures
        match r {
            Ok(value) => json_document(text@) == Some(value),
            Err(_) => json_document(text@).is_none(),
        },
{
    serde_json::from_str::<serde_json::Value>(text)
}

/// Indexes a `serde_json::Value` with a string key, which never fails: a
/// missing member reads as `null`. Trusted: the result is the named member.
#[verifier::external_body]
fn member<'a>(value: &'a serde_json::Value, key: &str) -> (r: &'a serde_json::Value)
    ensures
        *r == json_member(*value, key@),
{
    &value[key]
}

/// Calls `Value::as_str`. Trusted: the result is the named text of the value.
#[verifier::external_body]
fn string_of<'a>(value: &'a serde_json::Value) -> (r: Option<&'a str>)
    ensures
        match r {
            Some(text) => json_string(*value) == Some(text@),
            None => json_string(*value).is_none(),
        },
{
    value.as_str()
}

/// The version recorded in a metadata text: the string member `version` of
/// the JSON document that the text holds.
pub open spec fn recorded_version(text: Seq<char>) -> Result<Seq<char>, Failure> {
    match json_document(text) {
        None => Err(Failure::MetadataMalformed),
        Some(document) => version_or_missing(json_string(json_member(document, "version"@))),
    }
}

/// What a `version` member that was looked up stands for.
pub open spec fn version_or_missing(found: Option<Seq<char>>) -> Result<Seq<char>, Failure> {
    match found {
        Some(version) => Ok(version),
        None => Err(Failure::VersionMissing),
    }
}

/// Turns the looked-up `version` member into the installed version, or into
/// the failure that its absence means.
pub fn version_from_member(found: Option<&str>) -> (r: Result<String, Failure>)
    ensures
        text_result(r) == version_or_missing(
            match found {
                Some(text) => Some(text@),
                None => None,
            },
        ),
{
    match found {
        Some(text) => Ok(text.to_owned()),
        None => Err(Failure::VersionMissing),
    }
}

/// Reads the installed version out of the text of a metadata file.
///
/// Fails with `MetadataMalformed` exactly where the text is no JSON document,
/// and with `VersionMissing` exactly where the document has no string member
/// `version`.
pub fn local_version(text: &str) -> (r: Result<String, Failure>)
    ensures
        text_result(r) == recorded_version(text@),
{
    match parse_document(text) {
        Err(_) => Err(Failure::MetadataMalformed),
        Ok(document) => version_from_member(string_of(member(&document, "version"))),
    }
}

} // verus!
