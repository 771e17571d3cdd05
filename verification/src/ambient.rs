//! What the library takes from outside itself without proof: JSON documents it carries
//! but never reads, fresh identifiers, and the clock.
//!
//! Each item states what is believed of the outside function it calls. Nothing else in
//! the library is taken on trust.

use vstd::prelude::*;

verus! {

/// `serde_json::Value`, a JSON document. The library carries such documents through and
/// never looks inside one.
#[verifier::external_type_specification]
#[verifier::external_body]
pub struct ExJsonValue(serde_json::Value);

/// Calls `Clone::clone` of `serde_json::Value`. The implementation is derived, so the
/// copy is built variant by variant and field by field from the value copied: it is the
/// same document.
#[verifier::external_body]
pub(crate) fn clone_json(value: &serde_json::Value) -> (copy: serde_json::Value)
    ensures
        copy == *value,
{
    value.clone()
}

/// What indexing the JSON document `document` with the key `key` yields.
pub uninterp spec fn json_member(document: serde_json::Value, key: Seq<char>) -> serde_json::Value;

/// The text of the JSON value `value`, where it is a string.
pub uninterp spec fn json_text(value: serde_json::Value) -> Option<Seq<char>>;

/// Indexes a `serde_json::Value` with a string key, as `document[key]` does. The outside
/// function returns the member of that name where the document is an object that has
/// one, and the null value otherwise; it does not panic. The contract only gives the
/// result its name.
#[verifier::external_body]
pub(crate) fn member_of<'a>(document: &'a serde_json::Value, key: &str) -> (member:
    &'a serde_json::Value)
    ensures
        *member == json_member(*document, key@),
{
    &document[key]
}

/// Calls `serde_json::Value::as_str`, which returns the text where the value is a
/// string and nothing otherwise, and copies the text. The contract only gives the result
/// its name.
#[verifier::external_body]
pub(crate) fn text_of(value: &serde_json::Value) -> (text: Option<String>)
    ensures
        match text {
            Some(t) => json_text(*value) == Some(t@),
            None => json_text(*value) is None,
        },
{
    value.as_str().map(|text| text.to_owned())
}

/// Calls `uuid::Uuid::new_v4` and renders the identifier with its `Display`
/// implementation, which writes the lower-case hyphenated form: 32 hexadecimal digits
/// and 4 hyphens. Nothing is claimed about which identifier comes back, nor that two
/// calls give different ones. The outside function panics where the operating system
/// cannot supply random bytes.
#[verifier::external_body]
pub(crate) fn fresh_id() -> (id: String)
    ensures
        id@.len() == 36,
{
    uuid::Uuid::new_v4().to_string()
}

/// Reads `std::time::SystemTime::now` as whole seconds since the Unix epoch; a clock
/// that is set before the epoch reads as zero. Nothing is claimed about the value.
#[verifier::external_body]
pub(crate) fn epoch_seconds() -> (now: u64) {
    match std::time::SystemTime::now().duration_since(std::time::UNIX_EPOCH) {
        Ok(elapsed) => elapsed.as_secs(),
        Err(_) => 0,
    }
}

} // verus!
