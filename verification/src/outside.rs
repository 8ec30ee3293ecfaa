//! The calls into `serde_json`, `tera` and `std` that nothing here verifies.
//!
//! Every item of this module is believed, not proved. Each says which
//! function it stands for and what it claims of it.

use vstd::prelude::*;
use vstd::string::StringSliceAdditionalSpecFns;
use vstd::utf8::valid_utf8;

verus! {

/// `serde_json::Value`, a JSON value. Nothing here looks inside one.
#[verifier::external_type_specification]
#[verifier::external_body]
pub struct ExJsonValue(serde_json::Value);

/// `serde_json::Map`, a JSON object. What one holds goes by the name
/// `object_entries`.
#[verifier::external_type_specification]
#[verifier::external_body]
#[verifier::reject_recursive_types(K)]
#[verifier::reject_recursive_types(V)]
pub struct ExJsonObject<K, V>(serde_json::Map<K, V>);

/// `serde_json::Error`, the reason why a document was refused.
#[verifier::external_type_specification]
#[verifier::external_body]
pub struct ExJsonError(serde_json::Error);

/// `tera::Context`, the keys and values that an engine renders with. What
/// one holds goes by the name `context_entries`.
#[verifier::external_type_specification]
#[verifier::external_body]
pub struct ExContextData(tera::Context);

/// `tera::Error`, the reason why `tera` refused a value.
#[verifier::external_type_specification]
#[verifier::external_body]
pub struct ExEngineError(tera::Error);

/// What `serde_json::from_slice` makes of a document when asked for an
/// object: `None` where it refuses the document, else the object's keys,
/// each with its value in JSON notation.
pub uninterp spec fn json_object_entries(document: Seq<u8>) -> Option<Map<Seq<char>, Seq<char>>>;

/// What a `serde_json::Map` holds: its keys, each with its value in JSON
/// notation.
pub uninterp spec fn object_entries(object: serde_json::Map<String, serde_json::Value>) -> Map<
    Seq<char>,
    Seq<char>,
>;

/// The empty set of entries.
pub open spec fn no_entries() -> Map<Seq<char>, Seq<char>> {
    Map::empty()
}

/// What a `tera::Context` holds: its keys, each with its value in JSON
/// notation.
pub uninterp spec fn context_entries(context: tera::Context) -> Map<Seq<char>, Seq<char>>;

/// `serde_json::from_slice`, asked for a `serde_json::Map`. The outcome is a
/// function of the document alone: an error where `json_object_entries`
/// is `None`, else an object that holds those entries.
#[verifier::external_body]
pub(crate) fn parse_object(document: &[u8]) -> (r: Result<
    serde_json::Map<String, serde_json::Value>,
    serde_json::Error,
>)
    ensures
        match r {
            Ok(object) => json_object_entries(document@) == Some(object_entries(object)),
            Err(_) => json_object_entries(document@) is None,
        },
{
    serde_json::from_slice(document)
}

/// `tera::Context::from_value`, given an object. It moves every entry of
/// the object into a new context, and fails only on a value that is no
/// object.
#[verifier::external_body]
pub(crate) fn context_of_object(object: serde_json::Map<String, serde_json::Value>) -> (r: Result<
    tera::Context,
    tera::Error,
>)
    ensures
        match r {
            Ok(context) => context_entries(context) == object_entries(object),
            Err(_) => false,
        },
{
    tera::Context::from_value(serde_json::Value::Object(object))
}

/// `tera::Context::new`: a context without entries.
#[verifier::external_body]
pub(crate) fn empty_context() -> (r: tera::Context)
    ensures
        context_entries(r) == no_entries(),
{
    tera::Context::new()
}

/// `std::str::from_utf8`: the text that `bytes` encode, or `None` where they
/// are not UTF-8.
#[verifier::external_body]
pub(crate) fn utf8_text(bytes: &[u8]) -> (r: Option<&str>)
    ensures
        match r {
            Some(text) => valid_utf8(bytes@) && text.spec_bytes() == bytes@,
            None => !valid_utf8(bytes@),
        },
{
    std::str::from_utf8(bytes).ok()
}

} // verus!
