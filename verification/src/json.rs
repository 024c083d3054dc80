//! JSON objects whose members are text, built and written out by
//! `serde_json` as `rocket` hands it on.

use rocket::serde::json::serde_json;
use vstd::prelude::*;

verus! {

#[verifier::external_type_specification]
#[verifier::external_body]
#[verifier::reject_recursive_types(K)]
#[verifier::reject_recursive_types(V)]
pub struct ExJsonObject<K, V>(serde_json::Map<K, V>);

#[verifier::external_type_specification]
#[verifier::external_body]
pub struct ExJsonValue(serde_json::Value);

#[verifier::external_type_specification]
#[verifier::external_body]
pub struct ExJsonError(serde_json::Error);

/// The members of a JSON object: each name with the text that it holds.
pub uninterp spec fn members(object: serde_json::Map<String, serde_json::Value>) -> Map<Seq<char>, Seq<char>>;

/// The text that `rocket::serde::json::to_string` writes for the object
/// with the given members; `None` where it reports an error.
pub uninterp spec fn object_text(members: Map<Seq<char>, Seq<char>>) -> Option<Seq<char>>;

/// Calls `serde_json::Map::new`. The contract claims that the new object
/// has no member.
#[verifier::external_body]
pub(crate) fn new_object() -> (object: serde_json::Map<String, serde_json::Value>)
    ensures
        forall|name: Seq<char>| !members(object).contains_key(name),
{
    serde_json::Map::new()
}

/// Calls `serde_json::Map::insert` with `value` as a JSON string. The
/// contract claims that the object then holds `value` under `name`, in
/// place of what it held under that name, and its other members as before.
#[verifier::external_body]
pub(crate) fn insert_member(
    object: &mut serde_json::Map<String, serde_json::Value>,
    name: String,
    value: String,
)
    ensures
        members(*final(object)) == members(*old(object)).insert(name@, value@),
{
    object.insert(name, serde_json::Value::String(value));
}

/// Calls `rocket::serde::json::to_string` on `object`. The contract claims
/// only that what comes back, text or error, is a function of the object's
/// members, named [`object_text`].
#[verifier::external_body]
pub(crate) fn write_object(object: &serde_json::Map<String, serde_json::Value>) -> (written: Result<
    String,
    serde_json::Error,
>)
    ensures
        match written {
            Ok(text) => object_text(members(*object)) == Some(text@),
            Err(_) => object_text(members(*object)) is None,
        },
{
    rocket::serde::json::to_string(object)
}

} // verus!
