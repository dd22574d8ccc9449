//! JSON objects of `serde_json`, as far as the error shape needs them.

use vstd::prelude::*;

verus! {

#[verifier::external_type_specification]
#[verifier::external_body]
pub struct ExJsonValue(serde_json::Value);

#[verifier::external_type_specification]
#[verifier::external_body]
#[verifier::reject_recursive_types(K)]
#[verifier::reject_recursive_types(V)]
pub struct ExJsonMap<K, V>(serde_json::Map<K, V>);

#[verifier::external_type_specification]
#[verifier::external_body]
pub struct ExJsonError(serde_json::Error);

/// What a JSON object holds: under each of its keys, the compact JSON text of
/// the value stored there.
pub uninterp spec fn json_entries(m: serde_json::Map<String, serde_json::Value>) -> Map<
    Seq<char>,
    Seq<char>,
>;

/// The compact JSON text of the object that holds `entries`, as
/// `serde_json::to_string` writes it.
pub uninterp spec fn json_object_text(entries: Map<Seq<char>, Seq<char>>) -> Seq<char>;

/// `serde_json::Map::new`: an object without entries.
#[verifier::external_body]
pub(crate) fn json_map_new() -> (m: serde_json::Map<String, serde_json::Value>)
    ensures
        json_entries(m) == (Map::<Seq<char>, Seq<char>>::empty()),
{
    serde_json::Map::new()
}

/// `Clone::clone` of `serde_json::Map<String, Value>`: the copy holds the same
/// entries.
#[verifier::external_body]
pub(crate) fn json_map_clone(m: &serde_json::Map<String, serde_json::Value>) -> (c: serde_json::Map<
    String,
    serde_json::Value,
>)
    ensures
        json_entries(c) == json_entries(*m),
{
    m.clone()
}

/// `serde_json::to_string` on an object. Its keys are strings and its values
/// are JSON values, and the text goes to memory, so the call has nothing to
/// fail on: the contract claims `Ok`. The text depends on the entries alone
/// (they are written in the order of their keys), and an object without
/// entries is written as `{}`.
#[verifier::external_body]
pub(crate) fn json_map_text(m: &serde_json::Map<String, serde_json::Value>) -> (r: Result<
    String,
    serde_json::Error,
>)
    ensures
        r is Ok,
        r->Ok_0@ == json_object_text(json_entries(*m)),
        json_entries(*m) == (Map::<Seq<char>, Seq<char>>::empty()) ==> r->Ok_0@ == "{}"@,
{
    serde_json::to_string(m)
}

/// The `Display` text of a `serde_json::Error`. Such an error may carry an
/// I/O error of the operating system, whose wording is the machine's: nothing
/// is claimed of the text.
#[verifier::external_body]
pub(crate) fn json_error_describe(e: &serde_json::Error) -> (s: String) {
    format!("{}", e)
}

} // verus!
