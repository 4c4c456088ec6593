//! JSON documents are carried through the library as `serde_json` values.
//! The library never looks inside them except through the calls below.
use vstd::prelude::*;

verus! {

/// A JSON document (`serde_json::Value`), opaque to the proofs.
#[verifier::external_type_specification]
#[verifier::external_body]
pub struct ExJsonValue(serde_json::Value);

/// A JSON object (`serde_json::Map`), opaque to the proofs.
#[verifier::external_type_specification]
#[verifier::external_body]
#[verifier::reject_recursive_types(K)]
#[verifier::reject_recursive_types(V)]
pub struct ExJsonMap<K, V>(serde_json::Map<K, V>);

/// The error of a failed `serde_json` conversion.
#[verifier::external_type_specification]
#[verifier::external_body]
pub struct ExJsonError(serde_json::Error);

/// A parsed JSON Patch document (`json_patch::Patch`).
#[verifier::external_type_specification]
#[verifier::external_body]
pub struct ExJsonPatch(json_patch::Patch);

/// One operation of a JSON Patch document (`json_patch::PatchOperation`).
#[verifier::external_type_specification]
#[verifier::external_body]
pub struct ExJsonPatchOperation(json_patch::PatchOperation);

/// The error of a failed JSON Patch application (`json_patch::PatchError`).
#[verifier::external_type_specification]
#[verifier::external_body]
pub struct ExJsonPatchError(json_patch::PatchError);

/// `serde_json::Value` derives `Clone`: the copy equals the original.
pub assume_specification[ <serde_json::Value as Clone>::clone ](v: &serde_json::Value) -> (r:
    serde_json::Value)
    ensures
        r == *v,
;

/// `Clone for serde_json::Map<String, Value>` clones the underlying map: the copy equals the
/// original.
pub assume_specification[ <serde_json::Map<String, serde_json::Value> as Clone>::clone ](
    m: &serde_json::Map<String, serde_json::Value>,
) -> (r: serde_json::Map<String, serde_json::Value>)
    ensures
        r == *m,
;

/// The JSON object whose members are those of `m` (`Value::Object(m)` in `serde_json`).
pub uninterp spec fn json_object(m: serde_json::Map<String, serde_json::Value>) -> serde_json::Value;

/// Builds `Value::Object(m)`; the variant constructor of `serde_json::Value`.
#[verifier::external_body]
pub(crate) fn json_object_from_map(m: serde_json::Map<String, serde_json::Value>) -> (r:
    serde_json::Value)
    ensures
        r == json_object(m),
        json_object_members(r) == Some(m),
        json_str_of(r) is None,
{
    serde_json::Value::Object(m)
}

/// What `serde_json::Value::from(o)` gives for an optional JSON value: the value itself, or the
/// JSON `null` when there is none.
pub uninterp spec fn json_or_null(o: Option<serde_json::Value>) -> serde_json::Value;

/// The JSON value in `o`, or `null`, with `serde_json::Value::from`: its source maps `None` to
/// `Value::Null` and `Some(v)` to `v`. A `null` is neither a string nor an object.
#[verifier::external_body]
pub(crate) fn json_from_option(o: Option<serde_json::Value>) -> (r: serde_json::Value)
    ensures
        r == json_or_null(o),
        o matches Some(v) ==> r == v,
        o is None ==> json_str_of(r) is None && json_object_members(r) is None,
{
    serde_json::Value::from(o)
}

/// The JSON value that `serde_json::from_str::<serde_json::Value>` reads from the text, or
/// `None` when the text is not one JSON value.
pub uninterp spec fn json_parsed(text: Seq<char>) -> Option<serde_json::Value>;

/// Parses JSON text with `serde_json::from_str`, dropping the error.
#[verifier::external_body]
pub(crate) fn parse_json_text(text: &str) -> (r: Option<serde_json::Value>)
    ensures
        r == json_parsed(text@),
{
    serde_json::from_str::<serde_json::Value>(text).ok()
}

/// The JSON array `[items...]` (`Value::Array` in `serde_json`).
pub uninterp spec fn json_array(items: Seq<serde_json::Value>) -> serde_json::Value;

/// Builds `Value::Array(items)`; the variant constructor of `serde_json::Value`.
#[verifier::external_body]
pub(crate) fn json_array_from_vec(items: Vec<serde_json::Value>) -> (r: serde_json::Value)
    ensures
        r == json_array(items@),
{
    serde_json::Value::Array(items)
}

/// The JSON Patch document that `serde_json::from_value::<json_patch::Patch>` reads from `v`, or
/// `None` when it rejects `v`.
pub uninterp spec fn json_patch_of(v: serde_json::Value) -> Option<json_patch::Patch>;

/// Deserializes a JSON Patch document with `serde_json::from_value::<json_patch::Patch>`. What
/// it reads is a matter of the JSON value alone, named by `json_patch_of`.
#[verifier::external_body]
pub(crate) fn parse_json_patch(v: serde_json::Value) -> (r: Result<json_patch::Patch, serde_json::Error>)
    ensures
        match r {
            Ok(p) => json_patch_of(v) == Some(p),
            Err(_) => json_patch_of(v) is None,
        },
{
    serde_json::from_value::<json_patch::Patch>(v)
}

/// The document that applying the operations of `p` to `doc` one after the other gives, or
/// `None` when one of them fails.
pub uninterp spec fn json_patched(doc: serde_json::Value, p: json_patch::Patch) -> Option<serde_json::Value>;

/// Applies the operations of a JSON Patch in place, in order, with `json_patch::patch_unsafe`.
/// On success the document is what they make of it, named by `json_patched`. When one fails it
/// returns `Err` and, as its documentation says, leaves the document in whatever state the
/// operations reached: nothing is stated of the document then.
#[verifier::external_body]
pub(crate) fn apply_json_patch(doc: &mut serde_json::Value, p: &json_patch::Patch) -> (r: Result<
    (),
    json_patch::PatchError,
>)
    ensures
        match json_patched(*old(doc), *p) {
            Some(d) => r is Ok && *final(doc) == d,
            None => r is Err,
        },
{
    json_patch::patch_unsafe(doc, &p.0)
}

/// What the `Display` impl of a JSON Patch failure renders for it.
pub uninterp spec fn patch_error_display(e: json_patch::PatchError) -> Seq<char>;

/// The text of a JSON Patch failure, as its `Display` impl renders it.
#[verifier::external_body]
pub(crate) fn patch_error_text(e: &json_patch::PatchError) -> (r: String)
    ensures
        r@ == patch_error_display(*e),
{
    format!("{}", e)
}

/// What the `Display` impl of a `serde_json` error renders for it.
pub uninterp spec fn json_error_display(e: serde_json::Error) -> Seq<char>;

/// The text of a `serde_json` failure, as its `Display` impl renders it.
#[verifier::external_body]
pub(crate) fn json_error_text(e: &serde_json::Error) -> (r: String)
    ensures
        r@ == json_error_display(*e),
{
    format!("{}", e)
}

/// What `serde_json::Map::from_iter` builds of a list of members.
pub uninterp spec fn json_map_from(entries: Seq<(Seq<char>, serde_json::Value)>) -> serde_json::Map<
    String,
    serde_json::Value,
>;

/// The members of a list of key and value pairs, as characters and values.
pub open spec fn entries_view(entries: Seq<(String, serde_json::Value)>) -> Seq<
    (Seq<char>, serde_json::Value),
> {
    entries.map_values(|e: (String, serde_json::Value)| (e.0@, e.1))
}

/// A JSON object built from a list of members with `serde_json::Map::from_iter`. Built from no
/// members, it has none.
#[verifier::external_body]
pub(crate) fn json_map_of(entries: Vec<(String, serde_json::Value)>) -> (r: serde_json::Map<
    String,
    serde_json::Value,
>)
    ensures
        r == json_map_from(entries_view(entries@)),
        entries@.len() == 0 ==> forall|k: Seq<char>| json_member(r, k) is None,
{
    serde_json::Map::from_iter(entries)
}

/// A JSON object with no members, built from no members.
pub(crate) fn empty_json_map() -> (r: serde_json::Map<String, serde_json::Value>)
    ensures
        r == json_map_from(Seq::empty()),
        forall|k: Seq<char>| json_member(r, k) is None,
{
    let entries: Vec<(String, serde_json::Value)> = Vec::new();
    assert(entries_view(entries@) =~= Seq::empty());
    json_map_of(entries)
}

/// What `serde_json::Map::insert(key, v)` leaves of the members `m`.
pub uninterp spec fn json_map_inserted(
    m: serde_json::Map<String, serde_json::Value>,
    key: Seq<char>,
    v: serde_json::Value,
) -> serde_json::Map<String, serde_json::Value>;

/// What `serde_json::Map::get(key)` finds among the members `m`.
pub uninterp spec fn json_member(m: serde_json::Map<String, serde_json::Value>, key: Seq<char>) -> Option<
    serde_json::Value,
>;

/// Inserts a member with `serde_json::Map::insert`. As a map does, it then holds `v` under
/// `key`, and what it held under every other key.
#[verifier::external_body]
pub(crate) fn json_map_insert(m: &mut serde_json::Map<String, serde_json::Value>, key: String, v: serde_json::Value)
    ensures
        *final(m) == json_map_inserted(*old(m), key@, v),
        json_member(*final(m), key@) == Some(v),
        forall|k: Seq<char>| k != key@ ==> json_member(*final(m), k) == json_member(*old(m), k),
{
    m.insert(key, v);
}

/// The member `key` of an object, cloned, with `serde_json::Map::get`.
#[verifier::external_body]
pub(crate) fn json_map_get(m: &serde_json::Map<String, serde_json::Value>, key: &str) -> (r: Option<
    serde_json::Value,
>)
    ensures
        r == json_member(*m, key@),
{
    m.get(key).cloned()
}

/// The JSON boolean `b` (`Value::Bool(b)`).
pub uninterp spec fn json_bool_value(b: bool) -> serde_json::Value;

/// The JSON string `s` (`Value::String(s)`).
pub uninterp spec fn json_string_value(s: Seq<char>) -> serde_json::Value;

/// What `serde_json::Value::as_str` reads of `v`: its text when it is a string.
pub uninterp spec fn json_str_of(v: serde_json::Value) -> Option<Seq<char>>;

/// What `serde_json::Value::as_object` reads of `v`: its members when it is an object.
pub uninterp spec fn json_object_members(v: serde_json::Value) -> Option<
    serde_json::Map<String, serde_json::Value>,
>;

/// Builds `Value::Bool(b)`.
#[verifier::external_body]
pub(crate) fn json_bool(b: bool) -> (r: serde_json::Value)
    ensures
        r == json_bool_value(b),
        json_str_of(r) is None,
{
    serde_json::Value::Bool(b)
}

/// Builds `Value::String(s)`; `as_str` reads `s` back from it.
#[verifier::external_body]
pub(crate) fn json_string(s: String) -> (r: serde_json::Value)
    ensures
        r == json_string_value(s@),
        json_str_of(r) == Some(s@),
{
    serde_json::Value::String(s)
}

/// The text of a JSON string, with `serde_json::Value::as_str`.
#[verifier::external_body]
pub(crate) fn json_as_str(v: &serde_json::Value) -> (r: Option<String>)
    ensures
        crate::types::opt_str(r) == json_str_of(*v),
{
    v.as_str().map(|s| s.to_string())
}

/// The members of a JSON object, with `serde_json::Value::as_object`.
#[verifier::external_body]
pub(crate) fn json_as_object(v: &serde_json::Value) -> (r: Option<serde_json::Map<String, serde_json::Value>>)
    ensures
        r == json_object_members(*v),
        forall|m: serde_json::Map<String, serde_json::Value>|
            *v == json_object(m) ==> r == Some(m),
{
    v.as_object().cloned()
}

/// The JSON object `{"filename": <filename>}`.
pub open spec fn json_filename_object(filename: Seq<char>) -> serde_json::Value {
    json_object(json_map_inserted(json_map_from(Seq::empty()), "filename"@, json_string_value(filename)))
}

/// Builds the JSON object `{"filename": <filename>}`.
pub fn filename_metadata(filename: String) -> (r: serde_json::Value)
    ensures
        r == json_filename_object(filename@),
{
    let mut m = empty_json_map();
    let key = crate::text::owned("filename");
    let v = json_string(filename);
    json_map_insert(&mut m, key, v);
    json_object_from_map(m)
}

} // verus!
