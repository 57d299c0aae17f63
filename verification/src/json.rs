//! Trusted boundary around `serde_json`.
//!
//! The library keeps JSON object payloads in `serde_json`'s own `Map` type and
//! reasons about them through two spec-level models: `obj_model`, the map from
//! each key to the canonical JSON text of its value, and `val_text`, the
//! canonical JSON text of a single value.  "Canonical text" means the output
//! of `serde_json::to_string`; with the default (`BTreeMap`-backed, sorted)
//! map representation that output is a function of the key/value contents
//! alone, which is what makes `obj_text` well defined.

use vstd::prelude::*;

verus! {

#[verifier::external_type_specification]
#[verifier::external_body]
pub struct ExJsonValue(serde_json::Value);

#[verifier::external_type_specification]
#[verifier::external_body]
#[verifier::reject_recursive_types(K)]
#[verifier::reject_recursive_types(V)]
pub struct ExJsonMap<K, V>(serde_json::Map<K, V>);

#[verifier::external_type_specification]
#[verifier::external_body]
pub struct ExJsonError(serde_json::Error);

/// What a `serde_json::Map<String, Value>` holds: each key, mapped to the
/// canonical JSON text of its value.
pub uninterp spec fn obj_model(m: serde_json::Map<String, serde_json::Value>) -> Map<
    Seq<char>,
    Seq<char>,
>;

/// The canonical JSON text of a single `serde_json::Value`.
pub uninterp spec fn val_text(v: serde_json::Value) -> Seq<char>;

/// What `serde_json::to_string` returns on a `Map<String, Value>`, as a
/// function of the map's contents (default map representation: iteration is
/// in sorted key order, so the contents determine the text).
pub uninterp spec fn obj_text(model: Map<Seq<char>, Seq<char>>) -> Seq<char>;

/// What `serde_json::from_str::<Map<String, Value>>` returns: `Some` with the
/// contents of the parsed object when the input is a JSON object, `None` when
/// parsing fails.
pub uninterp spec fn parse_obj(s: Seq<char>) -> Option<Map<Seq<char>, Seq<char>>>;

/// The canonical JSON text of a string value with the given content
/// (`serde_json`'s quoting and escaping).
pub uninterp spec fn json_string_text(content: Seq<char>) -> Seq<char>;

/// What `Value::as_str` returns, as a function of the value's canonical text:
/// the string content for a string value, `None` for every other value.
pub uninterp spec fn json_string_content(text: Seq<char>) -> Option<Seq<char>>;

/// What `Value::is_number` returns, as a function of the value's canonical
/// text.
pub uninterp spec fn json_is_number(text: Seq<char>) -> bool;

/// Whether `from_str::<Map<String, Value>>` accepts the canonical text of an
/// object with these contents: the parser refuses input nested beyond its
/// recursion limit (128 levels), while the serialiser has no such limit, so
/// re-parseability must be tracked.  It holds of the empty object, of
/// whatever the parser itself produced, and is kept by inserting string and
/// number values.
pub uninterp spec fn reparseable(model: Map<Seq<char>, Seq<char>>) -> bool;

/// The empty object model.
pub open spec fn empty_model() -> Map<Seq<char>, Seq<char>> {
    Map::empty()
}

/// Relies on `serde_json::Map::new`: the empty JSON object, whose canonical
/// text (`{}`) the parser accepts.
#[verifier::external_body]
pub(crate) fn obj_new() -> (r: serde_json::Map<String, serde_json::Value>)
    ensures
        obj_model(r) == empty_model(),
        reparseable(obj_model(r)),
{
    serde_json::Map::new()
}

/// Relies on `serde_json::from_str::<Map<String, Value>>`: it succeeds exactly
/// when the input text is a JSON object the parser accepts (`parse_obj` names
/// that outcome; objects nested beyond the parser's recursion limit are
/// refused), and the parsed map then holds the object's keys and values.
/// What was just parsed stayed within the limit, so its canonical text parses
/// too.
#[verifier::external_body]
pub(crate) fn obj_from_str(s: &str) -> (r: Result<
    serde_json::Map<String, serde_json::Value>,
    serde_json::Error,
>)
    ensures
        r is Ok <==> parse_obj(s@) is Some,
        r is Ok ==> Some(obj_model(r->Ok_0)) == parse_obj(s@),
        r is Ok ==> reparseable(obj_model(r->Ok_0)),
{
    serde_json::from_str(s)
}

/// Relies on `serde_json::to_string` on a `Map<String, Value>`: per its
/// documentation it can fail only for non-string map keys or a failing
/// `Serialize` impl, and neither applies to `Map<String, Value>`; its output
/// is determined by the map's contents (`obj_text`), and, for contents within
/// the parser's recursion limit (`reparseable`), parsing that output back
/// recovers the same contents.
#[verifier::external_body]
pub(crate) fn obj_to_string(m: &serde_json::Map<String, serde_json::Value>) -> (r: Result<
    String,
    serde_json::Error,
>)
    ensures
        r is Ok,
        r is Ok ==> r->Ok_0@ == obj_text(obj_model(*m)),
        r is Ok && reparseable(obj_model(*m)) ==> parse_obj(r->Ok_0@) == Some(obj_model(*m)),
{
    serde_json::to_string(m)
}

/// Relies on `serde_json::Map::contains_key`.
#[verifier::external_body]
pub(crate) fn obj_contains_key(
    m: &serde_json::Map<String, serde_json::Value>,
    key: &str,
) -> (r: bool)
    ensures
        r == obj_model(*m).dom().contains(key@),
{
    m.contains_key(key)
}

/// Relies on `serde_json::Map::get`: `Some` exactly for a present key, and the
/// returned value is the one the model records for that key.
#[verifier::external_body]
pub(crate) fn obj_get<'a>(
    m: &'a serde_json::Map<String, serde_json::Value>,
    key: &str,
) -> (r: Option<&'a serde_json::Value>)
    ensures
        r is Some <==> obj_model(*m).dom().contains(key@),
        r is Some ==> val_text(*r->0) == obj_model(*m)[key@],
{
    m.get(key)
}

/// Relies on `serde_json::Map::insert`: it maps the key to the new value and
/// leaves every other key untouched.  A string or number value adds no
/// nesting, so it keeps the object within the parser's recursion limit.
#[verifier::external_body]
pub(crate) fn obj_insert(
    m: &mut serde_json::Map<String, serde_json::Value>,
    key: &str,
    v: serde_json::Value,
)
    ensures
        obj_model(*final(m)) == obj_model(*old(m)).insert(key@, val_text(v)),
        reparseable(obj_model(*old(m))) && (json_string_content(val_text(v)) is Some
            || json_is_number(val_text(v))) ==> reparseable(obj_model(*final(m))),
{
    m.insert(key.to_owned(), v);
}

/// Relies on `serde_json::Value::String`: its canonical text is the escaped,
/// quoted content (`json_string_text`), and `Value::as_str` recovers the
/// content from it (`json_string_content`).
#[verifier::external_body]
pub(crate) fn val_string(s: &str) -> (r: serde_json::Value)
    ensures
        val_text(r) == json_string_text(s@),
        json_string_content(val_text(r)) == Some(s@),
        !json_is_number(val_text(r)),
{
    serde_json::Value::String(s.to_owned())
}

/// Relies on `serde_json::Value::as_str`: `Some` exactly for string values;
/// the content is a function of the value's canonical text, and the canonical
/// text of a string value is the escaped content.
#[verifier::external_body]
pub(crate) fn val_as_str<'a>(v: &'a serde_json::Value) -> (r: Option<&'a str>)
    ensures
        r is Some <==> json_string_content(val_text(*v)) is Some,
        r is Some ==> Some(r->0@) == json_string_content(val_text(*v)) && val_text(*v)
            == json_string_text(r->0@),
{
    v.as_str()
}

/// Relies on `serde_json::Value::is_number`.
#[verifier::external_body]
pub(crate) fn val_is_number(v: &serde_json::Value) -> (r: bool)
    ensures
        r == json_is_number(val_text(*v)),
{
    v.is_number()
}

/// Relies on `serde_json::Value::clone`: a clone has the same canonical text.
#[verifier::external_body]
pub(crate) fn val_clone(v: &serde_json::Value) -> (r: serde_json::Value)
    ensures
        val_text(r) == val_text(*v),
{
    v.clone()
}

/// Relies on `serde_json::Value::from(u64)`: its canonical text is the plain
/// decimal rendering of the integer.
#[verifier::external_body]
pub(crate) fn val_u64(n: u64) -> (r: serde_json::Value)
    ensures
        val_text(r) == crate::source::invoc::dec_text(n),
{
    serde_json::Value::from(n)
}

/// Relies on `serde_json::Value::Object`: the canonical text of an object
/// value is the canonical text of the object itself.
#[verifier::external_body]
pub(crate) fn val_object(m: serde_json::Map<String, serde_json::Value>) -> (r: serde_json::Value)
    ensures
        val_text(r) == obj_text(obj_model(m)),
{
    serde_json::Value::Object(m)
}

} // verus!
