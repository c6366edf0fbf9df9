//! The trusted boundary to `serde_json`: the declarations of its value and
//! map types, names for what a value of them stands for, and one wrapper
//! per function the encoders call. Everything verified about the encoding
//! rests on the contracts in this file.

use vstd::prelude::*;
use crate::model::JVal;
use crate::model::no_fields;

verus! {

#[verifier::external_type_specification]
#[verifier::external_body]
pub struct ExValue(serde_json::Value);

#[verifier::external_type_specification]
#[verifier::external_body]
#[verifier::reject_recursive_types(K)]
#[verifier::reject_recursive_types(V)]
pub struct ExMap<K, V>(serde_json::Map<K, V>);

/// The abstract JSON value a `serde_json::Value` holds.
pub uninterp spec fn value_rep(v: serde_json::Value) -> JVal;

/// The abstract key-to-value map a `serde_json::Map` holds. The map is
/// backed by an ordered tree, so this is its whole abstract content.
pub uninterp spec fn map_rep(m: serde_json::Map<String, serde_json::Value>) -> Map<
    Seq<char>,
    JVal,
>;

/// The compact JSON text of a value. `serde_json`'s writer emits object
/// keys in the tree's sorted order, so the text is determined by the
/// abstract value alone.
pub uninterp spec fn rendered(v: JVal) -> Seq<char>;

/// Relies on `serde_json::Map::new`: the new map is empty.
#[verifier::external_body]
pub(crate) fn new_map() -> (m: serde_json::Map<String, serde_json::Value>)
    ensures
        map_rep(m) == no_fields(),
{
    serde_json::Map::new()
}

/// Relies on `serde_json::Map::insert`: maps the key to the value,
/// replacing any entry the key had.
#[verifier::external_body]
pub(crate) fn map_insert(
    m: &mut serde_json::Map<String, serde_json::Value>,
    k: &str,
    v: serde_json::Value,
)
    ensures
        map_rep(*final(m)) == map_rep(*old(m)).insert(k@, value_rep(v)),
{
    m.insert(k.to_string(), v);
}

/// Relies on `serde_json::Value::String` holding exactly the given text.
#[verifier::external_body]
pub(crate) fn value_string(s: &str) -> (v: serde_json::Value)
    ensures
        value_rep(v) == JVal::Str(s@),
{
    serde_json::Value::String(s.to_string())
}

/// Relies on `serde_json::Value::Bool` holding exactly the given boolean.
#[verifier::external_body]
pub(crate) fn value_bool(b: bool) -> (v: serde_json::Value)
    ensures
        value_rep(v) == JVal::Bool(b),
{
    serde_json::Value::Bool(b)
}

/// Relies on `serde_json::Value::Array` holding exactly the given values
/// in their order.
#[verifier::external_body]
pub(crate) fn value_array(a: Vec<serde_json::Value>) -> (v: serde_json::Value)
    ensures
        value_rep(v) == JVal::Arr(a@.map_values(|x: serde_json::Value| value_rep(x))),
{
    serde_json::Value::Array(a)
}

/// Relies on `serde_json::Value::Object` holding exactly the given map.
#[verifier::external_body]
pub(crate) fn value_object(m: serde_json::Map<String, serde_json::Value>) -> (v:
    serde_json::Value)
    ensures
        value_rep(v) == JVal::Obj(map_rep(m)),
{
    serde_json::Value::Object(m)
}

/// Relies on `serde_json`'s `Display` for `Value`: one compact text,
/// determined by the value's content alone (object keys come out in the
/// backing tree's sorted order).
#[verifier::external_body]
pub(crate) fn value_text(v: &serde_json::Value) -> (s: String)
    ensures
        s@ == rendered(value_rep(*v)),
{
    v.to_string()
}

} // verus!
