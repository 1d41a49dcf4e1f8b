//! JSON documents as mathematical values, and the `serde_json` calls the
//! library makes on them.
//!
//! A `serde_json::Value` is opaque to the verifier. Contracts speak of it
//! through [`json_of`], which names the document a value holds as a [`Json`]
//! tree. Every function below that is marked `external_body` is believed, not
//! proved: its contract restates what the `serde_json` source shows, for
//! `serde_json` built with its default features, where an object keeps its
//! members sorted by key and a number is a `u64`, an `i64` or a double.
use vstd::prelude::*;

verus! {

/// A JSON number, as `serde_json` files it when built without
/// `arbitrary_precision`.
pub enum JsonNumber {
    /// A non-negative integer that fits in 64 bits.
    Natural(u64),
    /// An integer below zero.
    Negative(i64),
    /// Any other finite number, held by the bit pattern of its double.
    Fraction(u64),
}

/// A JSON document.
pub enum Json {
    Null,
    Boolean(bool),
    Number(JsonNumber),
    Text(Seq<char>),
    List(Seq<Json>),
    Object(Map<Seq<char>, Json>),
}

/// The member of an object stored under `key`, if `j` is an object that has one.
pub open spec fn field(j: Json, key: Seq<char>) -> Option<Json> {
    match j {
        Json::Object(m) => if m.contains_key(key) {
            Some(m[key])
        } else {
            None
        },
        _ => None,
    }
}

/// The value of `j` where it is a non-negative integer of at most 64 bits.
pub open spec fn natural(j: Json) -> Option<u64> {
    match j {
        Json::Number(JsonNumber::Natural(n)) => Some(n),
        _ => None,
    }
}

/// The object without members.
pub open spec fn no_entries() -> Map<Seq<char>, Json> {
    Map::empty()
}

/// `serde_json::Value`, carried as it is; see [`json_of`].
#[verifier::external_type_specification]
#[verifier::external_body]
pub struct ExValue(serde_json::Value);

/// `serde_json::Error`, carried as it is; see [`error_text`].
#[verifier::external_type_specification]
#[verifier::external_body]
pub struct ExJsonError(serde_json::Error);

/// `serde_json::Map`, carried as it is; see [`entries_of`].
#[verifier::external_type_specification]
#[verifier::external_body]
#[verifier::reject_recursive_types(K)]
#[verifier::reject_recursive_types(V)]
pub struct ExJsonMap<K, V>(serde_json::Map<K, V>);

/// The document that a `serde_json::Value` holds.
pub uninterp spec fn json_of(v: serde_json::Value) -> Json;

/// The members that a `serde_json::Map` holds, by key.
pub uninterp spec fn entries_of(m: serde_json::Map<String, serde_json::Value>) -> Map<Seq<char>, Json>;

/// The document that `serde_json::from_str` reads from a text, or `None`
/// where it rejects the text.
pub uninterp spec fn parsed_json(text: Seq<char>) -> Option<Json>;

/// The compact text that `serde_json` writes for a document.
pub uninterp spec fn json_text(j: Json) -> Seq<char>;

/// `serde_json::from_str` at type `Value`. The outcome depends on the text
/// alone: `Ok` holds the document named by [`parsed_json`], and `Err` comes
/// exactly where that name is `None`.
#[verifier::external_body]
pub(crate) fn parse(text: &str) -> (r: Result<serde_json::Value, serde_json::Error>)
    ensures
        match r {
            Ok(v) => parsed_json(text@) == Some(json_of(v)),
            Err(_) => parsed_json(text@) is None,
        },
{
    serde_json::from_str::<serde_json::Value>(text)
}

/// The `Display` text of a `serde_json::Error`. Nothing is claimed of it.
#[verifier::external_body]
pub(crate) fn error_text(e: &serde_json::Error) -> (r: String)
{
    e.to_string()
}

/// `Value::get` with a string key: the member under that key where the value
/// is an object that has it, else `None`.
#[verifier::external_body]
pub(crate) fn member<'a>(v: &'a serde_json::Value, key: &str) -> (r: Option<&'a serde_json::Value>)
    ensures
        match r {
            Some(w) => field(json_of(*v), key@) == Some(json_of(*w)),
            None => field(json_of(*v), key@) is None,
        },
{
    v.get(key)
}

/// `Value::is_object`: whether the value is an object.
#[verifier::external_body]
pub(crate) fn is_object(v: &serde_json::Value) -> (r: bool)
    ensures
        r == (json_of(*v) is Object),
{
    v.is_object()
}

/// `Value::as_u64`: the number where the value is a non-negative integer,
/// `None` for every other value.
#[verifier::external_body]
pub(crate) fn as_natural(v: &serde_json::Value) -> (r: Option<u64>)
    ensures
        r == natural(json_of(*v)),
{
    v.as_u64()
}

/// `Value::as_str`: the text where the value is a string, else `None`.
#[verifier::external_body]
pub(crate) fn as_text<'a>(v: &'a serde_json::Value) -> (r: Option<&'a str>)
    ensures
        match r {
            Some(s) => json_of(*v) == Json::Text(s@),
            None => !(json_of(*v) is Text),
        },
{
    v.as_str()
}

/// `Value::as_array`: the items, in order, where the value is an array, else
/// `None`.
#[verifier::external_body]
pub(crate) fn as_list<'a>(v: &'a serde_json::Value) -> (r: Option<&'a Vec<serde_json::Value>>)
    ensures
        match r {
            Some(items) => json_of(*v) == Json::List(items@.map_values(|x: serde_json::Value| json_of(x))),
            None => !(json_of(*v) is List),
        },
{
    v.as_array()
}

/// `Value`'s `to_string`: the compact text of the document it holds.
#[verifier::external_body]
pub(crate) fn render(v: &serde_json::Value) -> (r: String)
    ensures
        r@ == json_text(json_of(*v)),
{
    v.to_string()
}

/// `Value::from` on a `u64`: the number itself.
#[verifier::external_body]
pub(crate) fn from_natural(n: u64) -> (r: serde_json::Value)
    ensures
        json_of(r) == Json::Number(JsonNumber::Natural(n)),
{
    serde_json::Value::from(n)
}

/// `Value::from` on a `&str`: a string with the same text.
#[verifier::external_body]
pub(crate) fn from_text(s: &str) -> (r: serde_json::Value)
    ensures
        json_of(r) == Json::Text(s@),
{
    serde_json::Value::from(s)
}

/// `Value::from` on a `Map`: the object with the map's members.
#[verifier::external_body]
pub(crate) fn from_entries(m: serde_json::Map<String, serde_json::Value>) -> (r: serde_json::Value)
    ensures
        json_of(r) == Json::Object(entries_of(m)),
{
    serde_json::Value::from(m)
}

/// Tells `Value::Object` from the other variants: an object gives up its map,
/// any other value comes back as it was.
#[verifier::external_body]
pub(crate) fn into_entries(v: serde_json::Value) -> (r: Result<serde_json::Map<String, serde_json::Value>, serde_json::Value>)
    ensures
        match r {
            Ok(m) => json_of(v) == Json::Object(entries_of(m)),
            Err(w) => w == v && !(json_of(v) is Object),
        },
{
    match v {
        serde_json::Value::Object(m) => Ok(m),
        other => Err(other),
    }
}

/// `Map::new`: a map without members.
#[verifier::external_body]
pub(crate) fn new_entries() -> (r: serde_json::Map<String, serde_json::Value>)
    ensures
        entries_of(r) == no_entries(),
{
    serde_json::Map::new()
}

/// `Map::insert`: the member under `key` becomes `item`, replacing one that
/// was there; the others stay.
#[verifier::external_body]
pub(crate) fn insert_entry(m: &mut serde_json::Map<String, serde_json::Value>, key: String, item: serde_json::Value)
    ensures
        entries_of(*final(m)) == entries_of(*old(m)).insert(key@, json_of(item)),
{
    m.insert(key, item);
}

} // verus!
