//! JSON values as the protocol uses them, read and written by `serde_json`.
//!
//! Nothing here is proved. Each item states what the crate takes for granted
//! of `serde_json`, over the model [`Json`]. The crate is built without the
//! features `preserve_order` and `arbitrary_precision`: an object is a map
//! ordered by key, and a number is an unsigned, a negative or a binary64.

use vstd::prelude::*;

verus! {

/// The mathematical content of a JSON value.
pub enum Json {
    Null,
    Bool(bool),
    /// A number held as an integer, from `i64::MIN` to `u64::MAX`.
    Integer(int),
    /// A number held as a binary64, by its bit pattern.
    Fraction(u64),
    Text(Seq<char>),
    Array(Seq<Json>),
    Object(Map<Seq<char>, Json>),
}

impl Json {
    /// The members of an object; no members for anything else.
    pub open spec fn members(self) -> Map<Seq<char>, Json> {
        match self {
            Json::Object(m) => m,
            _ => Map::empty(),
        }
    }

    /// The member under `key`, if the value is an object that has one.
    pub open spec fn member(self, key: Seq<char>) -> Option<Json> {
        if self.members().contains_key(key) {
            Some(self.members()[key])
        } else {
            None
        }
    }

    /// The text of a JSON string.
    pub open spec fn as_text(self) -> Option<Seq<char>> {
        match self {
            Json::Text(s) => Some(s),
            _ => None,
        }
    }

    /// The truth value of a JSON boolean.
    pub open spec fn as_bool(self) -> Option<bool> {
        match self {
            Json::Bool(b) => Some(b),
            _ => None,
        }
    }

    /// The value of a number that is an integer from 0 to `u64::MAX`.
    pub open spec fn as_u64(self) -> Option<u64> {
        match self {
            Json::Integer(n) if 0 <= n <= u64::MAX => Some(n as u64),
            _ => None,
        }
    }
}

/// `serde_json::Value`, carried as an opaque value.
#[verifier::external_type_specification]
#[verifier::external_body]
pub struct ExValue(serde_json::Value);

/// `serde_json::Error`, carried as an opaque value.
#[verifier::external_type_specification]
#[verifier::external_body]
pub struct ExError(serde_json::Error);

/// What a `serde_json::Value` holds: null, a boolean, a number, a string,
/// the elements of an array in order, or the members of an object by key.
pub uninterp spec fn json_view(value: serde_json::Value) -> Json;

/// The compact text that `Display` of `serde_json::Value` writes for a value.
pub uninterp spec fn json_render(json: Json) -> Seq<char>;

/// What `serde_json::from_str` reads from a text: the value, or the message
/// of the error it stops with.
pub uninterp spec fn json_parse(text: Seq<char>) -> Result<Json, Seq<char>>;

/// The message that `Display` of `serde_json::Error` writes.
pub uninterp spec fn json_error_text(error: serde_json::Error) -> Seq<char>;

/// `serde_json::from_str` at `Value`: the call returns what [`json_parse`]
/// names, the value by what it holds and the error by its message.
#[verifier::external_body]
pub(crate) fn parse(text: &str) -> (r: Result<serde_json::Value, serde_json::Error>)
    ensures
        match r {
            Ok(value) => json_parse(text@) == Ok::<Json, Seq<char>>(json_view(value)),
            Err(error) => json_parse(text@) == Err::<Json, Seq<char>>(json_error_text(error)),
        },
{
    serde_json::from_str::<serde_json::Value>(text)
}

/// `Display` of `serde_json::Error`, through `to_string`: the message that
/// [`json_error_text`] names.
#[verifier::external_body]
pub(crate) fn error_text(error: &serde_json::Error) -> (r: String)
    ensures
        r@ == json_error_text(*error),
{
    error.to_string()
}

/// `Display` of `serde_json::Value`, through `to_string`: the compact text,
/// which depends on nothing but what the value holds.
#[verifier::external_body]
pub(crate) fn render(value: &serde_json::Value) -> (r: String)
    ensures
        r@ == json_render(json_view(*value)),
{
    value.to_string()
}

/// `serde_json::Map::new`, as an object: an object without members.
#[verifier::external_body]
pub(crate) fn object() -> (r: serde_json::Value)
    ensures
        json_view(r) == Json::Object(Map::empty()),
{
    serde_json::Value::Object(serde_json::Map::new())
}

/// `serde_json::Map::insert` on the members of an object: the member under
/// `key` is now `member`, the others stay.
#[verifier::external_body]
pub(crate) fn insert(target: &mut serde_json::Value, key: &str, member: serde_json::Value)
    requires
        json_view(*old(target)) is Object,
    ensures
        json_view(*final(target)) == Json::Object(
            json_view(*old(target)).members().insert(key@, json_view(member)),
        ),
{
    if let serde_json::Value::Object(members) = target {
        members.insert(key.to_owned(), member);
    }
}

/// `From<&str>` for `serde_json::Value`: a JSON string.
#[verifier::external_body]
pub(crate) fn text(s: &str) -> (r: serde_json::Value)
    ensures
        json_view(r) == Json::Text(s@),
{
    serde_json::Value::from(s)
}

/// `From<u64>` for `serde_json::Value`: an integer number.
#[verifier::external_body]
pub(crate) fn unsigned(n: u64) -> (r: serde_json::Value)
    ensures
        json_view(r) == Json::Integer(n as int),
{
    serde_json::Value::from(n)
}

/// `serde_json::Value::Null`: the JSON null.
#[verifier::external_body]
pub(crate) fn null() -> (r: serde_json::Value)
    ensures
        json_view(r) == Json::Null,
{
    serde_json::Value::Null
}

/// `From<bool>` for `serde_json::Value`: a JSON boolean.
#[verifier::external_body]
pub(crate) fn boolean(b: bool) -> (r: serde_json::Value)
    ensures
        json_view(r) == Json::Bool(b),
{
    serde_json::Value::from(b)
}

/// `serde_json::Value::get` with a string index: the member of an object
/// under that key; `None` for a missing key and for anything but an object.
#[verifier::external_body]
pub(crate) fn member<'a>(value: &'a serde_json::Value, key: &str) -> (r: Option<&'a serde_json::Value>)
    ensures
        match r {
            Some(found) => json_view(*value).member(key@) == Some(json_view(*found)),
            None => json_view(*value).member(key@) is None,
        },
{
    value.get(key)
}

/// `serde_json::Value::as_str`: the text of a JSON string, `None` for any
/// other value.
pub assume_specification<'a>[ serde_json::Value::as_str ](value: &'a serde_json::Value) -> (r: Option<&'a str>)
    ensures
        match r {
            Some(s) => json_view(*value).as_text() == Some(s@),
            None => json_view(*value).as_text() is None,
        },
;

/// `serde_json::Value::as_bool`: the truth value of a JSON boolean, `None`
/// for any other value.
pub assume_specification[ serde_json::Value::as_bool ](value: &serde_json::Value) -> (r: Option<bool>)
    ensures
        r == json_view(*value).as_bool(),
;

/// `serde_json::Value::as_u64`: the value of a number that is an integer from
/// 0 to `u64::MAX`, `None` for any other value.
pub assume_specification[ serde_json::Value::as_u64 ](value: &serde_json::Value) -> (r: Option<u64>)
    ensures
        r == json_view(*value).as_u64(),
;

} // verus!
