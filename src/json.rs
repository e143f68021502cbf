//! JSON values as the protocol layer sees them. Payloads stay `serde_json`
//! values, carried through untouched; the layer itself only needs to know
//! whether a value is `null`, an object, or something else.
use vstd::prelude::*;
use vstd::string::*;

verus! {

/// `serde_json::Value`, carried through as an opaque payload.
#[verifier::external_type_specification]
#[verifier::external_body]
pub struct ExValue(serde_json::Value);

/// `serde_json::Error`, the error of parsing JSON text or decoding a payload.
#[verifier::external_type_specification]
#[verifier::external_body]
pub struct ExJsonError(serde_json::Error);

/// `Value`'s `Clone` is derived: the copy is the same JSON value.
pub assume_specification[ <serde_json::Value as Clone>::clone ](v: &serde_json::Value) -> (r: serde_json::Value)
    ensures
        r == *v,
;

/// Whether a JSON value is `null`.
pub uninterp spec fn value_is_null(v: serde_json::Value) -> bool;

/// Whether a JSON value is an object.
pub uninterp spec fn value_is_object(v: serde_json::Value) -> bool;

/// The integer a JSON value holds, where it is a number that fits an `i64`.
pub uninterp spec fn i64_of(v: serde_json::Value) -> Option<i64>;

/// The characters a JSON value holds, where it is a string.
pub uninterp spec fn str_of(v: serde_json::Value) -> Option<Seq<char>>;

/// The member `key` of a JSON value, where it is an object that has one.
pub uninterp spec fn member_of(v: serde_json::Value, key: Seq<char>) -> Option<serde_json::Value>;

/// The JSON number for an integer.
pub uninterp spec fn int_json(n: int) -> serde_json::Value;

/// The JSON string for some characters.
pub uninterp spec fn string_json(s: Seq<char>) -> serde_json::Value;

/// The JSON object with the given members, in this order.
pub uninterp spec fn object_of(members: Seq<(Seq<char>, serde_json::Value)>) -> serde_json::Value;

/// What parsing some JSON text gives.
pub uninterp spec fn parsed_of(text: Seq<char>) -> Result<serde_json::Value, serde_json::Error>;

/// The compact JSON text of a value.
pub uninterp spec fn json_text_of(v: serde_json::Value) -> Seq<char>;

/// `null`: the one JSON value that is null.
pub open spec fn json_null() -> serde_json::Value {
    choose|v: serde_json::Value| value_is_null(v)
}

/// Relies on `serde_json::Value::is_null`, to tell `null` from other values.
pub assume_specification[ serde_json::Value::is_null ](v: &serde_json::Value) -> (r: bool)
    ensures
        r == value_is_null(*v),
;

/// Relies on `serde_json::Value::is_object`, to tell objects from other values.
pub assume_specification[ serde_json::Value::is_object ](v: &serde_json::Value) -> (r: bool)
    ensures
        r == value_is_object(*v),
;

/// Relies on `serde_json::Value::as_i64`, to read integer ids and error codes.
pub assume_specification[ serde_json::Value::as_i64 ](v: &serde_json::Value) -> (r: Option<i64>)
    ensures
        r == i64_of(*v),
;

/// Relies on `serde_json::Value::as_str`, to read string ids, methods and messages.
pub assume_specification<'a>[ serde_json::Value::as_str ](v: &'a serde_json::Value) -> (r: Option<&'a str>)
    ensures
        r is None <==> str_of(*v) is None,
        r matches Some(s) ==> str_of(*v) == Some(s@),
;

/// How the protocol layer classifies a JSON value.
pub open spec fn json_read(v: serde_json::Value) -> Json {
    if value_is_null(v) {
        Json::Null
    } else if value_is_object(v) {
        Json::Object(v)
    } else {
        Json::Other(v)
    }
}

/// The JSON value that a classified value stands for.
pub open spec fn json_value(j: Json) -> serde_json::Value {
    match j {
        Json::Null => json_null(),
        Json::Object(v) => v,
        Json::Other(v) => v,
    }
}

/// A JSON value, classified by what the protocol layer needs to know of it.
#[derive(Debug, Clone)]
pub enum Json {
    /// `null`.
    Null,
    /// A JSON object.
    Object(serde_json::Value),
    /// Any other value: an array, a string, a number or a boolean.
    Other(serde_json::Value),
}

impl Json {
    /// Classifies a `serde_json` value, keeping it as it is.
    pub fn from_value(v: serde_json::Value) -> (r: Json)
        ensures
            r == json_read(v),
    {
        if v.is_null() {
            Json::Null
        } else if v.is_object() {
            Json::Object(v)
        } else {
            Json::Other(v)
        }
    }

    /// The `serde_json` value this stands for.
    pub fn into_value(self) -> (r: serde_json::Value)
        ensures
            r == json_value(self),
    {
        match self {
            Json::Null => null_value(),
            Json::Object(v) => v,
            Json::Other(v) => v,
        }
    }

    pub open spec fn is_null_spec(&self) -> bool {
        self is Null
    }

    /// Whether this is `null`.
    #[verifier::when_used_as_spec(is_null_spec)]
    pub fn is_null(&self) -> (r: bool)
        ensures
            r == self.is_null_spec(),
    {
        match self {
            Json::Null => true,
            _ => false,
        }
    }
}

/// Relies on `serde_json::Value::Null`, the single null value.
#[verifier::external_body]
pub(crate) fn null_value() -> (r: serde_json::Value)
    ensures
        r == json_null(),
        value_is_null(r),
{
    serde_json::Value::Null
}

/// Relies on `serde_json::Value::get`: the member `key` of an object, if there is one.
#[verifier::external_body]
pub(crate) fn member(v: &serde_json::Value, key: &str) -> (r: Option<serde_json::Value>)
    ensures
        r == member_of(*v, key@),
{
    v.get(key).cloned()
}

/// Relies on `serde_json::Value::from` for `i32`: a JSON number.
#[verifier::external_body]
pub(crate) fn int_value(n: i32) -> (r: serde_json::Value)
    ensures
        r == int_json(n as int),
{
    serde_json::Value::from(n)
}

/// Relies on `serde_json::Value::String`: a JSON string.
#[verifier::external_body]
pub(crate) fn string_value(s: String) -> (r: serde_json::Value)
    ensures
        r == string_json(s@),
{
    serde_json::Value::String(s)
}

/// The members of an object as keys and values.
pub open spec fn member_views(members: Seq<(String, serde_json::Value)>) -> Seq<(Seq<char>, serde_json::Value)> {
    members.map_values(|m: (String, serde_json::Value)| (m.0@, m.1))
}

/// Relies on `serde_json::Map`'s `FromIterator`: an object with the given
/// members.
#[verifier::external_body]
pub(crate) fn object_value(members: Vec<(String, serde_json::Value)>) -> (r: serde_json::Value)
    ensures
        r == object_of(member_views(members@)),
{
    serde_json::Value::Object(members.into_iter().collect())
}

/// Relies on `serde_json::from_str`: parses JSON text.
#[verifier::external_body]
pub(crate) fn parse_json(text: &str) -> (r: Result<serde_json::Value, serde_json::Error>)
    ensures
        r == parsed_of(text@),
{
    serde_json::from_str(text)
}

/// Relies on `serde_json::Value`'s `Display`: compact JSON text.
#[verifier::external_body]
pub(crate) fn json_text(v: &serde_json::Value) -> (r: String)
    ensures
        r@ == json_text_of(*v),
{
    v.to_string()
}

/// Whether a string holds exactly the characters of `lit`.
pub fn text_is(s: &String, lit: &str) -> (r: bool)
    ensures
        r == (s@ == lit@),
{
    let t = String::from_str(lit);
    *s == t
}

} // verus!
