//! JSON values as the hub sends them, seen through what the library reads
//! of them.

use vstd::prelude::*;

verus! {

#[verifier::external_type_specification]
#[verifier::external_body]
pub struct ExValue(serde_json::Value);

#[verifier::external_type_specification]
#[verifier::external_body]
pub struct ExJsonError(serde_json::Error);

/// The members of a JSON object, each name with the text of its value where
/// that value is a JSON string and `None` where it is anything else. A value
/// that is no object has no members.
pub uninterp spec fn json_members(v: serde_json::Value) -> Map<Seq<char>, Option<Seq<char>>>;

/// The text of a JSON string; `None` for any other kind of value.
pub uninterp spec fn json_text(v: serde_json::Value) -> Option<Seq<char>>;

/// The compact JSON document that encodes a value.
pub uninterp spec fn json_encoding(v: serde_json::Value) -> Seq<char>;

/// `serde_json::Value::get` with a string key: the member of that name, when
/// the value is an object that has one. Not proved: that the member is there
/// exactly when [`json_members`] lists the name, and that its text is what
/// [`json_members`] holds for it.
#[verifier::external_body]
pub(crate) fn member<'a>(v: &'a serde_json::Value, name: &str) -> (r: Option<&'a serde_json::Value>)
    ensures
        r is Some <==> json_members(*v).dom().contains(name@),
        r matches Some(m) ==> json_members(*v)[name@] == json_text(*m),
{
    v.get(name)
}

/// `serde_json::Value::as_str`: the text of a JSON string, `None` for any
/// other value. Not proved: that this is what [`json_text`] names.
#[verifier::external_body]
pub(crate) fn text_of<'a>(v: &'a serde_json::Value) -> (r: Option<&'a str>)
    ensures
        match r {
            Some(s) => json_text(*v) == Some(s@),
            None => json_text(*v) is None,
        },
{
    v.as_str()
}

/// `serde_json::to_string` on a value. Not proved: that a document it
/// returns is the one [`json_encoding`] names. Nothing is claimed about
/// when it returns one.
#[verifier::external_body]
pub(crate) fn encode(v: &serde_json::Value) -> (r: Result<String, serde_json::Error>)
    ensures
        r matches Ok(s) ==> s@ == json_encoding(*v),
{
    serde_json::to_string(v)
}

} // verus!
