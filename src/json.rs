use vstd::prelude::*;
use crate::error::{Error, ErrorModel};
use crate::text::same_text;

verus! {

/// A JSON value as the adapter reads it from backend responses.
#[derive(Debug)]
pub enum Json {
    Null,
    Bool(bool),
    /// A number, kept in its textual form.
    Number(String),
    Str(String),
    Array(Vec<Json>),
    /// The members of an object, in order.
    Object(Vec<(String, Json)>),
}

/// The value of the first member named `key`, if any.
pub open spec fn member(entries: Seq<(String, Json)>, key: Seq<char>) -> Option<Json>
    decreases entries.len(),
{
    if entries.len() == 0 {
        None
    } else if entries[0].0@ == key {
        Some(entries[0].1)
    } else {
        member(entries.drop_first(), key)
    }
}

/// The value of field `key` of `json`, if `json` is an object that has it.
pub open spec fn field(json: Json, key: Seq<char>) -> Option<Json> {
    match json {
        Json::Object(entries) => member(entries@, key),
        _ => None,
    }
}

/// Reading the boolean field `key` of an object: its value, or which
/// expectation failed, where `not_bool` is the text for a value of another kind.
pub open spec fn bool_field(json: Json, key: Seq<char>, not_bool: Seq<char>) -> Result<bool, ErrorModel> {
    match json {
        Json::Object(entries) => match member(entries@, key) {
            Some(Json::Bool(b)) => Ok(b),
            Some(_) => Err(ErrorModel::JsonDeserializationInvalid { details: not_bool }),
            None => Err(
                ErrorModel::JsonDeserializationInvalid {
                    details: "expected '"@ + key + "'"@,
                },
            ),
        },
        _ => Err(ErrorModel::JsonDeserializationInvalid { details: "expected JSON object"@ }),
    }
}

/// Finds the first member named `key`.
pub fn find_member<'a>(entries: &'a Vec<(String, Json)>, key: &str) -> (r: Option<&'a Json>)
    ensures
        r matches Some(v) ==> member(entries@, key@) == Some(*v),
        r is None ==> member(entries@, key@) is None,
{
    let mut i: usize = 0;
    assert(entries@.skip(0) =~= entries@);
    while i < entries.len()
        invariant
            i <= entries.len(),
            member(entries@, key@) == member(entries@.skip(i as int), key@),
        decreases entries.len() - i,
    {
        proof {
            assert(entries@.skip(i as int)[0] == entries@[i as int]);
        }
        assert(entries@.skip(i as int).drop_first() =~= entries@.skip(i + 1));
        if same_text(entries[i].0.as_str(), key) {
            return Some(&entries[i].1);
        }
        i = i + 1;
    }
    None
}

/// Reads the boolean field `key` of a JSON object; `not_bool` is the text of
/// the error for a value that is not a boolean.
pub fn expect_bool_field(json: &Json, key: &str, not_bool: &str) -> (r: Result<bool, Error>)
    ensures
        crate::error::result_model(r) == bool_field(*json, key@, not_bool@),
{
    match json {
        Json::Object(entries) => match find_member(entries, key) {
            Some(Json::Bool(b)) => Ok(*b),
            Some(_) => Err(Error::JsonDeserializationInvalid { details: String::from_str(not_bool) }),
            None => {
                let mut details = String::from_str("expected '");
                details.append(key);
                details.append("'");
                Err(Error::JsonDeserializationInvalid { details })
            },
        },
        _ => Err(Error::JsonDeserializationInvalid { details: String::from_str("expected JSON object") }),
    }
}

} // verus!
