//! Parsed documents. Parsing is `serde_json`'s work; this module says what the
//! library reads off a parsed value and believes of the calls it makes.

use vstd::prelude::*;
use serde_json::Error as SyntaxError;

verus! {

/// `serde_json::Value`, a parsed value. Nothing is seen of its inside but
/// through [`content`].
#[verifier::external_type_specification]
#[verifier::external_body]
pub struct ExValue(serde_json::Value);

/// `serde_json::Error`, which says where and why parsing stopped. It is only
/// handed on.
#[verifier::external_type_specification]
#[verifier::external_body]
pub struct ExSyntaxError(SyntaxError);

/// What a parsed value holds, as far as decoding reads it.
pub enum Json {
    /// `null`.
    Null,
    /// A number that `serde_json` hands out as a `u64`.
    Unsigned(u64),
    /// A string.
    Text(Seq<char>),
    /// An object: its members by name.
    Object(Map<Seq<char>, Json>),
    /// Anything else: a boolean, an array, any other number.
    Other,
}

/// What `value` holds.
pub uninterp spec fn content(value: serde_json::Value) -> Json;

/// What `serde_json` makes of `text`: the content of the value it parses, or
/// `None` where it reports an error.
pub uninterp spec fn parsed(text: Seq<char>) -> Option<Json>;

/// The member of `members` under `key`, if there is one.
pub open spec fn member_of(members: Map<Seq<char>, Json>, key: Seq<char>) -> Option<Json> {
    if members.contains_key(key) {
        Some(members[key])
    } else {
        None
    }
}

/// The text of the object without members: an opening and a closing brace.
pub open spec fn empty_object_text() -> Seq<char> {
    seq!['{', '}']
}

/// Calls `serde_json::from_str` for a `serde_json::Value`. Believed: the outcome
/// is a function of the text alone, and the two characters `{}` parse as an
/// object without members.
#[verifier::external_body]
pub(crate) fn parse(text: &str) -> (r: Result<serde_json::Value, SyntaxError>)
    ensures
        match r {
            Ok(value) => parsed(text@) == Some(content(value)),
            Err(_) => parsed(text@) is None,
        },
        text@ == empty_object_text() ==> (r is Ok && content(r.unwrap()) == Json::Object(
            Map::empty(),
        )),
{
    serde_json::from_str::<serde_json::Value>(text)
}

/// Calls `serde_json::Value::get` with a string index. Believed: an object
/// hands out its member of that name, if it has one; any other value hands out
/// nothing.
#[verifier::external_body]
pub(crate) fn member<'a>(value: &'a serde_json::Value, key: &str) -> (r: Option<
    &'a serde_json::Value,
>)
    ensures
        match r {
            Some(found) => content(*value) matches Json::Object(members) && member_of(
                members,
                key@,
            ) == Some(content(*found)),
            None => content(*value) matches Json::Object(members) ==> member_of(members, key@)
                is None,
        },
{
    value.get(key)
}

/// `serde_json::Value::is_object` tells whether the value is an object.
pub assume_specification[ serde_json::Value::is_object ](value: &serde_json::Value) -> (r: bool)
    ensures
        r == (content(*value) is Object),
;

/// `serde_json::Value::is_null` tells whether the value is `null`.
pub assume_specification[ serde_json::Value::is_null ](value: &serde_json::Value) -> (r: bool)
    ensures
        r == (content(*value) is Null),
;

/// `serde_json::Value::as_u64` hands out a number that fits a `u64`, and
/// nothing for any other value.
pub assume_specification[ serde_json::Value::as_u64 ](value: &serde_json::Value) -> (r:
    Option<u64>)
    ensures
        r == (match content(*value) {
            Json::Unsigned(n) => Some(n),
            _ => None,
        }),
;

/// `serde_json::Value::as_str` hands out the characters of a string, and
/// nothing for any other value.
pub assume_specification<'a>[ serde_json::Value::as_str ](value: &'a serde_json::Value) -> (r:
    Option<&'a str>)
    ensures
        match r {
            Some(text) => content(*value) == Json::Text(text@),
            None => !(content(*value) is Text),
        },
;

} // verus!
