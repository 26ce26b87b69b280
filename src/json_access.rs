use vstd::prelude::*;

use crate::text::strings_view;

verus! {

/// The unsigned integer that member `key` of the JSON object in `text` holds.
pub uninterp spec fn json_member_u64(text: Seq<char>, key: Seq<char>) -> Option<u64>;

/// The string that member `key` of the JSON object in `text` holds.
pub uninterp spec fn json_member_str(text: Seq<char>, key: Seq<char>) -> Option<Seq<char>>;

/// Member `key` of the JSON document in `text`, written out again as JSON text.
pub uninterp spec fn json_member_text(text: Seq<char>, key: Seq<char>) -> Option<Seq<char>>;

/// A string written as a JSON string literal, quotes and escapes included.
pub uninterp spec fn json_quoted(s: Seq<char>) -> Seq<char>;

/// Relies on `json::parse`, then `JsonValue`'s `Index<&str>` and `as_u64`: the member
/// as an unsigned integer; `None` when the text is not JSON or the member is absent or
/// not such a number.
#[verifier::external_body]
pub(crate) fn member_u64(text: &str, key: &str) -> (r: Option<u64>)
    ensures
        r == json_member_u64(text@, key@),
{
    match json::parse(text) {
        Ok(v) => v[key].as_u64(),
        Err(_) => None,
    }
}

/// Relies on `json::parse`, then `JsonValue`'s `Index<&str>` and `as_str`: the member
/// as a string; `None` when the text is not JSON or the member is absent or not a string.
#[verifier::external_body]
pub(crate) fn member_str(text: &str, key: &str) -> (r: Option<String>)
    ensures
        r matches Some(s) ==> json_member_str(text@, key@) == Some(s@),
        r is None ==> json_member_str(text@, key@) is None,
{
    match json::parse(text) {
        Ok(v) => v[key].as_str().map(String::from),
        Err(_) => None,
    }
}

/// Relies on `json::parse`, then `JsonValue`'s `Index<&str>` and `dump`: the member
/// written out as JSON text (`null` where it is absent); `None` when the text is not JSON.
#[verifier::external_body]
pub(crate) fn member_text(text: &str, key: &str) -> (r: Option<String>)
    ensures
        r matches Some(s) ==> json_member_text(text@, key@) == Some(s@),
        r is None ==> json_member_text(text@, key@) is None,
{
    match json::parse(text) {
        Ok(v) => Some(v[key].dump()),
        Err(_) => None,
    }
}

/// Relies on `json::stringify` of a `&str`: the string as a JSON string literal.
#[verifier::external_body]
pub(crate) fn quote(s: &str) -> (r: String)
    ensures
        r@ == json_quoted(s@),
{
    json::stringify(s)
}

/// The elements of the JSON array in `text`, each written out as JSON text.
pub uninterp spec fn json_elements(text: Seq<char>) -> Option<Seq<Seq<char>>>;

/// Relies on `json::parse` and `JsonValue::dump`: the elements of a JSON array, each as JSON
/// text; `None` when the text is not a JSON array.
#[verifier::external_body]
pub(crate) fn elements(text: &str) -> (r: Option<Vec<String>>)
    ensures
        r matches Some(v) ==> json_elements(text@) == Some(strings_view(v@)),
        r is None ==> json_elements(text@) is None,
{
    match json::parse(text) {
        Ok(json::JsonValue::Array(items)) => Some(items.iter().map(json::JsonValue::dump).collect()),
        _ => None,
    }
}

} // verus!
