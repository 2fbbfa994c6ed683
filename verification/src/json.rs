//! JSON encoding and decoding of string lists, through `serde_json`.

use vstd::prelude::*;

verus! {

/// The JSON text that `serde_json::to_string` produces for a list of strings.
pub uninterp spec fn json_string_list(items: Seq<Seq<char>>) -> Seq<char>;

/// What `serde_json::from_str::<Vec<String>>` yields for a text: the list, or
/// `None` where the text is not a JSON array of strings.
pub uninterp spec fn json_parse_string_list(text: Seq<char>) -> Option<Seq<Seq<char>>>;

/// The JSON string literal that `serde_json::to_string` produces for a string
/// (the text quoted, with `"`, `\\` and control characters escaped).
pub uninterp spec fn json_string_text(s: Seq<char>) -> Seq<char>;

/// Encodes one string as a JSON string literal with `serde_json::to_string`.
/// That serializer fails only for a `Serialize` impl that fails or a map with
/// non-string keys, and a `str` has neither, so it always succeeds.
#[verifier::external_body]
pub fn encode_string(s: &str) -> (r: Result<String, String>)
    ensures
        r is Ok,
        r matches Ok(t) ==> t@ == json_string_text(s@),
{
    serde_json::to_string(s).map_err(|e| e.to_string())
}

/// Encodes a list of strings as a JSON array with `serde_json::to_string`. That
/// serializer fails only for a `Serialize` impl that fails or a map with
/// non-string keys, neither of which a `Vec<String>` has, so it always succeeds;
/// the error's text is kept for the error branch.
#[verifier::external_body]
pub fn encode_string_list(items: &Vec<String>) -> (r: Result<String, String>)
    ensures
        r is Ok,
        r matches Ok(s) ==> s@ == json_string_list(items.deep_view()),
{
    serde_json::to_string(items).map_err(|e| e.to_string())
}

/// Decodes a JSON array of strings with `serde_json::from_str::<Vec<String>>`,
/// `None` when the text is not one.
#[verifier::external_body]
pub fn decode_string_list(text: &str) -> (r: Option<Vec<String>>)
    ensures
        r is Some <==> json_parse_string_list(text@) is Some,
        r matches Some(v) ==> json_parse_string_list(text@) == Some(v.deep_view()),
{
    serde_json::from_str::<Vec<String>>(text).ok()
}

} // verus!
