use vstd::prelude::*;

verus! {

/// The JSON text that `serde_json::to_string` writes for a list of strings
/// with the given texts: an array of JSON strings.
pub uninterp spec fn json_of_ids(ids: Seq<Seq<char>>) -> Seq<char>;

/// Calls `serde_json::to_string` on a list of strings. The contract claims
/// that the text is a function of the strings' texts (`json_of_ids`), and
/// that `serde_json::from_str` reads the same list back from it (every
/// character of a string is written either as itself or as an escape that
/// the reader turns back into it). What the text looks like is left to
/// serde_json. Serialising strings cannot fail, so the error arm, which
/// gives an empty text, is not reached.
#[verifier::external_body]
pub(crate) fn encode_ids(ids: &Vec<String>) -> (r: String)
    ensures
        r@ == json_of_ids(ids.deep_view()),
        ids_of_json(r@) == Some(ids.deep_view()),
{
    match serde_json::to_string(ids) {
        Ok(text) => text,
        Err(_) => String::new(),
    }
}

} // verus!

verus! {

/// The list of strings that `serde_json::from_str` reads from a JSON text,
/// if the text is a JSON array of strings.
pub uninterp spec fn ids_of_json(text: Seq<char>) -> Option<Seq<Seq<char>>>;

/// Calls `serde_json::from_str` to read a list of strings from a JSON text.
/// The contract claims only that the outcome is a function of the text
/// (`ids_of_json`): `None` where serde_json reports an error.
#[verifier::external_body]
pub(crate) fn decode_ids(text: &String) -> (r: Option<Vec<String>>)
    ensures
        match r {
            Some(v) => ids_of_json(text@) == Some(v.deep_view()),
            None => ids_of_json(text@) == None::<Seq<Seq<char>>>,
        },
{
    serde_json::from_str::<Vec<String>>(text).ok()
}

} // verus!
