//! Texts that nix prints as JSON.
use crate::text::texts;
use vstd::prelude::*;

verus! {

/// The text that a JSON string holds, or what is wrong with it.
pub uninterp spec fn json_text(json: Seq<char>) -> Result<Seq<char>, Seq<char>>;

/// The texts that a JSON array of strings holds, or what is wrong with it.
pub uninterp spec fn json_texts(json: Seq<char>) -> Result<Seq<Seq<char>>, Seq<char>>;

/// `serde_json::from_str::<String>`: the text that a JSON string holds, or the text of the error.
#[verifier::external_body]
pub(crate) fn parse_text(json: &str) -> (r: Result<String, String>)
    ensures
        match r {
            Ok(text) => json_text(json@) == Ok::<Seq<char>, Seq<char>>(text@),
            Err(error) => json_text(json@) == Err::<Seq<char>, Seq<char>>(error@),
        },
{
    serde_json::from_str::<String>(json).map_err(|error| error.to_string())
}

/// `serde_json::from_str::<Vec<String>>`: the texts that a JSON array of strings holds, or the
/// text of the error.
#[verifier::external_body]
pub(crate) fn parse_texts(json: &str) -> (r: Result<Vec<String>, String>)
    ensures
        match r {
            Ok(parsed) => json_texts(json@) == Ok::<Seq<Seq<char>>, Seq<char>>(
                texts(parsed@),
            ),
            Err(error) => json_texts(json@) == Err::<Seq<Seq<char>>, Seq<char>>(error@),
        },
{
    serde_json::from_str::<Vec<String>>(json).map_err(|error| error.to_string())
}

/// A list of texts as a JSON array of strings.
pub uninterp spec fn texts_json(list: Seq<Seq<char>>) -> Seq<char>;

/// `serde_json::to_string` of a list of strings: the list as a JSON array. It does not fail on
/// strings.
#[verifier::external_body]
pub(crate) fn write_texts(list: &Vec<String>) -> (json: String)
    ensures
        json@ == texts_json(texts(list@)),
{
    serde_json::to_string(list).unwrap()
}

} // verus!
