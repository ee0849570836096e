//! Cached values as JSON text.

use vstd::prelude::*;

verus! {

/// `serde_json::Error`, the error of the JSON library: carried, never looked
/// into.
#[verifier::external_type_specification]
#[verifier::external_body]
pub struct ExJsonError(serde_json::Error);

/// The JSON text that stands for the string `value`, where there is one.
pub uninterp spec fn json_text(value: Seq<char>) -> Option<Seq<char>>;

/// The string that the JSON text `text` stands for, where it is the text of
/// one string and nothing else.
pub uninterp spec fn json_string(text: Seq<char>) -> Option<Seq<char>>;

/// `serde_json::to_string`, on a string slice. The text that comes back
/// depends on the value alone, and is what `json_text` names; an error comes
/// back exactly where `json_text` has none.
#[verifier::external_body]
pub(crate) fn encode(value: &str) -> (r: Result<String, serde_json::Error>)
    ensures
        match r {
            Ok(text) => json_text(value@) == Some(text@),
            Err(_) => json_text(value@).is_none(),
        },
{
    serde_json::to_string(value)
}

/// `serde_json::from_str`, asked for a `String`. The string that comes back
/// depends on the text alone, and is what `json_string` names; an error comes
/// back exactly where `json_string` has none.
#[verifier::external_body]
pub(crate) fn decode(text: &str) -> (r: Result<String, serde_json::Error>)
    ensures
        match r {
            Ok(value) => json_string(text@) == Some(value@),
            Err(_) => json_string(text@).is_none(),
        },
{
    serde_json::from_str::<String>(text)
}

/// What a `serde_json::Error` reads when displayed. Nothing is claimed of the
/// text.
#[verifier::external_body]
pub(crate) fn error_text(e: &serde_json::Error) -> (text: String) {
    format!("{}", e)
}

} // verus!
