//! The stored branding configuration: a JSON document kept as a file.

use vstd::prelude::*;
use crate::broker::outcome_view;

verus! {

/// `serde_json::Value`: a JSON document. Opaque here.
#[verifier::external_type_specification]
#[verifier::external_body]
pub struct ExJsonValue(serde_json::Value);

/// What `serde_json` makes of `text`: the document it holds, or the
/// description of why it holds none.
pub uninterp spec fn json_document(text: Seq<char>) -> Result<serde_json::Value, Seq<char>>;

/// `serde_json::from_str` at `serde_json::Value`, with its error given as
/// text. Trusted: the outcome depends on the text alone.
#[verifier::external_body]
fn parse_json(text: &str) -> (parsed: Result<serde_json::Value, String>)
    ensures
        outcome_view(parsed) == json_document(text@),
{
    match serde_json::from_str::<serde_json::Value>(text) {
        Ok(document) => Ok(document),
        Err(e) => Err(e.to_string()),
    }
}

/// What the stored configuration is, given what parsing the file gave: a
/// file that parses holds the configuration, one that does not is an
/// error.
pub open spec fn stored_branding(parsed: Result<serde_json::Value, Seq<char>>) -> Result<
    Option<serde_json::Value>,
    Seq<char>,
> {
    match parsed {
        Ok(document) => Ok(Some(document)),
        Err(why) => Err(why),
    }
}

/// The stored configuration, given what parsing the file gave.
pub fn branding_of(parsed: Result<serde_json::Value, String>) -> (branding: Result<
    Option<serde_json::Value>,
    String,
>)
    ensures
        outcome_view(branding) == stored_branding(outcome_view(parsed)),
{
    match parsed {
        Ok(document) => Ok(Some(document)),
        Err(why) => Err(why),
    }
}

/// The stored configuration, given the contents of its file, or `None`
/// where there is no file. No file means no configuration, which is not
/// an error.
pub fn read_branding(contents: Option<&str>) -> (branding: Result<
    Option<serde_json::Value>,
    String,
>)
    ensures
        outcome_view(branding) == match contents {
            Some(text) => stored_branding(json_document(text@)),
            None => Ok(None),
        },
{
    match contents {
        Some(text) => branding_of(parse_json(text)),
        None => Ok(None),
    }
}

} // verus!
