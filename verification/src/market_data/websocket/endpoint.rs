//! The address of the streaming service, as the `url` crate reads it.

use vstd::prelude::*;
use crate::error::{text_answer, Error, ErrorView};
use crate::text::text_outcome;

verus! {

/// What `url::Url::parse` makes of `input`: the address in its serialized
/// form, or the description of the parse error.
pub uninterp spec fn url_parse(input: Seq<char>) -> Result<Seq<char>, Seq<char>>;

/// Parses `input` as an absolute URL with the `url` crate.
///
/// Trusted: `input` is handed to `url::Url::parse`; the URL is returned as
/// the string it serializes to and an error as its description, which
/// together are the value that [`url_parse`] names for `input`.
#[verifier::external_body]
pub(crate) fn parse_url(input: &str) -> (parsed: Result<String, String>)
    ensures
        text_outcome(parsed) == url_parse(input@),
{
    url::Url::parse(input).map(String::from).map_err(|e| e.to_string())
}

/// The address to connect to, given what parsing the configured address
/// gave: the parsed address, or the parse error.
pub open spec fn target_of(parsed: Result<Seq<char>, Seq<char>>) -> Result<Seq<char>, ErrorView> {
    match parsed {
        Ok(address) => Ok(address),
        Err(reason) => Err(ErrorView::UrlParse(reason)),
    }
}

/// The address to connect to, given what parsing the configured address
/// gave.
pub fn resolve_target(parsed: Result<String, String>) -> (target: Result<String, Error>)
    ensures
        text_answer(target) == target_of(text_outcome(parsed)),
{
    match parsed {
        Ok(address) => Ok(address),
        Err(reason) => Err(Error::UrlParse(reason)),
    }
}

/// The address to connect to for the configured address `base_url`.
pub fn connect_target(base_url: &str) -> (target: Result<String, Error>)
    ensures
        text_answer(target) == target_of(url_parse(base_url@)),
{
    resolve_target(parse_url(base_url))
}

} // verus!
