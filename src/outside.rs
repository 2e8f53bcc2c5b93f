//! Types of outside crates that values of this library carry through.

use vstd::prelude::*;

verus! {

/// An outside error from the JSON codec, carried through unchanged.
#[verifier::external_type_specification]
#[verifier::external_body]
pub struct ExJsonError(serde_json::Error);

/// An outside error from the HTTP transport, carried through unchanged.
#[verifier::external_type_specification]
#[verifier::external_body]
pub struct ExHttpError(http_types::Error);

/// An outside error from URL parsing, carried through unchanged.
#[verifier::external_type_specification]
#[verifier::external_body]
pub struct ExParseError(http_types::url::ParseError);

/// A parsed URL, carried through opaquely.
#[verifier::external_type_specification]
#[verifier::external_body]
pub struct ExUrl(http_types::Url);

/// Whether the URL parser accepts a text.
pub uninterp spec fn url_accepts(s: Seq<char>) -> bool;

/// The URL that the parser reads from an accepted text.
pub uninterp spec fn parsed_url(s: Seq<char>) -> http_types::Url;

/// The error that the parser reports on a text it does not accept.
pub uninterp spec fn parse_error_of(s: Seq<char>) -> http_types::url::ParseError;

/// Relies on url::Url::parse (through http_types): whether the text is
/// accepted, the URL read from it and the error reported on it depend on
/// the text alone.
#[verifier::external_body]
pub(crate) fn parse_url(s: &str) -> (r: Result<http_types::Url, http_types::url::ParseError>)
    ensures
        r is Ok <==> url_accepts(s@),
        r is Ok ==> r->Ok_0 == parsed_url(s@),
        r is Err ==> r->Err_0 == parse_error_of(s@),
{
    http_types::Url::parse(s)
}

} // verus!
