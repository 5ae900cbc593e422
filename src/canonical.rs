use vstd::prelude::*;

use crate::error::AppError;

verus! {

/// The URL parser's error, carried out of `url::Url::parse` before it is mapped.
#[verifier::external_type_specification]
#[verifier::external_body]
pub struct ExParseError(url::ParseError);

/// The canonical serialization that the URL parser gives `raw`, or `None`
/// when `raw` is not a well-formed absolute URL.
pub uninterp spec fn parsed_url(raw: Seq<char>) -> Option<Seq<char>>;

/// Relies on `url::Url::parse` to accept or reject `raw` as an absolute URL,
/// and on `String::from(Url)` to hand back the URL's serialization.
#[verifier::external_body]
fn parse_absolute(raw: &str) -> (r: Result<String, url::ParseError>)
    ensures
        r is Ok <==> parsed_url(raw@) is Some,
        r matches Ok(c) ==> parsed_url(raw@) == Some(c@),
{
    url::Url::parse(raw).map(String::from)
}

/// Validates `raw` as an absolute URL and returns its canonical form
/// (a bare host gains a trailing slash).
pub fn canonicalize(raw: &str) -> (r: Result<String, AppError>)
    ensures
        match parsed_url(raw@) {
            Some(c) => r matches Ok(s) && s@ == c,
            None => r == Err::<String, AppError>(AppError::URLParseError),
        },
{
    match parse_absolute(raw) {
        Ok(c) => Ok(c),
        Err(_) => Err(AppError::URLParseError),
    }
}

} // verus!
