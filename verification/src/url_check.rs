//! The check that a text is a URL which can be shortened: an absolute URL
//! with an authority.

use vstd::prelude::*;

verus! {

/// The error of the `url` crate's parser. Nothing is known of its value.
#[verifier::external_type_specification]
#[verifier::external_body]
pub struct ExParseError(url::ParseError);

/// What the `url` crate makes of a text: `None` where it does not parse
/// as an absolute URL, else whether the URL that it parses to has an
/// authority.
pub uninterp spec fn url_authority(text: Seq<char>) -> Option<bool>;

/// Parses `text` as an absolute URL and says whether it has an authority.
///
/// Trusted: the body calls `url::Url::parse` and, on the URL that came
/// back, `Url::has_authority`. Both depend on the text alone; the contract
/// gives their result the name `url_authority` and says no more of it.
#[verifier::external_body]
fn parse_authority(text: &str) -> (parsed: Result<bool, url::ParseError>)
    ensures
        match parsed {
            Ok(has_authority) => url_authority(text@) == Some(has_authority),
            Err(_) => url_authority(text@) is None,
        },
{
    match url::Url::parse(text) {
        Ok(parsed) => Ok(parsed.has_authority()),
        Err(e) => Err(e),
    }
}

/// Why a text is no URL to shorten.
#[derive(Debug, PartialEq, Eq)]
pub enum UrlError {
    /// The text does not parse as an absolute URL.
    Parse(url::ParseError),
    /// The URL has no authority: it is path only, or a data URL.
    NoAuthority,
}

/// Judges a parsed URL: it passes where it has an authority.
pub fn authority_verdict(parsed: Result<bool, url::ParseError>) -> (r: Result<(), UrlError>)
    ensures
        match parsed {
            Ok(has_authority) => if has_authority {
                r is Ok
            } else {
                r == Err::<(), UrlError>(UrlError::NoAuthority)
            },
            Err(e) => r == Err::<(), UrlError>(UrlError::Parse(e)),
        },
{
    match parsed {
        Ok(has_authority) => {
            if has_authority {
                Ok(())
            } else {
                Err(UrlError::NoAuthority)
            }
        },
        Err(e) => Err(UrlError::Parse(e)),
    }
}

/// Checks that `text` is an absolute URL with an authority.
pub fn check_url(text: &str) -> (r: Result<(), UrlError>)
    ensures
        match url_authority(text@) {
            Some(has_authority) => if has_authority {
                r is Ok
            } else {
                r == Err::<(), UrlError>(UrlError::NoAuthority)
            },
            None => r matches Err(UrlError::Parse(_)),
        },
{
    authority_verdict(parse_authority(text))
}

} // verus!
