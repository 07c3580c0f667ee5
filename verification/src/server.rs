//! What the HTTP boundary decides: which query a request leads to, and
//! which response the query's answer leads to. The boundary itself, which
//! receives the request and sends the response, is not part of this
//! library.

use crate::db::{DBError, DBValue, Queries, QueriesView, UrlPostData};
use crate::response_types::Error;
use crate::url_check::{check_url, url_authority, UrlError};
use vstd::prelude::*;
use vstd::string::*;

verus! {

/// The short code that a request without one stands for.
pub const DEFAULT_SHORT_CODE: &'static str = "0";

pub const INVALID_URL: &'static str = "Invalid URL";

pub const INVALID_URL_NO_AUTHORITY: &'static str = "Invalid URL, cannot be path only or data URL";

pub const INVALID_API_KEY: &'static str = "Invalid API key";

/// Common, unsolicited queries by browsers that should be ignored
pub open spec fn ignored_short_codes_spec() -> Seq<Seq<char>> {
    seq!["favicon.ico"@]
}

/// Common, unsolicited queries by browsers that should be ignored
pub fn ignored_short_codes() -> (codes: Vec<&'static str>)
    ensures
        codes@.map_values(|c: &'static str| c@) == ignored_short_codes_spec(),
{
    let mut codes: Vec<&'static str> = Vec::new();
    codes.push("favicon.ico");
    assert(codes@.map_values(|c: &'static str| c@) =~= ignored_short_codes_spec());
    codes
}

/// Whether the short code is one of the ignored ones.
pub fn is_ignored(short_code: &str) -> (ignored: bool)
    ensures
        ignored == ignored_short_codes_spec().contains(short_code@),
{
    let codes = ignored_short_codes();
    let wanted = short_code.to_owned();
    let mut i: usize = 0;
    while i < codes.len()
        invariant
            0 <= i <= codes.len(),
            wanted@ == short_code@,
            codes@.map_values(|c: &'static str| c@) == ignored_short_codes_spec(),
            forall|j: int| 0 <= j < i ==> ignored_short_codes_spec()[j] != short_code@,
        decreases codes.len() - i,
    {
        let code = codes[i].to_owned();
        assert(codes@.map_values(|c: &'static str| c@)[i as int] == code@);
        if code == wanted {
            return true;
        }
        i += 1;
    }
    false
}

/// The short code of a request: the one in its path, or `0` where the
/// path names none.
pub open spec fn requested_code(short_code: Option<&str>) -> Seq<char> {
    match short_code {
        Some(code) => code@,
        None => DEFAULT_SHORT_CODE@,
    }
}

/// Shortcode handler, `GET /1z5`: the query to run for the short code of
/// the request. An ignored short code is not found, and nothing is asked
/// of the database.
pub fn redirect(short_code: Option<&str>) -> (r: Result<Queries, Error>)
    ensures
        match r {
            Ok(q) => !ignored_short_codes_spec().contains(requested_code(short_code)) && q@
                == QueriesView::GetURL(requested_code(short_code)),
            Err(e) => ignored_short_codes_spec().contains(requested_code(short_code)) && e.status
                == 404 && e.msg@ == "Not Found"@,
        },
{
    let short_code = match short_code {
        Some(code) => code,
        None => DEFAULT_SHORT_CODE,
    };
    if is_ignored(short_code) {
        Err(Error::not_found())
    } else {
        Ok(Queries::GetURL(short_code.to_owned()))
    }
}

/// The answer to a shortcode request once the database has answered: the
/// URL to redirect to; not found for a malformed short code and for a
/// missing record alike; an internal error, without the store's words, for
/// anything else.
pub fn redirected(result: Result<DBValue, DBError>) -> (r: Result<String, Error>)
    ensures
        match result {
            Ok(DBValue::String(url)) => r matches Ok(location) && location@ == url@,
            Err(DBError::InvalidCode) | Err(DBError::NotFound) => r matches Err(e) && e.status
                == 404 && e.msg@ == "Not Found"@,
            _ => r matches Err(e) && e.status == 500 && e.msg@ == "Internal Server Error"@,
        },
{
    match result {
        Ok(DBValue::String(url)) => Ok(url),
        Err(DBError::InvalidCode) => Err(Error::not_found()),
        Err(DBError::NotFound) => Err(Error::not_found()),
        _ => Err(Error::internal()),
    }
}

/// The query to run for posted data whose URL has been checked: the data
/// is handed on unchanged where the URL passed, and refused with the
/// reason where it did not.
pub fn url_checked(data: UrlPostData, verdict: Result<(), UrlError>) -> (r: Result<Queries, Error>)
    ensures
        match verdict {
            Ok(_) => r matches Ok(q) && q@ == QueriesView::StoreNewURL(data@),
            Err(UrlError::NoAuthority) => r matches Err(e) && e.status == 400 && e.msg@
                == INVALID_URL_NO_AUTHORITY@,
            Err(UrlError::Parse(_)) => r matches Err(e) && e.status == 400 && e.msg@
                == INVALID_URL@,
        },
{
    match verdict {
        Ok(()) => Ok(Queries::StoreNewURL(data)),
        Err(UrlError::NoAuthority) => Err(Error::new(INVALID_URL_NO_AUTHORITY)),
        Err(UrlError::Parse(_)) => Err(Error::new(INVALID_URL)),
    }
}

/// URL Post Handler, `POST /`: the query to run for the posted data. The
/// URL must parse and have an authority; the data is handed on unchanged.
pub fn add_url(data: UrlPostData) -> (r: Result<Queries, Error>)
    ensures
        match url_authority(data.url@) {
            Some(has_authority) => if has_authority {
                r matches Ok(q) && q@ == QueriesView::StoreNewURL(data@)
            } else {
                r matches Err(e) && e.status == 400 && e.msg@ == INVALID_URL_NO_AUTHORITY@
            },
            None => r matches Err(e) && e.status == 400 && e.msg@ == INVALID_URL@,
        },
{
    let verdict = check_url(data.url.as_str());
    url_checked(data, verdict)
}

/// The body that reports the short code of a stored URL.
pub open spec fn created_body(code: Seq<char>) -> Seq<char> {
    "{\"status\": \"ok\", \"message\": \""@ + code + "\"}"@
}

/// The answer to a posted URL once the database has answered: the body
/// that reports the new short code; a client error for an unknown API
/// key; an internal error for anything else.
pub fn url_added(result: Result<DBValue, DBError>) -> (r: Result<String, Error>)
    ensures
        match result {
            Ok(DBValue::String(code)) => r matches Ok(body) && body@ == created_body(code@),
            Err(DBError::Unauthorized) => r matches Err(e) && e.status == 400 && e.msg@
                == INVALID_API_KEY@,
            _ => r matches Err(e) && e.status == 500 && e.msg@ == "Internal Server Error"@,
        },
{
    match result {
        Ok(DBValue::String(code)) => {
            let mut body = "{\"status\": \"ok\", \"message\": \"".to_owned();
            body.append(code.as_str());
            body.append("\"}");
            Ok(body)
        },
        Err(DBError::Unauthorized) => Err(Error::new(INVALID_API_KEY)),
        _ => Err(Error::internal()),
    }
}

} // verus!
