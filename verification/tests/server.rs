use k0r::db::{DBError, DBValue, Queries, UrlPostData};
use k0r::response_types::Error;
use k0r::server::{add_url, ignored_short_codes, is_ignored, redirect, redirected, url_added};

fn post(url: &str) -> UrlPostData {
    UrlPostData {
        url: url.to_string(),
        title: Some("title".to_string()),
        description: None,
        key: "K".to_string(),
    }
}

#[test]
fn favicon_is_ignored() {
    assert_eq!(ignored_short_codes(), vec!["favicon.ico"]);
    assert!(is_ignored("favicon.ico"));
    assert!(!is_ignored("favicon"));
    assert!(!is_ignored("favicon.ico "));
    assert!(!is_ignored(""));
    assert!(!is_ignored("1z5"));
}

#[test]
fn redirect_asks_for_the_short_code() {
    assert_eq!(redirect(Some("1z5")), Ok(Queries::GetURL("1z5".to_string())));
    assert_eq!(redirect(Some("zz-not-base36")), Ok(Queries::GetURL("zz-not-base36".to_string())));
}

#[test]
fn redirect_without_a_short_code_asks_for_zero() {
    assert_eq!(redirect(None), Ok(Queries::GetURL("0".to_string())));
}

#[test]
fn redirect_of_an_ignored_code_is_not_found() {
    assert_eq!(redirect(Some("favicon.ico")), Err(Error { status: 404, msg: "Not Found" }));
}

#[test]
fn redirected_gives_the_location() {
    assert_eq!(
        redirected(Ok(DBValue::String("https://example.com".to_string()))),
        Ok("https://example.com".to_string())
    );
}

#[test]
fn invalid_code_surfaces_as_not_found() {
    assert_eq!(redirected(Err(DBError::InvalidCode)), Err(Error::not_found()));
}

#[test]
fn redirected_collapses_invalid_and_missing_to_not_found() {
    let not_found = Err(Error { status: 404, msg: "Not Found" });
    assert_eq!(redirected(Err(DBError::InvalidCode)), not_found);
    assert_eq!(redirected(Err(DBError::NotFound)), not_found);
}

#[test]
fn redirected_shows_a_store_failure_as_a_server_error() {
    let internal = Err(Error { status: 500, msg: "Internal Server Error" });
    assert_eq!(
        redirected(Err(DBError::SqliteError {
            msg: "Could not retrieve URL".to_string(),
            src: "disk I/O error".to_string()
        })),
        internal
    );
    assert_eq!(redirected(Err(DBError::PoolExhausted)), internal);
    assert_eq!(redirected(Err(DBError::InvalidSchema)), internal);
    assert_eq!(redirected(Err(DBError::Unauthorized)), internal);
    assert_eq!(redirected(Ok(DBValue::Number(1))), internal);
    assert_eq!(redirected(Ok(DBValue::Nothing)), internal);
}

#[test]
fn add_url_hands_the_data_on_unchanged() {
    assert_eq!(add_url(post("https://example.com")), Ok(Queries::StoreNewURL(post("https://example.com"))));
    assert_eq!(
        add_url(post("ftp://rms@example.com/a b")),
        Ok(Queries::StoreNewURL(post("ftp://rms@example.com/a b")))
    );
}

#[test]
fn add_url_rejects_what_does_not_parse() {
    let invalid = Err(Error { status: 400, msg: "Invalid URL" });
    assert_eq!(add_url(post("")), invalid);
    assert_eq!(add_url(post("example.com")), invalid);
    assert_eq!(add_url(post("/just/a/path")), invalid);
    assert_eq!(add_url(post("https://")), invalid);
    assert_eq!(add_url(post("https://example.com:99999")), invalid);
}

#[test]
fn add_url_rejects_urls_without_authority() {
    let invalid = Err(Error { status: 400, msg: "Invalid URL, cannot be path only or data URL" });
    assert_eq!(add_url(post("unix:/run/foo.socket")), invalid);
    assert_eq!(add_url(post("data:text/plain,Stuff")), invalid);
    assert_eq!(add_url(post("mailto:someone@example.com")), invalid);
}

#[test]
fn url_added_reports_the_short_code() {
    assert_eq!(
        url_added(Ok(DBValue::String("1z5".to_string()))),
        Ok("{\"status\": \"ok\", \"message\": \"1z5\"}".to_string())
    );
    assert_eq!(
        url_added(Ok(DBValue::String("1".to_string()))),
        Ok("{\"status\": \"ok\", \"message\": \"1\"}".to_string())
    );
}

#[test]
fn unknown_key_is_a_client_error() {
    assert_eq!(url_added(Err(DBError::Unauthorized)), Err(Error { status: 400, msg: "Invalid API key" }));
    assert_eq!(url_added(Err(DBError::Unauthorized)), Err(Error::new("Invalid API key")));
}

#[test]
fn url_added_hides_store_failures() {
    let internal = Err(Error { status: 500, msg: "Internal Server Error" });
    assert_eq!(
        url_added(Err(DBError::SqliteError { msg: "Could not store URL".to_string(), src: "busy".to_string() })),
        internal
    );
    assert_eq!(url_added(Err(DBError::PoolExhausted)), internal);
    assert_eq!(url_added(Err(DBError::InvalidSchema)), internal);
    assert_eq!(url_added(Err(DBError::NotFound)), internal);
    assert_eq!(url_added(Err(DBError::InvalidCode)), internal);
    assert_eq!(url_added(Ok(DBValue::Number(1))), internal);
    assert_eq!(url_added(Ok(DBValue::Nothing)), internal);
}

#[test]
fn url_checked_follows_the_verdict() {
    assert_eq!(
        k0r::server::url_checked(post("anything"), Ok(())),
        Ok(Queries::StoreNewURL(post("anything")))
    );
    assert_eq!(
        k0r::server::url_checked(post("https://example.com"), Err(k0r::url_check::UrlError::NoAuthority)),
        Err(Error { status: 400, msg: "Invalid URL, cannot be path only or data URL" })
    );
    assert_eq!(
        k0r::server::url_checked(
            post("https://example.com"),
            Err(k0r::url_check::UrlError::Parse(url::ParseError::EmptyHost))
        ),
        Err(Error { status: 400, msg: "Invalid URL" })
    );
}
