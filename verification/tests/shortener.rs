use k0r::shortener::{Shortener, ShortenerResult, URLResult};
use k0r::url_check::UrlError;

fn found(result: URLResult) -> Option<String> {
    match result {
        URLResult::Found(url) => Some(url),
        URLResult::Missing => None,
    }
}

fn lines(text: &str) -> Vec<String> {
    Shortener::from_str(text).urls
}

#[test]
fn new_keeps_the_urls() {
    let s = Shortener::new(vec!["a".to_string(), "b".to_string()]);
    assert_eq!(s.urls, vec!["a", "b"]);
}

#[test]
fn from_str_splits_lines() {
    assert_eq!(lines("https://a.example\nhttps://b.example"), vec!["https://a.example", "https://b.example"]);
}

#[test]
fn from_str_of_the_empty_text_has_no_url() {
    assert_eq!(lines(""), Vec::<String>::new());
}

#[test]
fn from_str_takes_a_final_line_feed_as_the_end_of_a_line() {
    assert_eq!(lines("a\nb\n"), vec!["a", "b"]);
    assert_eq!(lines("a\n"), vec!["a"]);
    assert_eq!(lines("a"), vec!["a"]);
}

#[test]
fn from_str_keeps_empty_lines() {
    assert_eq!(lines("\n"), vec![""]);
    assert_eq!(lines("\n\n"), vec!["", ""]);
    assert_eq!(lines("a\n\nb"), vec!["a", "", "b"]);
    assert_eq!(lines("a\n\n"), vec!["a", ""]);
    assert_eq!(lines("\na"), vec!["", "a"]);
}

#[test]
fn from_str_keeps_carriage_returns_and_other_text() {
    assert_eq!(lines("a\r\nb"), vec!["a\r", "b"]);
    assert_eq!(lines("\u{e9}t\u{e9}\n\u{1f600}"), vec!["\u{e9}t\u{e9}", "\u{1f600}"]);
}

#[test]
fn from_str_agrees_with_split_terminator() {
    for text in ["", "\n", "a", "a\n", "\na", "a\nb", "a\n\n\nb\n", "\n\n\n", "x\ny\nz", " \n \n"] {
        let want: Vec<String> = text.split_terminator('\n').map(|s| s.to_owned()).collect();
        assert_eq!(lines(text), want, "{:?}", text);
    }
}

#[test]
fn from_file_loads_the_text() {
    match Shortener::from_file(Ok("a\nb\n".to_string())) {
        ShortenerResult::Loaded(s) => assert_eq!(s.urls, vec!["a", "b"]),
        ShortenerResult::Failed(words) => panic!("{}", words),
    }
}

#[test]
fn from_file_hands_the_failure_on() {
    match Shortener::from_file(Err("No such file or directory (os error 2)".to_string())) {
        ShortenerResult::Loaded(_) => panic!("loaded"),
        ShortenerResult::Failed(words) => assert_eq!(words, "No such file or directory (os error 2)"),
    }
}

#[test]
fn get_url_by_short_code() {
    let mut urls: Vec<String> = Vec::new();
    let mut i = 0;
    while i < 40 {
        urls.push(format!("https://example.com/{}", i));
        i += 1;
    }
    let s = Shortener::new(urls);
    assert_eq!(found(s.get_url("0")), Some("https://example.com/0".to_string()));
    assert_eq!(found(s.get_url("a")), Some("https://example.com/10".to_string()));
    assert_eq!(found(s.get_url("z")), Some("https://example.com/35".to_string()));
    assert_eq!(found(s.get_url("10")), Some("https://example.com/36".to_string()));
    assert_eq!(found(s.get_url("13")), Some("https://example.com/39".to_string()));
    assert_eq!(found(s.get_url("3")), Some("https://example.com/3".to_string()));
    assert_eq!(found(s.get_url("003")), None);
}

#[test]
fn get_url_beyond_the_list_is_missing() {
    let s = Shortener::from_str("a\nb");
    assert_eq!(found(s.get_url("2")), None);
    assert_eq!(found(s.get_url("zz")), None);
    assert_eq!(found(Shortener::new(Vec::new()).get_url("0")), None);
}

#[test]
fn get_url_of_a_malformed_code_is_missing() {
    let s = Shortener::from_str("a\nb");
    assert_eq!(found(s.get_url("")), None);
    assert_eq!(found(s.get_url("zz-not-base36")), None);
    assert_eq!(found(s.get_url("A")), None);
    assert_eq!(found(s.get_url("zzzzzzzzzzzzzzzzzzzzzz")), None);
}

#[test]
fn add_url_gives_the_code_of_the_place() {
    let mut s = Shortener::new(Vec::new());
    assert_eq!(s.add_url("https://example.com"), Ok("0".to_string()));
    assert_eq!(s.add_url("https://example.org"), Ok("1".to_string()));
    assert_eq!(s.urls, vec!["https://example.com", "https://example.org"]);
    assert_eq!(found(s.get_url("1")), Some("https://example.org".to_string()));
}

#[test]
fn add_url_keeps_the_text_as_given() {
    let mut s = Shortener::new(Vec::new());
    assert_eq!(s.add_url("HTTPS://Example.COM/a b"), Ok("0".to_string()));
    assert_eq!(s.urls, vec!["HTTPS://Example.COM/a b"]);
}

#[test]
fn add_url_refuses_and_leaves_the_list() {
    let mut s = Shortener::from_str("https://example.com");
    assert_eq!(s.add_url("data:text/plain,Stuff"), Err(UrlError::NoAuthority));
    assert_eq!(s.add_url("unix:/run/foo.socket"), Err(UrlError::NoAuthority));
    assert_eq!(s.add_url("not a url"), Err(UrlError::Parse(url::ParseError::RelativeUrlWithoutBase)));
    assert_eq!(s.urls, vec!["https://example.com"]);
}

#[test]
fn push_url_appends_without_a_check() {
    let mut s = Shortener::from_str("a\nb");
    assert_eq!(s.push_url("not a url"), "2");
    assert_eq!(s.urls, vec!["a", "b", "not a url"]);
}

#[test]
fn added_urls_get_distinct_codes_and_are_found() {
    let mut s = Shortener::new(Vec::new());
    let mut codes: Vec<String> = Vec::new();
    let mut i = 0;
    while i < 200 {
        let code = s.add_url(&format!("https://example.com/{}", i)).unwrap();
        assert!(!codes.contains(&code));
        codes.push(code);
        i += 1;
    }
    assert_eq!(codes[36], "10");
    for (i, code) in codes.iter().enumerate() {
        assert_eq!(found(s.get_url(code)), Some(format!("https://example.com/{}", i)));
    }
}

#[test]
fn list_all_lists_codes_and_urls() {
    assert_eq!(Shortener::new(Vec::new()).list_all(), "");
    assert_eq!(Shortener::from_str("https://a.example\nhttps://b.example").list_all(), "0: https://a.example\n1: https://b.example\n");
    let mut urls: Vec<String> = Vec::new();
    let mut i = 0;
    while i < 37 {
        urls.push("u".to_string());
        i += 1;
    }
    let listing = Shortener::new(urls).list_all();
    assert!(listing.ends_with("z: u\n10: u\n"));
    assert_eq!(listing.lines().count(), 37);
}
