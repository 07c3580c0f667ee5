//! The shortener that keeps its URLs in memory: a URL's short code is the
//! code of its place in the list.

use crate::short_code::{decode, decode_spec, encode, encode_spec, lemma_decode_encode};
use crate::text::push_char;
use crate::url_check::{check_url, url_authority, UrlError};
use vstd::prelude::*;
use vstd::string::*;

verus! {

/// The place of the first line feed in `text`, or the length of `text`
/// where it has none.
pub open spec fn line_end(text: Seq<char>) -> int
    decreases text.len(),
{
    if text.len() == 0 || text[0] == '\n' {
        0
    } else {
        1 + line_end(text.drop_first())
    }
}

/// The lines of `text`: the pieces between its line feeds. A line feed
/// ends a line, so the text after the last one is a line only where it is
/// not empty, and the empty text has no line.
pub open spec fn split_lines(text: Seq<char>) -> Seq<Seq<char>>
    decreases text.len(),
{
    let end = line_end(text);
    if text.len() == 0 {
        Seq::empty()
    } else if 0 <= end < text.len() {
        seq![text.take(end)] + split_lines(text.skip(end + 1))
    } else {
        seq![text]
    }
}

/// `line_end` is the place of the first line feed.
proof fn lemma_line_end(text: Seq<char>)
    ensures
        0 <= line_end(text) <= text.len(),
        forall|j: int| 0 <= j < line_end(text) ==> text[j] != '\n',
        line_end(text) < text.len() ==> text[line_end(text)] == '\n',
    decreases text.len(),
{
    if text.len() > 0 && text[0] != '\n' {
        let rest = text.drop_first();
        lemma_line_end(rest);
        assert forall|j: int| 0 <= j < line_end(text) implies text[j] != '\n' by {
            if j > 0 {
                assert(text[j] == rest[j - 1]);
            }
        }
    }
}

/// A line that is followed by a line feed is the first line of the text.
proof fn lemma_first_line(line: Seq<char>, rest: Seq<char>)
    requires
        !line.contains('\n'),
    ensures
        split_lines(line + seq!['\n'] + rest) == seq![line] + split_lines(rest),
{
    let text = line + seq!['\n'] + rest;
    lemma_line_end(text);
    let end = line_end(text);
    assert(text[line.len() as int] == '\n');
    if end < line.len() {
        assert(text[end] == line[end]);
        assert(line.contains(line[end]));
    }
    assert(end == line.len());
    assert(text.take(end) =~= line);
    assert(text.skip(end + 1) =~= rest);
}

/// A text without a line feed is one line, or none where it is empty.
proof fn lemma_last_line(line: Seq<char>)
    requires
        !line.contains('\n'),
    ensures
        split_lines(line) == if line.len() == 0 {
            Seq::<Seq<char>>::empty()
        } else {
            seq![line]
        },
{
    lemma_line_end(line);
    let end = line_end(line);
    if end < line.len() {
        assert(line.contains(line[end]));
    }
}

/// The lines written one after the other, each with a line feed after it.
pub open spec fn join_lines(lines: Seq<Seq<char>>) -> Seq<char>
    decreases lines.len(),
{
    if lines.len() == 0 {
        Seq::empty()
    } else {
        lines[0] + seq!['\n'] + join_lines(lines.drop_first())
    }
}

/// What makes the lines of a text: no line holds a line feed, and the
/// lines, each with a line feed after it, are the text again, but for the
/// line feed that the text may lack after its last line.
pub proof fn lemma_split_lines(text: Seq<char>)
    ensures
        forall|i: int|
            0 <= i < split_lines(text).len() ==> !(#[trigger] split_lines(text)[i]).contains('\n'),
        join_lines(split_lines(text)) == if text.len() == 0 || text.last() == '\n' {
            text
        } else {
            text.push('\n')
        },
    decreases text.len(),
{
    if text.len() > 0 {
        lemma_line_end(text);
        let end = line_end(text);
        let lines = split_lines(text);
        if end < text.len() {
            let first = text.take(end);
            let rest = text.skip(end + 1);
            lemma_split_lines(rest);
            assert(lines.drop_first() =~= split_lines(rest));
            assert(text =~= first + seq!['\n'] + rest);
            if rest.len() > 0 {
                assert(text.last() == rest.last());
                assert(first + seq!['\n'] + rest.push('\n') =~= text.push('\n'));
            }
            assert forall|i: int| 0 <= i < lines.len() implies !(#[trigger] lines[i]).contains(
                '\n',
            ) by {
                if i > 0 {
                    assert(lines[i] == split_lines(rest)[i - 1]);
                }
            }
        } else {
            assert(lines.drop_first() =~= Seq::<Seq<char>>::empty());
            assert(join_lines(lines.drop_first()) =~= Seq::<char>::empty());
            assert(text + seq!['\n'] + Seq::<char>::empty() =~= text.push('\n'));
        }
    }
}

/// What loading a shortener gives: the shortener, or the words of the
/// failure to read its URLs.
#[derive(Clone)]
pub enum ShortenerResult {
    Loaded(Shortener),
    Failed(String),
}

/// What a look-up gives: the URL, or nothing.
#[derive(Clone)]
pub enum URLResult {
    Found(String),
    Missing,
}

/// A list of URLs. The short code of a URL is the code of its index.
#[derive(Clone)]
pub struct Shortener {
    pub urls: Vec<String>,
}

/// The URL that a short code stands for in a list of URLs.
pub open spec fn lookup_spec(urls: Seq<Seq<char>>, short_code: Seq<char>) -> Option<Seq<char>> {
    match decode_spec(short_code) {
        Ok(index) => if index < urls.len() {
            Some(urls[index as int])
        } else {
            None
        },
        Err(_) => None,
    }
}

/// The list of all URLs with their short codes: for each URL, in order, a
/// line of its short code, a colon, a space and the URL.
pub open spec fn listing_spec(urls: Seq<Seq<char>>) -> Seq<char>
    decreases urls.len(),
{
    if urls.len() == 0 {
        Seq::empty()
    } else {
        listing_spec(urls.drop_last()) + encode_spec((urls.len() - 1) as nat) + seq![':', ' ']
            + urls.last() + seq!['\n']
    }
}

impl View for Shortener {
    type V = Seq<Seq<char>>;

    open spec fn view(&self) -> Seq<Seq<char>> {
        self.urls@.map_values(|url: String| url@)
    }
}

impl Shortener {
    /// The shortener of the given URLs.
    pub fn new(urls: Vec<String>) -> (s: Shortener)
        ensures
            s.urls == urls,
    {
        Shortener { urls }
    }

    /// Reads a list of URLs, one per line.
    pub fn from_str(url_str: &str) -> (s: Shortener)
        ensures
            s@ == split_lines(url_str@),
    {
        let mut urls: Vec<String> = Vec::new();
        let mut line = String::new();
        assert(line@ + url_str@.skip(0) =~= url_str@);
        for c in it: url_str.chars()
            invariant
                it.seq() == url_str@,
                !line@.contains('\n'),
                urls@.map_values(|url: String| url@) + split_lines(
                    line@ + url_str@.skip(it.index() as int),
                ) == split_lines(url_str@),
        {
            let ghost rest = url_str@.skip(it.index() + 1);
            let ghost done = urls@.map_values(|url: String| url@);
            if c == '\n' {
                proof {
                    lemma_first_line(line@, rest);
                    assert(line@ + url_str@.skip(it.index() as int) =~= line@ + seq!['\n'] + rest);
                }
                let ghost full = line@;
                urls.push(line);
                line = String::new();
                assert(urls@.map_values(|url: String| url@) =~= done.push(full));
            } else {
                let ghost before = line@;
                push_char(&mut line, c);
                assert(line@ + rest =~= before + url_str@.skip(it.index() as int));
                assert forall|j: int| 0 <= j < line@.len() implies line@[j] != '\n' by {
                    if j < before.len() {
                        assert(before.contains(before[j]));
                    }
                }
            }
        }
        proof {
            lemma_last_line(line@);
            assert(line@ + url_str@.skip(url_str@.len() as int) =~= line@);
        }
        if !line.as_str().is_empty() {
            let ghost done = urls@.map_values(|url: String| url@);
            let ghost last = line@;
            urls.push(line);
            assert(urls@.map_values(|url: String| url@) =~= done + seq![last]);
        } else {
            assert(urls@.map_values(|url: String| url@) + Seq::<Seq<char>>::empty()
                =~= urls@.map_values(|url: String| url@));
        }
        Shortener { urls }
    }

    /// Reads a list of URLs from what reading its file gave: the text of
    /// the file, or the words of the failure.
    pub fn from_file(read: Result<String, String>) -> (r: ShortenerResult)
        ensures
            match read {
                Ok(text) => r matches ShortenerResult::Loaded(s) && s@ == split_lines(text@),
                Err(err) => r matches ShortenerResult::Failed(words) && words@ == err@,
            },
    {
        match read {
            Ok(urls) => ShortenerResult::Loaded(Shortener::from_str(urls.as_str())),
            Err(err) => ShortenerResult::Failed(err),
        }
    }

    /// The URL that the short code stands for.
    pub fn get_url(&self, short_code: &str) -> (r: URLResult)
        ensures
            match lookup_spec(self@, short_code@) {
                Some(url) => r matches URLResult::Found(found) && found@ == url,
                None => r is Missing,
            },
    {
        if let Ok(index) = decode(short_code) {
            if index >= self.urls.len() {
                URLResult::Missing
            } else {
                URLResult::Found(self.urls[index].clone())
            }
        } else {
            URLResult::Missing
        }
    }

    /// Appends a URL to the list and gives its short code.
    pub fn push_url(&mut self, url: &str) -> (short_code: String)
        ensures
            final(self)@ == old(self)@.push(url@),
            short_code@ == encode_spec(old(self)@.len()),
            lookup_spec(final(self)@, short_code@) == Some(url@),
    {
        let ghost before = self@;
        let index = self.urls.len();
        self.urls.push(url.to_owned());
        assert(self@ =~= before.push(url@));
        proof {
            lemma_decode_encode(index as nat);
        }
        encode(index)
    }

    /// Adds a URL where it is an absolute URL with an authority, and gives
    /// its short code. Any other text is refused, and the list stays as
    /// it is.
    pub fn add_url(&mut self, url: &str) -> (r: Result<String, UrlError>)
        ensures
            match r {
                Ok(short_code) => url_authority(url@) == Some(true) && final(self)@ == old(
                    self,
                )@.push(url@) && short_code@ == encode_spec(old(self)@.len()),
                Err(UrlError::NoAuthority) => url_authority(url@) == Some(false) && final(self)@
                    == old(self)@,
                Err(UrlError::Parse(_)) => url_authority(url@) is None && final(self)@ == old(
                    self,
                )@,
            },
    {
        match check_url(url) {
            Ok(()) => Ok(self.push_url(url)),
            Err(e) => Err(e),
        }
    }

    /// Lists all URLs with their short codes.
    pub fn list_all(&self) -> (listing: String)
        ensures
            listing@ == listing_spec(self@),
    {
        let mut listing = String::new();
        let mut index: usize = 0;
        proof {
            reveal_strlit(": ");
            reveal_strlit("\n");
        }
        while index < self.urls.len()
            invariant
                0 <= index <= self.urls.len(),
                ": "@ == seq![':', ' '],
                "\n"@ == seq!['\n'],
                listing@ == listing_spec(self@.take(index as int)),
            decreases self.urls.len() - index,
        {
            let ghost after = self@.take(index + 1);
            assert(after.drop_last() =~= self@.take(index as int));
            let short_code = encode(index);
            listing.append(short_code.as_str());
            listing.append(": ");
            listing.append(self.urls[index].as_str());
            listing.append("\n");
            assert(listing@ =~= listing_spec(after));
            index += 1;
        }
        assert(self@.take(self.urls.len() as int) =~= self@);
        listing
    }
}

/// The short code of a place of the list finds the URL at that place.
pub proof fn lemma_code_of_place_finds_url(urls: Seq<Seq<char>>, place: nat)
    requires
        place < urls.len(),
        place <= usize::MAX,
    ensures
        lookup_spec(urls, encode_spec(place)) == Some(urls[place as int]),
{
    lemma_decode_encode(place);
}

/// A URL that was added is found again under the short code that it was
/// given.
pub proof fn lemma_added_url_is_found(urls: Seq<Seq<char>>, url: Seq<char>)
    requires
        urls.len() <= usize::MAX,
    ensures
        lookup_spec(urls.push(url), encode_spec(urls.len())) == Some(url),
{
    lemma_decode_encode(urls.len());
}

/// Adding a URL changes what no short code finds that found a URL before.
pub proof fn lemma_adding_keeps_found_urls(
    urls: Seq<Seq<char>>,
    url: Seq<char>,
    short_code: Seq<char>,
)
    requires
        lookup_spec(urls, short_code) is Some,
    ensures
        lookup_spec(urls.push(url), short_code) == lookup_spec(urls, short_code),
{
}

} // verus!
