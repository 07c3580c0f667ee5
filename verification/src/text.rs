//! Texts: appending a character, and escaping a text for an HTML page.

use vstd::prelude::*;
use vstd::string::*;

verus! {

/// Appends a character to a text.
///
/// Trusted: the body calls `String::push` of std, which appends the given
/// character to the end of the string.
#[verifier::external_body]
pub(crate) fn push_char(text: &mut String, c: char)
    ensures
        final(text)@ == old(text)@.push(c),
{
    text.push(c);
}

/// What stands for a character in an HTML page: an entity for each of
/// `&`, `<`, `>`, `"` and `'`, and the character itself for any other.
pub open spec fn escape_char(c: char) -> Seq<char> {
    if c == '&' {
        seq!['&', 'a', 'm', 'p', ';']
    } else if c == '<' {
        seq!['&', 'l', 't', ';']
    } else if c == '>' {
        seq!['&', 'g', 't', ';']
    } else if c == '"' {
        seq!['&', 'q', 'u', 'o', 't', ';']
    } else if c == '\'' {
        seq!['&', '#', '3', '9', ';']
    } else {
        seq![c]
    }
}

/// A text with each of its characters escaped, in order.
pub open spec fn escape_html_spec(text: Seq<char>) -> Seq<char>
    decreases text.len(),
{
    if text.len() == 0 {
        Seq::empty()
    } else {
        escape_html_spec(text.drop_last()) + escape_char(text.last())
    }
}

/// An escaped text holds no `<`, `>`, `"` or `'`: it can stand in the
/// text of a page and in a quoted attribute without ending either.
pub proof fn lemma_escaped_text_is_inert(text: Seq<char>, i: int)
    requires
        0 <= i < escape_html_spec(text).len(),
    ensures
        escape_html_spec(text)[i] != '<',
        escape_html_spec(text)[i] != '>',
        escape_html_spec(text)[i] != '"',
        escape_html_spec(text)[i] != '\'',
    decreases text.len(),
{
    if text.len() > 0 {
        let head = escape_html_spec(text.drop_last());
        if i < head.len() {
            lemma_escaped_text_is_inert(text.drop_last(), i);
        }
    }
}

/// Escapes a text for an HTML page.
pub fn escape_html(text: &str) -> (escaped: String)
    ensures
        escaped@ == escape_html_spec(text@),
{
    let mut escaped = String::new();
    proof {
        reveal_strlit("&amp;");
        reveal_strlit("&lt;");
        reveal_strlit("&gt;");
        reveal_strlit("&quot;");
        reveal_strlit("&#39;");
        assert(text@.take(0) =~= Seq::<char>::empty());
    }
    for c in it: text.chars()
        invariant
            it.seq() == text@,
            "&amp;"@ =~= seq!['&', 'a', 'm', 'p', ';'],
            "&lt;"@ =~= seq!['&', 'l', 't', ';'],
            "&gt;"@ =~= seq!['&', 'g', 't', ';'],
            "&quot;"@ =~= seq!['&', 'q', 'u', 'o', 't', ';'],
            "&#39;"@ =~= seq!['&', '#', '3', '9', ';'],
            escaped@ == escape_html_spec(text@.take(it.index() as int)),
    {
        let ghost before = escaped@;
        assert(text@.take(it.index() + 1).drop_last() =~= text@.take(it.index() as int));
        if c == '&' {
            escaped.append("&amp;");
        } else if c == '<' {
            escaped.append("&lt;");
        } else if c == '>' {
            escaped.append("&gt;");
        } else if c == '"' {
            escaped.append("&quot;");
        } else if c == '\'' {
            escaped.append("&#39;");
        } else {
            push_char(&mut escaped, c);
            assert(escaped@ =~= before + seq![c]);
        }
    }
    assert(text@.take(text@.len() as int) =~= text@);
    escaped
}

} // verus!
