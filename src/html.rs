//! HTML escaping of text placed into a page.
use vstd::prelude::*;

verus! {

/// What one character becomes inside HTML text: the six characters that can
/// open markup, end an attribute or close a tag become entities.
pub open spec fn escaped_char(c: char) -> Seq<char> {
    if c == '<' {
        seq!['&', 'l', 't', ';']
    } else if c == '>' {
        seq!['&', 'g', 't', ';']
    } else if c == '&' {
        seq!['&', 'a', 'm', 'p', ';']
    } else if c == '"' {
        seq!['&', 'q', 'u', 'o', 't', ';']
    } else if c == '\'' {
        seq!['&', '#', 'x', '2', '7', ';']
    } else if c == '/' {
        seq!['&', '#', 'x', '2', 'f', ';']
    } else {
        seq![c]
    }
}

/// `s` with each character replaced by its escaped form.
pub open spec fn html_escaped(s: Seq<char>) -> Seq<char>
    decreases s.len(),
{
    if s.len() == 0 {
        Seq::empty()
    } else {
        html_escaped(s.drop_last()) + escaped_char(s.last())
    }
}

/// Whether `c` is one of the characters that escaping replaces.
pub open spec fn is_markup_char(c: char) -> bool {
    c == '<' || c == '>' || c == '&' || c == '"' || c == '\'' || c == '/'
}

/// Escaped text can neither open nor close a tag, nor end an attribute:
/// no `<`, `>`, `"`, `'` or `/` is left in it.
pub proof fn lemma_escaped_has_no_markup(s: Seq<char>)
    ensures
        forall|i: int|
            0 <= i < html_escaped(s).len() ==> {
                let c = #[trigger] html_escaped(s)[i];
                c != '<' && c != '>' && c != '"' && c != '\'' && c != '/'
            },
    decreases s.len(),
{
    if s.len() > 0 {
        lemma_escaped_has_no_markup(s.drop_last());
        let head = html_escaped(s.drop_last());
        let tail = escaped_char(s.last());
        assert forall|i: int| 0 <= i < html_escaped(s).len() implies {
            let c = #[trigger] html_escaped(s)[i];
            c != '<' && c != '>' && c != '"' && c != '\'' && c != '/'
        } by {
            if i >= head.len() {
                assert(html_escaped(s)[i] == tail[i - head.len()]);
            } else {
                assert(html_escaped(s)[i] == head[i]);
            }
        }
    }
}

/// Text with none of the replaced characters is left as it is.
pub proof fn lemma_plain_text_unchanged(s: Seq<char>)
    requires
        forall|i: int| 0 <= i < s.len() ==> !is_markup_char(#[trigger] s[i]),
    ensures
        html_escaped(s) == s,
    decreases s.len(),
{
    if s.len() > 0 {
        let init = s.drop_last();
        assert forall|i: int| 0 <= i < init.len() implies !is_markup_char(#[trigger] init[i]) by {
            assert(init[i] == s[i]);
        }
        lemma_plain_text_unchanged(init);
        assert(!is_markup_char(s[s.len() - 1]));
        assert(html_escaped(s) =~= s);
    }
}

/// Relies on v_htmlescape::escape, the escaping that yarte applies to each
/// `{{ ... }}` of an HTML template: its table maps `<`, `>`, `&`, `"`, `'` and
/// `/` to entities and copies every other byte.
#[verifier::external_body]
pub(crate) fn escape_html(s: &str) -> (r: String)
    ensures
        r@ == html_escaped(s@),
{
    v_htmlescape::escape(s).to_string()
}

} // verus!
