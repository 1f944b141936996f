//! The index page: a greeting when the visitor gave both names, a form that
//! asks for them when no first name was given.
use vstd::prelude::*;
use crate::html::{escape_html, html_escaped};

verus! {

/// Media type of the index page.
pub const CONTENT_TYPE: &'static str = "text/html; charset=utf-8";

/// Query parameter that carries the first name.
pub const NAME_PARAM: &'static str = "name";

/// Query parameter that carries the last name.
pub const LASTNAME_PARAM: &'static str = "lastname";

/// The page that asks for a name.
pub const WELCOME_HTML: &'static str = "<!DOCTYPE html><html><head><meta charset=\"utf-8\"><title>Actix web</title></head><body><h1 id=\"welcome\" class=\"welcome\">Welcome!</h1><div><h3>What is your name?</h3><form>Name: <input type=\"text\" name=\"name\"><br>Last name: <input type=\"text\" name=\"lastname\"><br><p><input type=\"submit\"></p></form></div></body></html>";

/// The greeting page up to the first name.
pub const GREETING_HEAD: &'static str = "<!DOCTYPE html><html><head><meta charset=\"utf-8\"><title>Actix web</title></head><body><h1>Hi, ";

/// The greeting page after the last name.
pub const GREETING_TAIL: &'static str = "!</h1><p id=\"hi\" class=\"welcome\">Welcome</p></body></html>";

/// Why the index page could not be rendered.
#[derive(Debug, Clone, Copy, PartialEq, Eq)]
pub enum IndexError {
    /// A first name was given without a last name.
    MissingLastName,
}

impl IndexError {
    /// The body sent with the failure response.
    pub fn message(&self) -> (r: &'static str)
        ensures
            r@ == "Some error message"@,
    {
        "Some error message"
    }
}

/// The greeting page around two pieces of HTML text.
pub open spec fn greeting_of(name_html: Seq<char>, lastname_html: Seq<char>) -> Seq<char> {
    GREETING_HEAD@ + name_html + seq![' '] + lastname_html + GREETING_TAIL@
}

/// What the index page is for the given query parameters.
pub open spec fn index_of(name: Option<Seq<char>>, lastname: Option<Seq<char>>) -> Result<
    Seq<char>,
    IndexError,
> {
    match (name, lastname) {
        (None, _) => Ok(WELCOME_HTML@),
        (Some(_), None) => Err(IndexError::MissingLastName),
        (Some(n), Some(l)) => Ok(greeting_of(html_escaped(n), html_escaped(l))),
    }
}

/// The view of an optional string argument.
pub open spec fn opt_view(s: Option<&str>) -> Option<Seq<char>> {
    match s {
        Some(t) => Some(t@),
        None => None,
    }
}

/// The view of a rendering result.
pub open spec fn result_view(r: Result<String, IndexError>) -> Result<Seq<char>, IndexError> {
    match r {
        Ok(p) => Ok(p@),
        Err(e) => Err(e),
    }
}

/// Builds the greeting page from names that are already HTML text.
pub fn greeting_page(name_html: &str, lastname_html: &str) -> (r: String)
    ensures
        r@ == greeting_of(name_html@, lastname_html@),
{
    let mut page = String::from_str(GREETING_HEAD);
    page.append(name_html);
    page.append(" ");
    page.append(lastname_html);
    page.append(GREETING_TAIL);
    proof {
        reveal_strlit(" ");
        assert(page@ =~= greeting_of(name_html@, lastname_html@));
    }
    page
}

/// Renders the index page for the query parameters `name` and `lastname`:
/// the form when no first name is given, a failure when only the first name
/// is, and otherwise a greeting with both names escaped as HTML text.
pub fn render_index(name: Option<&str>, lastname: Option<&str>) -> (r: Result<String, IndexError>)
    ensures
        result_view(r) == index_of(opt_view(name), opt_view(lastname)),
{
    match name {
        None => Ok(String::from_str(WELCOME_HTML)),
        Some(n) => match lastname {
            None => Err(IndexError::MissingLastName),
            Some(l) => {
                let n_html = escape_html(n);
                let l_html = escape_html(l);
                Ok(greeting_page(n_html.as_str(), l_html.as_str()))
            },
        },
    }
}

} // verus!
