use ntex_demos::index_page::{
    greeting_page, render_index, IndexError, CONTENT_TYPE, LASTNAME_PARAM, NAME_PARAM,
};

const WELCOME: &str = "<!DOCTYPE html><html><head><meta charset=\"utf-8\"><title>Actix \
     web</title></head><body><h1 id=\"welcome\" \
     class=\"welcome\">Welcome!</h1><div><h3>What is your name?</h3><form>Name: \
     <input type=\"text\" name=\"name\"><br>Last name: <input type=\"text\" \
     name=\"lastname\"><br><p><input type=\"submit\"></p></form></div></body></html>";

#[test]
fn test() {
    assert_eq!(CONTENT_TYPE, "text/html; charset=utf-8");

    // "/"
    let page = render_index(None, None).unwrap();
    assert_eq!(page, WELCOME);

    // "/?name=foo&lastname=bar"
    let page = render_index(Some("foo"), Some("bar")).unwrap();
    assert_eq!(
        page,
        "<!DOCTYPE html><html><head><meta charset=\"utf-8\"><title>Actix \
         web</title></head><body><h1>Hi, foo bar!</h1><p id=\"hi\" \
         class=\"welcome\">Welcome</p></body></html>"
    );

    // "/?name=foo"
    let err = render_index(Some("foo"), None).unwrap_err();
    assert_eq!(err, IndexError::MissingLastName);
    assert_eq!(err.message(), "Some error message");

    // "/?lastname=bar"
    let page = render_index(None, Some("bar")).unwrap();
    assert_eq!(page, WELCOME);
}

#[test]
fn parameter_names() {
    assert_eq!(NAME_PARAM, "name");
    assert_eq!(LASTNAME_PARAM, "lastname");
}

#[test]
fn names_are_escaped() {
    let page = render_index(Some("<b>Tom & \"Jo\"</b>"), Some("O'Neil")).unwrap();
    assert!(page.contains(
        "<h1>Hi, &lt;b&gt;Tom &amp; &quot;Jo&quot;&lt;&#x2f;b&gt; O&#x27;Neil!</h1>"
    ));
    assert!(!page.contains("<b>"));
}

#[test]
fn non_ascii_names_are_kept() {
    let page = render_index(Some("Zoë"), Some("Łukasz")).unwrap();
    assert!(page.contains("<h1>Hi, Zoë Łukasz!</h1>"));
}

#[test]
fn empty_names_still_greet() {
    let page = render_index(Some(""), Some("")).unwrap();
    assert!(page.contains("<h1>Hi,  !</h1>"));
}

#[test]
fn greeting_page_takes_text_as_given() {
    let page = greeting_page("&lt;a", "b");
    assert!(page.contains("<h1>Hi, &lt;a b!</h1>"));
}

#[test]
fn escaped_names_hold_no_markup() {
    let page = render_index(Some("a/b<c>'d\""), Some("&")).unwrap();
    let start = page.find("<h1>Hi, ").unwrap() + "<h1>Hi, ".len();
    let end = page.find("!</h1>").unwrap();
    let names = &page[start..end];
    assert_eq!(names, "a&#x2f;b&lt;c&gt;&#x27;d&quot; &amp;");
    assert!(!names.contains(|c| matches!(c, '<' | '>' | '"' | '\'' | '/')));
}
