//! What each page renders: the template to use and the values handed to it.

use vstd::prelude::*;
use vstd::string::StringExecFns;
use axum_csrf::{CsrfError, CsrfToken};

verus! {

#[verifier::external_type_specification]
#[verifier::external_body]
pub struct ExCsrfToken(axum_csrf::CsrfToken);

#[verifier::external_type_specification]
#[verifier::external_body]
pub struct ExCsrfError(axum_csrf::CsrfError);

/// A value handed to a template.
pub enum ContextValue {
    Text(String),
    List(Vec<String>),
}

/// A template's name and the named values it is rendered with, in order.
pub struct PageContext {
    pub template: String,
    pub entries: Vec<(String, ContextValue)>,
}

/// The entry is named `key` and holds the text `value`.
pub open spec fn is_text_entry(e: (String, ContextValue), key: Seq<char>, value: Seq<char>) -> bool {
    &&& e.0@ == key
    &&& match e.1 {
        ContextValue::Text(t) => t@ == value,
        ContextValue::List(_) => false,
    }
}

/// The entry is named `key` and holds the list of texts `values`.
pub open spec fn is_list_entry(e: (String, ContextValue), key: Seq<char>, values: Seq<Seq<char>>) -> bool {
    &&& e.0@ == key
    &&& match e.1 {
        ContextValue::Text(_) => false,
        ContextValue::List(v) => v@.map_values(|s: String| s@) == values,
    }
}

fn text_entry(key: &str, value: &str) -> (r: (String, ContextValue))
    ensures
        is_text_entry(r, key@, value@),
{
    (String::from_str(key), ContextValue::Text(String::from_str(value)))
}

/// The home page: a title and a welcome text.
pub fn home_page() -> (r: PageContext)
    ensures
        r.template@ == "home"@,
        r.entries@.len() == 2,
        is_text_entry(r.entries@[0], "title"@, "Home"@),
        is_text_entry(r.entries@[1], "welcome_text"@, "Hello World!"@),
{
    let mut entries = Vec::new();
    entries.push(text_entry("title", "Home"));
    entries.push(text_entry("welcome_text", "Hello World!"));
    PageContext { template: String::from_str("home"), entries }
}

/// The entries shown on the content page.
pub open spec fn content_items() -> Seq<Seq<char>> {
    seq!["Data 1"@, "Data 2"@, "Data 3"@]
}

/// The content page: a title and a list of entries.
pub fn content_page() -> (r: PageContext)
    ensures
        r.template@ == "content"@,
        r.entries@.len() == 2,
        is_text_entry(r.entries@[0], "title"@, "Content"@),
        is_list_entry(r.entries@[1], "entries"@, content_items()),
{
    let mut items = Vec::new();
    items.push(String::from_str("Data 1"));
    items.push(String::from_str("Data 2"));
    items.push(String::from_str("Data 3"));
    assert(items@.map_values(|s: String| s@) =~= content_items());
    let mut entries = Vec::new();
    entries.push(text_entry("title", "Content"));
    entries.push((String::from_str("entries"), ContextValue::List(items)));
    PageContext { template: String::from_str("content"), entries }
}

/// The about page: a title and a short description.
pub fn about_page() -> (r: PageContext)
    ensures
        r.template@ == "about"@,
        r.entries@.len() == 2,
        is_text_entry(r.entries@[0], "title"@, "About"@),
        is_text_entry(
            r.entries@[1],
            "about_text"@,
            "Simple demonstration layout for an axum project with minijinja as templating engine."@,
        ),
{
    let mut entries = Vec::new();
    entries.push(text_entry("title", "About"));
    entries.push(
        text_entry(
            "about_text",
            "Simple demonstration layout for an axum project with minijinja as templating engine.",
        ),
    );
    PageContext { template: String::from_str("about"), entries }
}

/// The page with the form that posts a name, rendered without values.
pub fn validation_page() -> (r: PageContext)
    ensures
        r.template@ == "validation"@,
        r.entries@.len() == 0,
{
    PageContext { template: String::from_str("validation"), entries: Vec::new() }
}

/// The page with a form protected against cross-site request forgery: a
/// title and the authenticity token the form must send back.
pub fn csrf_page(authenticity_token: &str) -> (r: PageContext)
    ensures
        r.template@ == "csrf"@,
        r.entries@.len() == 2,
        is_text_entry(r.entries@[0], "title"@, "Csrf"@),
        is_text_entry(r.entries@[1], "authenticity_token"@, authenticity_token@),
{
    let mut entries = Vec::new();
    entries.push(text_entry("title", "Csrf"));
    entries.push(text_entry("authenticity_token", authenticity_token));
    PageContext { template: String::from_str("csrf"), entries }
}

/// Relies on `CsrfToken::authenticity_token`: the token that a form must
/// send back, an HMAC of the session's token keyed by the configured salt,
/// encoded in base64. HMAC takes a key of any length, so the call succeeds.
#[verifier::external_body]
fn derive_authenticity_token(token: &CsrfToken) -> (r: Result<String, CsrfError>)
    ensures
        r is Ok,
{
    token.authenticity_token()
}

/// The CSRF page for the session whose token is `token`: it always
/// succeeds, and carries the authenticity token derived from `token`, as
/// `csrf_page` lays it out.
pub fn csrf_page_for(token: &CsrfToken) -> (r: Result<PageContext, CsrfError>)
    ensures
        r is Ok,
        r matches Ok(p) ==> p.template@ == "csrf"@ && p.entries@.len() == 2 && is_text_entry(
            p.entries@[0],
            "title"@,
            "Csrf"@,
        ) && p.entries@[1].0@ == "authenticity_token"@ && p.entries@[1].1 is Text,
{
    match derive_authenticity_token(token) {
        Ok(t) => Ok(csrf_page(t.as_str())),
        Err(e) => Err(e),
    }
}

/// The heading that greets `name`.
pub fn greeting(name: &str) -> (r: String)
    ensures
        r@ == "<h1>Hello, "@ + name@ + "!</h1>"@,
{
    let mut r = String::from_str("<h1>Hello, ");
    r.append(name);
    r.append("!</h1>");
    r
}

/// The answer to a submitted authenticity token.
pub open spec fn csrf_answer(valid: bool) -> Seq<char> {
    if valid {
        "Token is Valid lets do stuff!"@
    } else {
        "Token is invalid"@
    }
}

/// The answer to a submitted authenticity token, given whether it matched.
pub fn csrf_verdict(valid: bool) -> (r: &'static str)
    ensures
        r@ == csrf_answer(valid),
{
    if valid {
        "Token is Valid lets do stuff!"
    } else {
        "Token is invalid"
    }
}

/// Relies on `CsrfToken::verify`, which succeeds when the submitted token is
/// the authenticity token derived from the session's own token.
#[verifier::external_body]
fn token_matches(token: &CsrfToken, submitted: &str) -> bool {
    token.verify(submitted).is_ok()
}

/// Checks a submitted authenticity token against the session's token and
/// answers with one of the two verdicts.
pub fn check_authenticity(token: &CsrfToken, submitted: &str) -> (r: &'static str)
    ensures
        r@ == csrf_answer(true) || r@ == csrf_answer(false),
{
    csrf_verdict(token_matches(token, submitted))
}

} // verus!
