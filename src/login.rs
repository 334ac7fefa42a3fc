use vstd::prelude::*;
use vstd::string::StringExecFns;

use crate::error::PlayError;
use crate::protocol::is_success_status;

verus! {

/// The value of the attribute `attribute` on the first element of the HTML
/// document `document` that the CSS selector `selector` matches, in the order
/// in which the parser created the document's nodes; `None` where no element matches, the element lacks the attribute,
/// or the selector does not parse.
pub uninterp spec fn selected_attribute(
    document: Seq<char>,
    selector: Seq<char>,
    attribute: Seq<char>,
) -> Option<Seq<char>>;

/// Relies on scraper: `Html::parse_document`, then `Selector::parse`, the first
/// element that `Html::select` yields and its `attr`. The result depends on the
/// three texts alone.
#[verifier::external_body]
fn first_attribute(document: &str, selector: &str, attribute: &str) -> (r: Option<String>)
    ensures
        match r {
            Some(v) => selected_attribute(document@, selector@, attribute@) == Some(v@),
            None => selected_attribute(document@, selector@, attribute@) is None,
        },
{
    let html = scraper::Html::parse_document(document);
    let selector = scraper::Selector::parse(selector).ok()?;
    let element = html.select(&selector).next()?;
    element.value().attr(attribute).map(|v| v.to_string())
}

/// The hidden form field that carries the anti-forgery token.
pub open spec fn token_selector_text() -> Seq<char> {
    "input[name=\"__RequestVerificationToken\"]"@
}

/// The anti-forgery token that a login page holds, if any.
pub open spec fn page_token(page: Seq<char>) -> Option<Seq<char>> {
    selected_attribute(page, token_selector_text(), "value"@)
}

/// Reads the anti-forgery token from the login page: `TokenNotFound` exactly
/// when the page has no such field with a value.
pub fn extract_token(page: &str) -> (r: Result<String, PlayError>)
    ensures
        match r {
            Ok(t) => page_token(page@) == Some(t@),
            Err(e) => e == PlayError::TokenNotFound && page_token(page@) is None,
        },
{
    token_from_field(first_attribute(page, "input[name=\"__RequestVerificationToken\"]", "value"))
}

/// Turns what was found in the token field into the token or `TokenNotFound`.
pub fn token_from_field(field: Option<String>) -> (r: Result<String, PlayError>)
    ensures
        match field {
            Some(t) => r matches Ok(s) && s@ == t@,
            None => r == Err::<String, PlayError>(PlayError::TokenNotFound),
        },
{
    match field {
        Some(t) => Ok(t),
        None => Err(PlayError::TokenNotFound),
    }
}

/// The login form: return URL, user name, password, persistence flag and token,
/// as pairs of field name and value.
pub open spec fn login_form_fields(
    username: Seq<char>,
    password: Seq<char>,
    token: Seq<char>,
) -> Seq<(Seq<char>, Seq<char>)> {
    seq![
        ("ReturnUrl"@, "/home"@),
        ("UserName"@, username),
        ("Password"@, password),
        ("IsPersistent"@, "true"@),
        ("__RequestVerificationToken"@, token),
    ]
}

pub open spec fn pairs_view(v: Seq<(String, String)>) -> Seq<(Seq<char>, Seq<char>)> {
    v.map_values(|p: (String, String)| (p.0@, p.1@))
}

pub fn login_form(username: &str, password: &str, token: &str) -> (r: Vec<(String, String)>)
    ensures
        pairs_view(r@) == login_form_fields(username@, password@, token@),
{
    let mut r: Vec<(String, String)> = Vec::new();
    r.push((String::from_str("ReturnUrl"), String::from_str("/home")));
    r.push((String::from_str("UserName"), String::from_str(username)));
    r.push((String::from_str("Password"), String::from_str(password)));
    r.push((String::from_str("IsPersistent"), String::from_str("true")));
    r.push((String::from_str("__RequestVerificationToken"), String::from_str(token)));
    assert(pairs_view(r@) =~= login_form_fields(username@, password@, token@));
    r
}

/// The login succeeded exactly when the form was answered with a success status.
pub fn login_outcome(status: u16) -> (r: Result<(), PlayError>)
    ensures
        r is Ok <==> is_success_status(status),
        r matches Err(e) ==> e == PlayError::AuthenticationFailed,
{
    if 200 <= status && status < 300 {
        Ok(())
    } else {
        Err(PlayError::AuthenticationFailed)
    }
}

} // verus!
