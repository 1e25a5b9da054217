use crate::error::Error;
use crate::text::text_view;
use scraper::{Html, Selector};
use vstd::prelude::*;

verus! {

/// Whether the selector engine takes `selector`: whether `Selector::parse`
/// returns `Ok` for it.
pub uninterp spec fn selector_parses(selector: Seq<char>) -> bool;

/// What `Html::select` finds in `html`, read as a fragment by
/// `Html::parse_fragment`: for each element that matches `selector`, in the
/// order in which the elements are found, the value of its attribute
/// `attribute`, or nothing where the element has no such attribute.
pub uninterp spec fn selected_attributes(
    html: Seq<char>,
    selector: Seq<char>,
    attribute: Seq<char>,
) -> Seq<Option<Seq<char>>>;

/// Calls `Selector::parse` and says whether it accepted the selector.
#[verifier::external_body]
fn parses(selector: &str) -> (r: bool)
    ensures
        r == selector_parses(selector@),
{
    Selector::parse(selector).is_ok()
}

/// Reads `html` with `Html::parse_fragment`, walks the elements that
/// `Html::select` finds for a selector that parses, and copies out what
/// `Element::attr` returns for each.
#[verifier::external_body]
fn select_attributes(html: &str, selector: &str, attribute: &str) -> (r: Vec<
    Option<String>,
>)
    requires
        selector_parses(selector@),
    ensures
        r.deep_view() == selected_attributes(html@, selector@, attribute@),
{
    let selector = Selector::parse(selector).unwrap();
    let fragment = Html::parse_fragment(html);
    fragment.select(&selector).map(|e| e.value().attr(attribute).map(|v| v.to_string())).collect()
}

/// What was selected, where the engine takes the selector.
pub open spec fn selected(html: Seq<char>, selector: Seq<char>, attribute: Seq<char>) -> Result<
    Seq<Option<Seq<char>>>,
    Error,
> {
    if selector_parses(selector) {
        Ok(selected_attributes(html, selector, attribute))
    } else {
        Err(Error::PatternRejected)
    }
}

/// Finds the elements of `html` that match `selector` and hands out, for
/// each, what its attribute `attribute` holds. A selector that the engine
/// refuses is an error.
pub fn select(html: &str, selector: &str, attribute: &str) -> (r: Result<
    Vec<Option<String>>,
    Error,
>)
    ensures
        (match r {
            Ok(found) => Ok(found.deep_view()),
            Err(e) => Err(e),
        }) == selected(html@, selector@, attribute@),
{
    if parses(selector) {
        Ok(select_attributes(html, selector, attribute))
    } else {
        Err(Error::PatternRejected)
    }
}

/// The element that carries the token of the conversion page.
pub const TOKEN_SELECTOR: &'static str = r#"meta[name="csrf-token"]"#;

/// The attribute of that element which holds the token.
pub const TOKEN_ATTRIBUTE: &'static str = "content";

/// The marker that the conversion page shows to a user who is logged in.
pub const LOGIN_SELECTOR: &'static str = ".fa-rocket";

/// The attribute by which the markers are read. Only their number counts.
pub const LOGIN_ATTRIBUTE: &'static str = "class";

/// The token that the token elements of a page give: there must be
/// exactly one element, and it must carry a token.
pub open spec fn token_of(tokens: Seq<Option<Seq<char>>>) -> Option<Seq<char>> {
    if tokens.len() == 1 {
        tokens[0]
    } else {
        None
    }
}

/// The token and the login flag that a selection stands for. The flag is
/// set where there is exactly one marker.
pub open spec fn session_of_selection(tokens: Seq<Option<Seq<char>>>, markers: nat) -> Result<
    (Seq<char>, bool),
    Error,
> {
    match token_of(tokens) {
        Some(token) => Ok((token, markers == 1)),
        None => Err(Error::ProtocolMismatch),
    }
}

/// The token and the login flag that the conversion page holds.
pub open spec fn session_page(html: Seq<char>) -> Result<(Seq<char>, bool), Error> {
    match selected(html, TOKEN_SELECTOR@, TOKEN_ATTRIBUTE@) {
        Err(e) => Err(e),
        Ok(tokens) => match token_of(tokens) {
            None => Err(Error::ProtocolMismatch),
            Some(token) => match selected(html, LOGIN_SELECTOR@, LOGIN_ATTRIBUTE@) {
                Err(e) => Err(e),
                Ok(markers) => Ok((token, markers.len() == 1)),
            },
        },
    }
}

/// A token and a flag, or an error, by the characters of the token.
pub open spec fn session_result_view(r: Result<(String, bool), Error>) -> Result<
    (Seq<char>, bool),
    Error,
> {
    match r {
        Ok((token, logged_in)) => Ok((token@, logged_in)),
        Err(e) => Err(e),
    }
}

/// Picks the token out of what the token elements carry.
pub fn single_token(tokens: &Vec<Option<String>>) -> (r: Option<String>)
    ensures
        text_view(r) == token_of(tokens.deep_view()),
{
    if tokens.len() != 1 {
        return None;
    }
    match &tokens[0] {
        Some(token) => Some(token.clone()),
        None => None,
    }
}

/// Reads the token and the login flag off what was selected from the
/// conversion page: what each token element carries, and the number of
/// login markers.
pub fn read_selection(tokens: &Vec<Option<String>>, markers: usize) -> (r: Result<
    (String, bool),
    Error,
>)
    ensures
        session_result_view(r) == session_of_selection(tokens.deep_view(), markers as nat),
{
    match single_token(tokens) {
        Some(token) => Ok((token, markers == 1)),
        None => Err(Error::ProtocolMismatch),
    }
}

/// Reads the token and the login flag off the conversion page.
pub fn read_session_page(html: &str) -> (r: Result<(String, bool), Error>)
    ensures
        session_result_view(r) == session_page(html@),
{
    let tokens = match select(html, TOKEN_SELECTOR, TOKEN_ATTRIBUTE) {
        Ok(tokens) => tokens,
        Err(e) => {
            return Err(e);
        },
    };
    if single_token(&tokens).is_none() {
        return Err(Error::ProtocolMismatch);
    }
    match select(html, LOGIN_SELECTOR, LOGIN_ATTRIBUTE) {
        Ok(markers) => read_selection(&tokens, markers.len()),
        Err(e) => Err(e),
    }
}

} // verus!
