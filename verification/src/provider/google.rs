//! Google: a GET to the mobile page, answered in HTML.

use crate::error::{Error, ErrorView};
use crate::markup::{
    document_matches, element_text, html_document, parse_document, select, selector_for, text_of,
};
use crate::request::{push_pair, Body, BodyView, Method, Request, RequestView};
use crate::text::{trim, trimmed};
use crate::value::{outcome_view, TranslationValue, TranslationView};
use vstd::prelude::*;

verus! {

/// The request that asks Google at `base` for `text` from `source` to `target`.
pub open spec fn request_for(
    base: Seq<char>,
    source: Seq<char>,
    target: Seq<char>,
    text: Seq<char>,
) -> RequestView {
    RequestView {
        method: Method::Get,
        url: base,
        query: seq![("sl"@, source), ("tl"@, target), ("q"@, text)],
        headers: Seq::empty(),
        body: BodyView::Empty,
    }
}

/// The pattern of the element that holds the translation.
pub const PRIMARY: &'static str = "div.result-container";

/// The pattern to fall back on.
pub const SECONDARY: &'static str = "div.t0";

/// The selector to use: `primary`, and `secondary` only where `primary` is
/// no selector at all. That `primary` matches nothing is no reason to try
/// `secondary`. Where neither is a selector, the fault is that of
/// `secondary`.
pub open spec fn selector_among(primary: Seq<char>, secondary: Seq<char>) -> Result<
    scraper::Selector,
    ErrorView,
> {
    match selector_for(primary) {
        Ok(chosen) => Ok(chosen),
        Err(_) => selector_for(secondary),
    }
}

/// The trimmed text of the first element of `document` that `selector`
/// matches; without a match no translation was found.
pub open spec fn first_text(document: scraper::Html, selector: scraper::Selector) -> Result<
    TranslationView,
    ErrorView,
> {
    let found = document_matches(document, selector);
    if found.len() > 0 {
        Ok(TranslationView::Text(trimmed(element_text(found[0]))))
    } else {
        Err(ErrorView::TranslationNotFound)
    }
}

/// What the page `body` holds.
pub open spec fn reading(body: Seq<char>) -> Result<TranslationView, ErrorView> {
    match selector_among(PRIMARY@, SECONDARY@) {
        Ok(chosen) => first_text(html_document(body), chosen),
        Err(error) => Err(error),
    }
}

/// Builds the request.
pub fn request(base: &str, source: &str, target: &str, text: &str) -> (r: Request)
    ensures
        r@ == request_for(base@, source@, target@, text@),
{
    let mut query: Vec<(String, String)> = Vec::new();
    push_pair(&mut query, "sl", source);
    push_pair(&mut query, "tl", target);
    push_pair(&mut query, "q", text);
    let r = Request {
        method: Method::Get,
        url: base.to_owned(),
        query,
        headers: Vec::new(),
        body: Body::Empty,
    };
    assert(r@.query =~= request_for(base@, source@, target@, text@).query);
    assert(r@.headers =~= Seq::empty());
    r
}

/// Parses `primary`, and `secondary` where `primary` is no selector.
pub fn choose_selector(primary: &str, secondary: &str) -> (r: Result<scraper::Selector, Error>)
    ensures
        match r {
            Ok(chosen) => selector_among(primary@, secondary@) == Ok::<
                scraper::Selector,
                ErrorView,
            >(chosen),
            Err(error) => selector_among(primary@, secondary@) == Err::<
                scraper::Selector,
                ErrorView,
            >(error@),
        },
{
    match crate::markup::selector(primary) {
        Ok(chosen) => Ok(chosen),
        Err(_) => crate::markup::selector(secondary),
    }
}

/// Reads the translation out of a parsed page with a parsed selector.
pub fn read_first(document: &scraper::Html, selector: &scraper::Selector) -> (r: Result<
    TranslationValue,
    Error,
>)
    ensures
        outcome_view(r) == first_text(*document, *selector),
{
    let found = select(document, selector);
    if found.len() > 0 {
        let whole = text_of(&found[0]);
        Ok(TranslationValue::Text(trim(whole.as_str()).to_owned()))
    } else {
        Err(Error::TranslationNotFound)
    }
}

/// Reads the translation out of the page `body`.
pub fn read(body: &str) -> (r: Result<TranslationValue, Error>)
    ensures
        outcome_view(r) == reading(body@),
{
    let document = parse_document(body);
    match choose_selector(PRIMARY, SECONDARY) {
        Ok(chosen) => read_first(&document, &chosen),
        Err(error) => Err(error),
    }
}

} // verus!
