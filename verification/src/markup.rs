//! HTML documents and CSS selectors, parsed and matched by `scraper`.

use crate::error::{Error, ErrorView};
use vstd::prelude::*;

verus! {

/// `scraper::Html`: a parsed document, of which the proofs see only what
/// the functions below tell.
#[verifier::external_type_specification]
#[verifier::external_body]
pub struct ExHtml(scraper::Html);

/// `scraper::Selector`: a parsed group of CSS selectors.
#[verifier::external_type_specification]
#[verifier::external_body]
pub struct ExSelector(scraper::Selector);

/// `scraper::ElementRef`: one element of a document, for as long as the
/// document lives.
#[verifier::external_type_specification]
#[verifier::external_body]
pub struct ExElementRef<'a>(scraper::ElementRef<'a>);

/// The document that `scraper::Html::parse_document` builds from `text`.
pub uninterp spec fn html_document(text: Seq<char>) -> scraper::Html;

/// What `scraper::Selector::parse` makes of `pattern`: the selector, or the
/// description of why it is none.
pub uninterp spec fn css_selector(pattern: Seq<char>) -> Result<scraper::Selector, Seq<char>>;

/// The elements of `document` that `selector` matches, in the order in which
/// `scraper::Html::select` yields them.
pub uninterp spec fn document_matches(
    document: scraper::Html,
    selector: scraper::Selector,
) -> Seq<scraper::ElementRef<'static>>;

/// The elements below `element` that `selector` matches, in the order in
/// which `scraper::ElementRef::select` yields them.
pub uninterp spec fn element_matches(
    element: scraper::ElementRef<'_>,
    selector: scraper::Selector,
) -> Seq<scraper::ElementRef<'static>>;

/// The text nodes below `element`, joined in the order in which
/// `scraper::ElementRef::text` yields them.
pub uninterp spec fn element_text(element: scraper::ElementRef<'_>) -> Seq<char>;

/// `scraper::Html::parse_document`. Parsing never fails: whatever the text,
/// a document comes back, and the same text gives the same document.
#[verifier::external_body]
pub(crate) fn parse_document(text: &str) -> (r: scraper::Html)
    ensures
        r == html_document(text@),
{
    scraper::Html::parse_document(text)
}

/// `scraper::Selector::parse`. The outcome depends on the pattern alone; a
/// refusal is handed back as the text that the crate's error displays.
#[verifier::external_body]
fn parse_selector(pattern: &str) -> (r: Result<scraper::Selector, String>)
    ensures
        match r {
            Ok(selector) => css_selector(pattern@) == Ok::<scraper::Selector, Seq<char>>(selector),
            Err(fault) => css_selector(pattern@) == Err::<scraper::Selector, Seq<char>>(fault@),
        },
{
    scraper::Selector::parse(pattern).map_err(|fault| fault.to_string())
}

/// `scraper::Html::select`, with the matching elements collected in the
/// order in which the iterator yields them.
#[verifier::external_body]
pub(crate) fn select<'a>(document: &'a scraper::Html, selector: &scraper::Selector) -> (r: Vec<
    scraper::ElementRef<'a>,
>)
    ensures
        r@ == document_matches(*document, *selector),
{
    document.select(selector).collect()
}

/// `scraper::ElementRef::select`, with the matching descendants collected
/// in the order in which the iterator yields them.
#[verifier::external_body]
pub(crate) fn select_within<'a>(
    element: &scraper::ElementRef<'a>,
    selector: &scraper::Selector,
) -> (r: Vec<scraper::ElementRef<'a>>)
    ensures
        r@ == element_matches(*element, *selector),
{
    element.select(selector).collect()
}

/// `scraper::ElementRef::text`, with the text nodes joined into one text.
#[verifier::external_body]
pub(crate) fn text_of(element: &scraper::ElementRef<'_>) -> (r: String)
    ensures
        r@ == element_text(*element),
{
    element.text().collect()
}

/// The selector that `pattern` is, or the error that holds why it is none.
pub open spec fn selector_for(pattern: Seq<char>) -> Result<scraper::Selector, ErrorView> {
    match css_selector(pattern) {
        Ok(selector) => Ok(selector),
        Err(fault) => Err(ErrorView::MarkupQueryFailure(fault)),
    }
}

/// Parses `pattern` as a selector. A pattern that is no selector is the
/// error `MarkupQueryFailure`, which is never the answer to a selector that
/// only matches nothing.
pub fn selector(pattern: &str) -> (r: Result<scraper::Selector, Error>)
    ensures
        match r {
            Ok(selector) => selector_for(pattern@) == Ok::<scraper::Selector, ErrorView>(selector),
            Err(error) => selector_for(pattern@) == Err::<scraper::Selector, ErrorView>(error@),
        },
{
    match parse_selector(pattern) {
        Ok(selector) => Ok(selector),
        Err(fault) => Err(Error::MarkupQueryFailure(fault)),
    }
}

} // verus!
