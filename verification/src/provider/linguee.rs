//! Linguee: a GET whose path names the languages and the text, answered in
//! HTML with one link for each dictionary entry.

use crate::error::{Error, ErrorView};
use crate::markup::{
    document_matches, element_matches, element_text, html_document, parse_document, select,
    select_within, selector, selector_for, text_of,
};
use crate::request::{Body, BodyView, Method, Request, RequestView};
use crate::text::{erase, trim, trimmed, without};
use crate::value::{outcome_view, TranslationValue, TranslationView};
use vstd::prelude::*;
use vstd::string::StringExecFns;

verus! {

/// The address of the page for `text` from `source` to `target`.
pub open spec fn address(
    base: Seq<char>,
    source: Seq<char>,
    target: Seq<char>,
    text: Seq<char>,
) -> Seq<char> {
    base + source + "-"@ + target + "/translation/"@ + text + ".html"@
}

/// The request that asks Linguee at `base` for `text` from `source` to
/// `target`: everything is in the path, nothing in the query.
pub open spec fn request_for(
    base: Seq<char>,
    source: Seq<char>,
    target: Seq<char>,
    text: Seq<char>,
) -> RequestView {
    RequestView {
        method: Method::Get,
        url: address(base, source, target, text),
        query: Seq::empty(),
        headers: Seq::empty(),
        body: BodyView::Empty,
    }
}

/// The entry that `link` stands for: its text, without the text of the
/// first pronunciation placeholder inside it where there is one, trimmed.
pub open spec fn entry(link: scraper::ElementRef<'_>, placeholder: scraper::Selector) -> Seq<
    char,
> {
    let whole = element_text(link);
    let inside = element_matches(link, placeholder);
    if inside.len() > 0 {
        trimmed(without(whole, trimmed(element_text(inside[0]))))
    } else {
        trimmed(whole)
    }
}

/// The entries of all `links`, in their order.
pub open spec fn entries(
    links: Seq<scraper::ElementRef<'static>>,
    placeholder: scraper::Selector,
) -> Seq<Seq<char>> {
    Seq::new(links.len(), |i: int| entry(links[i], placeholder))
}

/// What the links of a page deliver: all entries where `return_all` is
/// set, else the first; without any link no translation was found.
pub open spec fn links_reading(
    document: scraper::Html,
    link: scraper::Selector,
    placeholder: scraper::Selector,
    return_all: bool,
) -> Result<TranslationView, ErrorView> {
    let links = document_matches(document, link);
    if links.len() == 0 {
        Err(ErrorView::TranslationNotFound)
    } else if return_all {
        Ok(TranslationView::List(entries(links, placeholder)))
    } else {
        Ok(TranslationView::Text(entry(links[0], placeholder)))
    }
}

/// The pattern of the links that stand for dictionary entries.
pub const LINK: &'static str = "a.dictLink.featured";

/// The pattern of the pronunciation placeholder inside a link.
pub const PLACEHOLDER: &'static str = "span.placeholder";

/// What the page `body` holds for links and placeholders of the given
/// patterns. A pattern that is no selector is an error of its own.
pub open spec fn reading_with(
    body: Seq<char>,
    link: Seq<char>,
    placeholder: Seq<char>,
    return_all: bool,
) -> Result<TranslationView, ErrorView> {
    match selector_for(link) {
        Ok(links) => match selector_for(placeholder) {
            Ok(placeholders) => links_reading(html_document(body), links, placeholders, return_all),
            Err(error) => Err(error),
        },
        Err(error) => Err(error),
    }
}

/// What the page `body` holds.
pub open spec fn reading(body: Seq<char>, return_all: bool) -> Result<TranslationView, ErrorView> {
    reading_with(body, LINK@, PLACEHOLDER@, return_all)
}

/// Builds the request.
pub fn request(base: &str, source: &str, target: &str, text: &str) -> (r: Request)
    ensures
        r@ == request_for(base@, source@, target@, text@),
{
    let mut url = base.to_owned();
    url.append(source);
    url.append("-");
    url.append(target);
    url.append("/translation/");
    url.append(text);
    url.append(".html");
    let r = Request {
        method: Method::Get,
        url,
        query: Vec::new(),
        headers: Vec::new(),
        body: Body::Empty,
    };
    assert(r@.query =~= Seq::empty());
    assert(r@.headers =~= Seq::empty());
    r
}

/// Reads the entry that one link stands for.
pub fn read_entry(link: &scraper::ElementRef<'_>, placeholder: &scraper::Selector) -> (r: String)
    ensures
        r@ == entry(*link, *placeholder),
{
    let whole = text_of(link);
    let inside = select_within(link, placeholder);
    if inside.len() > 0 {
        let pronunciation = text_of(&inside[0]);
        let cleaned = erase(whole.as_str(), trim(pronunciation.as_str()));
        trim(cleaned.as_str()).to_owned()
    } else {
        trim(whole.as_str()).to_owned()
    }
}

/// Reads the translation out of a parsed page with parsed selectors.
pub fn read_links(
    document: &scraper::Html,
    link: &scraper::Selector,
    placeholder: &scraper::Selector,
    return_all: bool,
) -> (r: Result<TranslationValue, Error>)
    ensures
        outcome_view(r) == links_reading(*document, *link, *placeholder, return_all),
{
    let links = select(document, link);
    if links.len() == 0 {
        return Err(Error::TranslationNotFound);
    }
    if !return_all {
        return Ok(TranslationValue::Text(read_entry(&links[0], placeholder)));
    }
    let mut all: Vec<String> = Vec::new();
    let mut i: usize = 0;
    while i < links.len()
        invariant
            i <= links.len(),
            all.len() == i,
            forall|j: int| 0 <= j < i ==> (#[trigger] all@[j])@ == entry(links@[j], *placeholder),
        decreases links.len() - i,
    {
        all.push(read_entry(&links[i], placeholder));
        i = i + 1;
    }
    assert(all.deep_view() =~= entries(links@, *placeholder));
    Ok(TranslationValue::List(all))
}

/// Reads the translation out of the page `body`, with links and
/// placeholders of the given patterns.
pub fn read_with(body: &str, link: &str, placeholder: &str, return_all: bool) -> (r: Result<
    TranslationValue,
    Error,
>)
    ensures
        outcome_view(r) == reading_with(body@, link@, placeholder@, return_all),
{
    let document = parse_document(body);
    match selector(link) {
        Ok(links) => match selector(placeholder) {
            Ok(placeholders) => read_links(&document, &links, &placeholders, return_all),
            Err(error) => Err(error),
        },
        Err(error) => Err(error),
    }
}

/// Reads the translation out of the page `body`.
pub fn read(body: &str, return_all: bool) -> (r: Result<TranslationValue, Error>)
    ensures
        outcome_view(r) == reading(body@, return_all),
{
    read_with(body, LINK, PLACEHOLDER, return_all)
}

} // verus!
