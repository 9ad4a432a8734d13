//! Microsoft Translator: a POST with the key in a header and the text in
//! the query, answered with a JSON array.

use crate::error::{Error, ErrorView};
use crate::json::{
    field, first, items, json_field, json_first, json_items, json_member_texts, member_texts,
};
use crate::request::{push_pair, Body, BodyView, Method, Request, RequestView};
use crate::value::{outcome_view, TranslationValue, TranslationView};
use vstd::prelude::*;

verus! {

/// The headers. The region is a header only where one is set.
pub open spec fn headers(api_key: Seq<char>, region: Seq<char>) -> Seq<(Seq<char>, Seq<char>)> {
    let always = seq![
        ("Ocp-Apim-Subscription-Key"@, api_key),
        ("Content-type"@, "application/json"@),
    ];
    if region.len() == 0 {
        always
    } else {
        always.push(("Ocp-Apim-Subscription-Region"@, region))
    }
}

/// The request that asks Microsoft at `base` for `text` from `source` to
/// `target`.
pub open spec fn request_for(
    base: Seq<char>,
    api_key: Seq<char>,
    region: Seq<char>,
    source: Seq<char>,
    target: Seq<char>,
    text: Seq<char>,
) -> RequestView {
    RequestView {
        method: Method::Post,
        url: base,
        query: seq![("from"@, source), ("to"@, target), ("text"@, text)],
        headers: headers(api_key, region),
        body: BodyView::Empty,
    }
}

/// What Microsoft's answer holds: the member `text` of every element of the
/// list `translations` of the first element of the answer, in order.
pub open spec fn reading(document: serde_json::Value) -> Result<TranslationView, ErrorView> {
    match json_field(json_first(Some(document)), "translations"@) {
        Some(list) => match json_items(list) {
            Some(elements) => match json_member_texts(elements, "text"@) {
                Some(texts) => Ok(TranslationView::List(texts)),
                None => Err(ErrorView::TranslationNotFound),
            },
            None => Err(ErrorView::TranslationNotFound),
        },
        None => Err(ErrorView::TranslationNotFound),
    }
}

/// Builds the request.
pub fn request(
    base: &str,
    api_key: &str,
    region: &str,
    source: &str,
    target: &str,
    text: &str,
) -> (r: Request)
    ensures
        r@ == request_for(base@, api_key@, region@, source@, target@, text@),
{
    let mut headers: Vec<(String, String)> = Vec::new();
    push_pair(&mut headers, "Ocp-Apim-Subscription-Key", api_key);
    push_pair(&mut headers, "Content-type", "application/json");
    if !region.is_empty() {
        push_pair(&mut headers, "Ocp-Apim-Subscription-Region", region);
    }
    assert(headers.deep_view() =~= self::headers(api_key@, region@));
    let mut query: Vec<(String, String)> = Vec::new();
    push_pair(&mut query, "from", source);
    push_pair(&mut query, "to", target);
    push_pair(&mut query, "text", text);
    let r = Request { method: Method::Post, url: base.to_owned(), query, headers, body: Body::Empty };
    assert(r@.query =~= request_for(base@, api_key@, region@, source@, target@, text@).query);
    r
}

/// Reads the translations out of Microsoft's answer.
pub fn read(document: &serde_json::Value) -> (r: Result<TranslationValue, Error>)
    ensures
        outcome_view(r) == reading(*document),
{
    match field(first(Some(document)), "translations") {
        Some(list) => match items(list) {
            Some(elements) => match member_texts(elements, "text") {
                Some(texts) => Ok(TranslationValue::List(texts)),
                None => Err(Error::TranslationNotFound),
            },
            None => Err(Error::TranslationNotFound),
        },
        None => Err(Error::TranslationNotFound),
    }
}

} // verus!
