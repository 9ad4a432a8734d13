//! LibreTranslate: a POST with a JSON body, answered in JSON.

use crate::error::{Error, ErrorView};
use crate::json::{field, found_or_missing, json_field, json_translation, translation};
use crate::request::{
    push_count, push_text, Body, BodyView, Method, Request, RequestView, ScalarView,
};
use crate::value::{outcome_view, TranslationValue, TranslationView};
use vstd::prelude::*;

verus! {

/// The members of the body. The key is a member only where one is set.
pub open spec fn members(
    api_key: Seq<char>,
    alternatives: usize,
    source: Seq<char>,
    target: Seq<char>,
    text: Seq<char>,
) -> Seq<(Seq<char>, ScalarView)> {
    let always = seq![
        ("q"@, ScalarView::Text(text)),
        ("source"@, ScalarView::Text(source)),
        ("target"@, ScalarView::Text(target)),
        ("format"@, ScalarView::Text("text"@)),
        ("alternatives"@, ScalarView::Count(alternatives)),
    ];
    if api_key.len() == 0 {
        always
    } else {
        always.push(("api_key"@, ScalarView::Text(api_key)))
    }
}

/// The request that asks the server at `base` for `text` from `source` to
/// `target`.
pub open spec fn request_for(
    base: Seq<char>,
    api_key: Seq<char>,
    alternatives: usize,
    source: Seq<char>,
    target: Seq<char>,
    text: Seq<char>,
) -> RequestView {
    RequestView {
        method: Method::Post,
        url: base,
        query: Seq::empty(),
        headers: Seq::empty(),
        body: BodyView::Json(members(api_key, alternatives, source, target, text)),
    }
}

/// What the server's answer holds: the member `translatedText`.
pub open spec fn reading(document: serde_json::Value) -> Result<TranslationView, ErrorView> {
    found_or_missing(json_translation(json_field(Some(document), "translatedText"@)))
}

/// Builds the request.
pub fn request(
    base: &str,
    api_key: &str,
    alternatives: usize,
    source: &str,
    target: &str,
    text: &str,
) -> (r: Request)
    ensures
        r@ == request_for(base@, api_key@, alternatives, source@, target@, text@),
{
    let mut body: Vec<(String, crate::request::Scalar)> = Vec::new();
    push_text(&mut body, "q", text);
    push_text(&mut body, "source", source);
    push_text(&mut body, "target", target);
    push_text(&mut body, "format", "text");
    push_count(&mut body, "alternatives", alternatives);
    if !api_key.is_empty() {
        push_text(&mut body, "api_key", api_key);
    }
    assert(body.deep_view() =~= members(api_key@, alternatives, source@, target@, text@));
    let r = Request {
        method: Method::Post,
        url: base.to_owned(),
        query: Vec::new(),
        headers: Vec::new(),
        body: Body::Json(body),
    };
    assert(r@.query =~= Seq::empty());
    assert(r@.headers =~= Seq::empty());
    r
}

/// Reads the translation out of the server's answer.
pub fn read(document: &serde_json::Value) -> (r: Result<TranslationValue, Error>)
    ensures
        outcome_view(r) == reading(*document),
{
    translation(field(Some(document), "translatedText"))
}

} // verus!
