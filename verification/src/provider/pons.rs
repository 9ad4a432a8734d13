//! PONS: a POST with a JSON body, answered in JSON.

use crate::error::{Error, ErrorView};
use crate::json::{field, found_or_missing, json_field, json_translation, translation};
use crate::request::{push_text, Body, BodyView, Method, Request, RequestView, ScalarView};
use crate::value::{outcome_view, TranslationValue, TranslationView};
use vstd::prelude::*;

verus! {

/// The request that asks PONS at `base` for `text` from `source` to `target`.
pub open spec fn request_for(
    base: Seq<char>,
    source: Seq<char>,
    target: Seq<char>,
    text: Seq<char>,
) -> RequestView {
    RequestView {
        method: Method::Post,
        url: base,
        query: Seq::empty(),
        headers: Seq::empty(),
        body: BodyView::Json(
            seq![
                ("language1"@, ScalarView::Text(source)),
                ("language2"@, ScalarView::Text(target)),
                ("sourceLanguage"@, ScalarView::Text(source)),
                ("query"@, ScalarView::Text(text)),
                ("locale"@, ScalarView::Text("en"@)),
            ],
        ),
    }
}

/// What PONS's answer holds: the member `translation`.
pub open spec fn reading(document: serde_json::Value) -> Result<TranslationView, ErrorView> {
    found_or_missing(json_translation(json_field(Some(document), "translation"@)))
}

/// Builds the request.
pub fn request(base: &str, source: &str, target: &str, text: &str) -> (r: Request)
    ensures
        r@ == request_for(base@, source@, target@, text@),
{
    let mut body: Vec<(String, crate::request::Scalar)> = Vec::new();
    push_text(&mut body, "language1", source);
    push_text(&mut body, "language2", target);
    push_text(&mut body, "sourceLanguage", source);
    push_text(&mut body, "query", text);
    push_text(&mut body, "locale", "en");
    assert(body.deep_view() =~= request_for(base@, source@, target@, text@).body->Json_0);
    let r = Request {
        method: Method::Post,
        url: base.to_owned(),
        query: Vec::new(),
        headers: Vec::new(),
        body: Body::Json(body),
    };
    assert(r@.query =~= Seq::empty());
    assert(r@.headers =~= Seq::empty());
    r
}

/// Reads the translation out of PONS's answer.
pub fn read(document: &serde_json::Value) -> (r: Result<TranslationValue, Error>)
    ensures
        outcome_view(r) == reading(*document),
{
    translation(field(Some(document), "translation"))
}

} // verus!
