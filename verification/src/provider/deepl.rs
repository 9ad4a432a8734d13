//! DeepL: a GET with the key and the text in the query, answered in JSON.

use crate::error::{Error, ErrorView};
use crate::json::{field, first, found_or_missing, json_field, json_first, json_translation, translation};
use crate::request::{push_pair, Body, BodyView, Method, Request, RequestView};
use crate::value::{outcome_view, TranslationValue, TranslationView};
use vstd::prelude::*;

verus! {

/// The request that asks DeepL at `base` for `text` from `source` to `target`.
pub open spec fn request_for(
    base: Seq<char>,
    api_key: Seq<char>,
    source: Seq<char>,
    target: Seq<char>,
    text: Seq<char>,
) -> RequestView {
    RequestView {
        method: Method::Get,
        url: base,
        query: seq![
            ("auth_key"@, api_key),
            ("source_lang"@, source),
            ("target_lang"@, target),
            ("text"@, text),
        ],
        headers: Seq::empty(),
        body: BodyView::Empty,
    }
}

/// What DeepL's answer holds: the member `text` of the first element of
/// `translations`.
pub open spec fn reading(document: serde_json::Value) -> Result<TranslationView, ErrorView> {
    found_or_missing(
        json_translation(
            json_field(json_first(json_field(Some(document), "translations"@)), "text"@),
        ),
    )
}

/// Builds the request.
pub fn request(base: &str, api_key: &str, source: &str, target: &str, text: &str) -> (r: Request)
    ensures
        r@ == request_for(base@, api_key@, source@, target@, text@),
{
    let mut query: Vec<(String, String)> = Vec::new();
    push_pair(&mut query, "auth_key", api_key);
    push_pair(&mut query, "source_lang", source);
    push_pair(&mut query, "target_lang", target);
    push_pair(&mut query, "text", text);
    let r = Request {
        method: Method::Get,
        url: base.to_owned(),
        query,
        headers: Vec::new(),
        body: Body::Empty,
    };
    assert(r@.query =~= request_for(base@, api_key@, source@, target@, text@).query);
    assert(r@.headers =~= Seq::empty());
    r
}

/// Reads the translation out of DeepL's answer.
pub fn read(document: &serde_json::Value) -> (r: Result<TranslationValue, Error>)
    ensures
        outcome_view(r) == reading(*document),
{
    translation(field(first(field(Some(document), "translations")), "text"))
}

} // verus!
