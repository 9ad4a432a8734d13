//! Yandex: a form-encoded POST, answered in JSON.

use crate::error::{Error, ErrorView};
use crate::json::{field, found_or_missing, json_field, json_translation, translation};
use crate::request::{push_pair, Body, BodyView, Method, Request, RequestView};
use crate::value::{outcome_view, TranslationValue, TranslationView};
use vstd::prelude::*;
use vstd::string::StringExecFns;

verus! {

/// The request that asks Yandex at `base` for `text` from `source` to
/// `target`.
pub open spec fn request_for(
    base: Seq<char>,
    api_key: Seq<char>,
    source: Seq<char>,
    target: Seq<char>,
    text: Seq<char>,
) -> RequestView {
    RequestView {
        method: Method::Post,
        url: base,
        query: Seq::empty(),
        headers: Seq::empty(),
        body: BodyView::Form(
            seq![
                ("text"@, text),
                ("format"@, "plain"@),
                ("lang"@, source + "-"@ + target),
                ("key"@, api_key),
            ],
        ),
    }
}

/// What Yandex's answer holds: the member `text`.
pub open spec fn reading(document: serde_json::Value) -> Result<TranslationView, ErrorView> {
    found_or_missing(json_translation(json_field(Some(document), "text"@)))
}

/// Builds the request.
pub fn request(base: &str, api_key: &str, source: &str, target: &str, text: &str) -> (r: Request)
    ensures
        r@ == request_for(base@, api_key@, source@, target@, text@),
{
    let mut pair = source.to_owned();
    pair.append("-");
    pair.append(target);
    let mut form: Vec<(String, String)> = Vec::new();
    push_pair(&mut form, "text", text);
    push_pair(&mut form, "format", "plain");
    push_pair(&mut form, "lang", pair.as_str());
    push_pair(&mut form, "key", api_key);
    assert(form.deep_view() =~= request_for(base@, api_key@, source@, target@, text@).body->Form_0);
    let r = Request {
        method: Method::Post,
        url: base.to_owned(),
        query: Vec::new(),
        headers: Vec::new(),
        body: Body::Form(form),
    };
    assert(r@.query =~= Seq::empty());
    assert(r@.headers =~= Seq::empty());
    r
}

/// Reads the translation out of Yandex's answer.
pub fn read(document: &serde_json::Value) -> (r: Result<TranslationValue, Error>)
    ensures
        outcome_view(r) == reading(*document),
{
    translation(field(Some(document), "text"))
}

} // verus!
