//! Papago: a form-encoded POST with the credentials in headers, answered
//! in JSON.

use crate::error::{Error, ErrorView};
use crate::json::{field, found_or_missing, json_field, json_translation, translation};
use crate::request::{push_pair, Body, BodyView, Method, Request, RequestView};
use crate::value::{outcome_view, TranslationValue, TranslationView};
use vstd::prelude::*;

verus! {

/// The request that asks Papago at `base` for `text` from `source` to
/// `target`.
pub open spec fn request_for(
    base: Seq<char>,
    client_id: Seq<char>,
    secret_key: Seq<char>,
    source: Seq<char>,
    target: Seq<char>,
    text: Seq<char>,
) -> RequestView {
    RequestView {
        method: Method::Post,
        url: base,
        query: Seq::empty(),
        headers: seq![
            ("X-Naver-Client-Id"@, client_id),
            ("X-Naver-Client-Secret"@, secret_key),
            ("Content-Type"@, "application/x-www-form-urlencoded; charset=UTF-8"@),
        ],
        body: BodyView::Form(seq![("source"@, source), ("target"@, target), ("text"@, text)]),
    }
}

/// What Papago's answer holds: `message.result.translatedText`.
pub open spec fn reading(document: serde_json::Value) -> Result<TranslationView, ErrorView> {
    found_or_missing(
        json_translation(
            json_field(
                json_field(json_field(Some(document), "message"@), "result"@),
                "translatedText"@,
            ),
        ),
    )
}

/// Builds the request.
pub fn request(
    base: &str,
    client_id: &str,
    secret_key: &str,
    source: &str,
    target: &str,
    text: &str,
) -> (r: Request)
    ensures
        r@ == request_for(base@, client_id@, secret_key@, source@, target@, text@),
{
    let mut headers: Vec<(String, String)> = Vec::new();
    push_pair(&mut headers, "X-Naver-Client-Id", client_id);
    push_pair(&mut headers, "X-Naver-Client-Secret", secret_key);
    push_pair(&mut headers, "Content-Type", "application/x-www-form-urlencoded; charset=UTF-8");
    let mut form: Vec<(String, String)> = Vec::new();
    push_pair(&mut form, "source", source);
    push_pair(&mut form, "target", target);
    push_pair(&mut form, "text", text);
    let ghost wanted = request_for(base@, client_id@, secret_key@, source@, target@, text@);
    assert(headers.deep_view() =~= wanted.headers);
    assert(form.deep_view() =~= wanted.body->Form_0);
    let r = Request {
        method: Method::Post,
        url: base.to_owned(),
        query: Vec::new(),
        headers,
        body: Body::Form(form),
    };
    assert(r@.query =~= Seq::empty());
    r
}

/// Reads the translation out of Papago's answer.
pub fn read(document: &serde_json::Value) -> (r: Result<TranslationValue, Error>)
    ensures
        outcome_view(r) == reading(*document),
{
    translation(field(field(field(Some(document), "message"), "result"), "translatedText"))
}

} // verus!
