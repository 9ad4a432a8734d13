//! MyMemory: a GET with the language pair and the text in the query,
//! answered in JSON in one of two shapes.

use crate::error::{Error, ErrorView};
use crate::json::{
    field, items, json_field, json_items, json_member_texts, json_text, member_texts, text,
};
use crate::request::{push_pair, Body, BodyView, Method, Request, RequestView};
use crate::value::{outcome_view, TranslationValue, TranslationView};
use vstd::prelude::*;
use vstd::string::StringExecFns;

verus! {

/// The fewest characters that MyMemory takes.
pub const MIN_LENGTH: usize = 1;

/// The most characters that MyMemory takes.
pub const MAX_LENGTH: usize = 500;

/// Whether MyMemory takes a text of that many characters.
pub open spec fn admits(text: Seq<char>) -> bool {
    MIN_LENGTH <= text.len() <= MAX_LENGTH
}

/// The query parameters. The address of the user is one only where it is set.
pub open spec fn query(
    email: Seq<char>,
    source: Seq<char>,
    target: Seq<char>,
    text: Seq<char>,
) -> Seq<(Seq<char>, Seq<char>)> {
    let always = seq![("langpair"@, source + "|"@ + target), ("q"@, text)];
    if email.len() == 0 {
        always
    } else {
        always.push(("de"@, email))
    }
}

/// The request that asks MyMemory at `base` for `text` from `source` to
/// `target`.
pub open spec fn request_for(
    base: Seq<char>,
    email: Seq<char>,
    source: Seq<char>,
    target: Seq<char>,
    text: Seq<char>,
) -> RequestView {
    RequestView {
        method: Method::Get,
        url: base,
        query: query(email, source, target, text),
        headers: Seq::empty(),
        body: BodyView::Empty,
    }
}

/// The text at `responseData.translatedText`, where that is a string.
pub open spec fn direct(document: serde_json::Value) -> Option<Seq<char>> {
    match json_field(json_field(Some(document), "responseData"@), "translatedText"@) {
        Some(value) => json_text(value),
        None => None,
    }
}

/// What the list `matches` delivers: the translation of every match where
/// `return_all` is set, else that of the first match.
pub open spec fn matches_reading(elements: Seq<serde_json::Value>, return_all: bool) -> Result<
    TranslationView,
    ErrorView,
> {
    if return_all {
        match json_member_texts(elements, "translation"@) {
            Some(texts) => Ok(TranslationView::List(texts)),
            None => Err(ErrorView::TranslationNotFound),
        }
    } else if elements.len() > 0 {
        match json_field(Some(elements[0]), "translation"@) {
            Some(value) => match json_text(value) {
                Some(characters) => Ok(TranslationView::Text(characters)),
                None => Err(ErrorView::TranslationNotFound),
            },
            None => Err(ErrorView::TranslationNotFound),
        }
    } else {
        Err(ErrorView::TranslationNotFound)
    }
}

/// What MyMemory's answer holds: the direct translation where there is
/// one, else what the list `matches` delivers.
pub open spec fn reading(document: serde_json::Value, return_all: bool) -> Result<
    TranslationView,
    ErrorView,
> {
    match direct(document) {
        Some(characters) => Ok(TranslationView::Text(characters)),
        None => match json_field(Some(document), "matches"@) {
            Some(list) => match json_items(list) {
                Some(elements) => matches_reading(elements, return_all),
                None => Err(ErrorView::TranslationNotFound),
            },
            None => Err(ErrorView::TranslationNotFound),
        },
    }
}

/// Refuses a text that MyMemory would not take, before anything is sent.
pub fn check_length(text: &str) -> (r: Result<(), Error>)
    ensures
        admits(text@) ==> r is Ok,
        !admits(text@) ==> r == Err::<(), Error>(
            Error::NotValidLength { min: MIN_LENGTH, max: MAX_LENGTH },
        ),
{
    let length: usize = text.unicode_len();
    if length < MIN_LENGTH || length > MAX_LENGTH {
        Err(Error::NotValidLength { min: MIN_LENGTH, max: MAX_LENGTH })
    } else {
        Ok(())
    }
}

/// Builds the request.
pub fn request(base: &str, email: &str, source: &str, target: &str, text: &str) -> (r: Request)
    ensures
        r@ == request_for(base@, email@, source@, target@, text@),
{
    let mut pair = source.to_owned();
    pair.append("|");
    pair.append(target);
    let mut query: Vec<(String, String)> = Vec::new();
    push_pair(&mut query, "langpair", pair.as_str());
    push_pair(&mut query, "q", text);
    if !email.is_empty() {
        push_pair(&mut query, "de", email);
    }
    assert(query.deep_view() =~= self::query(email@, source@, target@, text@));
    let r = Request {
        method: Method::Get,
        url: base.to_owned(),
        query,
        headers: Vec::new(),
        body: Body::Empty,
    };
    assert(r@.headers =~= Seq::empty());
    r
}

/// Reads the translation out of the list `matches`.
pub fn read_matches(elements: &Vec<serde_json::Value>, return_all: bool) -> (r: Result<
    TranslationValue,
    Error,
>)
    ensures
        outcome_view(r) == matches_reading(elements@, return_all),
{
    if return_all {
        match member_texts(elements, "translation") {
            Some(texts) => Ok(TranslationValue::List(texts)),
            None => Err(Error::TranslationNotFound),
        }
    } else if elements.len() > 0 {
        match field(Some(&elements[0]), "translation") {
            Some(value) => match text(value) {
                Some(characters) => Ok(TranslationValue::Text(characters.to_owned())),
                None => Err(Error::TranslationNotFound),
            },
            None => Err(Error::TranslationNotFound),
        }
    } else {
        Err(Error::TranslationNotFound)
    }
}

/// Reads the translation out of MyMemory's answer.
pub fn read(document: &serde_json::Value, return_all: bool) -> (r: Result<TranslationValue, Error>)
    ensures
        outcome_view(r) == reading(*document, return_all),
{
    let found = match field(field(Some(document), "responseData"), "translatedText") {
        Some(value) => text(value),
        None => None,
    };
    match found {
        Some(characters) => Ok(TranslationValue::Text(characters.to_owned())),
        None => match field(Some(document), "matches") {
            Some(list) => match items(list) {
                Some(elements) => read_matches(elements, return_all),
                None => Err(Error::TranslationNotFound),
            },
            None => Err(Error::TranslationNotFound),
        },
    }
}

} // verus!
