//! JSON documents, parsed and walked by `serde_json`, and the reading of
//! translations out of them.

use crate::error::Error;
use crate::value::{TranslationValue, TranslationView};
use vstd::prelude::*;

verus! {

/// `serde_json::Value`: a JSON value, of which the proofs see only what
/// the functions below tell.
#[verifier::external_type_specification]
#[verifier::external_body]
pub struct ExValue(serde_json::Value);

/// What `serde_json::from_str` makes of `text`: the document, or the
/// description of the first fault in it.
pub uninterp spec fn json_document(text: Seq<char>) -> Result<serde_json::Value, Seq<char>>;

/// The member `key` of `value`, where `value` is an object that has it.
pub uninterp spec fn json_member(value: serde_json::Value, key: Seq<char>) -> Option<
    serde_json::Value,
>;

/// The elements of `value` in order, where `value` is an array.
pub uninterp spec fn json_items(value: serde_json::Value) -> Option<Seq<serde_json::Value>>;

/// The characters of `value`, where `value` is a string.
pub uninterp spec fn json_text(value: serde_json::Value) -> Option<Seq<char>>;

/// `serde_json::from_str` for a whole document. Parsing depends on the text
/// alone; a fault is handed back as the text that the crate's error displays.
#[verifier::external_body]
pub(crate) fn parse(text: &str) -> (r: Result<serde_json::Value, String>)
    ensures
        match r {
            Ok(document) => json_document(text@) == Ok::<serde_json::Value, Seq<char>>(document),
            Err(fault) => json_document(text@) == Err::<serde_json::Value, Seq<char>>(fault@),
        },
{
    serde_json::from_str::<serde_json::Value>(text).map_err(|fault| fault.to_string())
}

/// `serde_json::Value::get` with a text as index: the member of that name,
/// or nothing where `value` is no object or has no such member.
#[verifier::external_body]
pub(crate) fn member<'a>(value: &'a serde_json::Value, key: &str) -> (r: Option<
    &'a serde_json::Value,
>)
    ensures
        match r {
            Some(found) => json_member(*value, key@) == Some(*found),
            None => json_member(*value, key@) is None,
        },
{
    value.get(key)
}

/// `serde_json::Value::as_array`: the elements, or nothing where `value` is
/// no array.
#[verifier::external_body]
pub(crate) fn items<'a>(value: &'a serde_json::Value) -> (r: Option<&'a Vec<serde_json::Value>>)
    ensures
        match r {
            Some(found) => json_items(*value) == Some(found@),
            None => json_items(*value) is None,
        },
{
    value.as_array()
}

/// `serde_json::Value::as_str`: the characters, or nothing where `value` is
/// no string.
#[verifier::external_body]
pub(crate) fn text<'a>(value: &'a serde_json::Value) -> (r: Option<&'a str>)
    ensures
        match r {
            Some(found) => json_text(*value) == Some(found@),
            None => json_text(*value) is None,
        },
{
    value.as_str()
}

/// `Clone::clone` of `serde_json::Value`: a second value equal to the first.
#[verifier::external_body]
pub(crate) fn duplicate(value: &serde_json::Value) -> (r: serde_json::Value)
    ensures
        r == *value,
{
    value.clone()
}

/// The member `key` of what was found so far, if anything was.
pub open spec fn json_field(value: Option<serde_json::Value>, key: Seq<char>) -> Option<
    serde_json::Value,
> {
    match value {
        Some(inner) => json_member(inner, key),
        None => None,
    }
}

/// The first element of what was found so far, if that is an array with one.
pub open spec fn json_first(value: Option<serde_json::Value>) -> Option<serde_json::Value> {
    match value {
        Some(inner) => match json_items(inner) {
            Some(elements) => if elements.len() > 0 {
                Some(elements[0])
            } else {
                None
            },
            None => None,
        },
        None => None,
    }
}

/// The texts of `elements`, where every one of them is a string.
pub open spec fn json_texts(elements: Seq<serde_json::Value>) -> Option<Seq<Seq<char>>> {
    if forall|i: int| 0 <= i < elements.len() ==> (#[trigger] json_text(elements[i])) is Some {
        Some(Seq::new(elements.len(), |i: int| json_text(elements[i])->Some_0))
    } else {
        None
    }
}

/// The member `key` of each of `elements`, as text, where every element has
/// that member and it is a string.
pub open spec fn json_member_texts(elements: Seq<serde_json::Value>, key: Seq<char>) -> Option<
    Seq<Seq<char>>,
> {
    if forall|i: int|
        0 <= i < elements.len() ==> (#[trigger] json_member(elements[i], key)) is Some
            && json_text(json_member(elements[i], key)->Some_0) is Some {
        Some(
            Seq::new(
                elements.len(),
                |i: int| json_text(json_member(elements[i], key)->Some_0)->Some_0,
            ),
        )
    } else {
        None
    }
}

/// What `value` holds as a translation: a string is one text, an array of
/// strings is a list, and anything else is none.
pub open spec fn json_translation(value: Option<serde_json::Value>) -> Option<TranslationView> {
    match value {
        Some(inner) => match json_text(inner) {
            Some(characters) => Some(TranslationView::Text(characters)),
            None => match json_items(inner) {
                Some(elements) => match json_texts(elements) {
                    Some(texts) => Some(TranslationView::List(texts)),
                    None => None,
                },
                None => None,
            },
        },
        None => None,
    }
}

/// A reading that found nothing is the error `TranslationNotFound`.
pub open spec fn found_or_missing(found: Option<TranslationView>) -> Result<
    TranslationView,
    crate::error::ErrorView,
> {
    match found {
        Some(value) => Ok(value),
        None => Err(crate::error::ErrorView::TranslationNotFound),
    }
}

/// The value behind a reference, if there is one.
pub open spec fn json_found(value: Option<&serde_json::Value>) -> Option<serde_json::Value> {
    match value {
        Some(inner) => Some(*inner),
        None => None,
    }
}

/// The member `key` of what was found so far.
pub fn field<'a>(value: Option<&'a serde_json::Value>, key: &str) -> (r: Option<
    &'a serde_json::Value,
>)
    ensures
        json_found(r) == json_field(json_found(value), key@),
{
    match value {
        Some(inner) => member(inner, key),
        None => None,
    }
}

/// The first element of what was found so far.
pub fn first<'a>(value: Option<&'a serde_json::Value>) -> (r: Option<&'a serde_json::Value>)
    ensures
        json_found(r) == json_first(json_found(value)),
{
    match value {
        Some(inner) => match items(inner) {
            Some(elements) => if elements.len() > 0 {
                Some(&elements[0])
            } else {
                None
            },
            None => None,
        },
        None => None,
    }
}

/// The texts of `elements`, or nothing where one of them is no string.
pub fn texts(elements: &Vec<serde_json::Value>) -> (r: Option<Vec<String>>)
    ensures
        match r {
            Some(found) => json_texts(elements@) == Some(found.deep_view()),
            None => json_texts(elements@) is None,
        },
{
    let mut found: Vec<String> = Vec::new();
    let mut i: usize = 0;
    while i < elements.len()
        invariant
            i <= elements.len(),
            found.len() == i,
            forall|j: int| 0 <= j < i ==> json_text(elements@[j]) == Some(#[trigger] found@[j]@),
        decreases elements.len() - i,
    {
        match text(&elements[i]) {
            Some(characters) => {
                found.push(characters.to_owned());
            },
            None => {
                return None;
            },
        }
        i = i + 1;
    }
    proof {
        assert forall|j: int| 0 <= j < elements@.len() implies (#[trigger] json_text(
            elements@[j],
        )) is Some by {
            assert(json_text(elements@[j]) == Some(found@[j]@));
        }
        assert(json_texts(elements@)->Some_0 =~= found.deep_view()) by {
            assert forall|j: int| 0 <= j < elements@.len() implies json_texts(
                elements@,
            )->Some_0[j] == found.deep_view()[j] by {
                assert(json_text(elements@[j]) == Some(found@[j]@));
            }
        }
    }
    Some(found)
}

/// The member `key` of each of `elements`, as text, or nothing where an
/// element lacks that member or holds no string there.
pub fn member_texts(elements: &Vec<serde_json::Value>, key: &str) -> (r: Option<Vec<String>>)
    ensures
        match r {
            Some(found) => json_member_texts(elements@, key@) == Some(found.deep_view()),
            None => json_member_texts(elements@, key@) is None,
        },
{
    let mut found: Vec<String> = Vec::new();
    let mut i: usize = 0;
    while i < elements.len()
        invariant
            i <= elements.len(),
            found.len() == i,
            forall|j: int|
                0 <= j < i ==> (#[trigger] json_member(elements@[j], key@)) is Some && json_text(
                    json_member(elements@[j], key@)->Some_0,
                ) == Some(found@[j]@),
        decreases elements.len() - i,
    {
        match member(&elements[i], key) {
            Some(inner) => match text(inner) {
                Some(characters) => {
                    found.push(characters.to_owned());
                },
                None => {
                    return None;
                },
            },
            None => {
                return None;
            },
        }
        i = i + 1;
    }
    proof {
        assert(json_member_texts(elements@, key@)->Some_0 =~= found.deep_view()) by {
            assert forall|j: int| 0 <= j < elements@.len() implies json_member_texts(
                elements@,
                key@,
            )->Some_0[j] == found.deep_view()[j] by {
                assert(json_member(elements@[j], key@) is Some);
            }
        }
    }
    Some(found)
}

/// Reads what was found as a translation: a string is one text, an array of
/// strings is a list; anything else, and nothing, is `TranslationNotFound`.
pub fn translation(value: Option<&serde_json::Value>) -> (r: Result<TranslationValue, Error>)
    ensures
        crate::value::outcome_view(r) == found_or_missing(json_translation(json_found(value))),
{
    match value {
        Some(inner) => match text(inner) {
            Some(characters) => Ok(TranslationValue::Text(characters.to_owned())),
            None => match items(inner) {
                Some(elements) => match texts(elements) {
                    Some(found) => Ok(TranslationValue::List(found)),
                    None => Err(Error::TranslationNotFound),
                },
                None => Err(Error::TranslationNotFound),
            },
        },
        None => Err(Error::TranslationNotFound),
    }
}

} // verus!
