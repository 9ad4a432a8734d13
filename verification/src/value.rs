//! What a translation delivers.

use vstd::prelude::*;

verus! {

/// The result of a translation: one text, or several candidates in the
/// order in which the provider ranked them.
#[derive(Debug, Clone, PartialEq, Eq)]
pub enum TranslationValue {
    Text(String),
    List(Vec<String>),
}

/// The mathematical value of a [`TranslationValue`].
pub enum TranslationView {
    Text(Seq<char>),
    List(Seq<Seq<char>>),
}

impl View for TranslationValue {
    type V = TranslationView;

    open spec fn view(&self) -> TranslationView {
        match self {
            TranslationValue::Text(text) => TranslationView::Text(text@),
            TranslationValue::List(texts) => TranslationView::List(texts.deep_view()),
        }
    }
}

/// The mathematical value of the outcome of a translation.
pub open spec fn outcome_view(
    outcome: Result<TranslationValue, crate::error::Error>,
) -> Result<TranslationView, crate::error::ErrorView> {
    match outcome {
        Ok(value) => Ok(value@),
        Err(error) => Err(error@),
    }
}

} // verus!
