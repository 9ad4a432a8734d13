//! The one error taxonomy that every failure of a translation is mapped to.

use crate::text::{decimal, decimal_text};
use vstd::prelude::*;
use vstd::string::StringExecFns;

verus! {

/// Why a translation could not be delivered.
#[derive(Debug, Clone, PartialEq, Eq)]
pub enum Error {
    /// The provider signalled that its request quota is used up.
    TooManyRequests,
    /// The provider answered with a status other than 200; holds that status.
    Response(u16),
    /// The text is outside the length range that the provider accepts.
    NotValidLength { min: usize, max: usize },
    /// The name does not belong to any supported provider; holds the name.
    EngineNotSupported(String),
    /// The provider answered 200, but no translation could be read from it.
    TranslationNotFound,
    /// The exchange with the provider failed below HTTP, or its body could
    /// not be decoded; holds the transport's description.
    TransportFailure(String),
    /// A markup selector could not be parsed; holds the parser's description.
    MarkupQueryFailure(String),
    /// A local file could not be read; holds the system's description.
    IOFailure(String),
}

/// The mathematical value of an [`Error`].
pub enum ErrorView {
    TooManyRequests,
    Response(u16),
    NotValidLength { min: usize, max: usize },
    EngineNotSupported(Seq<char>),
    TranslationNotFound,
    TransportFailure(Seq<char>),
    MarkupQueryFailure(Seq<char>),
    IOFailure(Seq<char>),
}

impl View for Error {
    type V = ErrorView;

    open spec fn view(&self) -> ErrorView {
        match self {
            Error::TooManyRequests => ErrorView::TooManyRequests,
            Error::Response(status) => ErrorView::Response(*status),
            Error::NotValidLength { min, max } => ErrorView::NotValidLength { min: *min, max: *max },
            Error::EngineNotSupported(name) => ErrorView::EngineNotSupported(name@),
            Error::TranslationNotFound => ErrorView::TranslationNotFound,
            Error::TransportFailure(what) => ErrorView::TransportFailure(what@),
            Error::MarkupQueryFailure(what) => ErrorView::MarkupQueryFailure(what@),
            Error::IOFailure(what) => ErrorView::IOFailure(what@),
        }
    }
}

impl ErrorView {
    /// The sentence that describes the error to a reader.
    pub open spec fn message(self) -> Seq<char> {
        match self {
            ErrorView::TooManyRequests => "Server Error: You made too many requests to the server. According to google, you are allowed to make 5 requests per second and up to 200k requests per day. You can wait and try again later or you can try the translate_batch function"@,
            ErrorView::Response(status) => "Request exception can happen due to an api connection error ("@
                + decimal(status as nat) + ")."@,
            ErrorView::NotValidLength { min, max } => "Text length need to be between "@ + decimal(
                min as nat,
            ) + " and "@ + decimal(max as nat) + " characters"@,
            ErrorView::EngineNotSupported(name) => "Translator "@ + name
                + " is not supported.\nSupported translators: `deepl`, `google`, `libre`, `linguee`, `microsoft`, `mymemory`, `papago`, `pons`, `qcri`, `yandex`."@,
            ErrorView::TranslationNotFound => "No translation was found using the current translator. Try another translator?"@,
            ErrorView::TransportFailure(what) => what,
            ErrorView::MarkupQueryFailure(what) => what,
            ErrorView::IOFailure(what) => what,
        }
    }
}

impl Error {
    /// The sentence that describes the error to a reader.
    pub fn message(&self) -> (r: String)
        ensures
            r@ == self@.message(),
    {
        match self {
            Error::TooManyRequests => "Server Error: You made too many requests to the server. According to google, you are allowed to make 5 requests per second and up to 200k requests per day. You can wait and try again later or you can try the translate_batch function".to_owned(),
            Error::Response(status) => {
                let mut r = "Request exception can happen due to an api connection error (".to_owned();
                r.append(decimal_text(*status as usize).as_str());
                r.append(").");
                r
            },
            Error::NotValidLength { min, max } => {
                let mut r = "Text length need to be between ".to_owned();
                r.append(decimal_text(*min).as_str());
                r.append(" and ");
                r.append(decimal_text(*max).as_str());
                r.append(" characters");
                r
            },
            Error::EngineNotSupported(name) => {
                let mut r = "Translator ".to_owned();
                r.append(name.as_str());
                r.append(
                    " is not supported.\nSupported translators: `deepl`, `google`, `libre`, `linguee`, `microsoft`, `mymemory`, `papago`, `pons`, `qcri`, `yandex`.",
                );
                r
            },
            Error::TranslationNotFound => "No translation was found using the current translator. Try another translator?".to_owned(),
            Error::TransportFailure(what) => what.clone(),
            Error::MarkupQueryFailure(what) => what.clone(),
            Error::IOFailure(what) => what.clone(),
        }
    }
}

} // verus!
