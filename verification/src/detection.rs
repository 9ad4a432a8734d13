//! Detection of the language of a text: what is asked of the detector and
//! what is read from its answer.

use crate::error::{Error, ErrorView};
use crate::json::{
    duplicate, field, first, items, json_document, json_field, json_first, json_found, json_items,
    parse,
};
use crate::request::{push_pair, push_text, Body, BodyView, Method, Reply, ReplyView, Request, RequestView, ScalarView};
use crate::translator::exchange_view;
use vstd::prelude::*;
use vstd::string::StringExecFns;

verus! {

/// The text handed to the detector: one text, or several in order.
#[derive(Debug, Clone, PartialEq, Eq)]
pub enum QText {
    Str(String),
    ListStr(Vec<String>),
}

/// The mathematical value of a [`QText`].
pub enum QTextView {
    Str(Seq<char>),
    ListStr(Seq<Seq<char>>),
}

impl View for QText {
    type V = QTextView;

    open spec fn view(&self) -> QTextView {
        match self {
            QText::Str(value) => QTextView::Str(value@),
            QText::ListStr(value) => QTextView::ListStr(value.deep_view()),
        }
    }
}

impl QTextView {
    /// Whether there is nothing to detect: no character, or no text.
    pub open spec fn is_empty(self) -> bool {
        match self {
            QTextView::Str(value) => value.len() == 0,
            QTextView::ListStr(value) => value.len() == 0,
        }
    }
}

impl QText {
    /// Whether there is nothing to detect: no character, or no text.
    pub fn is_empty(&self) -> (r: bool)
        ensures
            r == self@.is_empty(),
    {
        match self {
            QText::Str(value) => value.as_str().is_empty(),
            QText::ListStr(value) => value.len() == 0,
        }
    }
}

impl From<String> for QText {
    fn from(value: String) -> (r: QText) {
        QText::Str(value)
    }
}

impl vstd::std_specs::convert::FromSpecImpl<String> for QText {
    open spec fn obeys_from_spec() -> bool {
        true
    }

    open spec fn from_spec(value: String) -> QText {
        QText::Str(value)
    }
}

impl From<Vec<String>> for QText {
    fn from(value: Vec<String>) -> (r: QText) {
        QText::ListStr(value)
    }
}

impl vstd::std_specs::convert::FromSpecImpl<Vec<String>> for QText {
    open spec fn obeys_from_spec() -> bool {
        true
    }

    open spec fn from_spec(value: Vec<String>) -> QText {
        QText::ListStr(value)
    }
}

/// What `{:?}` prints for a list of texts: the texts in quotes, with what
/// must be escaped written as an escape, between square brackets.
pub uninterp spec fn list_debug(texts: Seq<Seq<char>>) -> Seq<char>;

/// `format!` with `{:?}` on a list of texts. What it prints depends on the
/// texts alone.
#[verifier::external_body]
fn debug_text(texts: &Vec<String>) -> (r: String)
    ensures
        r@ == list_debug(texts.deep_view()),
{
    format!("{:?}", texts)
}

impl QTextView {
    /// The text as it is sent to the detector: one text as it is, several
    /// as a list printed for debugging.
    pub open spec fn text(self) -> Seq<char> {
        match self {
            QTextView::Str(value) => value,
            QTextView::ListStr(value) => list_debug(value),
        }
    }
}

impl QText {
    /// The text as it is sent to the detector.
    pub fn text(&self) -> (r: String)
        ensures
            r@ == self@.text(),
    {
        match self {
            QText::Str(value) => value.clone(),
            QText::ListStr(value) => debug_text(value),
        }
    }
}

/// The request that asks the detector for the language of `text` on behalf
/// of the holder of `api_key`.
pub open spec fn request_for(text: QTextView, api_key: Seq<char>) -> RequestView {
    RequestView {
        method: Method::Post,
        url: "https://ws.detectlanguage.com/0.2/detect"@,
        query: Seq::empty(),
        headers: seq![("User-Agent"@, "Bearer "@ + api_key)],
        body: BodyView::Json(seq![("q"@, ScalarView::Text(text.text()))]),
    }
}

/// What one detection delivers: the whole of it where `detailed` is set,
/// else its member `language`. Nothing stands for a place that the answer
/// does not have.
pub open spec fn detection_reading(detection: Option<serde_json::Value>, detailed: bool) -> Option<
    serde_json::Value,
> {
    if detailed {
        detection
    } else {
        json_field(detection, "language"@)
    }
}

/// What the answer to one text delivers: the first of `data.detections`.
pub open spec fn single_reading(document: serde_json::Value, detailed: bool) -> Option<
    serde_json::Value,
> {
    detection_reading(
        json_first(json_field(json_field(Some(document), "data"@), "detections"@)),
        detailed,
    )
}

/// What the lists of detections deliver, one for each text: the first
/// detection of each.
pub open spec fn batch_readings(lists: Seq<serde_json::Value>, detailed: bool) -> Seq<
    Option<serde_json::Value>,
> {
    Seq::new(lists.len(), |i: int| detection_reading(json_first(Some(lists[i])), detailed))
}

/// What the answer to several texts delivers: `data.detections` holds one
/// list for each text. An answer without that list is an error.
pub open spec fn batch_reading(document: serde_json::Value, detailed: bool) -> Result<
    Seq<Option<serde_json::Value>>,
    ErrorView,
> {
    match json_field(json_field(Some(document), "data"@), "detections"@) {
        Some(detections) => match json_items(detections) {
            Some(lists) => Ok(batch_readings(lists, detailed)),
            None => Err(ErrorView::TranslationNotFound),
        },
        None => Err(ErrorView::TranslationNotFound),
    }
}

/// The document in what the transport handed back. The detector's status
/// is not looked at; a body that is no JSON counts as a failed transport.
pub open spec fn answer(exchange: Result<ReplyView, Seq<char>>) -> Result<
    serde_json::Value,
    ErrorView,
> {
    match exchange {
        Ok(reply) => match json_document(reply.body) {
            Ok(document) => Ok(document),
            Err(fault) => Err(ErrorView::TransportFailure(fault)),
        },
        Err(what) => Err(ErrorView::TransportFailure(what)),
    }
}

/// Builds the request. The detector serves no one without a key, and there
/// must be something to detect.
pub fn request(text: &QText, api_key: &str) -> (r: Request)
    requires
        api_key@.len() > 0,
        !text@.is_empty(),
    ensures
        r@ == request_for(text@, api_key@),
{
    let mut bearer = "Bearer ".to_owned();
    bearer.append(api_key);
    let mut headers: Vec<(String, String)> = Vec::new();
    push_pair(&mut headers, "User-Agent", bearer.as_str());
    let mut body: Vec<(String, crate::request::Scalar)> = Vec::new();
    push_text(&mut body, "q", text.text().as_str());
    let ghost wanted = request_for(text@, api_key@);
    assert(headers.deep_view() =~= wanted.headers);
    assert(body.deep_view() =~= wanted.body->Json_0);
    let r = Request {
        method: Method::Post,
        url: "https://ws.detectlanguage.com/0.2/detect".to_owned(),
        query: Vec::new(),
        headers,
        body: Body::Json(body),
    };
    assert(r@.query =~= Seq::empty());
    r
}

/// Parses what the transport handed back.
pub fn read_answer(exchange: Result<Reply, String>) -> (r: Result<serde_json::Value, Error>)
    ensures
        match r {
            Ok(document) => answer(exchange_view(exchange)) == Ok::<serde_json::Value, ErrorView>(
                document,
            ),
            Err(error) => answer(exchange_view(exchange)) == Err::<serde_json::Value, ErrorView>(
                error@,
            ),
        },
{
    match exchange {
        Ok(reply) => match parse(reply.body.as_str()) {
            Ok(document) => Ok(document),
            Err(fault) => Err(Error::TransportFailure(fault)),
        },
        Err(what) => Err(Error::TransportFailure(what)),
    }
}

/// Reads one detection.
pub fn read_detection(detection: Option<&serde_json::Value>, detailed: bool) -> (r: Option<
    serde_json::Value,
>)
    ensures
        r == detection_reading(json_found(detection), detailed),
{
    let found = if detailed {
        detection
    } else {
        field(detection, "language")
    };
    match found {
        Some(value) => Some(duplicate(value)),
        None => None,
    }
}

/// Reads the detection for one text out of the detector's answer.
pub fn read_single(document: &serde_json::Value, detailed: bool) -> (r: Option<serde_json::Value>)
    ensures
        r == single_reading(*document, detailed),
{
    read_detection(first(field(field(Some(document), "data"), "detections")), detailed)
}

/// Reads the detections for several texts out of the detector's answer.
pub fn read_batch(document: &serde_json::Value, detailed: bool) -> (r: Result<
    Vec<Option<serde_json::Value>>,
    Error,
>)
    ensures
        match r {
            Ok(found) => batch_reading(*document, detailed) == Ok::<
                Seq<Option<serde_json::Value>>,
                ErrorView,
            >(found@),
            Err(error) => batch_reading(*document, detailed) == Err::<
                Seq<Option<serde_json::Value>>,
                ErrorView,
            >(error@),
        },
{
    match field(field(Some(document), "data"), "detections") {
        Some(detections) => match items(detections) {
            Some(lists) => {
                let mut found: Vec<Option<serde_json::Value>> = Vec::new();
                let mut i: usize = 0;
                while i < lists.len()
                    invariant
                        i <= lists.len(),
                        found.len() == i,
                        forall|j: int|
                            0 <= j < i ==> #[trigger] found@[j] == detection_reading(
                                json_first(Some(lists@[j])),
                                detailed,
                            ),
                    decreases lists.len() - i,
                {
                    found.push(read_detection(first(Some(&lists[i])), detailed));
                    i = i + 1;
                }
                assert(found@ =~= batch_readings(lists@, detailed));
                Ok(found)
            },
            None => Err(Error::TranslationNotFound),
        },
        None => Err(Error::TranslationNotFound),
    }
}

/// Whether `send` takes the request for `text`.
pub open spec fn sendable<F: Fn(&Request) -> Result<Reply, String>>(
    text: QTextView,
    api_key: Seq<char>,
    send: F,
) -> bool {
    forall|request: Request| request@ == request_for(text, api_key) ==> send.requires((&request,))
}

/// Detects the language of `text`, sending one request through `send`.
/// The result is the first detection, or only its language where
/// `detailed` is not set; nothing where the answer has no such place.
pub fn single<F: Fn(&Request) -> Result<Reply, String>>(
    text: &str,
    api_key: &str,
    detailed: bool,
    send: &F,
) -> (r: Result<Option<serde_json::Value>, Error>)
    requires
        api_key@.len() > 0,
        text@.len() > 0,
        sendable(QTextView::Str(text@), api_key@, *send),
    ensures
        exists|request: Request, exchange: Result<Reply, String>|
            request@ == request_for(QTextView::Str(text@), api_key@) && #[trigger] send.ensures(
                (&request,),
                exchange,
            ) && match answer(exchange_view(exchange)) {
                Ok(document) => r == Ok::<Option<serde_json::Value>, Error>(
                    single_reading(document, detailed),
                ),
                Err(error) => r is Err && r->Err_0@ == error,
            },
{
    let request = request(&QText::Str(text.to_owned()), api_key);
    match read_answer(send(&request)) {
        Ok(document) => Ok(read_single(&document, detailed)),
        Err(error) => Err(error),
    }
}

/// Detects the language of each of `text_list`, sending one request for
/// all of them through `send`. The result has the first detection for each
/// text, or only its language where `detailed` is not set.
pub fn batch<F: Fn(&Request) -> Result<Reply, String>>(
    text_list: Vec<String>,
    api_key: &str,
    detailed: bool,
    send: &F,
) -> (r: Result<Vec<Option<serde_json::Value>>, Error>)
    requires
        api_key@.len() > 0,
        text_list@.len() > 0,
        sendable(QTextView::ListStr(text_list.deep_view()), api_key@, *send),
    ensures
        exists|request: Request, exchange: Result<Reply, String>|
            request@ == request_for(QTextView::ListStr(text_list.deep_view()), api_key@)
                && #[trigger] send.ensures((&request,), exchange) && match answer(
                exchange_view(exchange),
            ) {
                Ok(document) => match batch_reading(document, detailed) {
                    Ok(found) => r is Ok && r->Ok_0@ == found,
                    Err(error) => r is Err && r->Err_0@ == error,
                },
                Err(error) => r is Err && r->Err_0@ == error,
            },
{
    let request = request(&QText::ListStr(text_list), api_key);
    match read_answer(send(&request)) {
        Ok(document) => read_batch(&document, detailed),
        Err(error) => Err(error),
    }
}

} // verus!
