//! The description of one HTTP exchange: what is sent and what came back.

use crate::error::Error;
use vstd::prelude::*;

verus! {

/// The HTTP method of a request.
#[derive(Debug, Clone, Copy, PartialEq, Eq, Structural)]
pub enum Method {
    Get,
    Post,
}

/// A member of a JSON body: a text or a count.
#[derive(Debug, Clone, PartialEq, Eq)]
pub enum Scalar {
    Text(String),
    Count(usize),
}

/// The mathematical value of a [`Scalar`].
pub enum ScalarView {
    Text(Seq<char>),
    Count(usize),
}

impl DeepView for Scalar {
    type V = ScalarView;

    open spec fn deep_view(&self) -> ScalarView {
        match self {
            Scalar::Text(text) => ScalarView::Text(text@),
            Scalar::Count(count) => ScalarView::Count(*count),
        }
    }
}

/// What a request carries besides its address and headers.
#[derive(Debug, Clone, PartialEq, Eq)]
pub enum Body {
    /// Nothing.
    Empty,
    /// Names and values, to be sent form-encoded.
    Form(Vec<(String, String)>),
    /// The members of one JSON object.
    Json(Vec<(String, Scalar)>),
}

/// The mathematical value of a [`Body`].
pub enum BodyView {
    Empty,
    Form(Seq<(Seq<char>, Seq<char>)>),
    Json(Seq<(Seq<char>, ScalarView)>),
}

impl View for Body {
    type V = BodyView;

    open spec fn view(&self) -> BodyView {
        match self {
            Body::Empty => BodyView::Empty,
            Body::Form(fields) => BodyView::Form(fields.deep_view()),
            Body::Json(members) => BodyView::Json(members.deep_view()),
        }
    }
}

/// One request to a provider, ready to be sent as it stands.
#[derive(Debug, Clone, PartialEq, Eq)]
pub struct Request {
    pub method: Method,
    /// The address, without the query parameters.
    pub url: String,
    /// The query parameters, in order; the transport encodes them.
    pub query: Vec<(String, String)>,
    /// The headers, in order.
    pub headers: Vec<(String, String)>,
    pub body: Body,
}

/// The mathematical value of a [`Request`].
pub struct RequestView {
    pub method: Method,
    pub url: Seq<char>,
    pub query: Seq<(Seq<char>, Seq<char>)>,
    pub headers: Seq<(Seq<char>, Seq<char>)>,
    pub body: BodyView,
}

impl View for Request {
    type V = RequestView;

    open spec fn view(&self) -> RequestView {
        RequestView {
            method: self.method,
            url: self.url@,
            query: self.query.deep_view(),
            headers: self.headers.deep_view(),
            body: self.body@,
        }
    }
}

/// What a provider answered: the HTTP status and the body as text.
#[derive(Debug, Clone, PartialEq, Eq)]
pub struct Reply {
    pub status: u16,
    pub body: String,
}

/// The mathematical value of a [`Reply`].
pub struct ReplyView {
    pub status: u16,
    pub body: Seq<char>,
}

impl View for Reply {
    type V = ReplyView;

    open spec fn view(&self) -> ReplyView {
        ReplyView { status: self.status, body: self.body@ }
    }
}

/// Appends the pair of `name` and `value` to `list`.
pub fn push_pair(list: &mut Vec<(String, String)>, name: &str, value: &str)
    ensures
        final(list).deep_view() == old(list).deep_view().push((name@, value@)),
{
    list.push((name.to_owned(), value.to_owned()));
    assert(list.deep_view() =~= old(list).deep_view().push((name@, value@)));
}

/// Appends the member `name` with the text `value` to `list`.
pub fn push_text(list: &mut Vec<(String, Scalar)>, name: &str, value: &str)
    ensures
        final(list).deep_view() == old(list).deep_view().push((name@, ScalarView::Text(value@))),
{
    list.push((name.to_owned(), Scalar::Text(value.to_owned())));
    assert(list.deep_view() =~= old(list).deep_view().push((name@, ScalarView::Text(value@))));
}

/// Appends the member `name` with the count `value` to `list`.
pub fn push_count(list: &mut Vec<(String, Scalar)>, name: &str, value: usize)
    ensures
        final(list).deep_view() == old(list).deep_view().push((name@, ScalarView::Count(value))),
{
    list.push((name.to_owned(), Scalar::Count(value)));
    assert(list.deep_view() =~= old(list).deep_view().push((name@, ScalarView::Count(value))));
}

/// The one status with which a provider delivers.
pub const SUCCESS: u16 = 200;

/// Whether a provider that answers with `status` delivers anything, so that
/// the body of its answer is worth reading.
pub fn accepted(status: u16) -> (r: bool)
    ensures
        r == (status == SUCCESS),
{
    status == SUCCESS
}

/// Lets a reply through only if its status is 200; any other status is the
/// error, whatever the body holds.
pub fn response_status(reply: Reply) -> (r: Result<Reply, Error>)
    ensures
        reply.status == SUCCESS ==> r == Ok::<Reply, Error>(reply),
        reply.status != SUCCESS ==> r == Err::<Reply, Error>(Error::Response(reply.status)),
{
    if !accepted(reply.status) {
        return Err(Error::Response(reply.status));
    }
    Ok(reply)
}

} // verus!
