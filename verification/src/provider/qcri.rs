//! QCRI: a GET with the key, the language pair and the domain in the
//! query, answered in JSON.

use crate::engine::{qcri_url, Qcri};
use crate::error::{Error, ErrorView};
use crate::json::{field, found_or_missing, json_field, json_translation, translation};
use crate::request::{
    push_pair, response_status, Body, BodyView, Method, Reply, ReplyView, Request, RequestView,
};
use crate::translator::exchange_view;
use crate::value::{outcome_view, TranslationValue, TranslationView};
use vstd::prelude::*;
use vstd::string::StringExecFns;

verus! {

/// The request that asks QCRI at `base` for `text` from `source` to `target`.
pub open spec fn request_for(
    base: Seq<char>,
    api_key: Seq<char>,
    domain: Seq<char>,
    source: Seq<char>,
    target: Seq<char>,
    text: Seq<char>,
) -> RequestView {
    RequestView {
        method: Method::Get,
        url: base,
        query: seq![
            ("key"@, api_key),
            ("langpair"@, source + "-"@ + target),
            ("domain"@, domain),
            ("text"@, text),
        ],
        headers: Seq::empty(),
        body: BodyView::Empty,
    }
}

/// The request that asks QCRI at `base` which domains it knows.
pub open spec fn domains_request_for(base: Seq<char>) -> RequestView {
    RequestView {
        method: Method::Get,
        url: base,
        query: Seq::empty(),
        headers: Seq::empty(),
        body: BodyView::Empty,
    }
}

/// What QCRI's answer holds: the member `translatedText`.
pub open spec fn reading(document: serde_json::Value) -> Result<TranslationView, ErrorView> {
    found_or_missing(json_translation(json_field(Some(document), "translatedText"@)))
}

/// Builds the request.
pub fn request(
    base: &str,
    api_key: &str,
    domain: &str,
    source: &str,
    target: &str,
    text: &str,
) -> (r: Request)
    ensures
        r@ == request_for(base@, api_key@, domain@, source@, target@, text@),
{
    let mut pair = source.to_owned();
    pair.append("-");
    pair.append(target);
    let mut query: Vec<(String, String)> = Vec::new();
    push_pair(&mut query, "key", api_key);
    push_pair(&mut query, "langpair", pair.as_str());
    push_pair(&mut query, "domain", domain);
    push_pair(&mut query, "text", text);
    let r = Request {
        method: Method::Get,
        url: base.to_owned(),
        query,
        headers: Vec::new(),
        body: Body::Empty,
    };
    assert(r@.query =~= request_for(base@, api_key@, domain@, source@, target@, text@).query);
    assert(r@.headers =~= Seq::empty());
    r
}

/// Builds the request for the list of domains.
pub fn domains_request(base: &str) -> (r: Request)
    ensures
        r@ == domains_request_for(base@),
{
    let r = Request {
        method: Method::Get,
        url: base.to_owned(),
        query: Vec::new(),
        headers: Vec::new(),
        body: Body::Empty,
    };
    assert(r@.query =~= Seq::empty());
    assert(r@.headers =~= Seq::empty());
    r
}

/// Reads the translation out of QCRI's answer.
pub fn read(document: &serde_json::Value) -> (r: Result<TranslationValue, Error>)
    ensures
        outcome_view(r) == reading(*document),
{
    translation(field(Some(document), "translatedText"))
}

/// What the list of domains ends with, given what the transport handed
/// back: a failure of the transport, a status other than 200, or the body
/// as it is.
pub open spec fn domains_outcome(exchange: Result<ReplyView, Seq<char>>) -> Result<
    Seq<char>,
    ErrorView,
> {
    match exchange {
        Ok(reply) => if reply.status != 200 {
            Err(ErrorView::Response(reply.status))
        } else {
            Ok(reply.body)
        },
        Err(what) => Err(ErrorView::TransportFailure(what)),
    }
}

/// Reads the list of domains out of what the transport handed back.
pub fn read_domains(exchange: Result<Reply, String>) -> (r: Result<String, Error>)
    ensures
        match r {
            Ok(body) => domains_outcome(exchange_view(exchange)) == Ok::<Seq<char>, ErrorView>(
                body@,
            ),
            Err(error) => domains_outcome(exchange_view(exchange)) == Err::<Seq<char>, ErrorView>(
                error@,
            ),
        },
{
    match exchange {
        Ok(reply) => match response_status(reply) {
            Ok(passed) => Ok(passed.body),
            Err(error) => Err(error),
        },
        Err(what) => Err(Error::TransportFailure(what)),
    }
}

impl Qcri {
    /// Asks QCRI which domains it knows, sending one request through
    /// `send`, and hands back the body of the answer as it is.
    pub fn domains<F: Fn(&Request) -> Result<Reply, String>>(send: &F) -> (r: Result<String, Error>)
        requires
            forall|request: Request|
                request@ == domains_request_for(qcri_url("getDomains"@)) ==> send.requires(
                    (&request,),
                ),
        ensures
            exists|request: Request, exchange: Result<Reply, String>|
                request@ == domains_request_for(qcri_url("getDomains"@)) && #[trigger] send.ensures(
                    (&request,),
                    exchange,
                ) && match domains_outcome(exchange_view(exchange)) {
                    Ok(body) => r is Ok && r->Ok_0@ == body,
                    Err(error) => r is Err && r->Err_0@ == error,
                },
    {
        let base = Qcri::base_url("getDomains");
        let request = domains_request(base.as_str());
        read_domains(send(&request))
    }
}

} // verus!
