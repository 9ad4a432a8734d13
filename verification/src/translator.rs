//! The translator: languages, provider and proxies, and the one operation
//! that turns a text into its translation.

use crate::engine::{Engine, EngineView};
use crate::error::{Error, ErrorView};
use crate::json::{json_document, parse};
use crate::provider::{deepl, google, libre, linguee, microsoft, mymemory, papago, pons, qcri, yandex};
use crate::request::{Reply, ReplyView, Request, RequestView};
use crate::text::{all_whitespace, lemma_trimmed_empty, trim, trimmed};
use crate::value::{outcome_view, TranslationValue, TranslationView};
use vstd::prelude::*;

verus! {

impl EngineView {
    /// The request that asks the provider for `text` from `source` to
    /// `target`.
    pub open spec fn request(
        self,
        source: Seq<char>,
        target: Seq<char>,
        text: Seq<char>,
    ) -> RequestView {
        let base = self.base_url();
        match self {
            EngineView::Deepl { api_key, .. } => deepl::request_for(
                base,
                api_key,
                source,
                target,
                text,
            ),
            EngineView::Google => google::request_for(base, source, target, text),
            EngineView::Libre(config) => libre::request_for(
                base,
                config.api_key,
                config.alternatives,
                source,
                target,
                text,
            ),
            EngineView::Linguee { .. } => linguee::request_for(base, source, target, text),
            EngineView::Microsoft { api_key, region } => microsoft::request_for(
                base,
                api_key,
                region,
                source,
                target,
                text,
            ),
            EngineView::MyMemory { email, .. } => mymemory::request_for(
                base,
                email,
                source,
                target,
                text,
            ),
            EngineView::Papago { client_id, secret_key } => papago::request_for(
                base,
                client_id,
                secret_key,
                source,
                target,
                text,
            ),
            EngineView::Pons => pons::request_for(base, source, target, text),
            EngineView::Qcri(config) => qcri::request_for(
                base,
                config.api_key,
                config.domain,
                source,
                target,
                text,
            ),
            EngineView::Yandex { api_key } => yandex::request_for(
                base,
                api_key,
                source,
                target,
                text,
            ),
        }
    }

    /// Whether the provider answers with a page of markup, not with JSON.
    pub open spec fn answers_in_markup(self) -> bool {
        self is Google || self is Linguee
    }

    /// What a JSON document holds for the provider. A provider that answers
    /// in markup has no translation in it.
    pub open spec fn document_reading(self, document: serde_json::Value) -> Result<
        TranslationView,
        ErrorView,
    > {
        match self {
            EngineView::Deepl { .. } => deepl::reading(document),
            EngineView::Google => Err(ErrorView::TranslationNotFound),
            EngineView::Libre(_) => libre::reading(document),
            EngineView::Linguee { .. } => Err(ErrorView::TranslationNotFound),
            EngineView::Microsoft { .. } => microsoft::reading(document),
            EngineView::MyMemory { return_all, .. } => mymemory::reading(document, return_all),
            EngineView::Papago { .. } => papago::reading(document),
            EngineView::Pons => pons::reading(document),
            EngineView::Qcri(_) => qcri::reading(document),
            EngineView::Yandex { .. } => yandex::reading(document),
        }
    }

    /// What the body of an answer with status 200 holds for the provider. A
    /// body that should be JSON and is not counts as a failed transport.
    pub open spec fn reading(self, body: Seq<char>) -> Result<TranslationView, ErrorView> {
        match self {
            EngineView::Google => google::reading(body),
            EngineView::Linguee { return_all } => linguee::reading(body, return_all),
            _ => match json_document(body) {
                Ok(document) => self.document_reading(document),
                Err(fault) => Err(ErrorView::TransportFailure(fault)),
            },
        }
    }
}

impl Engine {
    /// Builds the request that asks the provider for `text` from `source`
    /// to `target`.
    pub fn request(&self, source: &str, target: &str, text: &str) -> (r: Request)
        ensures
            r@ == self@.request(source@, target@, text@),
    {
        let base = self.base_url();
        match self {
            Engine::Deepl { api_key, .. } => deepl::request(
                base.as_str(),
                api_key.as_str(),
                source,
                target,
                text,
            ),
            Engine::Google => google::request(base.as_str(), source, target, text),
            Engine::Libre(config) => libre::request(
                base.as_str(),
                config.api_key.as_str(),
                config.alternatives,
                source,
                target,
                text,
            ),
            Engine::Linguee { .. } => linguee::request(base.as_str(), source, target, text),
            Engine::Microsoft { api_key, region } => microsoft::request(
                base.as_str(),
                api_key.as_str(),
                region.as_str(),
                source,
                target,
                text,
            ),
            Engine::MyMemory { email, .. } => mymemory::request(
                base.as_str(),
                email.as_str(),
                source,
                target,
                text,
            ),
            Engine::Papago { client_id, secret_key } => papago::request(
                base.as_str(),
                client_id.as_str(),
                secret_key.as_str(),
                source,
                target,
                text,
            ),
            Engine::Pons => pons::request(base.as_str(), source, target, text),
            Engine::Qcri(config) => qcri::request(
                base.as_str(),
                config.api_key.as_str(),
                config.domain.as_str(),
                source,
                target,
                text,
            ),
            Engine::Yandex { api_key } => yandex::request(
                base.as_str(),
                api_key.as_str(),
                source,
                target,
                text,
            ),
        }
    }

    /// Reads the translation out of a parsed JSON document.
    pub fn read_document(&self, document: &serde_json::Value) -> (r: Result<
        TranslationValue,
        Error,
    >)
        ensures
            outcome_view(r) == self@.document_reading(*document),
    {
        match self {
            Engine::Deepl { .. } => deepl::read(document),
            Engine::Google => Err(Error::TranslationNotFound),
            Engine::Libre(_) => libre::read(document),
            Engine::Linguee { .. } => Err(Error::TranslationNotFound),
            Engine::Microsoft { .. } => microsoft::read(document),
            Engine::MyMemory { return_all, .. } => mymemory::read(document, *return_all),
            Engine::Papago { .. } => papago::read(document),
            Engine::Pons => pons::read(document),
            Engine::Qcri(_) => qcri::read(document),
            Engine::Yandex { .. } => yandex::read(document),
        }
    }

    /// Reads the translation out of the body of an answer with status 200.
    pub fn read(&self, body: &str) -> (r: Result<TranslationValue, Error>)
        ensures
            outcome_view(r) == self@.reading(body@),
    {
        match self {
            Engine::Google => google::read(body),
            Engine::Linguee { return_all } => linguee::read(body, *return_all),
            _ => match parse(body) {
                Ok(document) => self.read_document(&document),
                Err(fault) => Err(Error::TransportFailure(fault)),
            },
        }
    }
}

/// A translator: from which language, into which, through which provider,
/// and over which proxies.
#[derive(Debug, Clone, Eq)]
pub struct Translator {
    /// The tag of the language of the texts.
    pub source: String,
    /// The tag of the language to translate into.
    pub target: String,
    /// The provider and its configuration.
    pub engine: Engine,
    /// The addresses of the proxies that every request goes through.
    pub proxies: Vec<String>,
}

/// The mathematical value of a [`Translator`].
pub struct TranslatorView {
    pub source: Seq<char>,
    pub target: Seq<char>,
    pub engine: EngineView,
    pub proxies: Seq<Seq<char>>,
}

impl View for Translator {
    type V = TranslatorView;

    open spec fn view(&self) -> TranslatorView {
        TranslatorView {
            source: self.source@,
            target: self.target@,
            engine: self.engine@,
            proxies: self.proxies.deep_view(),
        }
    }
}

/// What a translation begins with: the answer itself where no provider is
/// needed, a refusal, or the one request to send.
#[derive(Debug, Clone, PartialEq, Eq)]
pub enum Step {
    /// The translation is known without asking anyone.
    Done(TranslationValue),
    /// The text is refused before anything is sent.
    Refused(Error),
    /// This request is to be sent, once.
    Send(Request),
}

/// The mathematical value of a [`Step`].
pub enum StepView {
    Done(TranslationView),
    Refused(ErrorView),
    Send(RequestView),
}

impl View for Step {
    type V = StepView;

    open spec fn view(&self) -> StepView {
        match self {
            Step::Done(value) => StepView::Done(value@),
            Step::Refused(error) => StepView::Refused(error@),
            Step::Send(request) => StepView::Send(request@),
        }
    }
}

/// The mathematical value of what a transport hands back: the reply, or
/// the description of why there is none.
pub open spec fn exchange_view(exchange: Result<Reply, String>) -> Result<ReplyView, Seq<char>> {
    match exchange {
        Ok(reply) => Ok(reply@),
        Err(what) => Err(what@),
    }
}

impl TranslatorView {
    /// Whether `text` is its own translation: it is empty once trimmed, or
    /// the two languages are the same.
    pub open spec fn is_identity(self, text: Seq<char>) -> bool {
        trimmed(text).len() == 0 || self.source == self.target
    }

    /// What the translation of `text` begins with.
    pub open spec fn first_step(self, text: Seq<char>) -> StepView {
        let wanted = trimmed(text);
        if self.is_identity(text) {
            StepView::Done(TranslationView::Text(wanted))
        } else if self.engine is MyMemory && !mymemory::admits(wanted) {
            StepView::Refused(
                ErrorView::NotValidLength { min: mymemory::MIN_LENGTH, max: mymemory::MAX_LENGTH },
            )
        } else {
            StepView::Send(self.engine.request(self.source, self.target, wanted))
        }
    }

    /// What the translation ends with, given what the transport handed back.
    pub open spec fn outcome(self, exchange: Result<ReplyView, Seq<char>>) -> Result<
        TranslationView,
        ErrorView,
    > {
        match exchange {
            Ok(reply) => if reply.status != 200 {
                Err(ErrorView::Response(reply.status))
            } else {
                self.engine.reading(reply.body)
            },
            Err(what) => Err(ErrorView::TransportFailure(what)),
        }
    }
}

impl Translator {
    /// A translator from `source` to `target` through Google, without proxies.
    pub fn new(source: &str, target: &str) -> (r: Translator)
        ensures
            r@ == (TranslatorView {
                source: source@,
                target: target@,
                engine: EngineView::Google,
                proxies: Seq::empty(),
            }),
    {
        let r = Translator {
            source: source.to_owned(),
            target: target.to_owned(),
            engine: Engine::Google,
            proxies: Vec::new(),
        };
        assert(r@.proxies =~= Seq::empty());
        r
    }

    /// A translator from `source` to `target` through `engine`, without
    /// proxies.
    pub fn with_engine(source: &str, target: &str, engine: Engine) -> (r: Translator)
        ensures
            r@ == (TranslatorView {
                source: source@,
                target: target@,
                engine: engine@,
                proxies: Seq::empty(),
            }),
    {
        let r = Translator {
            source: source.to_owned(),
            target: target.to_owned(),
            engine,
            proxies: Vec::new(),
        };
        assert(r@.proxies =~= Seq::empty());
        r
    }

    /// The address that the requests of this translator go to.
    pub fn base_url(&self) -> (r: String)
        ensures
            r@ == self@.engine.base_url(),
    {
        self.engine.base_url()
    }

    /// Begins the translation of `text`: trims it, answers at once where the
    /// text is its own translation, refuses what the provider would not
    /// take, and else builds the one request to send.
    pub fn prepare(&self, text: &str) -> (r: Step)
        ensures
            r@ == self@.first_step(text@),
    {
        let wanted = trim(text);
        if wanted.is_empty() || self.source == self.target {
            return Step::Done(TranslationValue::Text(wanted.to_owned()));
        }
        if let Engine::MyMemory { .. } = &self.engine {
            if let Err(error) = mymemory::check_length(wanted) {
                return Step::Refused(error);
            }
        }
        Step::Send(self.engine.request(self.source.as_str(), self.target.as_str(), wanted))
    }

    /// Ends a translation with what the transport handed back for the
    /// request: a failure of the transport, a status other than 200, or the
    /// body, from which the translation is read.
    pub fn conclude(&self, exchange: Result<Reply, String>) -> (r: Result<TranslationValue, Error>)
        ensures
            outcome_view(r) == self@.outcome(exchange_view(exchange)),
    {
        match exchange {
            Ok(reply) => match crate::request::response_status(reply) {
                Ok(passed) => self.engine.read(passed.body.as_str()),
                Err(error) => Err(error),
            },
            Err(what) => Err(Error::TransportFailure(what)),
        }
    }
}

/// Whether `result` is what translating `text` delivers when requests go
/// out through `send`: what the first step already settles, or else what the
/// translator makes of some outcome of `send` on the request of that step.
pub open spec fn translated<F: Fn(&Request) -> Result<Reply, String>>(
    translator: TranslatorView,
    text: Seq<char>,
    send: F,
    result: Result<TranslationView, ErrorView>,
) -> bool {
    match translator.first_step(text) {
        StepView::Done(value) => result == Ok::<TranslationView, ErrorView>(value),
        StepView::Refused(error) => result == Err::<TranslationView, ErrorView>(error),
        StepView::Send(wanted) => exists|request: Request, exchange: Result<Reply, String>|
            request@ == wanted && #[trigger] send.ensures((&request,), exchange) && result
                == translator.outcome(exchange_view(exchange)),
    }
}

/// Whether `send` takes the request that translating `text` may need.
pub open spec fn sendable<F: Fn(&Request) -> Result<Reply, String>>(
    translator: TranslatorView,
    text: Seq<char>,
    send: F,
) -> bool {
    translator.first_step(text) matches StepView::Send(wanted) ==> forall|request: Request|
        request@ == wanted ==> send.requires((&request,))
}

impl Translator {
    /// Translates `text`, sending at most one request through `send`.
    pub fn translate<F: Fn(&Request) -> Result<Reply, String>>(&self, text: &str, send: &F) -> (r:
        Result<TranslationValue, Error>)
        requires
            sendable(self@, text@, *send),
        ensures
            translated(self@, text@, *send, outcome_view(r)),
    {
        match self.prepare(text) {
            Step::Done(value) => Ok(value),
            Step::Refused(error) => Err(error),
            Step::Send(request) => self.conclude(send(&request)),
        }
    }

    /// Translates what was read from a file: `contents` is the whole of the
    /// file as one text, or the description of why it could not be read. A
    /// file that could not be read is an error of its own kind, and nothing
    /// is sent for it.
    pub fn translate_file<F: Fn(&Request) -> Result<Reply, String>>(
        &self,
        contents: Result<String, String>,
        send: &F,
    ) -> (r: Result<TranslationValue, Error>)
        requires
            contents matches Ok(text) ==> sendable(self@, text@, *send),
        ensures
            match contents {
                Ok(text) => translated(self@, text@, *send, outcome_view(r)),
                Err(what) => outcome_view(r) == Err::<TranslationView, ErrorView>(
                    ErrorView::IOFailure(what@),
                ),
            },
    {
        match contents {
            Ok(text) => self.translate(text.as_str(), send),
            Err(what) => Err(Error::IOFailure(what)),
        }
    }

    /// Translates the texts of `batch` one after the other, each as
    /// `translate` does. The result has one place for each text, in the order
    /// of the texts; a failure fills its own place and ends nothing.
    pub fn translate_batch<F: Fn(&Request) -> Result<Reply, String>>(
        &self,
        batch: &Vec<String>,
        send: &F,
    ) -> (r: Vec<Result<TranslationValue, Error>>)
        requires
            forall|i: int| 0 <= i < batch@.len() ==> sendable(self@, (#[trigger] batch@[i])@, *send),
        ensures
            r@.len() == batch@.len(),
            forall|i: int|
                0 <= i < batch@.len() ==> translated(
                    self@,
                    batch@[i]@,
                    *send,
                    outcome_view(#[trigger] r@[i]),
                ),
    {
        let mut r: Vec<Result<TranslationValue, Error>> = Vec::new();
        let mut i: usize = 0;
        while i < batch.len()
            invariant
                i <= batch@.len(),
                r@.len() == i,
                forall|j: int|
                    0 <= j < batch@.len() ==> sendable(self@, (#[trigger] batch@[j])@, *send),
                forall|j: int|
                    0 <= j < i ==> translated(
                        self@,
                        batch@[j]@,
                        *send,
                        outcome_view(#[trigger] r@[j]),
                    ),
            decreases batch@.len() - i,
        {
            let one = self.translate(batch[i].as_str(), send);
            r.push(one);
            i = i + 1;
        }
        r
    }
}

/// Between a language and itself every text is its own translation: the
/// result is the text, trimmed and otherwise unchanged, and the first step
/// already holds it, so that no request is made.
pub proof fn law_same_language<F: Fn(&Request) -> Result<Reply, String>>(
    translator: TranslatorView,
    text: Seq<char>,
    send: F,
    result: Result<TranslationView, ErrorView>,
)
    requires
        translator.source == translator.target,
        translated(translator, text, send, result),
    ensures
        translator.first_step(text) == StepView::Done(TranslationView::Text(trimmed(text))),
        result == Ok::<TranslationView, ErrorView>(TranslationView::Text(trimmed(text))),
{
}

/// A text of nothing but white space, the empty text among them, is
/// answered with the empty text whatever the provider and the languages,
/// and no request is made.
pub proof fn law_blank_text<F: Fn(&Request) -> Result<Reply, String>>(
    translator: TranslatorView,
    text: Seq<char>,
    send: F,
    result: Result<TranslationView, ErrorView>,
)
    requires
        all_whitespace(text),
        translated(translator, text, send, result),
    ensures
        translator.first_step(text) == StepView::Done(TranslationView::Text(Seq::empty())),
        result == Ok::<TranslationView, ErrorView>(TranslationView::Text(Seq::empty())),
{
    lemma_trimmed_empty(text);
    assert(trimmed(text) =~= Seq::empty());
}

/// MyMemory is never sent a text that is longer than its limit once
/// trimmed: between two different languages such a text is refused with
/// the accepted range, before any request.
pub proof fn law_length_guard(translator: TranslatorView, text: Seq<char>)
    requires
        translator.engine is MyMemory,
        translator.source != translator.target,
        trimmed(text).len() > mymemory::MAX_LENGTH,
    ensures
        translator.first_step(text) == StepView::Refused(
            ErrorView::NotValidLength { min: 1, max: 500 },
        ),
{
}

/// Whatever the provider, an answer with a status other than 200 is the
/// error that holds that status; the body is not looked at.
pub proof fn law_status_decides(translator: TranslatorView, reply: ReplyView)
    requires
        reply.status != 200,
    ensures
        translator.outcome(Ok(reply)) == Err::<TranslationView, ErrorView>(
            ErrorView::Response(reply.status),
        ),
{
}

/// A transport that fails is the error that holds its description,
/// whatever the provider.
pub proof fn law_transport_failure(translator: TranslatorView, what: Seq<char>)
    ensures
        translator.outcome(Err(what)) == Err::<TranslationView, ErrorView>(
            ErrorView::TransportFailure(what),
        ),
{
}

impl Default for Translator {
    fn default() -> (r: Self)
        ensures
            r@ == (TranslatorView {
                source: "auto"@,
                target: "en"@,
                engine: EngineView::Google,
                proxies: Seq::empty(),
            }),
    {
        Translator::new("auto", "en")
    }
}

impl PartialEq for Translator {
    fn eq(&self, other: &Self) -> (r: bool) {
        self.source == other.source && self.target == other.target && self.engine == other.engine
    }
}

impl vstd::std_specs::cmp::PartialEqSpecImpl for Translator {
    open spec fn obeys_eq_spec() -> bool {
        true
    }

    open spec fn eq_spec(&self, other: &Self) -> bool {
        self@.source == other@.source && self@.target == other@.target && self@.engine
            == other@.engine
    }
}

impl std::ops::Deref for Translator {
    type Target = Engine;

    fn deref(&self) -> (r: &Engine)
        ensures
            *r == self.engine,
    {
        &self.engine
    }
}

impl std::ops::DerefMut for Translator {
    fn deref_mut(&mut self) -> (r: &mut Engine)
        ensures
            *r == old(self).engine,
            *final(self) == (Translator { engine: *final(r), ..*old(self) }),
    {
        &mut self.engine
    }
}

} // verus!
