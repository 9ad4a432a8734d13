//! The providers, what each needs to be told, and where each is reached.

use crate::error::Error;
use crate::text::same_text;
use vstd::prelude::*;
use vstd::string::StringExecFns;

verus! {

/// The version of DeepL's interface.
#[derive(Debug, Clone, Copy, PartialEq, Eq, Structural)]
pub enum Version {
    V1,
    V2,
}

impl Version {
    /// The version as it stands in DeepL's addresses.
    pub open spec fn name(self) -> Seq<char> {
        match self {
            Version::V1 => "v1"@,
            Version::V2 => "v2"@,
        }
    }

    /// The version as it stands in DeepL's addresses.
    pub fn as_str(&self) -> (r: &'static str)
        ensures
            r@ == self.name(),
    {
        match self {
            Version::V1 => "v1",
            Version::V2 => "v2",
        }
    }

    /// The version that `name` stands for, if it is one.
    pub fn from_name(name: &str) -> (r: Option<Version>)
        ensures
            r == if name@ == "v1"@ {
                Some(Version::V1)
            } else if name@ == "v2"@ {
                Some(Version::V2)
            } else {
                None
            },
    {
        if same_text(name, "v1") {
            Some(Version::V1)
        } else if same_text(name, "v2") {
            Some(Version::V2)
        } else {
            None
        }
    }
}

impl Default for Version {
    fn default() -> (r: Self)
        ensures
            r == Version::V2,
    {
        Version::V2
    }
}

/// Configuration of a LibreTranslate server.
#[derive(Debug, Clone, Eq)]
pub struct Libre {
    /// The key for the server; empty where it asks for none.
    pub api_key: String,
    /// The address of the server, without the path of the operation.
    pub url: String,
    /// How many alternative translations to ask for.
    pub alternatives: usize,
}

/// The mathematical value of a [`Libre`].
pub struct LibreView {
    pub api_key: Seq<char>,
    pub url: Seq<char>,
    pub alternatives: usize,
}

impl View for Libre {
    type V = LibreView;

    open spec fn view(&self) -> LibreView {
        LibreView { api_key: self.api_key@, url: self.url@, alternatives: self.alternatives }
    }
}

impl PartialEq for Libre {
    fn eq(&self, other: &Self) -> (r: bool) {
        self.api_key == other.api_key && self.url == other.url && self.alternatives
            == other.alternatives
    }
}

impl vstd::std_specs::cmp::PartialEqSpecImpl for Libre {
    open spec fn obeys_eq_spec() -> bool {
        true
    }

    open spec fn eq_spec(&self, other: &Self) -> bool {
        self@ == other@
    }
}

impl Default for Libre {
    fn default() -> (r: Self)
        ensures
            r@ == (LibreView { api_key: Seq::empty(), url: Seq::empty(), alternatives: 0 }),
    {
        Libre { api_key: String::new(), url: String::new(), alternatives: 0 }
    }
}

/// Configuration of the QCRI provider.
#[derive(Debug, Clone, Eq)]
pub struct Qcri {
    /// The key that QCRI issued to the user.
    pub api_key: String,
    /// The subject area of the text, as QCRI names it.
    pub domain: String,
}

/// The mathematical value of a [`Qcri`].
pub struct QcriView {
    pub api_key: Seq<char>,
    pub domain: Seq<char>,
}

impl View for Qcri {
    type V = QcriView;

    open spec fn view(&self) -> QcriView {
        QcriView { api_key: self.api_key@, domain: self.domain@ }
    }
}

impl PartialEq for Qcri {
    fn eq(&self, other: &Self) -> (r: bool) {
        self.api_key == other.api_key && self.domain == other.domain
    }
}

impl vstd::std_specs::cmp::PartialEqSpecImpl for Qcri {
    open spec fn obeys_eq_spec() -> bool {
        true
    }

    open spec fn eq_spec(&self, other: &Self) -> bool {
        self@ == other@
    }
}

impl Default for Qcri {
    fn default() -> (r: Self)
        ensures
            r@ == (QcriView { api_key: Seq::empty(), domain: Seq::empty() }),
    {
        Qcri { api_key: String::new(), domain: String::new() }
    }
}

/// The address of QCRI's operation `endpoint`.
pub open spec fn qcri_url(endpoint: Seq<char>) -> Seq<char> {
    "https://mt.qcri.org/api/v1/"@ + endpoint + "?"@
}

impl Qcri {
    /// The address of QCRI's operation `endpoint`.
    pub fn base_url(endpoint: &str) -> (r: String)
        ensures
            r@ == qcri_url(endpoint@),
    {
        let mut r = "https://mt.qcri.org/api/v1/".to_owned();
        r.append(endpoint);
        r.append("?");
        r
    }
}

/// A provider together with its configuration. The fields of a variant are
/// all that the provider is told; nothing of another variant is kept.
#[derive(Debug, Clone, Eq)]
pub enum Engine {
    Deepl { api_key: String, version: Version, use_free_api: bool },
    Google,
    Libre(Libre),
    Linguee { return_all: bool },
    Microsoft { api_key: String, region: String },
    MyMemory { email: String, return_all: bool },
    Papago { client_id: String, secret_key: String },
    Pons,
    Qcri(Qcri),
    Yandex { api_key: String },
}

/// The mathematical value of an [`Engine`].
pub enum EngineView {
    Deepl { api_key: Seq<char>, version: Version, use_free_api: bool },
    Google,
    Libre(LibreView),
    Linguee { return_all: bool },
    Microsoft { api_key: Seq<char>, region: Seq<char> },
    MyMemory { email: Seq<char>, return_all: bool },
    Papago { client_id: Seq<char>, secret_key: Seq<char> },
    Pons,
    Qcri(QcriView),
    Yandex { api_key: Seq<char> },
}

impl View for Engine {
    type V = EngineView;

    open spec fn view(&self) -> EngineView {
        match self {
            Engine::Deepl { api_key, version, use_free_api } => EngineView::Deepl {
                api_key: api_key@,
                version: *version,
                use_free_api: *use_free_api,
            },
            Engine::Google => EngineView::Google,
            Engine::Libre(libre) => EngineView::Libre(libre@),
            Engine::Linguee { return_all } => EngineView::Linguee { return_all: *return_all },
            Engine::Microsoft { api_key, region } => EngineView::Microsoft {
                api_key: api_key@,
                region: region@,
            },
            Engine::MyMemory { email, return_all } => EngineView::MyMemory {
                email: email@,
                return_all: *return_all,
            },
            Engine::Papago { client_id, secret_key } => EngineView::Papago {
                client_id: client_id@,
                secret_key: secret_key@,
            },
            Engine::Pons => EngineView::Pons,
            Engine::Qcri(qcri) => EngineView::Qcri(qcri@),
            Engine::Yandex { api_key } => EngineView::Yandex { api_key: api_key@ },
        }
    }
}

impl PartialEq for Engine {
    fn eq(&self, other: &Self) -> (r: bool) {
        match (self, other) {
            (
                Engine::Deepl { api_key: a, version: v, use_free_api: f },
                Engine::Deepl { api_key: b, version: w, use_free_api: g },
            ) => *a == *b && *v == *w && *f == *g,
            (Engine::Google, Engine::Google) => true,
            (Engine::Libre(a), Engine::Libre(b)) => *a == *b,
            (Engine::Linguee { return_all: a }, Engine::Linguee { return_all: b }) => *a == *b,
            (
                Engine::Microsoft { api_key: a, region: c },
                Engine::Microsoft { api_key: b, region: d },
            ) => *a == *b && *c == *d,
            (
                Engine::MyMemory { email: a, return_all: c },
                Engine::MyMemory { email: b, return_all: d },
            ) => *a == *b && *c == *d,
            (
                Engine::Papago { client_id: a, secret_key: c },
                Engine::Papago { client_id: b, secret_key: d },
            ) => *a == *b && *c == *d,
            (Engine::Pons, Engine::Pons) => true,
            (Engine::Qcri(a), Engine::Qcri(b)) => *a == *b,
            (Engine::Yandex { api_key: a }, Engine::Yandex { api_key: b }) => *a == *b,
            _ => false,
        }
    }
}

impl vstd::std_specs::cmp::PartialEqSpecImpl for Engine {
    open spec fn obeys_eq_spec() -> bool {
        true
    }

    open spec fn eq_spec(&self, other: &Self) -> bool {
        self@ == other@
    }
}

impl Default for Engine {
    fn default() -> (r: Self)
        ensures
            r@ == EngineView::Google,
    {
        Engine::Google
    }
}

impl EngineView {
    /// The address that requests to the provider go to.
    pub open spec fn base_url(self) -> Seq<char> {
        match self {
            EngineView::Deepl { version, use_free_api, .. } => (if use_free_api {
                "https://api-free.deepl.com/"@
            } else {
                "https://api.deepl.com/"@
            }) + version.name() + "/translate"@,
            EngineView::Google => "https://translate.google.com/m"@,
            EngineView::Libre(libre) => libre.url + "/translate"@,
            EngineView::Linguee { .. } => "https://www.linguee.com/"@,
            EngineView::Microsoft { .. } => "https://api.cognitive.microsofttranslator.com/translate?api-version=3.0"@,
            EngineView::MyMemory { .. } => "http://api.mymemory.translated.net/get"@,
            EngineView::Papago { .. } => "https://openapi.naver.com/v1/papago/n2mt"@,
            EngineView::Pons => "https://api.pons.com/text-translation-web/v4/translate?locale=en"@,
            EngineView::Qcri(_) => qcri_url("translate"@),
            EngineView::Yandex { .. } => "https://translate.yandex.net/api/v1.5/tr.json/translate"@,
        }
    }

    /// The provider that `name` selects, with nothing configured yet,
    /// or nothing where no provider has that name.
    pub open spec fn from_name(name: Seq<char>) -> Option<EngineView> {
        if name == "deepl"@ {
            Some(
                EngineView::Deepl {
                    api_key: Seq::empty(),
                    version: Version::V2,
                    use_free_api: false,
                },
            )
        } else if name == "google"@ {
            Some(EngineView::Google)
        } else if name == "libre"@ {
            Some(
                EngineView::Libre(
                    LibreView { api_key: Seq::empty(), url: Seq::empty(), alternatives: 0 },
                ),
            )
        } else if name == "linguee"@ {
            Some(EngineView::Linguee { return_all: false })
        } else if name == "microsoft"@ {
            Some(EngineView::Microsoft { api_key: Seq::empty(), region: Seq::empty() })
        } else if name == "mymemory"@ {
            Some(EngineView::MyMemory { email: Seq::empty(), return_all: false })
        } else if name == "papago"@ {
            Some(EngineView::Papago { client_id: Seq::empty(), secret_key: Seq::empty() })
        } else if name == "pons"@ {
            Some(EngineView::Pons)
        } else if name == "qcri"@ {
            Some(EngineView::Qcri(QcriView { api_key: Seq::empty(), domain: Seq::empty() }))
        } else if name == "yandex"@ {
            Some(EngineView::Yandex { api_key: Seq::empty() })
        } else {
            None
        }
    }
}

impl Engine {
    /// The address that requests to the provider go to.
    pub fn base_url(&self) -> (r: String)
        ensures
            r@ == self@.base_url(),
    {
        match self {
            Engine::Deepl { version, use_free_api, .. } => {
                let mut r = if *use_free_api {
                    "https://api-free.deepl.com/".to_owned()
                } else {
                    "https://api.deepl.com/".to_owned()
                };
                r.append(version.as_str());
                r.append("/translate");
                r
            },
            Engine::Google => "https://translate.google.com/m".to_owned(),
            Engine::Libre(libre) => {
                let mut r = libre.url.clone();
                r.append("/translate");
                r
            },
            Engine::Linguee { .. } => "https://www.linguee.com/".to_owned(),
            Engine::Microsoft { .. } => "https://api.cognitive.microsofttranslator.com/translate?api-version=3.0".to_owned(),
            Engine::MyMemory { .. } => "http://api.mymemory.translated.net/get".to_owned(),
            Engine::Papago { .. } => "https://openapi.naver.com/v1/papago/n2mt".to_owned(),
            Engine::Pons => "https://api.pons.com/text-translation-web/v4/translate?locale=en".to_owned(),
            Engine::Qcri(_) => Qcri::base_url("translate"),
            Engine::Yandex { .. } => "https://translate.yandex.net/api/v1.5/tr.json/translate".to_owned(),
        }
    }

    /// The provider that `name` selects, with nothing configured yet.
    /// A name that belongs to no provider is refused, and only such a name.
    pub fn from_name(name: &str) -> (r: Result<Engine, Error>)
        ensures
            match EngineView::from_name(name@) {
                Some(engine) => r is Ok && r->Ok_0@ == engine,
                None => r is Err && r->Err_0@ == crate::error::ErrorView::EngineNotSupported(name@),
            },
    {
        if same_text(name, "deepl") {
            Ok(Engine::Deepl { api_key: String::new(), version: Version::V2, use_free_api: false })
        } else if same_text(name, "google") {
            Ok(Engine::Google)
        } else if same_text(name, "libre") {
            Ok(Engine::Libre(Libre::default()))
        } else if same_text(name, "linguee") {
            Ok(Engine::Linguee { return_all: false })
        } else if same_text(name, "microsoft") {
            Ok(Engine::Microsoft { api_key: String::new(), region: String::new() })
        } else if same_text(name, "mymemory") {
            Ok(Engine::MyMemory { email: String::new(), return_all: false })
        } else if same_text(name, "papago") {
            Ok(Engine::Papago { client_id: String::new(), secret_key: String::new() })
        } else if same_text(name, "pons") {
            Ok(Engine::Pons)
        } else if same_text(name, "qcri") {
            Ok(Engine::Qcri(Qcri::default()))
        } else if same_text(name, "yandex") {
            Ok(Engine::Yandex { api_key: String::new() })
        } else {
            Err(Error::EngineNotSupported(name.to_owned()))
        }
    }
}

} // verus!
