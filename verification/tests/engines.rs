use deeptranslator::{Engine, Error, Libre, Qcri, Translator, Version};

#[test]
fn base_urls_are_the_providers_addresses() {
    let cases: Vec<(Engine, &str)> = vec![
        (Engine::Deepl { api_key: String::new(), version: Version::V2, use_free_api: false }, "https://api.deepl.com/v2/translate"),
        (Engine::Deepl { api_key: String::new(), version: Version::V1, use_free_api: false }, "https://api.deepl.com/v1/translate"),
        (Engine::Deepl { api_key: String::new(), version: Version::V2, use_free_api: true }, "https://api-free.deepl.com/v2/translate"),
        (Engine::Google, "https://translate.google.com/m"),
        (Engine::Libre(Libre { api_key: String::new(), url: "https://translate.flossboxin.org.in".to_string(), alternatives: 2 }), "https://translate.flossboxin.org.in/translate"),
        (Engine::Linguee { return_all: true }, "https://www.linguee.com/"),
        (Engine::Microsoft { api_key: String::new(), region: String::new() }, "https://api.cognitive.microsofttranslator.com/translate?api-version=3.0"),
        (Engine::MyMemory { email: String::new(), return_all: false }, "http://api.mymemory.translated.net/get"),
        (Engine::Papago { client_id: String::new(), secret_key: String::new() }, "https://openapi.naver.com/v1/papago/n2mt"),
        (Engine::Pons, "https://api.pons.com/text-translation-web/v4/translate?locale=en"),
        (Engine::Qcri(Qcri { api_key: String::new(), domain: String::new() }), "https://mt.qcri.org/api/v1/translate?"),
        (Engine::Yandex { api_key: String::new() }, "https://translate.yandex.net/api/v1.5/tr.json/translate"),
    ];
    for (engine, address) in cases {
        assert_eq!(engine.base_url(), address);
        assert_eq!(Translator::with_engine("a", "b", engine).base_url(), address);
    }
}

#[test]
fn qcri_base_url_names_the_endpoint() {
    assert_eq!(Qcri::base_url("getDomains"), "https://mt.qcri.org/api/v1/getDomains?");
    assert_eq!(Qcri::base_url(""), "https://mt.qcri.org/api/v1/?");
}

#[test]
fn engines_are_found_by_name() {
    assert_eq!(Engine::from_name("deepl"), Ok(Engine::Deepl { api_key: String::new(), version: Version::V2, use_free_api: false }));
    assert_eq!(Engine::from_name("google"), Ok(Engine::Google));
    assert_eq!(Engine::from_name("libre"), Ok(Engine::Libre(Libre::default())));
    assert_eq!(Engine::from_name("linguee"), Ok(Engine::Linguee { return_all: false }));
    assert_eq!(Engine::from_name("microsoft"), Ok(Engine::Microsoft { api_key: String::new(), region: String::new() }));
    assert_eq!(Engine::from_name("mymemory"), Ok(Engine::MyMemory { email: String::new(), return_all: false }));
    assert_eq!(Engine::from_name("papago"), Ok(Engine::Papago { client_id: String::new(), secret_key: String::new() }));
    assert_eq!(Engine::from_name("pons"), Ok(Engine::Pons));
    assert_eq!(Engine::from_name("qcri"), Ok(Engine::Qcri(Qcri::default())));
    assert_eq!(Engine::from_name("yandex"), Ok(Engine::Yandex { api_key: String::new() }));
}

#[test]
fn other_names_are_not_supported() {
    for name in ["", "Google", "bing", "deepl ", "googl", "googlee"] {
        assert_eq!(Engine::from_name(name), Err(Error::EngineNotSupported(name.to_string())));
    }
}

#[test]
fn versions_have_names() {
    assert_eq!(Version::V1.as_str(), "v1");
    assert_eq!(Version::V2.as_str(), "v2");
    assert_eq!(Version::from_name("v1"), Some(Version::V1));
    assert_eq!(Version::from_name("v2"), Some(Version::V2));
    assert_eq!(Version::from_name("v3"), None);
    assert_eq!(Version::from_name("V2"), None);
    assert_eq!(Version::default(), Version::V2);
}

#[test]
fn defaults_are_empty() {
    assert_eq!(Libre::default(), Libre { api_key: String::new(), url: String::new(), alternatives: 0 });
    assert_eq!(Qcri::default(), Qcri { api_key: String::new(), domain: String::new() });
    assert_eq!(Engine::default(), Engine::Google);
}

#[test]
fn engines_are_equal_when_variant_and_fields_are() {
    let a = Engine::Microsoft { api_key: "k".to_string(), region: "r".to_string() };
    assert_eq!(a, a.clone());
    assert_ne!(a, Engine::Microsoft { api_key: "k".to_string(), region: "s".to_string() });
    assert_ne!(a, Engine::Microsoft { api_key: "j".to_string(), region: "r".to_string() });
    assert_ne!(Engine::Pons, Engine::Google);
    assert_ne!(Engine::Linguee { return_all: true }, Engine::Linguee { return_all: false });
    assert_ne!(
        Engine::Deepl { api_key: String::new(), version: Version::V1, use_free_api: false },
        Engine::Deepl { api_key: String::new(), version: Version::V2, use_free_api: false }
    );
    assert_ne!(
        Engine::Libre(Libre { api_key: String::new(), url: String::new(), alternatives: 1 }),
        Engine::Libre(Libre { api_key: String::new(), url: String::new(), alternatives: 2 })
    );
    assert_ne!(
        Engine::Yandex { api_key: "k".to_string() },
        Engine::MyMemory { email: "k".to_string(), return_all: false }
    );
}

#[test]
fn translator_gives_access_to_its_engine() {
    let mut translator = Translator::with_engine("en", "es", Engine::Linguee { return_all: false });
    let engine: &Engine = &translator;
    assert_eq!(*engine, Engine::Linguee { return_all: false });
    *translator = Engine::Pons;
    assert_eq!(translator.engine, Engine::Pons);
    assert_eq!(translator.source, "en");
    assert_eq!(translator.target, "es");
}
