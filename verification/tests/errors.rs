use deeptranslator::{accepted, response_status, Engine, Error, Reply, Request, Translator};

#[test]
fn too_many_requests_message() {
    assert_eq!(
        Error::TooManyRequests.message(),
        "Server Error: You made too many requests to the server. According to google, you are allowed to make 5 requests per second and up to 200k requests per day. You can wait and try again later or you can try the translate_batch function"
    );
}

#[test]
fn response_message_holds_the_status() {
    assert_eq!(
        Error::Response(429).message(),
        "Request exception can happen due to an api connection error (429)."
    );
    assert_eq!(
        Error::Response(0).message(),
        "Request exception can happen due to an api connection error (0)."
    );
}

#[test]
fn length_message_holds_the_range() {
    assert_eq!(
        Error::NotValidLength { min: 1, max: 500 }.message(),
        "Text length need to be between 1 and 500 characters"
    );
}

#[test]
fn unsupported_engine_message_lists_the_engines() {
    assert_eq!(
        Error::EngineNotSupported("bing".to_string()).message(),
        "Translator bing is not supported.\nSupported translators: `deepl`, `google`, `libre`, `linguee`, `microsoft`, `mymemory`, `papago`, `pons`, `qcri`, `yandex`."
    );
}

#[test]
fn not_found_message() {
    assert_eq!(
        Error::TranslationNotFound.message(),
        "No translation was found using the current translator. Try another translator?"
    );
}

#[test]
fn carried_descriptions_are_the_message() {
    assert_eq!(Error::TransportFailure("dns".to_string()).message(), "dns");
    assert_eq!(Error::MarkupQueryFailure("bad selector".to_string()).message(), "bad selector");
    assert_eq!(Error::IOFailure("no such file".to_string()).message(), "no such file");
}

#[test]
fn response_status_lets_only_200_through() {
    let reply = Reply { status: 200, body: "ok".to_string() };
    assert_eq!(response_status(reply.clone()), Ok(reply));
    for status in [0u16, 199, 201, 302, 404, 429, 500, u16::MAX] {
        assert_eq!(response_status(Reply { status, body: "ok".to_string() }), Err(Error::Response(status)));
    }
}

#[test]
fn each_error_has_an_input_that_gives_it() {
    let pons = Translator::with_engine("en", "es", Engine::Pons);
    let google = Translator::with_engine("en", "es", Engine::Google);
    let mymemory = Translator::with_engine("en", "es", Engine::MyMemory { email: String::new(), return_all: false });
    let ok = |_: &Request| Ok(Reply { status: 200, body: "{}".to_string() });
    let limited = |_: &Request| Ok(Reply { status: 503, body: String::new() });
    let broken = |_: &Request| -> Result<Reply, String> { Err("tls".to_string()) };
    assert_eq!(pons.translate("x", &limited), Err(Error::Response(503)));
    assert_eq!(mymemory.translate(&"y".repeat(600), &ok), Err(Error::NotValidLength { min: 1, max: 500 }));
    assert_eq!(Engine::from_name("bing"), Err(Error::EngineNotSupported("bing".to_string())));
    assert_eq!(pons.translate("x", &ok), Err(Error::TranslationNotFound));
    assert_eq!(google.translate("x", &ok), Err(Error::TranslationNotFound));
    assert_eq!(pons.translate("x", &broken), Err(Error::TransportFailure("tls".to_string())));
    assert_eq!(pons.translate_file(Err("denied".to_string()), &ok), Err(Error::IOFailure("denied".to_string())));
    assert!(matches!(deeptranslator::markup::selector("a["), Err(Error::MarkupQueryFailure(_))));
}

#[test]
fn only_200_is_accepted() {
    assert!(accepted(200));
    for status in [0u16, 199, 201, 204, 206, 304, 429, 500] {
        assert!(!accepted(status));
    }
}
