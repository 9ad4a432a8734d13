use deeptranslator::markup::selector;
use deeptranslator::provider::{deepl, google, libre, linguee, microsoft, mymemory, papago, pons, qcri, yandex};
use deeptranslator::{Engine, Error, Libre, Qcri, Reply, TranslationValue, Translator, Version};

fn text(value: &str) -> Result<TranslationValue, Error> {
    Ok(TranslationValue::Text(value.to_string()))
}

fn list(values: &[&str]) -> Result<TranslationValue, Error> {
    Ok(TranslationValue::List(values.iter().map(|value| value.to_string()).collect()))
}

fn document(source: &str) -> serde_json::Value {
    serde_json::from_str(source).unwrap()
}

fn conclude(engine: Engine, body: &str) -> Result<TranslationValue, Error> {
    Translator::with_engine("en", "es", engine).conclude(Ok(Reply { status: 200, body: body.to_string() }))
}

#[test]
fn deepl_reads_the_text_of_the_first_translation() {
    let answer = r#"{"translations":[{"detected_source_language":"EN","text":"Hallo"},{"text":"Servus"}]}"#;
    assert_eq!(deepl::read(&document(answer)), text("Hallo"));
    let engine = Engine::Deepl { api_key: String::new(), version: Version::V1, use_free_api: true };
    assert_eq!(conclude(engine, answer), text("Hallo"));
}

#[test]
fn deepl_without_a_translation_finds_none() {
    for answer in [r#"{}"#, r#"{"translations":[]}"#, r#"{"translations":"x"}"#, r#"{"translations":[{}]}"#, r#"{"translations":[{"text":3}]}"#, r#"[]"#, r#"null"#] {
        assert_eq!(deepl::read(&document(answer)), Err(Error::TranslationNotFound));
    }
}

#[test]
fn libre_reads_translated_text() {
    let answer = r#"{"alternatives":["Lauf"],"translatedText":"run"}"#;
    assert_eq!(libre::read(&document(answer)), text("run"));
    let engine = Engine::Libre(Libre { api_key: String::new(), url: String::new(), alternatives: 1 });
    assert_eq!(conclude(engine, answer), text("run"));
    assert_eq!(libre::read(&document(r#"{"error":"bad"}"#)), Err(Error::TranslationNotFound));
}

#[test]
fn a_list_of_texts_is_read_as_a_list() {
    assert_eq!(libre::read(&document(r#"{"translatedText":["a","b"]}"#)), list(&["a", "b"]));
    assert_eq!(libre::read(&document(r#"{"translatedText":[]}"#)), list(&[]));
    assert_eq!(libre::read(&document(r#"{"translatedText":["a",1]}"#)), Err(Error::TranslationNotFound));
    assert_eq!(libre::read(&document(r#"{"translatedText":{"a":"b"}}"#)), Err(Error::TranslationNotFound));
    assert_eq!(libre::read(&document(r#"{"translatedText":true}"#)), Err(Error::TranslationNotFound));
}

#[test]
fn microsoft_collects_every_text_of_the_first_element() {
    let answer = r#"[{"translations":[{"text":"Bonjour","to":"fr"},{"text":"Hallo","to":"de"}]},{"translations":[{"text":"x"}]}]"#;
    assert_eq!(microsoft::read(&document(answer)), list(&["Bonjour", "Hallo"]));
    let engine = Engine::Microsoft { api_key: String::new(), region: String::new() };
    assert_eq!(conclude(engine, answer), list(&["Bonjour", "Hallo"]));
    assert_eq!(microsoft::read(&document(r#"[{"translations":[]}]"#)), list(&[]));
}

#[test]
fn microsoft_without_a_list_of_translations_finds_none() {
    for answer in [r#"[]"#, r#"{}"#, r#"[{}]"#, r#"[{"translations":{}}]"#, r#"[{"translations":[{"to":"fr"}]}]"#, r#"[{"translations":[{"text":"a"},{"text":null}]}]"#] {
        assert_eq!(microsoft::read(&document(answer)), Err(Error::TranslationNotFound));
    }
}

#[test]
fn mymemory_reads_either_shape() {
    assert_eq!(mymemory::read(&document(r#"{"responseData":{"translatedText":"hola"}}"#), false), text("hola"));
    let matches = r#"{"matches":[{"translation":"a"},{"translation":"b"}]}"#;
    assert_eq!(mymemory::read(&document(matches), false), text("a"));
    assert_eq!(mymemory::read(&document(matches), true), list(&["a", "b"]));
}

#[test]
fn mymemory_first_match_does_not_need_the_others() {
    let matches = r#"{"matches":[{"translation":"a"},{"translation":null}]}"#;
    assert_eq!(mymemory::read(&document(matches), false), text("a"));
    assert_eq!(mymemory::read(&document(matches), true), Err(Error::TranslationNotFound));
}

#[test]
fn mymemory_reads_matches_handed_over_directly() {
    let elements = vec![document(r#"{"translation":"a"}"#), document(r#"{"translation":"b"}"#)];
    assert_eq!(mymemory::read_matches(&elements, false), text("a"));
    assert_eq!(mymemory::read_matches(&elements, true), list(&["a", "b"]));
    assert_eq!(mymemory::read_matches(&Vec::new(), false), Err(Error::TranslationNotFound));
    assert_eq!(mymemory::read_matches(&Vec::new(), true), list(&[]));
}

#[test]
fn papago_reads_three_levels_down() {
    let answer = r#"{"message":{"result":{"srcLangType":"ko","translatedText":"hello"}}}"#;
    assert_eq!(papago::read(&document(answer)), text("hello"));
    let engine = Engine::Papago { client_id: String::new(), secret_key: String::new() };
    assert_eq!(conclude(engine, answer), text("hello"));
    for answer in [r#"{}"#, r#"{"message":{}}"#, r#"{"message":{"result":{}}}"#, r#"{"translatedText":"hello"}"#] {
        assert_eq!(papago::read(&document(answer)), Err(Error::TranslationNotFound));
    }
}

#[test]
fn pons_reads_translation() {
    assert_eq!(pons::read(&document(r#"{"translation":"Der Tag","links":[]}"#)), text("Der Tag"));
    assert_eq!(conclude(Engine::Pons, r#"{"translation":"Der Tag"}"#), text("Der Tag"));
    assert_eq!(pons::read(&document(r#"{"translatedText":"Der Tag"}"#)), Err(Error::TranslationNotFound));
}

#[test]
fn qcri_reads_translated_text() {
    assert_eq!(qcri::read(&document(r#"{"success":true,"translatedText":"marhaba"}"#)), text("marhaba"));
    let engine = Engine::Qcri(Qcri { api_key: String::new(), domain: String::new() });
    assert_eq!(conclude(engine, r#"{"translatedText":"marhaba"}"#), text("marhaba"));
    assert_eq!(qcri::read(&document(r#"{"success":false}"#)), Err(Error::TranslationNotFound));
}

#[test]
fn yandex_reads_text() {
    assert_eq!(yandex::read(&document(r#"{"code":200,"lang":"en-ru","text":["privet"]}"#)), list(&["privet"]));
    assert_eq!(conclude(Engine::Yandex { api_key: String::new() }, r#"{"text":"privet"}"#), text("privet"));
    assert_eq!(yandex::read(&document(r#"{"code":401}"#)), Err(Error::TranslationNotFound));
}

#[test]
fn json_engines_find_nothing_in_markup_engines_documents() {
    let answer = document(r#"{"translatedText":"x","translation":"x","text":"x"}"#);
    assert_eq!(Engine::Google.read_document(&answer), Err(Error::TranslationNotFound));
    assert_eq!(Engine::Linguee { return_all: true }.read_document(&answer), Err(Error::TranslationNotFound));
    assert_eq!(Engine::Pons.read_document(&answer), text("x"));
}

#[test]
fn google_reads_the_trimmed_text_of_the_first_match() {
    let page = "<div class=\"result-container\">  uno <i>dos</i>\n</div><div class=\"result-container\">tres</div>";
    assert_eq!(google::read(page), text("uno dos"));
    let parsed = scraper::Html::parse_document(page);
    let selector = google::choose_selector(google::PRIMARY, google::SECONDARY).unwrap();
    assert_eq!(selector, scraper::Selector::parse("div.result-container").unwrap());
    assert_eq!(google::read_first(&parsed, &selector), text("uno dos"));
    let other = scraper::Selector::parse("i").unwrap();
    assert_eq!(google::read_first(&parsed, &other), text("dos"));
    let none = scraper::Selector::parse("span").unwrap();
    assert_eq!(google::read_first(&parsed, &none), Err(Error::TranslationNotFound));
}

#[test]
fn google_reads_an_empty_container_as_the_empty_text() {
    assert_eq!(google::read("<div class=\"result-container\">   </div>"), text(""));
    assert_eq!(google::read(""), Err(Error::TranslationNotFound));
}

const LINGUEE_PAGE: &str = "<html><body>\
    <a class=\"dictLink featured\"> run <span class=\"placeholder\"> (sth.) </span></a>\
    <a class=\"dictLink\">jog</a>\
    <a class=\"dictLink featured\">walk</a>\
    <a class=\"featured dictLink\"><span class=\"placeholder\">to</span> go to <span class=\"placeholder\">x</span></a>\
    </body></html>";

#[test]
fn linguee_reads_the_first_entry() {
    assert_eq!(linguee::read(LINGUEE_PAGE, false), text("run"));
    assert_eq!(conclude(Engine::Linguee { return_all: false }, LINGUEE_PAGE), text("run"));
}

#[test]
fn linguee_reads_all_entries_in_order() {
    assert_eq!(linguee::read(LINGUEE_PAGE, true), list(&["run", "walk", "go  x"]));
    assert_eq!(conclude(Engine::Linguee { return_all: true }, LINGUEE_PAGE), list(&["run", "walk", "go  x"]));
}

#[test]
fn linguee_without_a_featured_link_finds_none() {
    let page = "<html><body><a class=\"dictLink\">jog</a></body></html>";
    assert_eq!(linguee::read(page, false), Err(Error::TranslationNotFound));
    assert_eq!(linguee::read(page, true), Err(Error::TranslationNotFound));
}

#[test]
fn linguee_reads_links_with_given_selectors() {
    let parsed = scraper::Html::parse_document(LINGUEE_PAGE);
    let link = scraper::Selector::parse("a.dictLink").unwrap();
    let placeholder = scraper::Selector::parse("span.placeholder").unwrap();
    assert_eq!(linguee::read_links(&parsed, &link, &placeholder, true), list(&["run", "jog", "walk", "go  x"]));
    let first = parsed.select(&link).next().unwrap();
    assert_eq!(linguee::read_entry(&first, &placeholder), "run");
    assert_eq!(linguee::read_entry(&first, &link), "run  (sth.)");
}

#[test]
fn secondary_selector_is_used_only_where_the_primary_is_none() {
    let first = scraper::Selector::parse("div.a").unwrap();
    let second = scraper::Selector::parse("div.b").unwrap();
    assert_eq!(google::choose_selector("div.a", "div.b"), Ok(first.clone()));
    assert_eq!(google::choose_selector("div.a", "div..b"), Ok(first));
    assert_eq!(google::choose_selector("div..a", "div.b"), Ok(second));
}

#[test]
fn two_patterns_that_are_no_selectors_are_a_markup_query_failure() {
    match google::choose_selector("div..a", "<<") {
        Err(Error::MarkupQueryFailure(what)) => {
            assert_eq!(what, scraper::Selector::parse("<<").unwrap_err().to_string());
            assert!(!what.is_empty());
        }
        other => panic!("unexpected {:?}", other),
    }
}

#[test]
fn selector_tells_a_bad_pattern_apart_from_one_that_matches_nothing() {
    assert_eq!(selector("span.nowhere"), Ok(scraper::Selector::parse("span.nowhere").unwrap()));
    assert!(matches!(selector("span..nowhere"), Err(Error::MarkupQueryFailure(_))));
    assert!(matches!(selector(""), Err(Error::MarkupQueryFailure(_))));
}

#[test]
fn linguee_patterns_that_are_no_selectors_are_a_markup_query_failure() {
    assert!(matches!(linguee::read_with(LINGUEE_PAGE, "a..x", "span.placeholder", true), Err(Error::MarkupQueryFailure(_))));
    assert!(matches!(linguee::read_with(LINGUEE_PAGE, "a.dictLink", "span..x", false), Err(Error::MarkupQueryFailure(_))));
    assert_eq!(linguee::read_with(LINGUEE_PAGE, "a.dictLink", "span.placeholder", false), text("run"));
    assert_eq!(linguee::read_with(LINGUEE_PAGE, linguee::LINK, linguee::PLACEHOLDER, false), linguee::read(LINGUEE_PAGE, false));
}
