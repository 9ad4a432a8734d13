use deeptranslator::detection::{batch, read_answer, read_batch, read_detection, read_single, request, single};
use deeptranslator::{Body, Error, Method, QText, Reply, Request, Scalar};

const ONE: &str = r#"{"data":{"detections":[{"language":"es","isReliable":true,"confidence":11.94},{"language":"pt","isReliable":false,"confidence":3.1}]}}"#;

const SEVERAL: &str = r#"{"data":{"detections":[[{"language":"es","isReliable":true,"confidence":11.94}],[{"language":"en","isReliable":true,"confidence":9.5},{"language":"nl","isReliable":false,"confidence":1.0}],[]]}}"#;

fn document(source: &str) -> serde_json::Value {
    serde_json::from_str(source).unwrap()
}

fn answer(body: &str) -> Result<Reply, String> {
    Ok(Reply { status: 200, body: body.to_string() })
}

#[test]
fn qtext_is_empty_without_characters_or_texts() {
    assert!(QText::Str(String::new()).is_empty());
    assert!(QText::ListStr(Vec::new()).is_empty());
    assert!(!QText::Str(" ".to_string()).is_empty());
    assert!(!QText::ListStr(vec![String::new()]).is_empty());
}

#[test]
fn qtext_comes_from_a_text_or_a_list() {
    assert_eq!(QText::from("hola".to_string()), QText::Str("hola".to_string()));
    assert_eq!(QText::from(vec!["a".to_string()]), QText::ListStr(vec!["a".to_string()]));
}

#[test]
fn qtext_is_sent_as_it_is_or_as_a_printed_list() {
    assert_eq!(QText::Str("hola \"amigo\"".to_string()).text(), "hola \"amigo\"");
    assert_eq!(
        QText::ListStr(vec!["hola".to_string(), "say \"hi\"\n".to_string()]).text(),
        "[\"hola\", \"say \\\"hi\\\"\\n\"]"
    );
    assert_eq!(QText::ListStr(Vec::new()).text(), "[]");
}

#[test]
fn detection_request_is_a_post_with_the_text() {
    assert_eq!(
        request(&QText::Str("buenos dias".to_string()), "secret"),
        Request {
            method: Method::Post,
            url: "https://ws.detectlanguage.com/0.2/detect".to_string(),
            query: Vec::new(),
            headers: vec![("User-Agent".to_string(), "Bearer secret".to_string())],
            body: Body::Json(vec![("q".to_string(), Scalar::Text("buenos dias".to_string()))]),
        }
    );
    let several = request(&QText::ListStr(vec!["a".to_string(), "b".to_string()]), "secret");
    assert_eq!(several.body, Body::Json(vec![("q".to_string(), Scalar::Text("[\"a\", \"b\"]".to_string()))]));
}

#[test]
fn single_reads_the_first_detection() {
    assert_eq!(read_single(&document(ONE), false), Some(serde_json::Value::String("es".to_string())));
    assert_eq!(
        read_single(&document(ONE), true),
        Some(document(r#"{"language":"es","isReliable":true,"confidence":11.94}"#))
    );
}

#[test]
fn single_reads_nothing_where_nothing_is() {
    for source in [r#"{}"#, r#"{"data":{}}"#, r#"{"data":{"detections":[]}}"#, r#"{"data":{"detections":{}}}"#] {
        assert_eq!(read_single(&document(source), true), None);
        assert_eq!(read_single(&document(source), false), None);
    }
    assert_eq!(read_single(&document(r#"{"data":{"detections":[{"confidence":1}]}}"#), false), None);
    assert_eq!(read_detection(None, true), None);
    assert_eq!(read_detection(Some(&document("7")), true), Some(document("7")));
    assert_eq!(read_detection(Some(&document("7")), false), None);
}

#[test]
fn batch_reads_the_first_detection_of_each_text() {
    assert_eq!(
        read_batch(&document(SEVERAL), false),
        Ok(vec![
            Some(serde_json::Value::String("es".to_string())),
            Some(serde_json::Value::String("en".to_string())),
            None,
        ])
    );
    assert_eq!(
        read_batch(&document(SEVERAL), true),
        Ok(vec![
            Some(document(r#"{"language":"es","isReliable":true,"confidence":11.94}"#)),
            Some(document(r#"{"language":"en","isReliable":true,"confidence":9.5}"#)),
            None,
        ])
    );
}

#[test]
fn batch_needs_a_list_of_detections() {
    for source in [r#"{}"#, r#"{"data":{}}"#, r#"{"data":{"detections":{}}}"#, r#"{"detections":[]}"#] {
        assert_eq!(read_batch(&document(source), true), Err(Error::TranslationNotFound));
    }
    assert_eq!(read_batch(&document(r#"{"data":{"detections":[]}}"#), true), Ok(Vec::new()));
}

#[test]
fn answers_are_parsed_whatever_their_status() {
    assert_eq!(read_answer(answer("{\"a\":1}")), Ok(document("{\"a\":1}")));
    assert_eq!(read_answer(Ok(Reply { status: 401, body: "{\"a\":1}".to_string() })), Ok(document("{\"a\":1}")));
    assert_eq!(read_answer(Err("reset".to_string())), Err(Error::TransportFailure("reset".to_string())));
    match read_answer(answer("not json")) {
        Err(Error::TransportFailure(what)) => assert!(!what.is_empty()),
        other => panic!("unexpected {:?}", other),
    }
}

#[test]
fn single_sends_one_request_and_reads_the_answer() {
    let send = |request: &Request| {
        assert_eq!(request.body, Body::Json(vec![("q".to_string(), Scalar::Text("buenos dias".to_string()))]));
        answer(ONE)
    };
    assert_eq!(single("buenos dias", "secret", false, &send), Ok(Some(serde_json::Value::String("es".to_string()))));
    let broken = |_: &Request| -> Result<Reply, String> { Err("reset".to_string()) };
    assert_eq!(single("buenos dias", "secret", true, &broken), Err(Error::TransportFailure("reset".to_string())));
}

#[test]
fn batch_sends_one_request_for_all_texts() {
    let calls = std::cell::Cell::new(0u32);
    let send = |_: &Request| {
        calls.set(calls.get() + 1);
        answer(SEVERAL)
    };
    let texts = vec!["hola".to_string(), "hello".to_string(), "".to_string()];
    let found = batch(texts, "secret", false, &send).unwrap();
    assert_eq!(found.len(), 3);
    assert_eq!(found[1], Some(serde_json::Value::String("en".to_string())));
    assert_eq!(calls.get(), 1);
}
