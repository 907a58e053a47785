use tran::error::AppError;
use tran::google::{contains_cjk, detect_target_lang, parse_google_response, prepare_request, translation_result};
use tran::json::{parse_json, JsonValue};

fn s(x: &str) -> JsonValue {
    JsonValue::String(x.to_string())
}

fn arr(v: Vec<JsonValue>) -> JsonValue {
    JsonValue::Array(v)
}

#[test]
fn parses_segmented_google_response() {
    let value = arr(vec![
        arr(vec![
            arr(vec![s("你好"), s("hello")]),
            arr(vec![s("，"), s(",")]),
            arr(vec![s("世界"), s("world")]),
        ]),
        JsonValue::Null,
        s("en"),
    ]);
    let parsed = parse_google_response(&value).unwrap();

    assert_eq!(parsed.0, "你好，世界");
    assert_eq!(parsed.1, "en");
}

#[test]
fn parses_compact_google_response() {
    let value = arr(vec![arr(vec![s("你好"), s("en")])]);
    let parsed = parse_google_response(&value).unwrap();

    assert_eq!(parsed.0, "你好");
    assert_eq!(parsed.1, "en");
}

#[test]
fn google_detects_cjk_target_language() {
    assert_eq!(detect_target_lang("你好"), ("auto", "en"));
    assert_eq!(detect_target_lang("hello"), ("auto", "zh-CN"));
}

#[test]
fn google_rejects_unusable_answer() {
    let value = JsonValue::Object(vec![]);
    match parse_google_response(&value) {
        Err(AppError::Protocol(m)) => assert_eq!(m, "未能解析到有效翻译结果"),
        other => panic!("unexpected: {:?}", other),
    }
}

#[test]
fn google_detects_kana_and_hangul() {
    assert!(contains_cjk("カタカナ"));
    assert!(contains_cjk("한국어"));
    assert!(!contains_cjk("plain ascii"));
}

#[test]
fn google_request_rejects_blank_and_long_text() {
    match prepare_request("   ", None, None) {
        Err(AppError::InvalidInput(m)) => assert_eq!(m, "待翻译文本不能为空"),
        other => panic!("unexpected: {:?}", other),
    }
    let long = "a".repeat(12001);
    match prepare_request(&long, None, None) {
        Err(AppError::InvalidInput(m)) => assert_eq!(m, "待翻译文本过长，最多支持 12000 个字符"),
        other => panic!("unexpected: {:?}", other),
    }
    let ok = prepare_request(&"a".repeat(12000), None, None).unwrap();
    assert_eq!(ok.text.chars().count(), 12000);
}

#[test]
fn google_request_trims_and_picks_languages() {
    let r = prepare_request("  hello  ", None, None).unwrap();
    assert_eq!(r.text, "hello");
    assert_eq!(r.source_lang, "auto");
    assert_eq!(r.target_lang, "zh-CN");
    let r = prepare_request("你好", Some("zh-CN"), Some("ja")).unwrap();
    assert_eq!(r.source_lang, "zh-CN");
    assert_eq!(r.target_lang, "ja");
}

#[test]
fn google_translation_result_keeps_request() {
    let req = prepare_request("hello", None, None).unwrap();
    let value = arr(vec![arr(vec![arr(vec![s("你好"), s("hello")])]), JsonValue::Null, s("en")]);
    let r = translation_result(&req, &value).unwrap();
    assert_eq!(r.original, "hello");
    assert_eq!(r.translated, "你好");
    assert_eq!(r.detected_lang, "en");
    assert_eq!(r.target_lang, "zh-CN");
}

#[test]
fn parses_json_text_into_documents() {
    let value = parse_json(r#"[[["你好","hello"]],null,"en"]"#).unwrap();
    let parsed = parse_google_response(&value).unwrap();
    assert_eq!(parsed, ("你好".to_string(), "en".to_string()));
    assert!(matches!(parse_json("{\"n\": 7, \"f\": 1.5}"), Some(JsonValue::Object(_))));
    assert!(parse_json("nope").is_none());
}
