use tran::error::AppError;
use tran::json::JsonValue;
use tran::microsoft::{
    bing_reply, bing_reply_text, cached_auth_usable, detect_target_lang, normalize_lang_code, parse_bing_html_auth,
    parse_bing_response, prepare_request, BingReply,
};

fn s(x: &str) -> JsonValue {
    JsonValue::String(x.to_string())
}

fn obj(members: Vec<(&str, JsonValue)>) -> JsonValue {
    JsonValue::Object(members.into_iter().map(|(k, v)| (k.to_string(), v)).collect())
}

fn success_body() -> JsonValue {
    JsonValue::Array(vec![obj(vec![
        (
            "detectedLanguage",
            obj(vec![("language", s("en")), ("score", JsonValue::Number(None))]),
        ),
        (
            "translations",
            JsonValue::Array(vec![obj(vec![("text", s("你好，世界！")), ("to", s("zh-Hans"))])]),
        ),
        ("usedLLM", JsonValue::Bool(true)),
    ])])
}

#[test]
fn parses_bing_response_success() {
    let value = success_body();
    let (translated, detected_lang) = parse_bing_response(&value).unwrap();
    assert_eq!(translated, "你好，世界！");
    assert_eq!(detected_lang, "en");
}

#[test]
fn microsoft_detects_cjk_target_language() {
    assert_eq!(detect_target_lang("你好"), ("auto-detect", "en"));
    assert_eq!(detect_target_lang("hello"), ("auto-detect", "zh-Hans"));
}

#[test]
fn parses_bing_auth_from_html() {
    let sample_html = r#"
            <script>
            var IG="1A942AFD4BE84E8D9E1256A02397720D";
            </script>
            <div data-iid="translator.5023"></div>
            <script>
            var params_AbusePreventionHelper = [1790167341344,"test_token_abc_123",3600000];
            </script>
        "#;
    let auth = parse_bing_html_auth(sample_html).unwrap();
    assert_eq!(auth.ig, "1A942AFD4BE84E8D9E1256A02397720D");
    assert_eq!(auth.iid, "translator.5023");
    assert_eq!(auth.key, "1790167341344");
    assert_eq!(auth.token, "test_token_abc_123");
}

#[test]
fn bing_auth_missing_parts_is_none() {
    assert!(parse_bing_html_auth("<html>nothing here</html>").is_none());
    assert!(parse_bing_html_auth(r#"var IG="ABC"; data-iid="x""#).is_none());
}

#[test]
fn normalizes_language_codes() {
    assert_eq!(normalize_lang_code("auto"), "auto-detect");
    assert_eq!(normalize_lang_code("zh-CN"), "zh-Hans");
    assert_eq!(normalize_lang_code("ZH-TW"), "zh-Hant");
    assert_eq!(normalize_lang_code("fr"), "fr");
}

#[test]
fn microsoft_request_normalizes_languages() {
    let r = prepare_request(" hello ", None, None).unwrap();
    assert_eq!(r.text, "hello");
    assert_eq!(r.source_lang, "auto-detect");
    assert_eq!(r.target_lang, "zh-Hans");
    match prepare_request(&"x".repeat(10001), None, None) {
        Err(AppError::InvalidInput(m)) => assert_eq!(m, "待翻译文本过长，最多支持 10000 个字符"),
        other => panic!("unexpected: {:?}", other),
    }
}

#[test]
fn credentials_expire_after_half_an_hour() {
    assert!(cached_auth_usable(false, 0));
    assert!(cached_auth_usable(false, 1799));
    assert!(!cached_auth_usable(false, 1800));
    assert!(!cached_auth_usable(true, 10));
}

#[test]
fn bing_reply_retries_expired_credentials_once() {
    let req = prepare_request("hello", None, None).unwrap();
    let expired = obj(vec![("statusCode", JsonValue::Number(Some(400)))]);
    assert!(matches!(bing_reply(&req, false, Some(&expired)), BingReply::Retry));
    assert!(matches!(bing_reply(&req, true, Some(&expired)), BingReply::Done(Err(AppError::Protocol(_)))));
    assert!(matches!(bing_reply(&req, false, None), BingReply::Retry));
    assert!(matches!(bing_reply(&req, true, None), BingReply::Failed));
    let body = success_body();
    match bing_reply(&req, false, Some(&body)) {
        BingReply::Done(Ok(r)) => {
            assert_eq!(r.original, "hello");
            assert_eq!(r.translated, "你好，世界！");
            assert_eq!(r.detected_lang, "en");
            assert_eq!(r.target_lang, "zh-Hans");
        }
        other => panic!("unexpected: {:?}", other),
    }
}

#[test]
fn bing_reply_reads_the_reply_text() {
    let req = prepare_request("hello", None, None).unwrap();
    let body = r#"[{"detectedLanguage":{"language":"en","score":1.0},"translations":[{"text":"你好","to":"zh-Hans"}]}]"#;
    match bing_reply_text(&req, false, true, body) {
        BingReply::Done(Ok(r)) => {
            assert_eq!(r.translated, "你好");
            assert_eq!(r.detected_lang, "en");
        }
        other => panic!("unexpected: {:?}", other),
    }
    assert!(matches!(bing_reply_text(&req, false, false, body), BingReply::Retry));
    assert!(matches!(bing_reply_text(&req, true, true, "<html>"), BingReply::Failed));
    assert!(matches!(bing_reply_text(&req, false, true, r#"{"statusCode":400}"#), BingReply::Retry));
}
