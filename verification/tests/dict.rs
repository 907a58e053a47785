use tran::dict::{
    after_dictionary, definition_from_line, plan_query, sentence_output, BilingualSentence, BilingualSentences,
    DefinitionGroup, DictionaryStep, QueryOutput, WordDetail, YoudaoEc, YoudaoLanguagePart, YoudaoResponse,
    YoudaoTranslation, YoudaoTranslationPart, YoudaoWord, word_detail_from_response,
};
use tran::error::AppError;
use tran::google::TranslationResult;

fn lines(v: &[&str]) -> YoudaoTranslation {
    YoudaoTranslation {
        tr: Some(vec![YoudaoTranslationPart {
            l: Some(YoudaoLanguagePart { i: Some(v.iter().map(|s| s.to_string()).collect()) }),
        }]),
    }
}

fn pair(o: &str, t: &str) -> BilingualSentence {
    BilingualSentence { sentence: Some(o.to_string()), translation: Some(t.to_string()) }
}

fn response() -> YoudaoResponse {
    YoudaoResponse {
        ec: Some(YoudaoEc {
            exam_type: Some(vec!["CET4".to_string()]),
            word: Some(vec![YoudaoWord {
                usphone: Some("həˈloʊ".to_string()),
                ukphone: Some(String::new()),
                trs: Some(vec![lines(&[" int. 喂；你好 ", "n. 招呼"]), lines(&["hello world"])]),
            }]),
        }),
        bilingual_sentences: Some(BilingualSentences {
            sentence_pair: Some(vec![
                pair("One.", "一。"),
                pair("", "空"),
                pair("Two.", "二。"),
                pair("Three.", "三。"),
                pair("Four.", "四。"),
            ]),
        }),
    }
}

#[test]
fn builds_entry_from_answer() {
    let d = word_detail_from_response("hello", &response()).unwrap();
    assert_eq!(d.word, "hello");
    assert_eq!(d.phonetic_us.as_deref(), Some("/ həˈloʊ /"));
    assert_eq!(d.phonetic_uk, None);
    assert_eq!(d.tags, vec!["CET4"]);
    let defs: Vec<(String, Vec<String>)> = d.definitions.iter().map(|g| (g.pos.clone(), g.meanings.clone())).collect();
    assert_eq!(
        defs,
        vec![
            ("int.".to_string(), vec!["喂；你好".to_string()]),
            ("n.".to_string(), vec!["招呼".to_string()]),
            ("".to_string(), vec!["hello world".to_string()]),
        ]
    );
    let ex: Vec<(String, String)> = d.examples.iter().map(|e| (e.orig.clone(), e.trans.clone())).collect();
    assert_eq!(ex, vec![("One.".to_string(), "一。".to_string()), ("Two.".to_string(), "二。".to_string())]);
}

#[test]
fn answer_without_definitions_is_not_found() {
    let empty = YoudaoResponse { ec: None, bilingual_sentences: None };
    match word_detail_from_response("qwzx", &empty) {
        Err(AppError::NotFound(w)) => assert_eq!(w, "qwzx"),
        other => panic!("unexpected: {:?}", other),
    }
}

#[test]
fn definition_lines_split_at_first_dot() {
    let d = definition_from_line("  vt. 问候. 致意 ");
    assert_eq!(d.pos, "vt.");
    assert_eq!(d.meanings, vec!["问候. 致意"]);
    let d = definition_from_line("没有词性");
    assert_eq!(d.pos, "");
    assert_eq!(d.meanings, vec!["没有词性"]);
}

#[test]
fn plans_dictionary_or_translation() {
    let p = plan_query("  hello ", false).unwrap();
    assert_eq!(p.text, "hello");
    assert!(p.dictionary_first);
    assert!(plan_query("don't", false).unwrap().dictionary_first);
    assert!(!plan_query("hello world", false).unwrap().dictionary_first);
    assert!(!plan_query("hello", true).unwrap().dictionary_first);
    assert!(!plan_query("abc1", false).unwrap().dictionary_first);
    assert!(plan_query("苹果", false).unwrap().dictionary_first);
    assert!(!plan_query(&"a".repeat(65), false).unwrap().dictionary_first);
    match plan_query("  ", false) {
        Err(AppError::InvalidInput(m)) => assert_eq!(m, "查询内容不能为空"),
        other => panic!("unexpected: {:?}", other),
    }
}

#[test]
fn missing_entry_falls_back_to_translation() {
    assert!(matches!(after_dictionary(Err(AppError::NotFound("x".to_string()))), DictionaryStep::Translate));
    assert!(matches!(
        after_dictionary(Err(AppError::General("net".to_string()))),
        DictionaryStep::Fail(AppError::General(_))
    ));
    let d = WordDetail {
        word: "w".to_string(),
        phonetic_us: None,
        phonetic_uk: None,
        tags: vec![],
        definitions: vec![DefinitionGroup { pos: "n.".to_string(), meanings: vec!["词".to_string()] }],
        examples: vec![],
    };
    assert!(matches!(after_dictionary(Ok(d)), DictionaryStep::Answer(QueryOutput::Dict(_))));
}

#[test]
fn summaries_of_results() {
    let d = word_detail_from_response("hello", &response()).unwrap();
    assert_eq!(QueryOutput::Dict(d).summary(), "int.喂；你好 n.招呼 hello world");
    let t = TranslationResult {
        original: "hi".to_string(),
        translated: "嗨".to_string(),
        detected_lang: "en".to_string(),
        target_lang: "zh-CN".to_string(),
    };
    let o = sentence_output(t);
    assert_eq!(o.summary(), "嗨");
    assert!(matches!(o, QueryOutput::Sentence { ref original, .. } if original == "hi"));
}
