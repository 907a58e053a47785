use tran::cache::{QueryCache, QUERY_CACHE_CAPACITY};
use tran::cli::{effective_proxy, plan_command, CliArgs, CliCommand};
use tran::dict::QueryOutput;
use tran::error::AppError;
use tran::history::{prepare_record, MAX_SUMMARY_CHARS};
use tran::theme::ThemeMode;

fn out(text: &str) -> QueryOutput {
    QueryOutput::Sentence {
        original: text.to_string(),
        translated: text.to_string(),
        detected_lang: "en".to_string(),
        target_lang: "zh-CN".to_string(),
    }
}

#[test]
fn cache_returns_latest_and_evicts_oldest() {
    let mut cache = QueryCache::new();
    cache.insert("a", out("1"));
    cache.insert("a", out("2"));
    assert_eq!(cache.len(), 1);
    assert_eq!(cache.get("a").unwrap().summary(), "2");
    for i in 0..QUERY_CACHE_CAPACITY {
        cache.insert(&format!("q{}", i), out("x"));
    }
    assert_eq!(cache.len(), QUERY_CACHE_CAPACITY);
    assert!(cache.get("a").is_none());
    assert!(cache.get("q0").is_some());
    cache.insert("a", out("3"));
    assert!(cache.get("q0").is_none());
    assert_eq!(cache.get("a").unwrap().summary(), "3");
}

#[test]
fn records_are_trimmed_and_bounded() {
    let (q, s) = prepare_record("  hello ", " 你好 ").unwrap();
    assert_eq!(q, "hello");
    assert_eq!(s, "你好");
    let long = "字".repeat(MAX_SUMMARY_CHARS + 5);
    let (_, s) = prepare_record("x", &long).unwrap();
    assert_eq!(s.chars().count(), MAX_SUMMARY_CHARS + 1);
    assert!(s.ends_with('…'));
    match prepare_record("   ", "x") {
        Err(AppError::InvalidInput(m)) => assert_eq!(m, "历史记录内容不能为空"),
        other => panic!("unexpected: {:?}", other),
    }
}

fn args(query: &[&str], sentence: bool, history: bool, favorites: bool) -> CliArgs {
    CliArgs {
        theme: ThemeMode::Auto,
        sentence,
        query: query.iter().map(|s| s.to_string()).collect(),
        proxy: None,
        show_history: history,
        show_favorites: favorites,
    }
}

#[test]
fn command_line_decides_the_mode() {
    assert!(matches!(plan_command(&args(&[], false, false, false)), CliCommand::Usage));
    assert!(matches!(plan_command(&args(&["i"], false, false, false)), CliCommand::Interactive));
    match plan_command(&args(&["i"], true, false, false)) {
        CliCommand::Query(q) => assert_eq!(q, "i"),
        other => panic!("unexpected: {:?}", other),
    }
    match plan_command(&args(&["to", "be"], false, false, false)) {
        CliCommand::Query(q) => assert_eq!(q, "to be"),
        other => panic!("unexpected: {:?}", other),
    }
    assert!(matches!(
        plan_command(&args(&["x"], false, false, true)),
        CliCommand::ShowHistory { only_favorites: true }
    ));
    assert!(matches!(
        plan_command(&args(&[], false, true, false)),
        CliCommand::ShowHistory { only_favorites: false }
    ));
}

#[test]
fn blank_proxy_is_ignored() {
    assert_eq!(effective_proxy(None), None);
    assert_eq!(effective_proxy(Some("  ")), None);
    assert_eq!(effective_proxy(Some("http://127.0.0.1:7890")).as_deref(), Some("http://127.0.0.1:7890"));
}
