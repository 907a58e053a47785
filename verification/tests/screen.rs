use tran::app_state::AppState;
use tran::card::{history_card, sentence_card, word_card};
use tran::dict::{DefinitionGroup, Example, QueryOutput, WordDetail};
use tran::history::HistoryItem;
use tran::keys::{FocusedPane, HistoryFilter, InputMode, UiState};
use tran::screen::{
    drawer_rows, drawer_title, header_text, input_title, result_lines, result_title, shows_input_cursor, status_bar,
    text_lines, Span, Tone,
};
use tran::theme::ThemeMode;
use unicode_width::UnicodeWidthStr;

fn texts(line: &[Span]) -> String {
    line.iter().map(|s| s.text.as_str()).collect()
}

fn detail() -> WordDetail {
    WordDetail {
        word: "hello".to_string(),
        phonetic_us: Some("/ həˈləʊ /".to_string()),
        phonetic_uk: None,
        tags: vec!["CET4".to_string(), "考研".to_string()],
        definitions: vec![DefinitionGroup { pos: "int.".to_string(), meanings: vec!["喂".to_string(), "你好".to_string()] }],
        examples: vec![Example { orig: "Hello there.".to_string(), trans: "你好。".to_string() }],
    }
}

#[test]
fn status_bar_reports_mode_focus_and_notice() {
    let state = AppState::new(ThemeMode::Dark, Vec::new());
    let (first, tone, hints) = status_bar(&state, None, false, 200);
    assert_eq!(first, "[INSERT] 原文 · 就绪");
    assert_eq!(tone, Tone::Foreground);
    assert_eq!(hints, "Esc 导航 · Enter 查询 · Shift+Enter 换行 · Tab 切换 · Ctrl+C 退出");
    let (first, tone, _) = status_bar(&state, Some("已清空输入框"), true, 200);
    assert_eq!(first, "[INSERT] 原文 · 就绪  已清空输入框");
    assert_eq!(tone, Tone::Yellow);
    let (first, _, hints) = status_bar(&state, None, true, 8);
    assert_eq!(first, "[INSERT…");
    assert!(UnicodeWidthStr::width(hints.as_str()) <= 8);
}

#[test]
fn header_names_pane_and_state() {
    let mut state = AppState::new(ThemeMode::Dark, Vec::new());
    assert_eq!(header_text(&state), " 原文 · 等待输入 ");
    state.error_message = Some("x".to_string());
    assert_eq!(header_text(&state), " 原文 · 查询失败 ");
    state.is_searching = true;
    state.ui.focused_pane = FocusedPane::Result;
    assert_eq!(header_text(&state), " 译文 · 查询中 ");
}

#[test]
fn pane_titles_follow_focus() {
    let mut ui = UiState::new();
    assert_eq!(input_title(&ui), (" 原文输入 · INSERT ", Tone::Green));
    assert_eq!(result_title(&ui), (" 译文 / 词典 ", Tone::Border));
    assert!(shows_input_cursor(&ui));
    ui.mode = InputMode::Normal;
    assert_eq!(input_title(&ui), (" 原文输入 · NORMAL ", Tone::Cyan));
    ui.focused_pane = FocusedPane::Result;
    assert_eq!(result_title(&ui), (" 译文 / 词典 · NORMAL ", Tone::Blue));
    assert!(!shows_input_cursor(&ui));
    assert_eq!(drawer_title(HistoryFilter::Favorites), " 生词本 · c 切换全部历史 · Esc 关闭 ");
}

#[test]
fn result_pane_shows_entry() {
    let mut state = AppState::new(ThemeMode::Dark, Vec::new());
    assert_eq!(result_lines(&state).len(), 8);
    state.current_result = Some(QueryOutput::Dict(detail()));
    let lines = result_lines(&state);
    let rendered: Vec<String> = lines.iter().map(|l| texts(l)).collect();
    assert_eq!(
        rendered,
        vec![
            " hello   美 [həˈləʊ]",
            "标签：CET4 · 考研",
            "",
            "  词典释义  ",
            "    int.  喂；你好",
            "",
            "  双语例句  ",
            "  1. Hello there.",
            "     -> 你好。",
        ]
    );
    assert_eq!(lines[4][0].tone, Tone::Orange);
}

#[test]
fn result_pane_shows_sentence_and_states() {
    let mut state = AppState::new(ThemeMode::Dark, Vec::new());
    state.current_result = Some(QueryOutput::Sentence {
        original: "line one\r\nline two\n".to_string(),
        translated: "一".to_string(),
        detected_lang: "en".to_string(),
        target_lang: "zh-cn".to_string(),
    });
    let rendered: Vec<String> = result_lines(&state).iter().map(|l| texts(l)).collect();
    assert_eq!(
        rendered,
        vec![" EN -> ZH-CN · Google 翻译 ", "", "  原文  ", "  line one", "  line two", "", "  译文  ", "  一"]
    );
    state.error_message = Some("网络错误".to_string());
    let rendered: Vec<String> = result_lines(&state).iter().map(|l| texts(l)).collect();
    assert_eq!(rendered[2], "网络错误");
    state.is_searching = true;
    assert_eq!(result_lines(&state).len(), 3);
}

#[test]
fn text_lines_follow_str_lines() {
    let lines: Vec<String> = text_lines("a\r\nb\n\nc\r").iter().map(|l| l.iter().collect()).collect();
    let expected: Vec<String> = "a\r\nb\n\nc\r".lines().map(|l| l.to_string()).collect();
    assert_eq!(lines, expected);
    assert!(text_lines("").is_empty());
}

fn item(query: &str, favorite: bool) -> HistoryItem {
    HistoryItem {
        id: 1,
        query: query.to_string(),
        result_summary: "一个很长的摘要\n第二行".to_string(),
        is_favorite: favorite,
        created_at: "2024-05-01 10:00".to_string(),
    }
}

#[test]
fn drawer_rows_mark_selection_and_favorites() {
    let rows = drawer_rows(&vec![item("hello", true), item("world", false)], 1, 40);
    assert_eq!(rows.len(), 2);
    assert_eq!(rows[0][0].text, "  ");
    assert_eq!(rows[0][1].text, "★ ");
    assert_eq!(rows[1][0].text, "▶ ");
    assert_eq!(rows[1][2].text, "world           ");
    assert_eq!(rows[1][2].tone, Tone::Foreground);
    assert_eq!(rows[0][3].text, "  一个很长的摘…");
    let empty = drawer_rows(&Vec::new(), 0, 40);
    assert_eq!(texts(&empty[0]), "暂无记录。完成一次查询后会自动出现在这里。");
}

#[test]
fn word_card_frames_the_entry() {
    let lines = word_card(&detail(), 44);
    let rendered: Vec<String> = lines.iter().map(|l| texts(l)).collect();
    assert_eq!(rendered[0], "");
    assert_eq!(rendered[1], format!("  ╭─ hello {}", "─".repeat(30)));
    assert_eq!(rendered[2], "  │  美 [həˈləʊ]    [CET4] [考研]");
    assert_eq!(rendered[3], format!("  ├─ 词典释义 {}", "─".repeat(27)));
    assert_eq!(rendered[4], "  │  [int.]    喂；你好");
    assert_eq!(rendered[6], "  │  1.  Hello there.");
    assert_eq!(rendered[7], "  │     ↳ 你好。");
    assert_eq!(rendered[8], format!("  ╰{}", "─".repeat(39)));
    assert_eq!(rendered.len(), 10);
}

#[test]
fn sentence_card_wraps_both_texts() {
    let lines = sentence_card("hello world", "你好世界", "en", "zh-CN", 80);
    let rendered: Vec<String> = lines.iter().map(|l| texts(l)).collect();
    let title = "Google 翻译 · EN ➔ ZH-CN";
    let rest = 76 - (UnicodeWidthStr::width(title) + 5);
    assert_eq!(rendered[1], format!("  ╭─ {} {}", title, "─".repeat(rest)));
    assert_eq!(rendered[2], "  │  原文");
    assert_eq!(rendered[3], "  │    hello world");
    assert_eq!(rendered[4], "  │");
    assert_eq!(rendered[6], "  │    你好世界");
}

#[test]
fn history_card_lists_records() {
    let lines = history_card(&vec![item("hello", true)], false, 80);
    let rendered: Vec<String> = lines.iter().map(|l| texts(l)).collect();
    assert!(rendered[1].starts_with("  ╭─ 历史查询记录 · 共 1 条 "));
    assert!(rendered[2].starts_with("  │  ★ hello"));
    assert!(rendered[2].ends_with("2024-05-01 10:00"));
    let empty = history_card(&Vec::new(), true, 80);
    let rendered: Vec<String> = empty.iter().map(|l| texts(l)).collect();
    assert!(rendered[1].starts_with("  ╭─ 收藏生词本 · 共 0 条 "));
    assert_eq!(rendered[2], "  │  暂无记录。查询结果会自动保存在这里。");
}

#[test]
fn theme_switch_notices() {
    assert_eq!(tran::screen::theme_notice(ThemeMode::Light, None), "已切换至 浅色 (Light) 主题并保存偏好");
    assert_eq!(
        tran::screen::theme_notice(ThemeMode::Dark, Some("磁盘已满")),
        "已切换至 深色 (Dark)（保存失败: 磁盘已满）"
    );
}
