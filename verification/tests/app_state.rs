use tran::app_state::AppState;
use tran::layout::result_scrolls;
use tran::dict::QueryOutput;
use tran::history::HistoryItem;
use tran::keys::{FocusedPane, HistoryFilter, InputMode, KeyAction, KeyCode, KeyInput};
use tran::text::{input_lines, join_input_lines};
use tran::theme::{TerminalHints, ThemeMode};

fn sentence(text: &str) -> QueryOutput {
    QueryOutput::Sentence {
        original: "x".to_string(),
        translated: text.to_string(),
        detected_lang: "en".to_string(),
        target_lang: "zh-CN".to_string(),
    }
}

fn item(id: i64, query: &str) -> HistoryItem {
    HistoryItem {
        id,
        query: query.to_string(),
        result_summary: format!("summary of {}", query),
        is_favorite: false,
        created_at: "2024-01-01 00:00:00".to_string(),
    }
}

fn key(code: KeyCode) -> KeyInput {
    KeyInput { code, ctrl: false, shift: false, alt: false }
}

#[test]
fn preserves_trailing_newline_when_loading_history() {
    let lines = input_lines("a\n");
    assert_eq!(lines, vec!["a", ""]);
    assert_eq!(join_input_lines(&lines), "a\n");
}

#[test]
fn input_lines_normalize_line_breaks() {
    let lines = input_lines("a\r\nb\rc");
    assert_eq!(lines, vec!["a", "b", "c"]);
    assert_eq!(join_input_lines(&lines), "a\nb\nc");
    assert_eq!(input_lines(""), vec![""]);
}

#[test]
fn initial_state_is_editing() {
    let state = AppState::new(ThemeMode::Dark, Vec::new());
    assert_eq!(state.ui.mode, InputMode::Insert);
    assert_eq!(state.ui.focused_pane, FocusedPane::Input);
    assert!(!state.is_searching);
    assert!(state.current_result.is_none());
}

#[test]
fn toggling_theme_twice_restores_it() {
    let mut state = AppState::new(ThemeMode::Dark, Vec::new());
    let hints = TerminalHints::none();
    assert_eq!(state.toggle_theme(&hints), ThemeMode::Light);
    assert_eq!(state.theme_mode, ThemeMode::Light);
    assert_eq!(state.toggle_theme(&hints), ThemeMode::Dark);
    let mut auto = AppState::new(ThemeMode::Auto, Vec::new());
    assert_eq!(auto.toggle_theme(&hints), ThemeMode::Light);
}

#[test]
fn search_lifecycle_shows_and_caches_result() {
    let mut state = AppState::new(ThemeMode::Dark, Vec::new());
    assert!(state.begin_search("   ").is_none());
    let (id, query) = state.begin_search("  hello ").unwrap();
    assert_eq!(id, 1);
    assert_eq!(query, "hello");
    assert!(state.is_searching);
    assert_eq!(state.ui.mode, InputMode::Normal);
    assert!(state.begin_search("other").is_none());
    assert!(state.apply_search_result(id + 1, "hello".to_string(), Ok(sentence("late"))).is_none());
    assert!(state.is_searching);
    let summary = state.apply_search_result(id, query, Ok(sentence("你好"))).unwrap();
    assert_eq!(summary, "你好");
    assert!(!state.is_searching);
    assert_eq!(state.active_search_id, None);
    let (q, cached) = state.cached_result(" hello").unwrap();
    assert_eq!(q, "hello");
    assert_eq!(cached.summary(), "你好");
}

#[test]
fn search_error_replaces_result() {
    let mut state = AppState::new(ThemeMode::Dark, Vec::new());
    let (id, query) = state.begin_search("hello").unwrap();
    assert!(state.apply_search_result(id, query, Err("boom".to_string())).is_none());
    assert_eq!(state.error_message.as_deref(), Some("boom"));
    assert!(state.current_result.is_none());
    assert!(state.cached_result("hello").is_none());
}

#[test]
fn cancelled_search_ignores_late_answer() {
    let mut state = AppState::new(ThemeMode::Dark, Vec::new());
    let (id, query) = state.begin_search("hello").unwrap();
    state.cancel_active_search();
    assert!(!state.is_searching);
    assert!(state.apply_search_result(id, query, Ok(sentence("late"))).is_none());
    assert!(state.current_result.is_none());
    let (id2, _) = state.begin_search("hello").unwrap();
    assert_eq!(id2, id + 1);
}

#[test]
fn cached_answer_is_applied_without_search() {
    let mut state = AppState::new(ThemeMode::Dark, Vec::new());
    let summary = state.apply_cached_result("hi".to_string(), sentence("嗨"));
    assert_eq!(summary, "嗨");
    assert_eq!(state.ui.mode, InputMode::Normal);
    assert!(state.cached_result("hi").is_some());
}

#[test]
fn reloading_history_clamps_selection() {
    let mut state = AppState::new(ThemeMode::Dark, vec![item(1, "a"), item(2, "b"), item(3, "c")]);
    state.ui.history_selected_index = 2;
    state.reload_history(vec![item(1, "a")]);
    assert_eq!(state.ui.history_selected_index, 0);
    assert_eq!(state.selected_history_id(), Some(1));
    assert_eq!(state.selected_history_query().as_deref(), Some("a"));
    state.reload_history(Vec::new());
    assert_eq!(state.selected_history_id(), None);
}

#[test]
fn filter_toggle_twice_returns_to_all() {
    let mut state = AppState::new(ThemeMode::Dark, Vec::new());
    state.toggle_history_filter();
    assert_eq!(state.ui.history_filter, HistoryFilter::Favorites);
    assert!(state.only_favorites());
    state.toggle_history_filter();
    assert_eq!(state.ui.history_filter, HistoryFilter::All);
}

#[test]
fn keys_drive_the_drawer() {
    let mut state = AppState::new(ThemeMode::Dark, vec![item(1, "a"), item(2, "b")]);
    let ctrl_h = KeyInput { code: KeyCode::Char('h'), ctrl: true, shift: false, alt: false };
    assert_eq!(state.handle_key(ctrl_h, 120, 30), KeyAction::ReloadHistory);
    assert!(state.ui.show_history_drawer);
    assert_eq!(state.handle_key(key(KeyCode::Down), 120, 30), KeyAction::Nothing);
    assert_eq!(state.ui.history_selected_index, 1);
    assert_eq!(state.handle_key(key(KeyCode::Down), 120, 30), KeyAction::Nothing);
    assert_eq!(state.ui.history_selected_index, 1);
    assert_eq!(state.handle_key(key(KeyCode::Enter), 120, 30), KeyAction::LoadSelected);
    assert!(!state.ui.show_history_drawer);
    assert_eq!(state.handle_key(ctrl_h, 120, 30), KeyAction::ReloadHistory);
    assert_eq!(state.handle_key(key(KeyCode::Char('c')), 120, 30), KeyAction::ReloadHistory);
    assert_eq!(state.ui.history_selected_index, 0);
    assert_eq!(state.ui.history_filter, HistoryFilter::Favorites);
    assert_eq!(state.handle_key(key(KeyCode::Esc), 120, 30), KeyAction::Nothing);
    assert!(!state.ui.show_history_drawer);
}

#[test]
fn test_initial_mode_and_toast() {
    let state = AppState::new(ThemeMode::Dark, Vec::new());
    assert_eq!(state.ui.mode, InputMode::Insert);
    assert_eq!(state.ui.focused_pane, FocusedPane::Input);
    assert!(tran::view::toast_visible(0));

    let lines = input_lines("hello world");
    assert_eq!(join_input_lines(&lines), "hello world");
    assert_eq!(join_input_lines(&input_lines("")), "");
}

#[test]
fn toggles_theme_and_persists() {
    let mut state = AppState::new(ThemeMode::Dark, Vec::new());
    assert_eq!(state.theme_mode, ThemeMode::Dark);
    let hints = TerminalHints::none();

    let saved = state.toggle_theme(&hints);
    assert_eq!(state.theme_mode, ThemeMode::Light);
    assert_eq!(saved.to_string(), "light");

    let saved = state.toggle_theme(&hints);
    assert_eq!(state.theme_mode, ThemeMode::Dark);
    assert_eq!(saved.to_string(), "dark");
}

#[test]
fn starting_a_search_focuses_the_result_pane() {
    let mut state = AppState::new(ThemeMode::Dark, Vec::new());
    assert_eq!(state.ui.focused_pane, FocusedPane::Input);
    assert!(state.begin_search("  ").is_none());
    assert_eq!(state.ui.focused_pane, FocusedPane::Input);
    state.begin_search("hello").unwrap();
    assert_eq!(state.ui.focused_pane, FocusedPane::Result);
}

#[test]
fn cached_answer_focuses_the_result_pane() {
    let mut state = AppState::new(ThemeMode::Dark, Vec::new());
    assert_eq!(state.ui.focused_pane, FocusedPane::Input);
    state.apply_cached_result("hi".to_string(), sentence("嗨"));
    assert_eq!(state.ui.focused_pane, FocusedPane::Result);
}

#[test]
fn only_a_shown_result_scrolls() {
    let mut state = AppState::new(ThemeMode::Dark, Vec::new());
    assert!(!result_scrolls(&state));
    let (id, query) = state.begin_search("hello").unwrap();
    assert!(!result_scrolls(&state));
    state.apply_search_result(id, query, Ok(sentence("你好"))).unwrap();
    assert!(result_scrolls(&state));
    let (id, query) = state.begin_search("boom").unwrap();
    assert!(!result_scrolls(&state));
    state.apply_search_result(id, query, Err("failed".to_string()));
    assert!(!result_scrolls(&state));
}
