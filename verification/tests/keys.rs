use tran::keys::{paste_step, CursorMove, FocusedPane, InputMode, KeyAction, KeyCode, KeyInput, UiState};

fn key(code: KeyCode) -> KeyInput {
    KeyInput { code, ctrl: false, shift: false, alt: false }
}

#[test]
fn ctrl_c_always_quits() {
    let mut ui = UiState::new();
    ui.show_help = true;
    let ctrl_c = KeyInput { code: KeyCode::Char('c'), ctrl: true, shift: false, alt: false };
    assert_eq!(ui.handle_key(ctrl_c, 0, 80, 24), KeyAction::Quit);
    assert!(ui.should_quit);
}

#[test]
fn any_key_closes_help() {
    let mut ui = UiState::new();
    ui.show_help = true;
    assert_eq!(ui.handle_key(key(KeyCode::Enter), 0, 80, 24), KeyAction::Nothing);
    assert!(!ui.show_help);
}

#[test]
fn insert_mode_keys() {
    let mut ui = UiState::new();
    assert_eq!(ui.handle_key(key(KeyCode::Char('x')), 0, 120, 30), KeyAction::InsertChar('x', 51));
    assert_eq!(ui.handle_key(key(KeyCode::Enter), 0, 120, 30), KeyAction::Search);
    let shift_enter = KeyInput { code: KeyCode::Enter, ctrl: false, shift: true, alt: false };
    assert_eq!(ui.handle_key(shift_enter, 0, 120, 30), KeyAction::InsertNewline);
    assert_eq!(ui.handle_key(key(KeyCode::Tab), 0, 120, 30), KeyAction::Nothing);
    assert_eq!(ui.mode, InputMode::Normal);
    assert_eq!(ui.focused_pane, FocusedPane::Result);
}

#[test]
fn normal_mode_scrolls_result() {
    let mut ui = UiState::new();
    ui.mode = InputMode::Normal;
    ui.focused_pane = FocusedPane::Result;
    ui.handle_key(key(KeyCode::Down), 0, 80, 24);
    assert_eq!(ui.result_scroll_offset, 1);
    ui.handle_key(key(KeyCode::PageDown), 0, 80, 24);
    assert_eq!(ui.result_scroll_offset, 16);
    ui.handle_key(key(KeyCode::Char('g')), 0, 80, 24);
    assert_eq!(ui.result_scroll_offset, 0);
    ui.handle_key(key(KeyCode::Up), 0, 80, 24);
    assert_eq!(ui.result_scroll_offset, 0);
    assert_eq!(ui.handle_key(key(KeyCode::Char('y')), 0, 80, 24), KeyAction::CopyResult);
    assert_eq!(ui.handle_key(key(KeyCode::Char('q')), 0, 80, 24), KeyAction::Quit);
}

#[test]
fn normal_mode_moves_input_cursor() {
    let mut ui = UiState::new();
    ui.mode = InputMode::Normal;
    assert_eq!(ui.handle_key(key(KeyCode::Char('k')), 0, 80, 24), KeyAction::MoveCursor(CursorMove::Up));
    assert_eq!(ui.handle_key(key(KeyCode::Char('x')), 0, 80, 24), KeyAction::ClearInputWithNotice);
    assert_eq!(ui.handle_key(key(KeyCode::Char('c')), 0, 80, 24), KeyAction::ClearInput);
    assert_eq!(ui.mode, InputMode::Insert);
}

#[test]
fn pasting_never_searches() {
    assert_eq!(paste_step('\r', 40), KeyAction::Nothing);
    assert_eq!(paste_step('\n', 40), KeyAction::InsertNewline);
    assert_eq!(paste_step('a', 40), KeyAction::InsertChar('a', 40));
    let ui = UiState::new();
    assert!(ui.accepts_paste());
}
