//! The interactive interface's navigation state and what each key does to
//! it: the key bindings of the input pane, the result pane, the history
//! drawer and the help popup.
use vstd::prelude::*;

use crate::layout::{input_content_width, input_content_width_spec};

verus! {

/// Which pane has the focus.
#[derive(Debug, Clone, Copy, PartialEq, Eq, Structural)]
pub enum FocusedPane {
    Input,
    Result,
}

/// Whether keys edit the input or navigate.
#[derive(Debug, Clone, Copy, PartialEq, Eq, Structural)]
pub enum InputMode {
    Normal,
    Insert,
}

/// Which records the history drawer lists.
#[derive(Debug, Clone, Copy, PartialEq, Eq, Structural)]
pub enum HistoryFilter {
    All,
    Favorites,
}

/// A key, as far as the bindings tell keys apart.
#[derive(Debug, Clone, Copy, PartialEq, Eq, Structural)]
pub enum KeyCode {
    Char(char),
    Enter,
    Esc,
    Tab,
    Up,
    Down,
    Left,
    Right,
    PageUp,
    PageDown,
    Home,
    End,
    Other,
}

/// A key press with its modifiers.
#[derive(Debug, Clone, Copy, PartialEq, Eq, Structural)]
pub struct KeyInput {
    pub code: KeyCode,
    pub ctrl: bool,
    pub shift: bool,
    pub alt: bool,
}

/// A cursor movement in the input editor.
#[derive(Debug, Clone, Copy, PartialEq, Eq, Structural)]
pub enum CursorMove {
    Up,
    Down,
    Back,
    Head,
    End,
}

/// What the program does after a key, beyond the state change.
#[derive(Debug, Clone, Copy, PartialEq, Eq, Structural)]
pub enum KeyAction {
    /// Nothing more.
    Nothing,
    /// Cancel a running search and leave.
    Quit,
    /// Start a search for the input.
    Search,
    /// Insert a line break in the input.
    InsertNewline,
    /// Insert a character, wrapping at the given width.
    InsertChar(char, u16),
    /// Hand the key to the input editor.
    ForwardToEditor,
    /// Move the input cursor.
    MoveCursor(CursorMove),
    /// Empty the input.
    ClearInput,
    /// Empty the input and say so.
    ClearInputWithNotice,
    /// Read the history list again.
    ReloadHistory,
    /// Load the selected record into the input and search it.
    LoadSelected,
    /// Mark or unmark the selected record as a favorite.
    ToggleFavorite,
    /// Delete the selected record.
    DeleteSelected,
    /// Copy the result to the clipboard.
    CopyResult,
}

/// The navigation state of the interface.
#[derive(Debug, Clone, Copy, PartialEq, Eq, Structural)]
pub struct UiState {
    pub should_quit: bool,
    pub mode: InputMode,
    pub focused_pane: FocusedPane,
    pub result_scroll_offset: u16,
    pub show_history_drawer: bool,
    pub history_selected_index: usize,
    pub history_filter: HistoryFilter,
    pub show_help: bool,
}

/// The selection points at a record, or is 0 when there is none.
pub open spec fn index_ok(index: usize, len: usize) -> bool {
    index == 0 || index < len
}

/// The key step inside the history drawer.
pub open spec fn drawer_step(ui: UiState, key: KeyInput, len: usize) -> (UiState, KeyAction) {
    let i = ui.history_selected_index;
    match key.code {
        KeyCode::Esc | KeyCode::Char('h') | KeyCode::Char('q') => (
            UiState { show_history_drawer: false, focused_pane: FocusedPane::Input, ..ui },
            KeyAction::Nothing,
        ),
        KeyCode::Up | KeyCode::Char('k') => (
            UiState {
                history_selected_index: if i > 0 {
                    (i - 1) as usize
                } else {
                    i
                },
                ..ui
            },
            KeyAction::Nothing,
        ),
        KeyCode::Down | KeyCode::Char('j') => (
            UiState {
                history_selected_index: if len > 0 && i + 1 < len {
                    (i + 1) as usize
                } else {
                    i
                },
                ..ui
            },
            KeyAction::Nothing,
        ),
        KeyCode::PageUp => (
            UiState { history_selected_index: i.saturating_sub(10), ..ui },
            KeyAction::Nothing,
        ),
        KeyCode::PageDown => (
            UiState {
                history_selected_index: if len > 0 {
                    if i + 10 < len - 1 {
                        (i + 10) as usize
                    } else {
                        (len - 1) as usize
                    }
                } else {
                    i
                },
                ..ui
            },
            KeyAction::Nothing,
        ),
        KeyCode::Home | KeyCode::Char('g') => (
            UiState { history_selected_index: 0, ..ui },
            KeyAction::Nothing,
        ),
        KeyCode::End | KeyCode::Char('G') => (
            UiState {
                history_selected_index: if len > 0 {
                    (len - 1) as usize
                } else {
                    i
                },
                ..ui
            },
            KeyAction::Nothing,
        ),
        KeyCode::Enter => if i < len {
            (UiState { show_history_drawer: false, ..ui }, KeyAction::LoadSelected)
        } else {
            (ui, KeyAction::Nothing)
        },
        KeyCode::Char('f') => (ui, KeyAction::ToggleFavorite),
        KeyCode::Char('d') => if !key.ctrl {
            (ui, KeyAction::DeleteSelected)
        } else {
            (ui, KeyAction::Nothing)
        },
        KeyCode::Char('c') => (
            UiState {
                history_filter: match ui.history_filter {
                    HistoryFilter::All => HistoryFilter::Favorites,
                    HistoryFilter::Favorites => HistoryFilter::All,
                },
                history_selected_index: 0,
                ..ui
            },
            KeyAction::ReloadHistory,
        ),
        _ => (ui, KeyAction::Nothing),
    }
}

/// The key step in the insert mode.
pub open spec fn insert_step(ui: UiState, key: KeyInput, width: u16) -> (UiState, KeyAction) {
    match key.code {
        KeyCode::Esc => (UiState { mode: InputMode::Normal, ..ui }, KeyAction::Nothing),
        KeyCode::Enter => if !key.shift {
            (ui, KeyAction::Search)
        } else {
            (ui, KeyAction::InsertNewline)
        },
        KeyCode::Tab => (
            UiState { mode: InputMode::Normal, focused_pane: FocusedPane::Result, ..ui },
            KeyAction::Nothing,
        ),
        KeyCode::Char(c) => if c == 'j' && key.ctrl {
            (ui, KeyAction::InsertNewline)
        } else if c == 'h' && key.ctrl {
            (UiState { show_history_drawer: true, ..ui }, KeyAction::ReloadHistory)
        } else if !key.ctrl && !key.alt {
            (ui, KeyAction::InsertChar(c, input_content_width_spec(width)))
        } else {
            (ui, KeyAction::ForwardToEditor)
        },
        _ => (ui, KeyAction::ForwardToEditor),
    }
}

/// How far a page moves the result view: the pane height, at most 15 rows.
pub open spec fn page_rows(height: u16) -> u16 {
    let inner = height.saturating_sub(3);
    if inner < 15 {
        inner
    } else {
        15
    }
}

/// The key step in the normal mode.
pub open spec fn normal_step(ui: UiState, key: KeyInput, height: u16) -> (UiState, KeyAction) {
    let inner = height.saturating_sub(3);
    let off = ui.result_scroll_offset;
    match key.code {
        KeyCode::Char('q') => (UiState { should_quit: true, ..ui }, KeyAction::Quit),
        KeyCode::Char('?') => (UiState { show_help: true, ..ui }, KeyAction::Nothing),
        KeyCode::Char('h') => (UiState { show_history_drawer: true, ..ui }, KeyAction::ReloadHistory),
        KeyCode::Char('y') => (ui, KeyAction::CopyResult),
        KeyCode::Tab => (
            UiState {
                focused_pane: match ui.focused_pane {
                    FocusedPane::Input => FocusedPane::Result,
                    FocusedPane::Result => FocusedPane::Input,
                },
                ..ui
            },
            KeyAction::Nothing,
        ),
        _ => match ui.focused_pane {
            FocusedPane::Input => match key.code {
                KeyCode::Char('i') | KeyCode::Char('a') => (
                    UiState { mode: InputMode::Insert, ..ui },
                    KeyAction::Nothing,
                ),
                KeyCode::Char('c') => (
                    UiState { mode: InputMode::Insert, ..ui },
                    KeyAction::ClearInput,
                ),
                KeyCode::Char('x') => (ui, KeyAction::ClearInputWithNotice),
                KeyCode::Enter => (ui, KeyAction::Search),
                KeyCode::Right | KeyCode::Char('l') => (
                    UiState { focused_pane: FocusedPane::Result, ..ui },
                    KeyAction::Nothing,
                ),
                KeyCode::Up | KeyCode::Char('k') => (ui, KeyAction::MoveCursor(CursorMove::Up)),
                KeyCode::Down | KeyCode::Char('j') => (ui, KeyAction::MoveCursor(CursorMove::Down)),
                KeyCode::Left => (ui, KeyAction::MoveCursor(CursorMove::Back)),
                KeyCode::Home | KeyCode::Char('0') => (ui, KeyAction::MoveCursor(CursorMove::Head)),
                KeyCode::End | KeyCode::Char('$') => (ui, KeyAction::MoveCursor(CursorMove::End)),
                _ => (ui, KeyAction::Nothing),
            },
            FocusedPane::Result => match key.code {
                KeyCode::Char('i') => (
                    UiState { focused_pane: FocusedPane::Input, mode: InputMode::Insert, ..ui },
                    KeyAction::Nothing,
                ),
                KeyCode::Esc | KeyCode::Left => (
                    UiState { focused_pane: FocusedPane::Input, ..ui },
                    KeyAction::Nothing,
                ),
                KeyCode::Up | KeyCode::Char('k') => (
                    UiState { result_scroll_offset: off.saturating_sub(1), ..ui },
                    KeyAction::Nothing,
                ),
                KeyCode::Down | KeyCode::Char('j') => (
                    UiState { result_scroll_offset: off.saturating_add(1), ..ui },
                    KeyAction::Nothing,
                ),
                KeyCode::PageUp | KeyCode::Char('u') => (
                    UiState { result_scroll_offset: off.saturating_sub(page_rows(height)), ..ui },
                    KeyAction::Nothing,
                ),
                KeyCode::PageDown | KeyCode::Char('d') => (
                    UiState { result_scroll_offset: off.saturating_add(page_rows(height)), ..ui },
                    KeyAction::Nothing,
                ),
                KeyCode::Home | KeyCode::Char('g') => (
                    UiState { result_scroll_offset: 0, ..ui },
                    KeyAction::Nothing,
                ),
                KeyCode::End | KeyCode::Char('G') => (
                    UiState {
                        result_scroll_offset: off.saturating_add(
                            if inner as int * 3 > u16::MAX {
                                u16::MAX
                            } else {
                                (inner * 3) as u16
                            },
                        ),
                        ..ui
                    },
                    KeyAction::Nothing,
                ),
                _ => (ui, KeyAction::Nothing),
            },
        },
    }
}

/// The step for one key: Ctrl+C always quits; an open help popup closes on
/// any key; the history drawer takes keys while it is open; otherwise the
/// mode decides.
pub open spec fn key_step(ui: UiState, key: KeyInput, len: usize, width: u16, height: u16) -> (
    UiState,
    KeyAction,
) {
    if key.ctrl && key.code == KeyCode::Char('c') {
        (UiState { should_quit: true, ..ui }, KeyAction::Quit)
    } else if ui.show_help {
        (UiState { show_help: false, ..ui }, KeyAction::Nothing)
    } else if ui.show_history_drawer {
        drawer_step(ui, key, len)
    } else {
        match ui.mode {
            InputMode::Insert => insert_step(ui, key, width),
            InputMode::Normal => normal_step(ui, key, height),
        }
    }
}

} // verus!

verus! {

impl UiState {
    /// The state at start: editing the input, nothing open.
    pub open spec fn new_spec() -> UiState {
        UiState {
            should_quit: false,
            mode: InputMode::Insert,
            focused_pane: FocusedPane::Input,
            result_scroll_offset: 0,
            show_history_drawer: false,
            history_selected_index: 0,
            history_filter: HistoryFilter::All,
            show_help: false,
        }
    }

    /// The state at start: editing the input, nothing open.
    pub fn new() -> (r: UiState)
        ensures
            r == UiState::new_spec(),
            r == (UiState {
                should_quit: false,
                mode: InputMode::Insert,
                focused_pane: FocusedPane::Input,
                result_scroll_offset: 0,
                show_history_drawer: false,
                history_selected_index: 0,
                history_filter: HistoryFilter::All,
                show_help: false,
            }),
    {
        UiState {
            should_quit: false,
            mode: InputMode::Insert,
            focused_pane: FocusedPane::Input,
            result_scroll_offset: 0,
            show_history_drawer: false,
            history_selected_index: 0,
            history_filter: HistoryFilter::All,
            show_help: false,
        }
    }

    /// Whether pasted text goes into the input: while editing it, with no
    /// drawer or popup open.
    pub fn accepts_paste(&self) -> (r: bool)
        ensures
            r == (self.mode == InputMode::Insert && self.focused_pane == FocusedPane::Input
                && !self.show_history_drawer && !self.show_help),
    {
        self.mode == InputMode::Insert && self.focused_pane == FocusedPane::Input
            && !self.show_history_drawer && !self.show_help
    }

    fn drawer_key(&mut self, key: KeyInput, len: usize) -> (r: KeyAction)
        requires
            index_ok(old(self).history_selected_index, len),
        ensures
            (*final(self), r) == drawer_step(*old(self), key, len),
    {
        let i = self.history_selected_index;
        match key.code {
            KeyCode::Esc | KeyCode::Char('h') | KeyCode::Char('q') => {
                self.show_history_drawer = false;
                self.focused_pane = FocusedPane::Input;
                KeyAction::Nothing
            },
            KeyCode::Up | KeyCode::Char('k') => {
                if i > 0 {
                    self.history_selected_index = i - 1;
                }
                KeyAction::Nothing
            },
            KeyCode::Down | KeyCode::Char('j') => {
                if len > 0 && i < len - 1 {
                    self.history_selected_index = i + 1;
                }
                KeyAction::Nothing
            },
            KeyCode::PageUp => {
                self.history_selected_index = i.saturating_sub(10);
                KeyAction::Nothing
            },
            KeyCode::PageDown => {
                if len > 0 {
                    self.history_selected_index = if len - 1 - i > 10 {
                        i + 10
                    } else {
                        len - 1
                    };
                }
                KeyAction::Nothing
            },
            KeyCode::Home | KeyCode::Char('g') => {
                self.history_selected_index = 0;
                KeyAction::Nothing
            },
            KeyCode::End | KeyCode::Char('G') => {
                if len > 0 {
                    self.history_selected_index = len - 1;
                }
                KeyAction::Nothing
            },
            KeyCode::Enter => {
                if i < len {
                    self.show_history_drawer = false;
                    KeyAction::LoadSelected
                } else {
                    KeyAction::Nothing
                }
            },
            KeyCode::Char('f') => KeyAction::ToggleFavorite,
            KeyCode::Char('d') => if !key.ctrl {
                KeyAction::DeleteSelected
            } else {
                KeyAction::Nothing
            },
            KeyCode::Char('c') => {
                self.history_filter = match self.history_filter {
                    HistoryFilter::All => HistoryFilter::Favorites,
                    HistoryFilter::Favorites => HistoryFilter::All,
                };
                self.history_selected_index = 0;
                KeyAction::ReloadHistory
            },
            _ => KeyAction::Nothing,
        }
    }

    fn insert_key(&mut self, key: KeyInput, width: u16) -> (r: KeyAction)
        ensures
            (*final(self), r) == insert_step(*old(self), key, width),
    {
        match key.code {
            KeyCode::Esc => {
                self.mode = InputMode::Normal;
                KeyAction::Nothing
            },
            KeyCode::Enter => if !key.shift {
                KeyAction::Search
            } else {
                KeyAction::InsertNewline
            },
            KeyCode::Tab => {
                self.mode = InputMode::Normal;
                self.focused_pane = FocusedPane::Result;
                KeyAction::Nothing
            },
            KeyCode::Char(c) => {
                if c == 'j' && key.ctrl {
                    KeyAction::InsertNewline
                } else if c == 'h' && key.ctrl {
                    self.show_history_drawer = true;
                    KeyAction::ReloadHistory
                } else if !key.ctrl && !key.alt {
                    KeyAction::InsertChar(c, input_content_width(width))
                } else {
                    KeyAction::ForwardToEditor
                }
            },
            _ => KeyAction::ForwardToEditor,
        }
    }

    fn normal_key(&mut self, key: KeyInput, height: u16) -> (r: KeyAction)
        ensures
            (*final(self), r) == normal_step(*old(self), key, height),
    {
        let inner = height.saturating_sub(3);
        let page = if inner < 15 {
            inner
        } else {
            15
        };
        let off = self.result_scroll_offset;
        match key.code {
            KeyCode::Char('q') => {
                self.should_quit = true;
                return KeyAction::Quit;
            },
            KeyCode::Char('?') => {
                self.show_help = true;
                return KeyAction::Nothing;
            },
            KeyCode::Char('h') => {
                self.show_history_drawer = true;
                return KeyAction::ReloadHistory;
            },
            KeyCode::Char('y') => {
                return KeyAction::CopyResult;
            },
            KeyCode::Tab => {
                self.focused_pane = match self.focused_pane {
                    FocusedPane::Input => FocusedPane::Result,
                    FocusedPane::Result => FocusedPane::Input,
                };
                return KeyAction::Nothing;
            },
            _ => {},
        }
        match self.focused_pane {
            FocusedPane::Input => match key.code {
                KeyCode::Char('i') | KeyCode::Char('a') => {
                    self.mode = InputMode::Insert;
                    KeyAction::Nothing
                },
                KeyCode::Char('c') => {
                    self.mode = InputMode::Insert;
                    KeyAction::ClearInput
                },
                KeyCode::Char('x') => KeyAction::ClearInputWithNotice,
                KeyCode::Enter => KeyAction::Search,
                KeyCode::Right | KeyCode::Char('l') => {
                    self.focused_pane = FocusedPane::Result;
                    KeyAction::Nothing
                },
                KeyCode::Up | KeyCode::Char('k') => KeyAction::MoveCursor(CursorMove::Up),
                KeyCode::Down | KeyCode::Char('j') => KeyAction::MoveCursor(CursorMove::Down),
                KeyCode::Left => KeyAction::MoveCursor(CursorMove::Back),
                KeyCode::Home | KeyCode::Char('0') => KeyAction::MoveCursor(CursorMove::Head),
                KeyCode::End | KeyCode::Char('$') => KeyAction::MoveCursor(CursorMove::End),
                _ => KeyAction::Nothing,
            },
            FocusedPane::Result => match key.code {
                KeyCode::Char('i') => {
                    self.focused_pane = FocusedPane::Input;
                    self.mode = InputMode::Insert;
                    KeyAction::Nothing
                },
                KeyCode::Esc | KeyCode::Left => {
                    self.focused_pane = FocusedPane::Input;
                    KeyAction::Nothing
                },
                KeyCode::Up | KeyCode::Char('k') => {
                    self.result_scroll_offset = off.saturating_sub(1);
                    KeyAction::Nothing
                },
                KeyCode::Down | KeyCode::Char('j') => {
                    self.result_scroll_offset = off.saturating_add(1);
                    KeyAction::Nothing
                },
                KeyCode::PageUp | KeyCode::Char('u') => {
                    self.result_scroll_offset = off.saturating_sub(page);
                    KeyAction::Nothing
                },
                KeyCode::PageDown | KeyCode::Char('d') => {
                    self.result_scroll_offset = off.saturating_add(page);
                    KeyAction::Nothing
                },
                KeyCode::Home | KeyCode::Char('g') => {
                    self.result_scroll_offset = 0;
                    KeyAction::Nothing
                },
                KeyCode::End | KeyCode::Char('G') => {
                    let jump: u16 = if inner > 21845 {
                        65535
                    } else {
                        inner * 3
                    };
                    self.result_scroll_offset = off.saturating_add(jump);
                    KeyAction::Nothing
                },
                _ => KeyAction::Nothing,
            },
        }
    }

    /// Applies one key press: `history_len` is the number of records in the
    /// drawer, `width` and `height` the terminal's size. Ctrl+C always
    /// quits, an open help popup closes on any key, and the selection
    /// always points at a record (or is 0 when there is none).
    pub fn handle_key(&mut self, key: KeyInput, history_len: usize, width: u16, height: u16) -> (r:
        KeyAction)
        requires
            index_ok(old(self).history_selected_index, history_len),
        ensures
            (*final(self), r) == key_step(*old(self), key, history_len, width, height),
            key.ctrl && key.code == KeyCode::Char('c') ==> final(self).should_quit && r
                == KeyAction::Quit,
            old(self).show_help && !(key.ctrl && key.code == KeyCode::Char('c')) ==> !final(self).show_help
                && r == KeyAction::Nothing,
            index_ok(final(self).history_selected_index, history_len),
    {
        if key.ctrl && key.code == KeyCode::Char('c') {
            self.should_quit = true;
            return KeyAction::Quit;
        }
        if self.show_help {
            self.show_help = false;
            return KeyAction::Nothing;
        }
        if self.show_history_drawer {
            return self.drawer_key(key, history_len);
        }
        match self.mode {
            InputMode::Insert => self.insert_key(key, width),
            InputMode::Normal => self.normal_key(key, height),
        }
    }
}

} // verus!

verus! {

/// What one pasted character does to the input: a carriage return is
/// dropped, a line feed breaks the line, anything else is typed with
/// wrapping at `max_width`.
pub open spec fn paste_step_spec(c: char, max_width: u16) -> KeyAction {
    if c == '\r' {
        KeyAction::Nothing
    } else if c == '\n' {
        KeyAction::InsertNewline
    } else {
        KeyAction::InsertChar(c, max_width)
    }
}

/// The edit for one pasted character. Pasting only edits the input: it
/// never starts a search or quits, whatever the text holds.
pub fn paste_step(c: char, max_width: u16) -> (r: KeyAction)
    ensures
        r == paste_step_spec(c, max_width),
        !(r is Search),
        !(r is Quit),
{
    if c == '\r' {
        KeyAction::Nothing
    } else if c == '\n' {
        KeyAction::InsertNewline
    } else {
        KeyAction::InsertChar(c, max_width)
    }
}

} // verus!


verus! {

/// In the history drawer, `f` marks or unmarks the selected record as a
/// favorite and `d` without Ctrl deletes it; these are the only keys that
/// do so, nothing else in the drawer or outside it favorites or deletes a
/// record, and neither key moves the selection or changes the view.
pub proof fn lemma_favorite_and_delete_keys(ui: UiState, key: KeyInput, len: usize, width: u16, height: u16)
    ensures
        key_step(ui, key, len, width, height).1 == KeyAction::ToggleFavorite <==> (ui.show_history_drawer
            && !ui.show_help && key.code == KeyCode::Char('f')),
        key_step(ui, key, len, width, height).1 == KeyAction::DeleteSelected <==> (ui.show_history_drawer
            && !ui.show_help && key.code == KeyCode::Char('d') && !key.ctrl),
        key_step(ui, key, len, width, height).1 == KeyAction::ToggleFavorite ==> key_step(
            ui,
            key,
            len,
            width,
            height,
        ).0 == ui,
        key_step(ui, key, len, width, height).1 == KeyAction::DeleteSelected ==> key_step(
            ui,
            key,
            len,
            width,
            height,
        ).0 == ui,
{
}

} // verus!
