//! The state of the interactive interface: navigation, history list, theme,
//! and the lifecycle of searches with their cache.
use vstd::prelude::*;

use crate::cache::{cache_insert_spec, cache_lookup, CacheEntry, QueryCache};
use crate::dict::{
    summary_spec, DefinitionView, QueryOutput, QueryOutputView, WordDetailView,
};
use crate::history::HistoryItem;
use crate::keys::{
    index_ok, key_step, FocusedPane, HistoryFilter, InputMode, KeyAction, KeyInput, UiState,
};
use crate::text::{chars_of, join_with, string_of, trim, trim_str};
use crate::theme::{TerminalHints, ThemeMode};

verus! {

/// The state of the interactive interface besides the text editor, the
/// database and the network client.
pub struct AppState {
    pub ui: UiState,
    pub theme_mode: ThemeMode,
    pub history_items: Vec<HistoryItem>,
    pub is_searching: bool,
    pub current_result: Option<QueryOutput>,
    pub error_message: Option<String>,
    pub next_search_id: u64,
    pub active_search_id: Option<u64>,
    pub query_cache: QueryCache,
}

/// The mode that toggling the theme switches to: the opposite of the mode
/// in use (the automatic mode counts as the one it resolves to).
pub open spec fn next_theme(resolved: ThemeMode) -> ThemeMode {
    match resolved {
        ThemeMode::Dark => ThemeMode::Light,
        ThemeMode::Light => ThemeMode::Dark,
        ThemeMode::Auto => ThemeMode::Light,
    }
}

/// The list that switching the drawer's filter shows: favorites after all
/// records, all records after favorites.
pub open spec fn other_filter(f: HistoryFilter) -> HistoryFilter {
    match f {
        HistoryFilter::All => HistoryFilter::Favorites,
        HistoryFilter::Favorites => HistoryFilter::All,
    }
}

/// The selection after the history list was read again: kept when it still
/// points at a record, else moved to the last record (0 when none).
pub open spec fn clamp_selection(index: usize, len: usize) -> usize {
    if index >= len {
        if len == 0 {
            0
        } else {
            (len - 1) as usize
        }
    } else {
        index
    }
}

/// What starting a search for `input` does: nothing while a search runs or
/// when the trimmed input is empty; else the next identifier (wrapping
/// after `u64::MAX`) becomes the awaited one, the state shows a search in
/// progress, navigation mode and the result pane focused, and the trimmed
/// input is returned with it.
pub open spec fn search_begun(
    old: AppState,
    input: Seq<char>,
    r: Option<(u64, String)>,
    new: AppState,
) -> bool {
    &&& (r is None <==> (old.is_searching || trim(input).len() == 0))
    &&& (r is None ==> new == old)
    &&& (r matches Some((id, q)) ==> {
        &&& q@ == trim(input)
        &&& id == (if old.next_search_id == u64::MAX {
            0
        } else {
            (old.next_search_id + 1) as u64
        })
        &&& new.next_search_id == id
        &&& new.active_search_id == Some(id)
        &&& new.is_searching
        &&& new.error_message is None
        &&& new.ui == (UiState {
            result_scroll_offset: 0,
            mode: InputMode::Normal,
            focused_pane: FocusedPane::Result,
            ..old.ui
        })
        &&& new.current_result == old.current_result
        &&& new.query_cache@ == old.query_cache@
        &&& new.history_items@ == old.history_items@
        &&& new.theme_mode == old.theme_mode
    })
}

/// What the outcome of search `request_id` does. The outcome of any request
/// but the awaited one is ignored and changes nothing. Else the search is
/// over; a result is shown and cached under the query, and its summary
/// returned for the history; an error is shown in place of a result.
pub open spec fn result_applied(
    old: AppState,
    request_id: u64,
    query: Seq<char>,
    result: Result<QueryOutput, String>,
    r: Option<String>,
    new: AppState,
) -> bool {
    &&& (old.active_search_id != Some(request_id) ==> r is None && new == old)
    &&& (old.active_search_id == Some(request_id) ==> {
        &&& new.active_search_id is None
        &&& !new.is_searching
        &&& new.ui == old.ui
        &&& new.history_items@ == old.history_items@
        &&& new.theme_mode == old.theme_mode
        &&& new.next_search_id == old.next_search_id
        &&& match result {
            Ok(o) => {
                &&& r matches Some(s) && s@ == summary_spec(o@)
                &&& new.current_result matches Some(c) && c@ == o@
                &&& new.query_cache@ == cache_insert_spec(old.query_cache@, query, o@)
                &&& new.error_message == old.error_message
            },
            Err(e) => {
                &&& r is None
                &&& new.error_message == Some(e)
                &&& new.current_result is None
                &&& new.query_cache@ == old.query_cache@
            },
        }
    })
}

/// What cancelling the running search does: no search is awaited any more,
/// and nothing else changes.
pub open spec fn search_cancelled(old: AppState, new: AppState) -> bool {
    &&& new.active_search_id is None
    &&& !new.is_searching
    &&& new.ui == old.ui
    &&& new.current_result == old.current_result
    &&& new.error_message == old.error_message
    &&& new.query_cache@ == old.query_cache@
    &&& new.history_items@ == old.history_items@
    &&& new.theme_mode == old.theme_mode
    &&& new.next_search_id == old.next_search_id
}

impl AppState {
    /// The state is well formed: the cache keeps its invariant and the
    /// history selection points at a record (or is 0).
    pub open spec fn wf(&self) -> bool {
        self.query_cache.wf() && index_ok(self.ui.history_selected_index, self.history_items@.len() as usize)
    }

    /// A fresh state with the given theme and history list.
    pub fn new(theme_mode: ThemeMode, history: Vec<HistoryItem>) -> (r: AppState)
        ensures
            r.wf(),
            r.ui == UiState::new_spec(),
            r.theme_mode == theme_mode,
            r.history_items@ == history@,
            !r.is_searching,
            r.current_result is None,
            r.error_message is None,
            r.active_search_id is None,
            r.next_search_id == 0,
            r.query_cache@ == Seq::<CacheEntry>::empty(),
    {
        AppState {
            ui: UiState::new(),
            theme_mode,
            history_items: history,
            is_searching: false,
            current_result: None,
            error_message: None,
            next_search_id: 0,
            active_search_id: None,
            query_cache: QueryCache::new(),
        }
    }

    /// Switches between the dark and light themes and returns the new mode,
    /// which the caller stores as the preference.
    pub fn toggle_theme(&mut self, hints: &TerminalHints) -> (r: ThemeMode)
        ensures
            r == next_theme(old(self).theme_mode.resolved_spec(*hints)),
            final(self).theme_mode == r,
            r != ThemeMode::Auto,
            final(self).ui == old(self).ui,
            final(self).history_items@ == old(self).history_items@,
            final(self).is_searching == old(self).is_searching,
            final(self).current_result == old(self).current_result,
            final(self).error_message == old(self).error_message,
            final(self).active_search_id == old(self).active_search_id,
            final(self).next_search_id == old(self).next_search_id,
            final(self).query_cache@ == old(self).query_cache@,
            final(self).query_cache.wf() == old(self).query_cache.wf(),
    {
        let next = match self.theme_mode.resolved(hints) {
            ThemeMode::Dark => ThemeMode::Light,
            ThemeMode::Light => ThemeMode::Dark,
            ThemeMode::Auto => ThemeMode::Light,
        };
        self.theme_mode = next;
        next
    }

    /// Whether the drawer lists only favorites.
    pub fn only_favorites(&self) -> (r: bool)
        ensures
            r == (self.ui.history_filter == HistoryFilter::Favorites),
    {
        self.ui.history_filter == HistoryFilter::Favorites
    }

    /// Takes a freshly read history list; the selection moves to the last
    /// record when it pointed past the end.
    pub fn reload_history(&mut self, items: Vec<HistoryItem>)
        requires
            old(self).query_cache.wf(),
        ensures
            final(self).history_items@ == items@,
            final(self).ui == (UiState {
                history_selected_index: clamp_selection(
                    old(self).ui.history_selected_index,
                    items@.len() as usize,
                ),
                ..old(self).ui
            }),
            final(self).wf(),
            final(self).theme_mode == old(self).theme_mode,
            final(self).is_searching == old(self).is_searching,
            final(self).current_result == old(self).current_result,
            final(self).error_message == old(self).error_message,
            final(self).active_search_id == old(self).active_search_id,
            final(self).next_search_id == old(self).next_search_id,
            final(self).query_cache@ == old(self).query_cache@,
    {
        self.history_items = items;
        let len = self.history_items.len();
        if self.ui.history_selected_index >= len {
            self.ui.history_selected_index = if len == 0 {
                0
            } else {
                len - 1
            };
        }
    }

    /// Switches the drawer between all records and favorites and selects
    /// the first record; the caller reads the list again.
    pub fn toggle_history_filter(&mut self)
        ensures
            final(self).ui == (UiState {
                history_filter: other_filter(old(self).ui.history_filter),
                history_selected_index: 0,
                ..old(self).ui
            }),
            final(self).history_items@ == old(self).history_items@,
            final(self).query_cache@ == old(self).query_cache@,
            final(self).query_cache.wf() == old(self).query_cache.wf(),
            final(self).active_search_id == old(self).active_search_id,
    {
        self.ui.history_filter = match self.ui.history_filter {
            HistoryFilter::All => HistoryFilter::Favorites,
            HistoryFilter::Favorites => HistoryFilter::All,
        };
        self.ui.history_selected_index = 0;
    }

    /// The identifier of the selected record.
    pub fn selected_history_id(&self) -> (r: Option<i64>)
        ensures
            match r {
                Some(id) => self.ui.history_selected_index < self.history_items@.len() && id
                    == self.history_items@[self.ui.history_selected_index as int].id,
                None => self.ui.history_selected_index >= self.history_items@.len(),
            },
    {
        let i = self.ui.history_selected_index;
        if i < self.history_items.len() {
            Some(self.history_items[i].id)
        } else {
            None
        }
    }

    /// The query of the selected record.
    pub fn selected_history_query(&self) -> (r: Option<String>)
        ensures
            match r {
                Some(q) => self.ui.history_selected_index < self.history_items@.len() && q@
                    == self.history_items@[self.ui.history_selected_index as int].query@,
                None => self.ui.history_selected_index >= self.history_items@.len(),
            },
    {
        let i = self.ui.history_selected_index;
        if i < self.history_items.len() {
            Some(self.history_items[i].query.clone())
        } else {
            None
        }
    }

    /// Applies a key press to the navigation state (see `UiState::handle_key`).
    pub fn handle_key(&mut self, key: KeyInput, width: u16, height: u16) -> (r: KeyAction)
        requires
            old(self).wf(),
        ensures
            (final(self).ui, r) == key_step(
                old(self).ui,
                key,
                old(self).history_items@.len() as usize,
                width,
                height,
            ),
            final(self).wf(),
            final(self).history_items@ == old(self).history_items@,
            final(self).is_searching == old(self).is_searching,
            final(self).active_search_id == old(self).active_search_id,
            final(self).query_cache@ == old(self).query_cache@,
    {
        let len = self.history_items.len();
        self.ui.handle_key(key, len, width, height)
    }

    /// The cached result for the input, when no search is running.
    pub fn cached_result(&self, input: &str) -> (r: Option<(String, QueryOutput)>)
        ensures
            self.is_searching ==> r is None,
            !self.is_searching ==> match r {
                Some((q, o)) => q@ == trim(input@) && cache_lookup(self.query_cache@, trim(input@))
                    == Some(o@),
                None => cache_lookup(self.query_cache@, trim(input@)) is None,
            },
    {
        if self.is_searching {
            return None;
        }
        let query = trim_str(input);
        match self.query_cache.get(query.as_str()) {
            Some(o) => Some((query, o)),
            None => None,
        }
    }

    fn record_success(&mut self, query: String, output: QueryOutput) -> (r: String)
        requires
            old(self).query_cache.wf(),
        ensures
            r@ == summary_spec(output@),
            final(self).query_cache@ == cache_insert_spec(old(self).query_cache@, query@, output@),
            final(self).query_cache.wf(),
            final(self).current_result matches Some(o) && o@ == output@,
            final(self).ui == old(self).ui,
            final(self).history_items@ == old(self).history_items@,
            final(self).theme_mode == old(self).theme_mode,
            final(self).is_searching == old(self).is_searching,
            final(self).error_message == old(self).error_message,
            final(self).active_search_id == old(self).active_search_id,
            final(self).next_search_id == old(self).next_search_id,
    {
        let copy = output.clone();
        self.query_cache.insert(query.as_str(), copy);
        let summary = output.summary();
        self.current_result = Some(output);
        summary
    }

    /// Shows a cached result for `query` as if a search had returned it, with
    /// the result pane focused; returns the summary that the history records.
    pub fn apply_cached_result(&mut self, query: String, output: QueryOutput) -> (r: String)
        requires
            old(self).wf(),
        ensures
            r@ == summary_spec(output@),
            final(self).wf(),
            final(self).error_message is None,
            final(self).ui == (UiState {
                result_scroll_offset: 0,
                mode: InputMode::Normal,
                focused_pane: FocusedPane::Result,
                ..old(self).ui
            }),
            final(self).current_result matches Some(o) && o@ == output@,
            final(self).query_cache@ == cache_insert_spec(old(self).query_cache@, query@, output@),
            final(self).is_searching == old(self).is_searching,
            final(self).active_search_id == old(self).active_search_id,
            final(self).history_items@ == old(self).history_items@,
    {
        self.error_message = None;
        self.ui.result_scroll_offset = 0;
        self.ui.mode = InputMode::Normal;
        self.ui.focused_pane = FocusedPane::Result;
        self.record_success(query, output)
    }

    /// Starts a search for the trimmed input unless one is running or the
    /// input is blank: returns the new request's identifier and query.
    pub fn begin_search(&mut self, input: &str) -> (r: Option<(u64, String)>)
        requires
            old(self).wf(),
        ensures
            final(self).wf(),
            search_begun(*old(self), input@, r, *final(self)),
    {
        if self.is_searching {
            return None;
        }
        let query = trim_str(input);
        if query.as_str().is_empty() {
            return None;
        }
        self.next_search_id = self.next_search_id.wrapping_add(1);
        let request_id = self.next_search_id;
        self.is_searching = true;
        self.error_message = None;
        self.ui.result_scroll_offset = 0;
        self.ui.mode = InputMode::Normal;
        self.ui.focused_pane = FocusedPane::Result;
        self.active_search_id = Some(request_id);
        Some((request_id, query))
    }

    /// Takes the outcome of search `request_id`. The outcome of any request
    /// but the awaited one is ignored and changes nothing. A result is shown
    /// and cached, and its summary returned for the history; an error is
    /// shown in place of a result.
    pub fn apply_search_result(
        &mut self,
        request_id: u64,
        query: String,
        result: Result<QueryOutput, String>,
    ) -> (r: Option<String>)
        requires
            old(self).wf(),
        ensures
            final(self).wf(),
            result_applied(*old(self), request_id, query@, result, r, *final(self)),
    {
        if self.active_search_id != Some(request_id) {
            return None;
        }
        self.active_search_id = None;
        self.is_searching = false;
        match result {
            Ok(output) => Some(self.record_success(query, output)),
            Err(error) => {
                self.error_message = Some(error);
                self.current_result = None;
                None
            },
        }
    }

    /// Stops waiting for the running search; its outcome will be ignored.
    pub fn cancel_active_search(&mut self)
        requires
            old(self).wf(),
        ensures
            final(self).wf(),
            search_cancelled(*old(self), *final(self)),
    {
        self.active_search_id = None;
        self.is_searching = false;
    }
}

} // verus!

verus! {

/// Switching the theme twice from a fixed mode gives that mode back (the
/// preference alternates between dark and light).
pub proof fn lemma_toggle_theme_twice(m: ThemeMode, hints: TerminalHints)
    requires
        m != ThemeMode::Auto,
    ensures
        next_theme(next_theme(m.resolved_spec(hints)).resolved_spec(hints)) == m,
{
}

/// Switching the drawer's filter twice shows the same list again.
pub proof fn lemma_filter_twice(f: HistoryFilter)
    ensures
        other_filter(other_filter(f)) == f,
{
}

/// A search that was started and then answered is over: nothing is awaited
/// any more; an answer is shown and cached under the trimmed input, and an
/// error is shown in place of a result.
pub proof fn lemma_answered_search(
    s0: AppState,
    input: Seq<char>,
    id: u64,
    q: String,
    s1: AppState,
    result: Result<QueryOutput, String>,
    r: Option<String>,
    s2: AppState,
)
    requires
        s0.wf(),
        search_begun(s0, input, Some((id, q)), s1),
        result_applied(s1, id, q@, result, r, s2),
    ensures
        !s2.is_searching,
        s2.active_search_id is None,
        result matches Ok(o) ==> s2.current_result matches Some(c) && c@ == o@ && cache_lookup(
            s2.query_cache@,
            trim(input),
        ) == Some(o@),
        result matches Err(e) ==> s2.error_message == Some(e) && s2.current_result is None,
{
    if let Ok(o) = result {
        crate::cache::lemma_lookup_after_insert(s1.query_cache@, q@, o@);
    }
}

/// While a search runs, starting another one does nothing.
pub proof fn lemma_one_search_at_a_time(s0: AppState, input: Seq<char>, r: Option<(u64, String)>, s1: AppState)
    requires
        s0.is_searching,
        search_begun(s0, input, r, s1),
    ensures
        r is None,
        s1 == s0,
{
}

/// The answer to a cancelled search arrives too late and changes nothing.
pub proof fn lemma_late_answer_ignored(
    s0: AppState,
    s1: AppState,
    id: u64,
    query: Seq<char>,
    result: Result<QueryOutput, String>,
    r: Option<String>,
    s2: AppState,
)
    requires
        search_cancelled(s0, s1),
        result_applied(s1, id, query, result, r, s2),
    ensures
        r is None,
        s2 == s1,
{
}

/// After a search is cancelled and a new one started, the answer to the
/// old one is ignored: the new search has another identifier.
pub proof fn lemma_superseded_answer_ignored(
    s0: AppState,
    s1: AppState,
    input: Seq<char>,
    started: Option<(u64, String)>,
    s2: AppState,
    query: Seq<char>,
    result: Result<QueryOutput, String>,
    r: Option<String>,
    s3: AppState,
)
    requires
        s0.active_search_id == Some(s0.next_search_id),
        search_cancelled(s0, s1),
        search_begun(s1, input, started, s2),
        result_applied(s2, s0.next_search_id, query, result, r, s3),
    ensures
        r is None,
        s3 == s2,
{
}

} // verus!

