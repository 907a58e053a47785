//! The text of the full-screen interface: pane titles, the header and
//! status bar, and the lines of the result pane, as styled spans that the
//! drawing code only has to paint.
use vstd::prelude::*;

use crate::app_state::AppState;
use crate::dict::{DefinitionGroup, DefinitionView, Example, QueryOutput, QueryOutputView, WordDetail, WordDetailView};
use crate::keys::{FocusedPane, HistoryFilter, InputMode, UiState};
use crate::text::{ascii_only, ascii_upper, join_with, string_views};
use crate::view::{clean_phonetic_spec, pos_label_spec};
use crate::history::HistoryItem;
use crate::layout::query_column_spec;
use crate::width::{truncate_display_spec, unicode_str_width};

verus! {

/// The palette role of a piece of text (`Plain` is text left uncolored).
#[derive(Debug, Clone, Copy, PartialEq, Eq, Structural)]
pub enum Tone {
    Plain,
    Foreground,
    Secondary,
    Translation,
    Blue,
    Cyan,
    Green,
    Magenta,
    Purple,
    Orange,
    Yellow,
    Red,
    Muted,
    Border,
}

/// A piece of text with its color role, whether it is bold, and whether it
/// sits on the highlighted background.
#[derive(Debug)]
pub struct Span {
    pub text: String,
    pub tone: Tone,
    pub bold: bool,
    pub highlight: bool,
}

impl Clone for Span {
    fn clone(&self) -> (r: Span)
        ensures
            r@ == self@,
    {
        Span { text: self.text.clone(), tone: self.tone, bold: self.bold, highlight: self.highlight }
    }
}

/// The content of a span.
pub type SpanView = (Seq<char>, Tone, bool, bool);

impl View for Span {
    type V = SpanView;

    open spec fn view(&self) -> SpanView {
        (self.text@, self.tone, self.bold, self.highlight)
    }
}

/// The spans of a line.
pub open spec fn line_view(l: Vec<Span>) -> Seq<SpanView> {
    l@.map_values(|s: Span| s@)
}

/// The spans of each line.
pub open spec fn lines_view(v: Seq<Vec<Span>>) -> Seq<Seq<SpanView>> {
    v.map_values(|l: Vec<Span>| line_view(l))
}

/// A span made of a literal.
pub fn span_of(text: &str, tone: Tone, bold: bool, highlight: bool) -> (r: Span)
    ensures
        r@ == (text@, tone, bold, highlight),
{
    Span { text: String::from_str(text), tone, bold, highlight }
}

/// A span holding a copy of a string.
pub fn span_string(text: &String, tone: Tone, bold: bool, highlight: bool) -> (r: Span)
    ensures
        r@ == (text@, tone, bold, highlight),
{
    Span { text: text.clone(), tone, bold, highlight }
}

/// The name of an input mode in the interface.
pub open spec fn mode_label_spec(m: InputMode) -> Seq<char> {
    match m {
        InputMode::Insert => "INSERT"@,
        InputMode::Normal => "NORMAL"@,
    }
}

/// The name of an input mode (`INSERT` or `NORMAL`).
pub fn mode_label(m: InputMode) -> (r: &'static str)
    ensures
        r@ == mode_label_spec(m),
{
    match m {
        InputMode::Insert => "INSERT",
        InputMode::Normal => "NORMAL",
    }
}

/// The name of a pane in the interface.
pub open spec fn focus_label_spec(f: FocusedPane) -> Seq<char> {
    match f {
        FocusedPane::Input => "原文"@,
        FocusedPane::Result => "译文"@,
    }
}

/// The name of a pane: the source text or the translation.
pub fn focus_label(f: FocusedPane) -> (r: &'static str)
    ensures
        r@ == focus_label_spec(f),
{
    match f {
        FocusedPane::Input => "原文",
        FocusedPane::Result => "译文",
    }
}

/// The state named in the header: searching, failed, a result is shown, or
/// waiting for input.
pub open spec fn header_state_spec(searching: bool, failed: bool, has_result: bool) -> Seq<char> {
    if searching {
        "查询中"@
    } else if failed {
        "查询失败"@
    } else if has_result {
        "已就绪"@
    } else {
        "等待输入"@
    }
}

/// The state text of the header, between the focused pane and the state.
pub open spec fn header_text_spec(s: AppState) -> Seq<char> {
    " "@ + focus_label_spec(s.ui.focused_pane) + " · "@ + header_state_spec(
        s.is_searching,
        s.error_message is Some,
        s.current_result is Some,
    ) + " "@
}

/// The header's state text: `" <pane> · <state> "`.
pub fn header_text(s: &AppState) -> (r: String)
    ensures
        r@ == header_text_spec(*s),
{
    let state = if s.is_searching {
        "查询中"
    } else if s.error_message.is_some() {
        "查询失败"
    } else if s.current_result.is_some() {
        "已就绪"
    } else {
        "等待输入"
    };
    let mut out = String::from_str(" ");
    out.append(focus_label(s.ui.focused_pane));
    out.append(" · ");
    out.append(state);
    out.append(" ");
    out
}

/// The state named in the status bar.
pub open spec fn status_state_spec(searching: bool, failed: bool) -> Seq<char> {
    if searching {
        "查询中"@
    } else if failed {
        "查询失败"@
    } else {
        "就绪"@
    }
}

/// The first line of the status bar before truncation: mode, pane and
/// state, then the notice when one is shown.
pub open spec fn status_first_spec(s: AppState, toast: Option<Seq<char>>) -> Seq<char> {
    let base = "["@ + mode_label_spec(s.ui.mode) + "] "@ + focus_label_spec(s.ui.focused_pane)
        + " · "@ + status_state_spec(s.is_searching, s.error_message is Some);
    match toast {
        Some(t) => base + "  "@ + t,
        None => base,
    }
}

/// The color of the status bar's first line: a notice is yellow, a failure
/// red, else the foreground.
pub open spec fn status_tone_spec(failed: bool, has_toast: bool) -> Tone {
    if has_toast {
        Tone::Yellow
    } else if failed {
        Tone::Red
    } else {
        Tone::Foreground
    }
}

/// The key hints of the status bar: those of the drawer when it is open,
/// shorter ones in the compact layout, else by mode and pane.
pub open spec fn status_hints_spec(ui: UiState, compact: bool) -> Seq<char> {
    if ui.show_history_drawer {
        "j/k 浏览 · Enter 查询 · f 收藏 · d 删除 · c 过滤 · Esc 关闭"@
    } else if compact {
        match ui.mode {
            InputMode::Insert => "Esc 导航 · Enter 查询 · Shift+Enter 换行 · Tab 切换"@,
            InputMode::Normal => "Tab 切换 · j/k 滚动 · h 历史 · ? 帮助 · q 退出"@,
        }
    } else {
        match ui.mode {
            InputMode::Insert => "Esc 导航 · Enter 查询 · Shift+Enter 换行 · Tab 切换 · Ctrl+C 退出"@,
            InputMode::Normal => match ui.focused_pane {
                FocusedPane::Input => "i/a 编辑 · c 清空并输入 · Enter 查询 · Tab 切换 · h 历史 · ? 帮助"@,
                FocusedPane::Result => "j/k 滚动 · g/G 顶/底 · i 编辑 · Tab 切换 · y 复制 · h 历史 · ? 帮助"@,
            },
        }
    }
}

fn status_hints(ui: &UiState, compact: bool) -> (r: &'static str)
    ensures
        r@ == status_hints_spec(*ui, compact),
{
    if ui.show_history_drawer {
        "j/k 浏览 · Enter 查询 · f 收藏 · d 删除 · c 过滤 · Esc 关闭"
    } else if compact {
        match ui.mode {
            InputMode::Insert => "Esc 导航 · Enter 查询 · Shift+Enter 换行 · Tab 切换",
            InputMode::Normal => "Tab 切换 · j/k 滚动 · h 历史 · ? 帮助 · q 退出",
        }
    } else {
        match ui.mode {
            InputMode::Insert => "Esc 导航 · Enter 查询 · Shift+Enter 换行 · Tab 切换 · Ctrl+C 退出",
            InputMode::Normal => match ui.focused_pane {
                FocusedPane::Input => "i/a 编辑 · c 清空并输入 · Enter 查询 · Tab 切换 · h 历史 · ? 帮助",
                FocusedPane::Result => "j/k 滚动 · g/G 顶/底 · i 编辑 · Tab 切换 · y 复制 · h 历史 · ? 帮助",
            },
        }
    }
}

/// The two lines of the status bar, each cut to `width` columns: the state
/// line with its color, and the key hints.
pub fn status_bar(s: &AppState, toast: Option<&str>, compact: bool, width: usize) -> (r: (
    String,
    Tone,
    String,
))
    ensures
        r.0@ == truncate_display_spec(
            status_first_spec(
                *s,
                match toast {
                    Some(t) => Some(t@),
                    None => None,
                },
            ),
            width as nat,
        ),
        r.1 == status_tone_spec(s.error_message is Some, toast is Some),
        r.2@ == truncate_display_spec(status_hints_spec(s.ui, compact), width as nat),
{
    let state = if s.is_searching {
        "查询中"
    } else if s.error_message.is_some() {
        "查询失败"
    } else {
        "就绪"
    };
    let mut first = String::from_str("[");
    first.append(mode_label(s.ui.mode));
    first.append("] ");
    first.append(focus_label(s.ui.focused_pane));
    first.append(" · ");
    first.append(state);
    match toast {
        Some(t) => {
            first.append("  ");
            first.append(t);
        },
        None => {},
    }
    let tone = if toast.is_some() {
        Tone::Yellow
    } else if s.error_message.is_some() {
        Tone::Red
    } else {
        Tone::Foreground
    };
    let hints = status_hints(&s.ui, compact);
    (
        crate::width::truncate_display_width(first.as_str(), width),
        tone,
        crate::width::truncate_display_width(hints, width),
    )
}

/// The title and border color of the input pane: green while typing, cyan
/// while navigating, and plain when the other pane has the focus.
pub open spec fn input_title_spec(ui: UiState) -> (Seq<char>, Tone) {
    match ui.focused_pane {
        FocusedPane::Input => match ui.mode {
            InputMode::Insert => (" 原文输入 · INSERT "@, Tone::Green),
            InputMode::Normal => (" 原文输入 · NORMAL "@, Tone::Cyan),
        },
        FocusedPane::Result => (" 原文输入 "@, Tone::Border),
    }
}

/// The title and border color of the input pane.
pub fn input_title(ui: &UiState) -> (r: (&'static str, Tone))
    ensures
        (r.0@, r.1) == input_title_spec(*ui),
{
    match ui.focused_pane {
        FocusedPane::Input => match ui.mode {
            InputMode::Insert => (" 原文输入 · INSERT ", Tone::Green),
            InputMode::Normal => (" 原文输入 · NORMAL ", Tone::Cyan),
        },
        FocusedPane::Result => (" 原文输入 ", Tone::Border),
    }
}

/// The title and border color of the result pane: blue when it has the
/// focus, plain otherwise.
pub open spec fn result_title_spec(ui: UiState) -> (Seq<char>, Tone) {
    match ui.focused_pane {
        FocusedPane::Result => (" 译文 / 词典 · NORMAL "@, Tone::Blue),
        FocusedPane::Input => (" 译文 / 词典 "@, Tone::Border),
    }
}

/// The title and border color of the result pane.
pub fn result_title(ui: &UiState) -> (r: (&'static str, Tone))
    ensures
        (r.0@, r.1) == result_title_spec(*ui),
{
    match ui.focused_pane {
        FocusedPane::Result => (" 译文 / 词典 · NORMAL ", Tone::Blue),
        FocusedPane::Input => (" 译文 / 词典 ", Tone::Border),
    }
}

/// The title of the history drawer, which also tells how to switch lists.
pub open spec fn drawer_title_spec(f: HistoryFilter) -> Seq<char> {
    match f {
        HistoryFilter::All => " 历史记录 · c 切换生词本 · Esc 关闭 "@,
        HistoryFilter::Favorites => " 生词本 · c 切换全部历史 · Esc 关闭 "@,
    }
}

/// The title of the history drawer for the list it shows.
pub fn drawer_title(f: HistoryFilter) -> (r: &'static str)
    ensures
        r@ == drawer_title_spec(f),
{
    match f {
        HistoryFilter::All => " 历史记录 · c 切换生词本 · Esc 关闭 ",
        HistoryFilter::Favorites => " 生词本 · c 切换全部历史 · Esc 关闭 ",
    }
}

/// Whether the hardware cursor is placed in the input pane: it has the
/// focus while typing and nothing covers it.
pub open spec fn shows_input_cursor_spec(ui: UiState) -> bool {
    ui.focused_pane == FocusedPane::Input && ui.mode == InputMode::Insert && !ui.show_history_drawer
        && !ui.show_help
}

/// Whether the input cursor is shown.
pub fn shows_input_cursor(ui: &UiState) -> (r: bool)
    ensures
        r == shows_input_cursor_spec(*ui),
{
    ui.focused_pane == FocusedPane::Input && ui.mode == InputMode::Insert && !ui.show_history_drawer
        && !ui.show_help
}

} // verus!

verus! {

/// What `str::to_uppercase` gives for a string.
pub uninterp spec fn unicode_uppercase(s: Seq<char>) -> Seq<char>;

/// `str::to_uppercase` of std: every character mapped to its Unicode
/// uppercase. The case tables are only named here; an ASCII string maps
/// character by character, `a`..`z` to `A`..`Z`.
#[verifier::external_body]
pub(crate) fn to_uppercase(s: &str) -> (r: String)
    ensures
        r@ == unicode_uppercase(s@),
        crate::text::ascii_only(s@) ==> r@ == s@.map_values(|c: char| crate::text::ascii_upper(c)),
{
    s.to_uppercase()
}

/// The decimal digit for `d` below 10.
pub open spec fn digit_char(d: nat) -> char {
    if d == 0 {
        '0'
    } else if d == 1 {
        '1'
    } else if d == 2 {
        '2'
    } else if d == 3 {
        '3'
    } else if d == 4 {
        '4'
    } else if d == 5 {
        '5'
    } else if d == 6 {
        '6'
    } else if d == 7 {
        '7'
    } else if d == 8 {
        '8'
    } else {
        '9'
    }
}

/// The decimal representation of `n`, without leading zeros.
pub open spec fn decimal_spec(n: nat) -> Seq<char>
    decreases n,
{
    if n < 10 {
        seq![digit_char(n)]
    } else {
        decimal_spec(n / 10).push(digit_char(n % 10))
    }
}

fn digit(d: usize) -> (r: char)
    requires
        d < 10,
    ensures
        r == digit_char(d as nat),
{
    if d == 0 {
        '0'
    } else if d == 1 {
        '1'
    } else if d == 2 {
        '2'
    } else if d == 3 {
        '3'
    } else if d == 4 {
        '4'
    } else if d == 5 {
        '5'
    } else if d == 6 {
        '6'
    } else if d == 7 {
        '7'
    } else if d == 8 {
        '8'
    } else {
        '9'
    }
}

/// Appends the decimal representation of `n`.
pub fn push_decimal(out: &mut Vec<char>, n: usize)
    ensures
        final(out)@ == old(out)@ + decimal_spec(n as nat),
    decreases n,
{
    if n >= 10 {
        push_decimal(out, n / 10);
    }
    out.push(digit(n % 10));
    if n < 10 {
        assert(n % 10 == n);
    }
}

/// A line without one `'\r'` at its end.
pub open spec fn strip_cr(p: Seq<char>) -> Seq<char> {
    if p.len() > 0 && p.last() == '\r' {
        p.drop_last()
    } else {
        p
    }
}

/// The lines of `s` as `str::lines` yields them: split at `'\n'`, with a
/// `'\r'` before a `'\n'` dropped and no empty line after a final `'\n'`.
pub open spec fn text_lines_spec(s: Seq<char>) -> Seq<Seq<char>> {
    let parts = crate::text::split_on(s, '\n');
    let body = parts.drop_last().map_values(|p: Seq<char>| strip_cr(p));
    if parts.last().len() == 0 {
        body
    } else {
        body.push(parts.last())
    }
}

/// The lines of `s`, as `str::lines` gives them.
pub fn text_lines(s: &str) -> (r: Vec<Vec<char>>)
    ensures
        r@.map_values(|p: Vec<char>| p@) == text_lines_spec(s@),
{
    let v = crate::text::chars_of(s);
    let parts = crate::text::split_chars(&v, '\n');
    proof {
        crate::text::lemma_split_nonempty(v@, '\n');
    }
    let ghost pv = parts@.map_values(|p: Vec<char>| p@);
    let n = parts.len();
    let mut out: Vec<Vec<char>> = Vec::new();
    for i in 0..n - 1
        invariant
            n == parts@.len() >= 1,
            pv == parts@.map_values(|p: Vec<char>| p@),
            out@.map_values(|p: Vec<char>| p@) == pv.drop_last().take(i as int).map_values(
                |p: Seq<char>| strip_cr(p),
            ),
    {
        let p = &parts[i];
        let line = if p.len() > 0 && p[p.len() - 1] == '\r' {
            crate::text::sub_chars(p, 0, p.len() - 1)
        } else {
            crate::text::sub_chars(p, 0, p.len())
        };
        assert(p@.subrange(0, p@.len() as int) == p@);
        assert(line@ == strip_cr(pv[i as int]));
        let ghost prev = out@;
        out.push(line);
        assert(out@.map_values(|p: Vec<char>| p@) =~= prev.map_values(|p: Vec<char>| p@).push(line@));
        assert(pv.drop_last().take(i + 1) =~= pv.drop_last().take(i as int).push(pv[i as int]));
    }
    assert(pv.drop_last().take((n - 1) as int) == pv.drop_last());
    let last = &parts[n - 1];
    if last.len() > 0 {
        let l = crate::text::sub_chars(last, 0, last.len());
        assert(last@.subrange(0, last@.len() as int) == last@);
        let ghost prev = out@;
        out.push(l);
        assert(out@.map_values(|p: Vec<char>| p@) =~= prev.map_values(|p: Vec<char>| p@).push(l@));
    }
    out
}

/// `s` padded with spaces on the left to `w` characters (`format!("{:>w$}")`).
pub open spec fn pad_left_spec(s: Seq<char>, w: nat) -> Seq<char> {
    if s.len() >= w {
        s
    } else {
        Seq::new((w - s.len()) as nat, |i: int| ' ') + s
    }
}

fn pad_left(s: &[char], w: usize) -> (r: Vec<char>)
    ensures
        r@ == pad_left_spec(s@, w as nat),
{
    let mut out: Vec<char> = Vec::new();
    if s.len() < w {
        let k = w - s.len();
        for i in 0..k
            invariant
                out@ == Seq::new(i as nat, |j: int| ' '),
        {
            out.push(' ');
            assert(out@ =~= Seq::new((i + 1) as nat, |j: int| ' '));
        }
    }
    crate::text::extend_chars(&mut out, s);
    assert(out@ =~= pad_left_spec(s@, w as nat));
    out
}

} // verus!

verus! {

/// A line of one span.
pub open spec fn one_span(t: Seq<char>, tone: Tone, bold: bool, highlight: bool) -> Seq<SpanView> {
    seq![(t, tone, bold, highlight)]
}

/// A section heading: the label padded by two spaces, bold on the
/// highlighted background.
pub open spec fn section_spec(label: Seq<char>, tone: Tone) -> Seq<SpanView> {
    one_span("  "@ + label + "  "@, tone, true, true)
}

/// The span of a phonetic transcription after the word, when there is one.
pub open spec fn phonetic_spans(label: Seq<char>, p: Option<Seq<char>>) -> Seq<SpanView> {
    match p {
        Some(x) => seq![("  "@ + label + " ["@ + clean_phonetic_spec(x) + "]"@, Tone::Cyan, true, false)],
        None => Seq::empty(),
    }
}

/// The first line of an entry: the word, then its transcriptions.
pub open spec fn word_line_spec(w: WordDetailView) -> Seq<SpanView> {
    seq![(" "@ + w.word + " "@, Tone::Blue, true, true)] + phonetic_spans("美"@, w.phonetic_us)
        + phonetic_spans("英"@, w.phonetic_uk)
}

/// The tag line, when the entry has tags.
pub open spec fn tag_lines_spec(w: WordDetailView) -> Seq<Seq<SpanView>> {
    if w.tags.len() == 0 {
        Seq::empty()
    } else {
        seq![one_span("标签："@ + join_with(w.tags, " · "@), Tone::Muted, false, false)]
    }
}

/// One definition: the part of speech right-aligned in six characters, then
/// the meanings joined with a full-width semicolon.
pub open spec fn definition_row_spec(d: DefinitionView) -> Seq<SpanView> {
    seq![
        ("  "@ + pad_left_spec(pos_label_spec(d.0), 6) + "  "@, Tone::Orange, true, false),
        (join_with(d.1, "\u{ff1b}"@), Tone::Foreground, false, false),
    ]
}

/// The definitions section, when there are definitions.
pub open spec fn definition_block_spec(w: WordDetailView) -> Seq<Seq<SpanView>> {
    if w.definitions.len() == 0 {
        Seq::empty()
    } else {
        seq![section_spec("词典释义"@, Tone::Green)] + w.definitions.map_values(
            |d: DefinitionView| definition_row_spec(d),
        )
    }
}

/// The two lines of the example numbered `number`: the sentence, then its
/// translation.
pub open spec fn example_rows_spec(number: nat, e: (Seq<char>, Seq<char>)) -> Seq<Seq<SpanView>> {
    seq![
        seq![("  "@ + decimal_spec(number) + ". "@, Tone::Blue, true, false), (e.0, Tone::Blue, false, false)],
        seq![("     -> "@, Tone::Muted, false, false), (e.1, Tone::Secondary, false, false)],
    ]
}

/// The lines of the examples, numbered from 1.
pub open spec fn examples_rows_spec(es: Seq<(Seq<char>, Seq<char>)>) -> Seq<Seq<SpanView>>
    decreases es.len(),
{
    if es.len() == 0 {
        Seq::empty()
    } else {
        examples_rows_spec(es.drop_last()) + example_rows_spec(es.len(), es.last())
    }
}

/// The examples section, when there are examples; a blank line separates it
/// from the definitions.
pub open spec fn example_block_spec(w: WordDetailView) -> Seq<Seq<SpanView>> {
    if w.examples.len() == 0 {
        Seq::empty()
    } else {
        (if w.definitions.len() > 0 {
            seq![Seq::<SpanView>::empty()]
        } else {
            Seq::empty()
        }) + seq![section_spec("双语例句"@, Tone::Magenta)] + examples_rows_spec(w.examples)
    }
}

/// The lines that show a dictionary entry.
pub open spec fn dict_lines_spec(w: WordDetailView) -> Seq<Seq<SpanView>> {
    seq![word_line_spec(w)] + tag_lines_spec(w) + seq![Seq::<SpanView>::empty()]
        + definition_block_spec(w) + example_block_spec(w)
}

/// Lines of text, each indented by two spaces.
pub open spec fn indented_spec(lines: Seq<Seq<char>>, tone: Tone) -> Seq<Seq<SpanView>> {
    lines.map_values(|l: Seq<char>| one_span("  "@ + l, tone, false, false))
}

/// The lines that show a translated sentence: the language pair, the
/// source text, and the translation.
pub open spec fn sentence_lines_spec(
    original: Seq<char>,
    translated: Seq<char>,
    detected: Seq<char>,
    target: Seq<char>,
) -> Seq<Seq<SpanView>> {
    seq![
        one_span(
            " "@ + unicode_uppercase(detected) + " -> "@ + unicode_uppercase(target) + " · Google 翻译 "@,
            Tone::Magenta,
            true,
            true,
        ),
        Seq::<SpanView>::empty(),
        section_spec("原文"@, Tone::Blue),
    ] + indented_spec(text_lines_spec(original), Tone::Foreground) + seq![
        Seq::<SpanView>::empty(),
        section_spec("译文"@, Tone::Green),
    ] + indented_spec(text_lines_spec(translated), Tone::Green)
}

/// The lines shown while a search runs.
pub open spec fn searching_lines_spec() -> Seq<Seq<SpanView>> {
    seq![
        Seq::<SpanView>::empty(),
        one_span("正在检索翻译与词典数据，请稍候…"@, Tone::Yellow, true, false),
        one_span("网络请求在后台执行，输入区仍可安全浏览。"@, Tone::Secondary, false, false),
    ]
}

/// The lines shown after a failed search.
pub open spec fn error_lines_spec(e: Seq<char>) -> Seq<Seq<SpanView>> {
    seq![
        Seq::<SpanView>::empty(),
        one_span("查询失败"@, Tone::Red, true, false),
        one_span(e, Tone::Foreground, false, false),
        Seq::<SpanView>::empty(),
        one_span("修改左侧内容后按 Enter 重试。"@, Tone::Muted, false, false),
    ]
}

/// The lines shown before anything was searched.
pub open spec fn welcome_lines_spec() -> Seq<Seq<SpanView>> {
    seq![
        Seq::<SpanView>::empty(),
        one_span("在左侧输入内容，按 Enter 开始查询。"@, Tone::Foreground, true, false),
        Seq::<SpanView>::empty(),
        seq![("单词  "@, Tone::Green, true, false), ("音标、词性释义和双语例句"@, Tone::Secondary, false, false)],
        seq![("长句  "@, Tone::Blue, true, false), ("自动检测语种并生成对照译文"@, Tone::Secondary, false, false)],
        seq![("历史  "@, Tone::Purple, true, false), ("按 h 打开历史记录与生词本"@, Tone::Secondary, false, false)],
        Seq::<SpanView>::empty(),
        one_span("Tab 切换面板 · ? 查看快捷键 · q 退出"@, Tone::Muted, false, false),
    ]
}

/// The content of the result pane: the search in progress, a failure, the
/// result, or the welcome text, in that order of precedence.
pub open spec fn result_lines_spec(s: AppState) -> Seq<Seq<SpanView>> {
    if s.is_searching {
        searching_lines_spec()
    } else if s.error_message is Some {
        error_lines_spec(s.error_message.unwrap()@)
    } else {
        match s.current_result {
            Some(o) => match o@ {
                QueryOutputView::Dict(w) => dict_lines_spec(w),
                QueryOutputView::Sentence { original, translated, detected_lang, target_lang } =>
                    sentence_lines_spec(original, translated, detected_lang, target_lang),
            },
            None => welcome_lines_spec(),
        }
    }
}

} // verus!

verus! {

pub(crate) fn push_line(out: &mut Vec<Vec<Span>>, line: Vec<Span>)
    ensures
        lines_view(final(out)@) == lines_view(old(out)@).push(line_view(line)),
{
    let ghost prev = out@;
    out.push(line);
    assert(lines_view(out@) =~= lines_view(prev).push(line_view(line)));
}

pub(crate) fn push_span(line: &mut Vec<Span>, s: Span)
    ensures
        line_view(*final(line)) == line_view(*old(line)).push(s@),
{
    let ghost prev = line@;
    line.push(s);
    assert(line@.map_values(|x: Span| x@) =~= prev.map_values(|x: Span| x@).push(s@));
}

/// Appends copies of the spans of `more` to `line`.
pub(crate) fn extend_line(line: &mut Vec<Span>, more: &Vec<Span>)
    ensures
        line_view(*final(line)) == line_view(*old(line)) + line_view(*more),
{
    let n = more.len();
    let ghost start = line_view(*line);
    for i in 0..n
        invariant
            n == more@.len(),
            line_view(*line) == start + line_view(*more).take(i as int),
    {
        push_span(line, more[i].clone());
        assert(line_view(*more).take(i + 1) =~= line_view(*more).take(i as int).push(more@[i as int]@));
    }
    assert(line_view(*more).take(n as int) =~= line_view(*more));
}

pub(crate) fn single(s: Span) -> (r: Vec<Span>)
    ensures
        line_view(r) == seq![s@],
{
    let mut l: Vec<Span> = Vec::new();
    assert(line_view(l) =~= Seq::<SpanView>::empty());
    push_span(&mut l, s);
    assert(line_view(l) =~= seq![s@]);
    l
}

pub(crate) fn pair(a: Span, b: Span) -> (r: Vec<Span>)
    ensures
        line_view(r) == seq![a@, b@],
{
    let mut l = single(a);
    push_span(&mut l, b);
    assert(line_view(l) =~= seq![a@, b@]);
    l
}

pub(crate) fn blank() -> (r: Vec<Span>)
    ensures
        line_view(r) == Seq::<SpanView>::empty(),
{
    let l: Vec<Span> = Vec::new();
    assert(line_view(l) =~= Seq::<SpanView>::empty());
    l
}

pub(crate) fn section(label: &str, tone: Tone) -> (r: Vec<Span>)
    ensures
        line_view(r) == section_spec(label@, tone),
{
    let mut t = String::from_str("  ");
    t.append(label);
    t.append("  ");
    single(Span { text: t, tone, bold: true, highlight: true })
}

fn push_phonetic(line: &mut Vec<Span>, label: &str, p: &Option<String>)
    ensures
        line_view(*final(line)) == line_view(*old(line)) + phonetic_spans(
            label@,
            crate::dict::opt_view(*p),
        ),
{
    match p {
        Some(x) => {
            let mut t = String::from_str("  ");
            t.append(label);
            t.append(" [");
            t.append(crate::view::clean_phonetic(x.as_str()).as_str());
            t.append("]");
            let ghost before = line_view(*line);
            push_span(line, Span { text: t, tone: Tone::Cyan, bold: true, highlight: false });
            assert(line_view(*line) =~= before + phonetic_spans(label@, crate::dict::opt_view(*p)));
        },
        None => {
            assert(line_view(*line) =~= line_view(*line) + phonetic_spans(
                label@,
                crate::dict::opt_view(*p),
            ));
        },
    }
}

fn definition_row(d: &DefinitionGroup) -> (r: Vec<Span>)
    ensures
        line_view(r) == definition_row_spec(d@),
{
    let label = crate::text::chars_of(crate::view::formatted_pos(d.pos.as_str()).as_str());
    let padded = pad_left(&label, 6);
    let mut t = String::from_str("  ");
    t.append(crate::text::string_of(&padded).as_str());
    t.append("  ");
    let meanings = crate::text::join_strings(&d.meanings, "\u{ff1b}");
    pair(
        Span { text: t, tone: Tone::Orange, bold: true, highlight: false },
        Span { text: meanings, tone: Tone::Foreground, bold: false, highlight: false },
    )
}

fn dict_lines(w: &WordDetail) -> (r: Vec<Vec<Span>>)
    ensures
        lines_view(r@) == dict_lines_spec(w@),
{
    let ghost wv = w@;
    let mut out: Vec<Vec<Span>> = Vec::new();
    assert(lines_view(out@) =~= Seq::<Seq<SpanView>>::empty());
    let mut t = String::from_str(" ");
    t.append(w.word.as_str());
    t.append(" ");
    let mut first = single(Span { text: t, tone: Tone::Blue, bold: true, highlight: true });
    push_phonetic(&mut first, "美", &w.phonetic_us);
    push_phonetic(&mut first, "英", &w.phonetic_uk);
    assert(line_view(first) =~= word_line_spec(wv));
    push_line(&mut out, first);
    if w.tags.len() > 0 {
        let mut tag = String::from_str("标签：");
        tag.append(crate::text::join_strings(&w.tags, " · ").as_str());
        push_line(&mut out, single(Span { text: tag, tone: Tone::Muted, bold: false, highlight: false }));
    }
    assert(lines_view(out@) =~= seq![word_line_spec(wv)] + tag_lines_spec(wv));
    push_line(&mut out, blank());
    let ghost head = lines_view(out@);
    assert(head =~= seq![word_line_spec(wv)] + tag_lines_spec(wv) + seq![Seq::<SpanView>::empty()]);
    let defs = &w.definitions;
    let nd = defs.len();
    if nd > 0 {
        push_line(&mut out, section("词典释义", Tone::Green));
        let ghost dv = defs@.map_values(|d: DefinitionGroup| d@).map_values(
            |d: DefinitionView| definition_row_spec(d),
        );
        for i in 0..nd
            invariant
                nd == defs@.len(),
                dv == defs@.map_values(|d: DefinitionGroup| d@).map_values(
                    |d: DefinitionView| definition_row_spec(d),
                ),
                lines_view(out@) == head + seq![section_spec("词典释义"@, Tone::Green)] + dv.take(
                    i as int,
                ),
        {
            let row = definition_row(&defs[i]);
            push_line(&mut out, row);
            assert(dv.take(i + 1) =~= dv.take(i as int).push(dv[i as int]));
        }
        assert(dv.take(nd as int) == dv);
        assert(wv.definitions.map_values(|d: DefinitionView| definition_row_spec(d)) =~= dv);
    }
    assert(lines_view(out@) =~= head + definition_block_spec(wv));
    let ghost mid = lines_view(out@);
    let es = &w.examples;
    let ne = es.len();
    if ne > 0 {
        if nd > 0 {
            push_line(&mut out, blank());
        }
        push_line(&mut out, section("双语例句", Tone::Magenta));
        let ghost pre = lines_view(out@);
        let ghost ev = es@.map_values(|e: Example| e@);
        assert(ev == wv.examples);
        for i in 0..ne
            invariant
                ne == es@.len(),
                ev == es@.map_values(|e: Example| e@),
                lines_view(out@) == pre + examples_rows_spec(ev.take(i as int)),
        {
            let mut num: Vec<char> = vec![' ', ' '];
            push_decimal(&mut num, i + 1);
            assert(num@ =~= "  "@ + decimal_spec((i + 1) as nat)) by {
                reveal_strlit("  ");
            }
            let mut head_text = crate::text::string_of(&num);
            head_text.append(". ");
            let l1 = pair(
                Span { text: head_text, tone: Tone::Blue, bold: true, highlight: false },
                span_string(&es[i].orig, Tone::Blue, false, false),
            );
            let l2 = pair(
                span_of("     -> ", Tone::Muted, false, false),
                span_string(&es[i].trans, Tone::Secondary, false, false),
            );
            push_line(&mut out, l1);
            push_line(&mut out, l2);
            assert(ev.take(i + 1).drop_last() =~= ev.take(i as int));
            assert(ev.take(i + 1).last() == ev[i as int]);
        }
        assert(ev.take(ne as int) == ev);
    }
    assert(lines_view(out@) =~= mid + example_block_spec(wv));
    out
}

fn indented(text: &str, tone: Tone, out: &mut Vec<Vec<Span>>)
    ensures
        lines_view(final(out)@) == lines_view(old(out)@) + indented_spec(text_lines_spec(text@), tone),
{
    let lines = text_lines(text);
    let ghost lv = lines@.map_values(|p: Vec<char>| p@);
    let ghost iv = indented_spec(lv, tone);
    let ghost start = lines_view(out@);
    let n = lines.len();
    for i in 0..n
        invariant
            n == lines@.len(),
            lv == lines@.map_values(|p: Vec<char>| p@),
            iv == indented_spec(lv, tone),
            lines_view(out@) == start + iv.take(i as int),
    {
        let mut t = String::from_str("  ");
        t.append(crate::text::string_of(&lines[i]).as_str());
        push_line(out, single(Span { text: t, tone, bold: false, highlight: false }));
        assert(iv.take(i + 1) =~= iv.take(i as int).push(iv[i as int]));
    }
    assert(iv.take(n as int) == iv);
}

fn sentence_lines(original: &String, translated: &String, detected: &String, target: &String) -> (r: Vec<
    Vec<Span>,
>)
    ensures
        lines_view(r@) == sentence_lines_spec(original@, translated@, detected@, target@),
        ascii_only(detected@) ==> unicode_uppercase(detected@) == detected@.map_values(|c: char| ascii_upper(c)),
        ascii_only(target@) ==> unicode_uppercase(target@) == target@.map_values(|c: char| ascii_upper(c)),
{
    let mut out: Vec<Vec<Span>> = Vec::new();
    let mut t = String::from_str(" ");
    t.append(to_uppercase(detected.as_str()).as_str());
    t.append(" -> ");
    t.append(to_uppercase(target.as_str()).as_str());
    t.append(" · Google 翻译 ");
    push_line(&mut out, single(Span { text: t, tone: Tone::Magenta, bold: true, highlight: true }));
    push_line(&mut out, blank());
    push_line(&mut out, section("原文", Tone::Blue));
    indented(original.as_str(), Tone::Foreground, &mut out);
    push_line(&mut out, blank());
    push_line(&mut out, section("译文", Tone::Green));
    indented(translated.as_str(), Tone::Green, &mut out);
    assert(lines_view(out@) =~= sentence_lines_spec(original@, translated@, detected@, target@));
    out
}

/// The lines of the result pane for the current state.
pub fn result_lines(s: &AppState) -> (r: Vec<Vec<Span>>)
    ensures
        lines_view(r@) == result_lines_spec(*s),
        !s.is_searching && s.error_message is None ==> (s.current_result matches Some(
            QueryOutput::Sentence { detected_lang, target_lang, .. },
        ) ==> (ascii_only(detected_lang@) ==> unicode_uppercase(detected_lang@) == detected_lang@.map_values(
            |c: char| ascii_upper(c),
        )) && (ascii_only(target_lang@) ==> unicode_uppercase(target_lang@) == target_lang@.map_values(
            |c: char| ascii_upper(c),
        ))),
{
    let mut out: Vec<Vec<Span>> = Vec::new();
    if s.is_searching {
        push_line(&mut out, blank());
        push_line(&mut out, single(span_of("正在检索翻译与词典数据，请稍候…", Tone::Yellow, true, false)));
        push_line(&mut out, single(span_of("网络请求在后台执行，输入区仍可安全浏览。", Tone::Secondary, false, false)));
        assert(lines_view(out@) =~= searching_lines_spec());
        return out;
    }
    match &s.error_message {
        Some(e) => {
            push_line(&mut out, blank());
            push_line(&mut out, single(span_of("查询失败", Tone::Red, true, false)));
            push_line(&mut out, single(span_string(e, Tone::Foreground, false, false)));
            push_line(&mut out, blank());
            push_line(&mut out, single(span_of("修改左侧内容后按 Enter 重试。", Tone::Muted, false, false)));
            assert(lines_view(out@) =~= error_lines_spec(e@));
            return out;
        },
        None => {},
    }
    match &s.current_result {
        Some(QueryOutput::Dict(w)) => dict_lines(w),
        Some(QueryOutput::Sentence { original, translated, detected_lang, target_lang }) =>
            sentence_lines(original, translated, detected_lang, target_lang),
        None => {
            push_line(&mut out, blank());
            push_line(&mut out, single(span_of("在左侧输入内容，按 Enter 开始查询。", Tone::Foreground, true, false)));
            push_line(&mut out, blank());
            push_line(&mut out, pair(
                span_of("单词  ", Tone::Green, true, false),
                span_of("音标、词性释义和双语例句", Tone::Secondary, false, false),
            ));
            push_line(&mut out, pair(
                span_of("长句  ", Tone::Blue, true, false),
                span_of("自动检测语种并生成对照译文", Tone::Secondary, false, false),
            ));
            push_line(&mut out, pair(
                span_of("历史  ", Tone::Purple, true, false),
                span_of("按 h 打开历史记录与生词本", Tone::Secondary, false, false),
            ));
            push_line(&mut out, blank());
            push_line(&mut out, single(span_of("Tab 切换面板 · ? 查看快捷键 · q 退出", Tone::Muted, false, false)));
            assert(lines_view(out@) =~= welcome_lines_spec());
            out
        },
    }
}

} // verus!

verus! {

/// `n` spaces.
pub open spec fn spaces(n: nat) -> Seq<char> {
    Seq::new(n, |i: int| ' ')
}

/// `a - b`, or 0 when `b` is larger.
pub open spec fn sat_sub(a: int, b: int) -> nat {
    if a > b {
        (a - b) as nat
    } else {
        0
    }
}

/// `n` spaces.
pub fn space_string(n: usize) -> (r: String)
    ensures
        r@ == spaces(n as nat),
{
    let mut v: Vec<char> = Vec::new();
    for i in 0..n
        invariant
            v@ == spaces(i as nat),
    {
        v.push(' ');
        assert(v@ =~= spaces((i + 1) as nat));
    }
    crate::text::string_of(&v)
}

/// The query column of a history row: the query on one line, cut to `qw`
/// columns and padded with spaces to `qw` columns.
pub open spec fn padded_query_spec(query: Seq<char>, qw: usize) -> Seq<char> {
    let q = truncate_display_spec(crate::text::single_line_spec(query), qw as nat);
    q + spaces(sat_sub(qw as int, unicode_str_width(q) as int))
}

fn padded_query(query: &str, qw: usize) -> (r: String)
    ensures
        r@ == padded_query_spec(query@, qw),
{
    let one = crate::text::single_line(query);
    let mut q = crate::width::truncate_display_width(one.as_str(), qw);
    let qc = crate::text::chars_of(q.as_str());
    let w = crate::width::str_width(&qc);
    q.append(space_string(qw.saturating_sub(w)).as_str());
    q
}

/// The widths of the drawer's query and summary columns.
pub open spec fn drawer_widths_spec(inner_width: usize) -> (usize, usize) {
    let qw = query_column_spec(inner_width, 70, 28, 10);
    let sw: usize = if inner_width as int - (qw + 10) < 1 {
        1
    } else {
        (inner_width - (qw + 10)) as usize
    };
    (qw, sw)
}

/// One row of the history drawer: the selection marker, the favorite star,
/// the padded query, and the summary cut to its column.
pub open spec fn drawer_row_spec(item: HistoryItem, selected: bool, qw: usize, sw: usize) -> Seq<SpanView> {
    seq![
        (if selected { "▶ "@ } else { "  "@ }, Tone::Cyan, true, false),
        (if item.is_favorite { "★ "@ } else { "  "@ }, Tone::Yellow, false, false),
        (padded_query_spec(item.query@, qw), if selected { Tone::Foreground } else { Tone::Secondary }, false, false),
        ("  "@ + truncate_display_spec(crate::text::single_line_spec(item.result_summary@), sw as nat), Tone::Muted, false, false),
    ]
}

/// The rows of the history drawer for an inner width of `inner_width`; the
/// row at `selected` is the selected one. An empty list shows a notice.
pub open spec fn drawer_rows_spec(items: Seq<HistoryItem>, selected: usize, inner_width: usize) -> Seq<Seq<SpanView>> {
    if items.len() == 0 {
        seq![one_span("暂无记录。完成一次查询后会自动出现在这里。"@, Tone::Muted, false, false)]
    } else {
        Seq::new(
            items.len(),
            |i: int| drawer_row_spec(items[i], i == selected, drawer_widths_spec(inner_width).0, drawer_widths_spec(inner_width).1),
        )
    }
}

/// The rows of the history drawer.
pub fn drawer_rows(items: &Vec<HistoryItem>, selected: usize, inner_width: usize) -> (r: Vec<Vec<Span>>)
    ensures
        lines_view(r@) == drawer_rows_spec(items@, selected, inner_width),
{
    let mut out: Vec<Vec<Span>> = Vec::new();
    if items.len() == 0 {
        push_line(&mut out, single(span_of("暂无记录。完成一次查询后会自动出现在这里。", Tone::Muted, false, false)));
        assert(lines_view(out@) =~= drawer_rows_spec(items@, selected, inner_width));
        return out;
    }
    let (qw, sw) = crate::layout::drawer_columns(inner_width);
    assert((qw, sw) == drawer_widths_spec(inner_width));
    let n = items.len();
    let ghost want = drawer_rows_spec(items@, selected, inner_width);
    for i in 0..n
        invariant
            n == items@.len() > 0,
            (qw, sw) == drawer_widths_spec(inner_width),
            want == drawer_rows_spec(items@, selected, inner_width),
            lines_view(out@) == want.take(i as int),
    {
        let item = &items[i];
        let is_sel = i == selected;
        let mut line = single(span_of(if is_sel { "▶ " } else { "  " }, Tone::Cyan, true, false));
        push_span(&mut line, span_of(if item.is_favorite { "★ " } else { "  " }, Tone::Yellow, false, false));
        push_span(&mut line, Span {
            text: padded_query(item.query.as_str(), qw),
            tone: if is_sel { Tone::Foreground } else { Tone::Secondary },
            bold: false,
            highlight: false,
        });
        let mut summary = String::from_str("  ");
        summary.append(crate::width::truncate_display_width(crate::text::single_line(item.result_summary.as_str()).as_str(), sw).as_str());
        push_span(&mut line, Span { text: summary, tone: Tone::Muted, bold: false, highlight: false });
        assert(line_view(line) =~= drawer_row_spec(items@[i as int], i == selected, qw, sw));
        push_line(&mut out, line);
        assert(want.take(i + 1) =~= want.take(i as int).push(want[i as int]));
    }
    assert(want.take(n as int) == want);
    out
}

} // verus!

verus! {

/// The name of a theme mode in notices.
pub open spec fn theme_desc_spec(m: crate::theme::ThemeMode) -> Seq<char> {
    match m {
        crate::theme::ThemeMode::Dark => "深色 (Dark)"@,
        crate::theme::ThemeMode::Light => "浅色 (Light)"@,
        crate::theme::ThemeMode::Auto => "自动 (Auto)"@,
    }
}

/// The notice after switching the theme to `m`: whether the preference was
/// saved, with the reason when it was not.
pub open spec fn theme_notice_spec(m: crate::theme::ThemeMode, save_error: Option<Seq<char>>) -> Seq<char> {
    match save_error {
        None => "已切换至 "@ + theme_desc_spec(m) + " 主题并保存偏好"@,
        Some(e) => "已切换至 "@ + theme_desc_spec(m) + "（保存失败: "@ + e + "）"@,
    }
}

/// The notice after switching the theme.
pub fn theme_notice(m: crate::theme::ThemeMode, save_error: Option<&str>) -> (r: String)
    ensures
        r@ == theme_notice_spec(
            m,
            match save_error {
                Some(e) => Some(e@),
                None => None,
            },
        ),
{
    let desc = match m {
        crate::theme::ThemeMode::Dark => "深色 (Dark)",
        crate::theme::ThemeMode::Light => "浅色 (Light)",
        crate::theme::ThemeMode::Auto => "自动 (Auto)",
    };
    let mut out = String::from_str("已切换至 ");
    out.append(desc);
    match save_error {
        None => out.append(" 主题并保存偏好"),
        Some(e) => {
            out.append("（保存失败: ");
            out.append(e);
            out.append("）");
        },
    }
    out
}

} // verus!


verus! {

/// The result pane shows a dictionary entry on a first line that holds the
/// word, then the American transcription when the entry has one, then the
/// British transcription when the entry has one: each is shown on its own
/// account, whatever the other is.
pub proof fn lemma_entry_word_line(s: AppState, w: WordDetailView)
    requires
        !s.is_searching,
        s.error_message is None,
        s.current_result matches Some(o) && o@ == QueryOutputView::Dict(w),
    ensures
        result_lines_spec(s).len() > 0,
        result_lines_spec(s)[0].len() == 1 + (if w.phonetic_us is Some { 1int } else { 0 }) + (
        if w.phonetic_uk is Some {
            1int
        } else {
            0
        }),
        result_lines_spec(s)[0][0] == (" "@ + w.word + " "@, Tone::Blue, true, true),
        w.phonetic_us matches Some(p) ==> result_lines_spec(s)[0][1] == (
            "  "@ + "美"@ + " ["@ + clean_phonetic_spec(p) + "]"@,
            Tone::Cyan,
            true,
            false,
        ),
        w.phonetic_uk matches Some(p) ==> result_lines_spec(s)[0][result_lines_spec(s)[0].len() - 1]
            == ("  "@ + "英"@ + " ["@ + clean_phonetic_spec(p) + "]"@, Tone::Cyan, true, false),
{
}

/// The examples of an entry take two lines each, in order: the example at
/// position `k` (from 0) is introduced by the number `k + 1` and a dot, then
/// its sentence; its translation follows on the next line.
pub proof fn lemma_entry_examples_numbered(es: Seq<(Seq<char>, Seq<char>)>)
    ensures
        examples_rows_spec(es).len() == 2 * es.len(),
        forall|k: int|
            0 <= k < es.len() ==> {
                &&& (#[trigger] examples_rows_spec(es)[2 * k])[0].0 == "  "@ + decimal_spec((k + 1) as nat)
                    + ". "@
                &&& examples_rows_spec(es)[2 * k][1].0 == es[k].0
                &&& examples_rows_spec(es)[2 * k + 1][1].0 == es[k].1
            },
    decreases es.len(),
{
    if es.len() > 0 {
        lemma_entry_examples_numbered(es.drop_last());
        let n = es.len() - 1;
        assert forall|k: int| 0 <= k < es.len() implies {
            &&& (#[trigger] examples_rows_spec(es)[2 * k])[0].0 == "  "@ + decimal_spec((k + 1) as nat)
                + ". "@
            &&& examples_rows_spec(es)[2 * k][1].0 == es[k].0
            &&& examples_rows_spec(es)[2 * k + 1][1].0 == es[k].1
        } by {
            if k < n {
                assert(es.drop_last()[k] == es[k]);
                assert(examples_rows_spec(es)[2 * k] == examples_rows_spec(es.drop_last())[2 * k]);
                assert(examples_rows_spec(es)[2 * k + 1] == examples_rows_spec(es.drop_last())[2 * k + 1]);
            }
        }
    }
}

} // verus!

verus! {

/// The number that a string of decimal digits spells.
pub open spec fn decimal_value(s: Seq<char>) -> int
    decreases s.len(),
{
    if s.len() == 0 {
        0
    } else {
        decimal_value(s.drop_last()) * 10 + (s.last() as int - '0' as int)
    }
}

proof fn lemma_digit_value(d: nat)
    requires
        d < 10,
    ensures
        digit_char(d) as int - '0' as int == d,
{
}

/// Reading back the decimal spelling of `n` gives `n`.
pub proof fn lemma_decimal_value(n: nat)
    ensures
        decimal_value(decimal_spec(n)) == n,
    decreases n,
{
    if n < 10 {
        lemma_digit_value(n);
        let s = decimal_spec(n);
        assert(s.drop_last() =~= Seq::<char>::empty());
        assert(decimal_value(s.drop_last()) == 0);
        assert(s.last() == digit_char(n));
    } else {
        lemma_digit_value(n % 10);
        lemma_decimal_value(n / 10);
        let s = decimal_spec(n);
        assert(s == decimal_spec(n / 10).push(digit_char(n % 10)));
        assert(s.drop_last() =~= decimal_spec(n / 10));
        assert(s.last() == digit_char(n % 10));
        assert(n == (n / 10) * 10 + n % 10) by (nonlinear_arith);
    }
}

/// Different numbers are spelled differently.
pub proof fn lemma_decimal_injective(a: nat, b: nat)
    ensures
        decimal_spec(a) == decimal_spec(b) ==> a == b,
{
    lemma_decimal_value(a);
    lemma_decimal_value(b);
}

} // verus!

verus! {

/// The drawer shows one row per record, in order: the row of the selected
/// record opens with the pointer, and a record's row carries the star
/// exactly when the record is a favorite.
pub proof fn lemma_drawer_rows_marks(items: Seq<HistoryItem>, selected: usize, inner_width: usize)
    requires
        items.len() > 0,
    ensures
        drawer_rows_spec(items, selected, inner_width).len() == items.len(),
        forall|i: int|
            0 <= i < items.len() ==> {
                &&& (#[trigger] drawer_rows_spec(items, selected, inner_width)[i])[0].0 == (if i
                    == selected {
                    "▶ "@
                } else {
                    "  "@
                })
                &&& drawer_rows_spec(items, selected, inner_width)[i][1].0 == (if items[i].is_favorite {
                    "★ "@
                } else {
                    "  "@
                })
            },
{
}

} // verus!
