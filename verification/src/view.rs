//! What the command-line cards and the full-screen interface show, decided
//! apart from drawing it: colors of parts of speech, labels, the text copied
//! to the clipboard and when the input wraps while typing.
use vstd::prelude::*;

use crate::dict::{DefinitionGroup, DefinitionView, QueryOutput, QueryOutputView};
use crate::text::{chars_of, join_strings, join_with, string_of, string_views, sub_chars};
use crate::screen::Tone;
use crate::theme::{to_lowercase, unicode_lowercase, CliTheme, Rgb, TermColor, Theme};
use crate::width::{char_columns, cw, width_sum};

verus! {

/// Whether `s` begins with `p`.
pub open spec fn starts_with(s: Seq<char>, p: Seq<char>) -> bool {
    p.len() <= s.len() && s.subrange(0, p.len() as int) == p
}

/// Whether `s` begins with `p`.
pub fn starts_with_chars(s: &[char], p: &[char]) -> (r: bool)
    ensures
        r == starts_with(s@, p@),
{
    if p.len() > s.len() {
        return false;
    }
    let n = p.len();
    for i in 0..n
        invariant
            n == p@.len() <= s@.len(),
            forall|j: int| 0 <= j < i ==> s@[j] == p@[j],
    {
        if s[i] != p[i] {
            assert(s@.subrange(0, n as int)[i as int] != p@[i as int]);
            return false;
        }
    }
    assert(s@.subrange(0, n as int) =~= p@);
    true
}

/// The color role of a part of speech, from its lowercase form: nouns
/// orange, verbs blue, adjectives green, adverbs magenta, prepositions,
/// conjunctions and pronouns cyan, anything else yellow.
pub open spec fn pos_tone_spec(lower: Seq<char>) -> Tone {
    if starts_with(lower, seq!['n']) {
        Tone::Orange
    } else if starts_with(lower, seq!['v']) {
        Tone::Blue
    } else if starts_with(lower, seq!['a', 'd', 'j']) || (starts_with(lower, seq!['a'])
        && !starts_with(lower, seq!['a', 'd', 'v'])) {
        Tone::Green
    } else if starts_with(lower, seq!['a', 'd', 'v']) {
        Tone::Magenta
    } else if starts_with(lower, seq!['p', 'r', 'e', 'p']) || starts_with(
        lower,
        seq!['c', 'o', 'n', 'j'],
    ) || starts_with(lower, seq!['p', 'r', 'o', 'n']) {
        Tone::Cyan
    } else {
        Tone::Yellow
    }
}

/// The color role in which a part of speech is shown.
pub fn pos_tone(pos: &str) -> (r: Tone)
    ensures
        r == pos_tone_spec(unicode_lowercase(pos@)),
{
    let lower = to_lowercase(pos);
    let n = vec!['n'];
    let v = vec!['v'];
    let adj = vec!['a', 'd', 'j'];
    let a = vec!['a'];
    let adv = vec!['a', 'd', 'v'];
    let prep = vec!['p', 'r', 'e', 'p'];
    let conj = vec!['c', 'o', 'n', 'j'];
    let pron = vec!['p', 'r', 'o', 'n'];
    assert(n@ =~= seq!['n']);
    assert(v@ =~= seq!['v']);
    assert(adj@ =~= seq!['a', 'd', 'j']);
    assert(a@ =~= seq!['a']);
    assert(adv@ =~= seq!['a', 'd', 'v']);
    assert(prep@ =~= seq!['p', 'r', 'e', 'p']);
    assert(conj@ =~= seq!['c', 'o', 'n', 'j']);
    assert(pron@ =~= seq!['p', 'r', 'o', 'n']);
    if starts_with_chars(&lower, &n) {
        Tone::Orange
    } else if starts_with_chars(&lower, &v) {
        Tone::Blue
    } else if starts_with_chars(&lower, &adj) || (starts_with_chars(&lower, &a)
        && !starts_with_chars(&lower, &adv)) {
        Tone::Green
    } else if starts_with_chars(&lower, &adv) {
        Tone::Magenta
    } else if starts_with_chars(&lower, &prep) || starts_with_chars(&lower, &conj)
        || starts_with_chars(&lower, &pron) {
        Tone::Cyan
    } else {
        Tone::Yellow
    }
}

/// The command-line color of a role. The palette has no red, purple or
/// secondary color: those roles take orange, magenta and the muted color,
/// and uncolored text the foreground.
pub open spec fn cli_rgb_spec(t: CliTheme, tone: Tone) -> Rgb {
    match tone {
        Tone::Plain => t.foreground,
        Tone::Foreground => t.foreground,
        Tone::Secondary => t.muted,
        Tone::Translation => t.translation,
        Tone::Blue => t.blue,
        Tone::Cyan => t.cyan,
        Tone::Green => t.green,
        Tone::Magenta => t.magenta,
        Tone::Purple => t.magenta,
        Tone::Orange => t.orange,
        Tone::Yellow => t.yellow,
        Tone::Red => t.orange,
        Tone::Muted => t.muted,
        Tone::Border => t.border,
    }
}

/// The command-line color of a role; uncolored text has none.
pub fn cli_color(t: &CliTheme, tone: Tone) -> (r: Option<Rgb>)
    ensures
        r == (if tone == Tone::Plain {
            None
        } else {
            Some(cli_rgb_spec(*t, tone))
        }),
{
    match tone {
        Tone::Plain => None,
        Tone::Foreground => Some(t.foreground),
        Tone::Secondary => Some(t.muted),
        Tone::Translation => Some(t.translation),
        Tone::Blue => Some(t.blue),
        Tone::Cyan => Some(t.cyan),
        Tone::Green => Some(t.green),
        Tone::Magenta => Some(t.magenta),
        Tone::Purple => Some(t.magenta),
        Tone::Orange => Some(t.orange),
        Tone::Yellow => Some(t.yellow),
        Tone::Red => Some(t.orange),
        Tone::Muted => Some(t.muted),
        Tone::Border => Some(t.border),
    }
}

/// The full-screen color of a role: the secondary color serves the
/// translation role, the comment color the muted role, and uncolored text
/// takes the foreground.
pub open spec fn tui_color_spec(t: Theme, tone: Tone) -> TermColor {
    match tone {
        Tone::Plain => t.foreground,
        Tone::Foreground => t.foreground,
        Tone::Secondary => t.secondary,
        Tone::Translation => t.secondary,
        Tone::Blue => t.blue,
        Tone::Cyan => t.cyan,
        Tone::Green => t.green,
        Tone::Magenta => t.magenta,
        Tone::Purple => t.purple,
        Tone::Orange => t.orange,
        Tone::Yellow => t.yellow,
        Tone::Red => t.red,
        Tone::Muted => t.comment,
        Tone::Border => t.border,
    }
}

/// The full-screen color of a role.
pub fn tui_color(t: &Theme, tone: Tone) -> (r: TermColor)
    ensures
        r == tui_color_spec(*t, tone),
{
    match tone {
        Tone::Plain => t.foreground,
        Tone::Foreground => t.foreground,
        Tone::Secondary => t.secondary,
        Tone::Translation => t.secondary,
        Tone::Blue => t.blue,
        Tone::Cyan => t.cyan,
        Tone::Green => t.green,
        Tone::Magenta => t.magenta,
        Tone::Purple => t.purple,
        Tone::Orange => t.orange,
        Tone::Yellow => t.yellow,
        Tone::Red => t.red,
        Tone::Muted => t.comment,
        Tone::Border => t.border,
    }
}

/// The color in which a part of speech is shown on the command line.
pub open spec fn pos_color_spec(lower: Seq<char>, theme: CliTheme) -> Rgb {
    cli_rgb_spec(theme, pos_tone_spec(lower))
}

/// The color in which a part of speech is shown on the command line.
pub fn pos_color(pos: &str, theme: &CliTheme) -> (r: Rgb)
    ensures
        r == pos_color_spec(unicode_lowercase(pos@), *theme),
{
    let tone = pos_tone(pos);
    match cli_color(theme, tone) {
        Some(c) => c,
        None => theme.foreground,
    }
}

/// A part of speech as it is labelled: empty stays empty, and a final `.`
/// is added where it is missing.
pub open spec fn pos_label_spec(pos: Seq<char>) -> Seq<char> {
    if pos.len() == 0 {
        pos
    } else if pos.last() == '.' {
        pos
    } else {
        pos.push('.')
    }
}

/// The label of a part of speech (`"n"` becomes `"n."`).
pub fn formatted_pos(pos: &str) -> (r: String)
    ensures
        r@ == pos_label_spec(pos@),
{
    let mut c = chars_of(pos);
    if c.len() > 0 && c[c.len() - 1] != '.' {
        c.push('.');
    }
    string_of(&c)
}

/// The bracketed label of a part of speech on a command-line card, empty
/// when there is no part of speech.
pub open spec fn pos_badge_spec(pos: Seq<char>) -> Seq<char> {
    if pos.len() == 0 {
        Seq::empty()
    } else {
        seq!['['] + pos_label_spec(pos) + seq![']']
    }
}

/// The bracketed label of a part of speech (`"n"` becomes `"[n.]"`).
pub fn pos_badge(pos: &str) -> (r: String)
    ensures
        r@ == pos_badge_spec(pos@),
{
    let label = chars_of(formatted_pos(pos).as_str());
    if label.len() == 0 {
        return String::new();
    }
    let mut out = vec!['['];
    crate::text::extend_chars(&mut out, &label);
    out.push(']');
    assert(out@ =~= seq!['['] + pos_label_spec(pos@) + seq![']']);
    string_of(&out)
}

/// The characters stripped around a phonetic transcription.
pub open spec fn is_phonetic_mark(c: char) -> bool {
    c == '/' || c == '[' || c == ']' || c == ' '
}

/// `s` without the marks at its start.
pub open spec fn strip_marks_start(s: Seq<char>) -> Seq<char>
    decreases s.len(),
{
    if s.len() > 0 && is_phonetic_mark(s[0]) {
        strip_marks_start(s.drop_first())
    } else {
        s
    }
}

/// `s` without the marks at its end.
pub open spec fn strip_marks_end(s: Seq<char>) -> Seq<char>
    decreases s.len(),
{
    if s.len() > 0 && is_phonetic_mark(s.last()) {
        strip_marks_end(s.drop_last())
    } else {
        s
    }
}

/// A transcription without the slashes, brackets and spaces around it.
pub open spec fn clean_phonetic_spec(s: Seq<char>) -> Seq<char> {
    strip_marks_end(strip_marks_start(s))
}

/// The phonetic transcription without surrounding `/`, `[`, `]` and spaces
/// (`"/həˈləʊ/"` becomes `"həˈləʊ"`).
pub fn clean_phonetic(raw: &str) -> (r: String)
    ensures
        r@ == clean_phonetic_spec(raw@),
{
    let v = chars_of(raw);
    let n = v.len();
    let mut i: usize = 0;
    assert(v@.subrange(0, n as int) == v@);
    while i < n && (v[i] == '/' || v[i] == '[' || v[i] == ']' || v[i] == ' ')
        invariant
            i <= n == v@.len(),
            strip_marks_start(v@) == strip_marks_start(v@.subrange(i as int, n as int)),
        decreases n - i,
    {
        assert(v@.subrange(i as int, n as int).drop_first() == v@.subrange(i + 1, n as int));
        i += 1;
    }
    let mut j: usize = n;
    let ghost s1 = v@.subrange(i as int, n as int);
    assert(strip_marks_start(s1) == s1);
    assert(s1.subrange(0, (j - i) as int) == s1);
    while j > i && (v[j - 1] == '/' || v[j - 1] == '[' || v[j - 1] == ']' || v[j - 1] == ' ')
        invariant
            i <= j <= n == v@.len(),
            s1 == v@.subrange(i as int, n as int),
            strip_marks_end(s1) == strip_marks_end(v@.subrange(i as int, j as int)),
        decreases j,
    {
        assert(v@.subrange(i as int, j as int).drop_last() == v@.subrange(i as int, j - 1));
        j -= 1;
    }
    let out = sub_chars(&v, i, j);
    string_of(&out)
}

/// One definition as it is copied: the part of speech, `": "`, and the
/// meanings joined with a full-width semicolon.
pub open spec fn definition_copy_line(d: DefinitionView) -> Seq<char> {
    d.0 + ": "@ + join_with(d.1, "\u{ff1b}"@)
}

/// The first lines of a copied dictionary entry: the word, then the American
/// transcription, or the British one when there is no American one.
pub open spec fn copy_head(word: Seq<char>, us: Option<Seq<char>>, uk: Option<Seq<char>>) -> Seq<Seq<char>> {
    match us {
        Some(p) => seq![word, p],
        None => match uk {
            Some(p) => seq![word, p],
            None => seq![word],
        },
    }
}

/// The text that copying a result puts on the clipboard: for a dictionary
/// entry its head lines and one line per definition, joined with newlines;
/// for a sentence the translation.
pub open spec fn clipboard_spec(o: QueryOutputView) -> Seq<char> {
    match o {
        QueryOutputView::Dict(w) => join_with(
            copy_head(w.word, w.phonetic_us, w.phonetic_uk) + w.definitions.map_values(
                |d: DefinitionView| definition_copy_line(d),
            ),
            seq!['\n'],
        ),
        QueryOutputView::Sentence { translated, .. } => translated,
    }
}

fn definition_line_chars(d: &DefinitionGroup) -> (r: Vec<char>)
    ensures
        r@ == definition_copy_line(d@),
{
    let mut line = String::from_str(d.pos.as_str());
    line.append(": ");
    line.append(join_strings(&d.meanings, "\u{ff1b}").as_str());
    chars_of(line.as_str())
}

/// The text that copying the result puts on the clipboard.
pub fn clipboard_text(output: &QueryOutput) -> (r: String)
    ensures
        r@ == clipboard_spec(output@),
{
    match output {
        QueryOutput::Dict(detail) => {
            let mut lines: Vec<Vec<char>> = Vec::new();
            lines.push(chars_of(detail.word.as_str()));
            match &detail.phonetic_us {
                Some(p) => lines.push(chars_of(p.as_str())),
                None => match &detail.phonetic_uk {
                    Some(p) => lines.push(chars_of(p.as_str())),
                    None => {},
                },
            }
            let ghost head = lines@.map_values(|p: Vec<char>| p@);
            assert(head =~= copy_head(detail@.word, detail@.phonetic_us, detail@.phonetic_uk));
            let defs = &detail.definitions;
            let ghost dv = defs@.map_values(|d: DefinitionGroup| d@).map_values(
                |d: DefinitionView| definition_copy_line(d),
            );
            let n = defs.len();
            for i in 0..n
                invariant
                    n == defs@.len(),
                    dv == defs@.map_values(|d: DefinitionGroup| d@).map_values(
                        |d: DefinitionView| definition_copy_line(d),
                    ),
                    lines@.map_values(|p: Vec<char>| p@) == head + dv.take(i as int),
            {
                let l = definition_line_chars(&defs[i]);
                let ghost prev = lines@;
                lines.push(l);
                assert(lines@.map_values(|p: Vec<char>| p@) =~= prev.map_values(|p: Vec<char>| p@).push(l@));
                assert(dv.take(i + 1) =~= dv.take(i as int).push(dv[i as int]));
            }
            assert(dv.take(n as int) == dv);
            let sep = vec!['\n'];
            assert(sep@ =~= seq!['\n']);
            let all = crate::text::join_chars(&lines, &sep);
            string_of(&all)
        },
        QueryOutput::Sentence { translated, .. } => translated.clone(),
    }
}

/// Whether typing `c` at the cursor first breaks the line: the wrap width is
/// usable (above 4), the text before the cursor is not empty by width, and
/// adding `c` would pass the width.
pub open spec fn wrap_before_spec(before: Seq<char>, c: char, max_width: u16) -> bool {
    max_width > 4 && width_sum(before) > 0 && width_sum(before) + cw(c) > max_width
}

/// Whether a line break goes in before typing `c`, where `before` is the
/// text of the cursor's line in front of the cursor.
pub fn wrap_before_insert(before: &[char], c: char, max_width: u16) -> (r: bool)
    requires
        before@.len() <= usize::MAX / 4,
    ensures
        r == wrap_before_spec(before@, c, max_width),
{
    if max_width <= 4 {
        return false;
    }
    let n = before.len();
    let mut w: usize = 0;
    for i in 0..n
        invariant
            n == before@.len() <= usize::MAX / 4,
            w == width_sum(before@.take(i as int)),
            w <= 3 * i,
    {
        assert(before@.take(i + 1).drop_last() == before@.take(i as int));
        let cwi = char_columns(before[i]);
        w = w + cwi;
    }
    assert(before@.take(n as int) == before@);
    w > 0 && w + char_columns(c) > max_width as usize
}

/// How long a notice stays in the status bar, in milliseconds.
pub const TOAST_MILLIS: u128 = 3000;

/// Whether a notice shown `elapsed_ms` milliseconds ago is still visible.
pub fn toast_visible(elapsed_ms: u128) -> (r: bool)
    ensures
        r == (elapsed_ms < TOAST_MILLIS),
{
    elapsed_ms < TOAST_MILLIS
}

} // verus!
