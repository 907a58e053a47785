//! The command-line cards: a dictionary entry, a translated sentence and the
//! history list, as lines of styled spans inside a rounded frame.
use vstd::prelude::*;

use crate::dict::{DefinitionGroup, DefinitionView, Example, WordDetail, WordDetailView};
use crate::history::HistoryItem;
use crate::layout::{card_width_spec, query_column_spec};
use crate::screen::{
    blank, decimal_spec, line_view, lines_view, padded_query_spec, push_decimal, push_line, push_span,
    sat_sub, single, space_string, spaces, unicode_uppercase, Span, SpanView, Tone,
};
use crate::text::{ascii_only, ascii_upper, join_with, single_line_spec, string_views};
use crate::theme::unicode_lowercase;
use crate::view::{clean_phonetic_spec, pos_badge_spec, pos_tone_spec};
use crate::width::{unicode_str_width, wrap_display_spec};

verus! {

/// Uncolored text.
pub open spec fn plain(t: Seq<char>) -> SpanView {
    (t, Tone::Plain, false, false)
}

/// A horizontal rule of `n` characters.
pub open spec fn rule(n: nat) -> Seq<char> {
    Seq::new(n, |i: int| '─')
}

/// `n`, but at least 1.
pub open spec fn at_least_one(n: nat) -> nat {
    if n < 1 {
        1
    } else {
        n
    }
}

/// The width of the card for a terminal of `terminal_width` columns.
pub open spec fn card_of(terminal_width: usize) -> nat {
    card_width_spec(terminal_width) as nat
}

/// The width of a card's content: the card less its frame, at least 20.
pub open spec fn content_of(terminal_width: usize) -> nat {
    if card_of(terminal_width) - 6 < 20 {
        20
    } else {
        (card_of(terminal_width) - 6) as nat
    }
}

/// A title row of the frame: the corner, the title in bold, and a rule
/// that fills the card (at least 2 long).
pub open spec fn title_row_spec(corner: Seq<char>, title: Seq<char>, tone: Tone, card: nat) -> Seq<SpanView> {
    let rest = card - (unicode_str_width(title) + 5);
    seq![
        plain("  "@),
        (corner, Tone::Border, false, false),
        (title, tone, true, false),
        (" "@ + rule(if rest < 2 { 2 } else { rest as nat }), Tone::Border, false, false),
    ]
}

/// The bottom of the frame.
pub open spec fn footer_spec(card: nat) -> Seq<SpanView> {
    seq![plain("  "@), ("╰"@ + rule(if card - 1 < 2 { 2 } else { (card - 1) as nat }), Tone::Border, false, false)]
}

/// A row inside the frame: the border bar, then the content.
pub open spec fn bar_row(content: Seq<SpanView>) -> Seq<SpanView> {
    seq![plain("  "@), ("│"@, Tone::Border, false, false), plain("  "@)] + content
}

/// Span groups joined with uncolored `sep` between them.
pub open spec fn join_spans(parts: Seq<Seq<SpanView>>, sep: Seq<char>) -> Seq<SpanView>
    decreases parts.len(),
{
    if parts.len() == 0 {
        Seq::empty()
    } else if parts.len() == 1 {
        parts[0]
    } else {
        join_spans(parts.drop_last(), sep) + seq![plain(sep)] + parts.last()
    }
}

/// A transcription after its label: `美 [..]`.
pub open spec fn phonetic_part(label: Seq<char>, p: Seq<char>) -> Seq<SpanView> {
    seq![(label, Tone::Muted, false, false), plain(" "@), ("["@ + clean_phonetic_spec(p) + "]"@, Tone::Cyan, true, false)]
}

/// The transcriptions of an entry, American first.
pub open spec fn phonetic_parts(w: WordDetailView) -> Seq<Seq<SpanView>> {
    (match w.phonetic_us {
        Some(p) => seq![phonetic_part("美"@, p)],
        None => Seq::empty(),
    }) + (match w.phonetic_uk {
        Some(p) => seq![phonetic_part("英"@, p)],
        None => Seq::empty(),
    })
}

/// The tags of an entry, each in brackets.
pub open spec fn tag_parts(tags: Seq<Seq<char>>) -> Seq<Seq<SpanView>> {
    tags.map_values(|t: Seq<char>| seq![("["@ + t + "]"@, Tone::Muted, false, false)])
}

/// The groups of the row under the title: the transcriptions and the tags,
/// each when present.
pub open spec fn info_parts(w: WordDetailView) -> Seq<Seq<SpanView>> {
    (if phonetic_parts(w).len() > 0 {
        seq![join_spans(phonetic_parts(w), "  "@)]
    } else {
        Seq::empty()
    }) + (if w.tags.len() > 0 {
        seq![join_spans(tag_parts(w.tags), " "@)]
    } else {
        Seq::empty()
    })
}

/// The row under the title, when there is anything to show in it.
pub open spec fn info_rows(w: WordDetailView) -> Seq<Seq<SpanView>> {
    if info_parts(w).len() == 0 {
        Seq::empty()
    } else {
        seq![bar_row(join_spans(info_parts(w), "    "@))]
    }
}

/// `s` padded with spaces on the right to `w` characters (`format!("{:<w$}")`).
pub open spec fn pad_right_spec(s: Seq<char>, w: nat) -> Seq<char> {
    if s.len() >= w {
        s
    } else {
        s + spaces((w - s.len()) as nat)
    }
}

/// The rows of one definition: its meanings wrapped to `mw` columns, the
/// bracketed part of speech before the first line.
pub open spec fn definition_rows_spec(d: DefinitionView, mw: nat) -> Seq<Seq<SpanView>> {
    let lines = wrap_display_spec(join_with(d.1, "\u{ff1b}"@), mw as usize);
    Seq::new(
        lines.len(),
        |j: int|
            if j == 0 {
                bar_row(
                    seq![
                        (pad_right_spec(pos_badge_spec(d.0), 8), pos_tone_spec(unicode_lowercase(d.0)), true, false),
                        plain("  "@),
                        (lines[j], Tone::Foreground, false, false),
                    ],
                )
            } else {
                bar_row(seq![plain(spaces(8)), plain("  "@), (lines[j], Tone::Foreground, false, false)])
            },
    )
}

/// The rows of the definitions, in order.
pub open spec fn definitions_rows_spec(ds: Seq<DefinitionView>, mw: nat) -> Seq<Seq<SpanView>>
    decreases ds.len(),
{
    if ds.len() == 0 {
        Seq::empty()
    } else {
        definitions_rows_spec(ds.drop_last(), mw) + definition_rows_spec(ds.last(), mw)
    }
}

/// The number before the example at `index` (counted from 0): `"1. "`.
pub open spec fn number_prefix(index: nat) -> Seq<char> {
    decimal_spec(index + 1) + ". "@
}

/// `a + b`, at most `usize::MAX`.
pub open spec fn sat_add(a: int, b: int) -> nat {
    if a + b > usize::MAX {
        usize::MAX as nat
    } else if a + b < 0 {
        0
    } else {
        (a + b) as nat
    }
}

/// The rows of the example at `index`: the sentence wrapped after its
/// number, then the translation wrapped after an arrow.
pub open spec fn example_rows_spec(index: nat, e: (Seq<char>, Seq<char>), content: nat) -> Seq<Seq<SpanView>> {
    let prefix = number_prefix(index);
    let pw = unicode_str_width(prefix) as nat;
    let aw = unicode_str_width("↳ "@) as nat;
    let orig = wrap_display_spec(e.0, at_least_one(sat_sub(content as int, sat_add(pw as int, 2) as int)) as usize);
    let trans = wrap_display_spec(
        e.1,
        at_least_one(sat_sub(content as int, sat_add(sat_add(pw as int, aw as int) as int, 2) as int)) as usize,
    );
    Seq::new(
        orig.len(),
        |j: int|
            if j == 0 {
                bar_row(seq![(prefix, Tone::Blue, true, false), plain(" "@), (orig[j], Tone::Foreground, true, false)])
            } else {
                bar_row(seq![plain(spaces(pw)), plain(" "@), (orig[j], Tone::Foreground, true, false)])
            },
    ) + Seq::new(
        trans.len(),
        |j: int|
            if j == 0 {
                bar_row(
                    seq![
                        plain(spaces(sat_sub(pw as int, 1))),
                        plain(" "@),
                        ("↳ "@, Tone::Cyan, false, false),
                        (trans[j], Tone::Translation, false, false),
                    ],
                )
            } else {
                bar_row(seq![plain(spaces(sat_add(pw as int, aw as int))), plain(" "@), (trans[j], Tone::Translation, false, false)])
            },
    )
}

/// The rows of the examples, numbered from 1.
pub open spec fn examples_rows_spec(es: Seq<(Seq<char>, Seq<char>)>, content: nat) -> Seq<Seq<SpanView>>
    decreases es.len(),
{
    if es.len() == 0 {
        Seq::empty()
    } else {
        examples_rows_spec(es.drop_last(), content) + example_rows_spec(
            (es.len() - 1) as nat,
            es.last(),
            content,
        )
    }
}

/// The card of a dictionary entry for a terminal of `terminal_width`
/// columns: a blank line, the word as title, transcriptions and tags, the
/// definitions, the examples, the bottom rule and a blank line.
pub open spec fn word_card_spec(w: WordDetailView, terminal_width: usize) -> Seq<Seq<SpanView>> {
    let card = card_of(terminal_width);
    let content = content_of(terminal_width);
    seq![Seq::<SpanView>::empty(), title_row_spec("╭─ "@, w.word, Tone::Blue, card)] + info_rows(w) + (
    if w.definitions.len() > 0 {
        seq![title_row_spec("├─ "@, "词典释义"@, Tone::Green, card)] + definitions_rows_spec(
            w.definitions,
            at_least_one(sat_sub(content as int, 12)),
        )
    } else {
        Seq::empty()
    }) + (if w.examples.len() > 0 {
        seq![title_row_spec("├─ "@, "双语例句"@, Tone::Magenta, card)] + examples_rows_spec(w.examples, content)
    } else {
        Seq::empty()
    }) + seq![footer_spec(card), Seq::<SpanView>::empty()]
}

/// Wrapped lines, each in a bar row after two spaces.
pub open spec fn text_rows_spec(lines: Seq<Seq<char>>, tone: Tone, bold: bool) -> Seq<Seq<SpanView>> {
    lines.map_values(|l: Seq<char>| bar_row(seq![plain("  "@), (l, tone, bold, false)]))
}

/// The card of a translated sentence: the language pair as title, the
/// source text and the translation wrapped to the content width less 4.
pub open spec fn sentence_card_spec(
    original: Seq<char>,
    translated: Seq<char>,
    detected: Seq<char>,
    target: Seq<char>,
    terminal_width: usize,
) -> Seq<Seq<SpanView>> {
    let card = card_of(terminal_width);
    let tw = at_least_one(sat_sub(content_of(terminal_width) as int, 4)) as usize;
    let title = "Google 翻译 · "@ + unicode_uppercase(detected) + " ➔ "@ + unicode_uppercase(target);
    seq![
        Seq::<SpanView>::empty(),
        title_row_spec("╭─ "@, title, Tone::Magenta, card),
        bar_row(seq![("原文"@, Tone::Blue, true, false)]),
    ] + text_rows_spec(wrap_display_spec(original, tw), Tone::Foreground, false) + seq![
        seq![plain("  "@), ("│"@, Tone::Border, false, false)],
        bar_row(seq![("译文"@, Tone::Green, true, false)]),
    ] + text_rows_spec(wrap_display_spec(translated, tw), Tone::Green, true) + seq![
        footer_spec(card),
        Seq::<SpanView>::empty(),
    ]
}

} // verus!

verus! {

fn plain_span(t: &str) -> (r: Span)
    ensures
        r@ == plain(t@),
{
    Span { text: String::from_str(t), tone: Tone::Plain, bold: false, highlight: false }
}

fn plain_string(t: String) -> (r: Span)
    ensures
        r@ == plain(t@),
{
    Span { text: t, tone: Tone::Plain, bold: false, highlight: false }
}

fn rule_string(n: usize) -> (r: String)
    ensures
        r@ == rule(n as nat),
{
    let mut v: Vec<char> = Vec::new();
    for i in 0..n
        invariant
            v@ == rule(i as nat),
    {
        v.push('─');
        assert(v@ =~= rule((i + 1) as nat));
    }
    crate::text::string_of(&v)
}

fn title_row(corner: &str, title: &str, tone: Tone, card: usize) -> (r: Vec<Span>)
    ensures
        line_view(r) == title_row_spec(corner@, title@, tone, card as nat),
{
    let tc = crate::text::chars_of(title);
    let tw = crate::width::str_width(&tc);
    let rest = crate::layout::rule_length(tw, card);
    let mut line = single(plain_span("  "));
    push_span(&mut line, Span { text: String::from_str(corner), tone: Tone::Border, bold: false, highlight: false });
    push_span(&mut line, Span { text: String::from_str(title), tone, bold: true, highlight: false });
    let mut r = String::from_str(" ");
    r.append(rule_string(rest).as_str());
    push_span(&mut line, Span { text: r, tone: Tone::Border, bold: false, highlight: false });
    assert(line_view(line) =~= title_row_spec(corner@, title@, tone, card as nat));
    line
}

fn footer(card: usize) -> (r: Vec<Span>)
    ensures
        line_view(r) == footer_spec(card as nat),
{
    let n = crate::layout::footer_length(card);
    let mut r = String::from_str("╰");
    r.append(rule_string(n).as_str());
    let mut line = single(plain_span("  "));
    push_span(&mut line, Span { text: r, tone: Tone::Border, bold: false, highlight: false });
    assert(line_view(line) =~= footer_spec(card as nat));
    line
}

fn bar(content: &Vec<Span>) -> (r: Vec<Span>)
    ensures
        line_view(r) == bar_row(line_view(*content)),
{
    let mut line = single(plain_span("  "));
    push_span(&mut line, Span { text: String::from_str("│"), tone: Tone::Border, bold: false, highlight: false });
    push_span(&mut line, plain_span("  "));
    crate::screen::extend_line(&mut line, content);
    assert(line_view(line) =~= bar_row(line_view(*content)));
    line
}

fn join_span_groups(parts: &Vec<Vec<Span>>, sep: &str) -> (r: Vec<Span>)
    ensures
        line_view(r) == join_spans(lines_view(parts@), sep@),
{
    let n = parts.len();
    let mut line: Vec<Span> = Vec::new();
    let ghost pv = lines_view(parts@);
    assert(line_view(line) =~= Seq::<SpanView>::empty());
    for i in 0..n
        invariant
            n == parts@.len(),
            pv == lines_view(parts@),
            line_view(line) == join_spans(pv.take(i as int), sep@),
    {
        assert(pv.take(i + 1).drop_last() =~= pv.take(i as int));
        assert(pv.take(i + 1).last() == line_view(parts@[i as int]));
        if i > 0 {
            push_span(&mut line, plain_span(sep));
        } else {
            assert(line_view(line) =~= Seq::<SpanView>::empty());
        }
        let ghost before = line_view(line);
        crate::screen::extend_line(&mut line, &parts[i]);
        if i == 0 {
            assert(line_view(line) =~= pv.take(1)[0]);
        }
    }
    assert(pv.take(n as int) =~= pv);
    line
}

fn phonetic(label: &str, p: &String) -> (r: Vec<Span>)
    ensures
        line_view(r) == phonetic_part(label@, p@),
{
    let mut t = String::from_str("[");
    t.append(crate::view::clean_phonetic(p.as_str()).as_str());
    t.append("]");
    let mut line = single(Span { text: String::from_str(label), tone: Tone::Muted, bold: false, highlight: false });
    push_span(&mut line, plain_span(" "));
    push_span(&mut line, Span { text: t, tone: Tone::Cyan, bold: true, highlight: false });
    assert(line_view(line) =~= phonetic_part(label@, p@));
    line
}

fn info_row(w: &WordDetail, out: &mut Vec<Vec<Span>>)
    ensures
        lines_view(final(out)@) == lines_view(old(out)@) + info_rows(w@),
{
    let ghost wv = w@;
    let mut phon: Vec<Vec<Span>> = Vec::new();
    assert(lines_view(phon@) =~= Seq::<Seq<SpanView>>::empty());
    match &w.phonetic_us {
        Some(p) => push_line(&mut phon, phonetic("美", p)),
        None => {},
    }
    match &w.phonetic_uk {
        Some(p) => push_line(&mut phon, phonetic("英", p)),
        None => {},
    }
    assert(lines_view(phon@) =~= phonetic_parts(wv));
    let mut parts: Vec<Vec<Span>> = Vec::new();
    assert(lines_view(parts@) =~= Seq::<Seq<SpanView>>::empty());
    if phon.len() > 0 {
        push_line(&mut parts, join_span_groups(&phon, "  "));
    }
    if w.tags.len() > 0 {
        let mut tags: Vec<Vec<Span>> = Vec::new();
        let n = w.tags.len();
        let ghost tv = tag_parts(wv.tags);
        assert(lines_view(tags@) =~= Seq::<Seq<SpanView>>::empty());
        for i in 0..n
            invariant
                n == w.tags@.len(),
                wv == w@,
                tv == tag_parts(wv.tags),
                lines_view(tags@) == tv.take(i as int),
        {
            let mut t = String::from_str("[");
            t.append(w.tags[i].as_str());
            t.append("]");
            push_line(&mut tags, single(Span { text: t, tone: Tone::Muted, bold: false, highlight: false }));
            assert(tv.take(i + 1) =~= tv.take(i as int).push(tv[i as int]));
        }
        assert(tv.take(n as int) =~= tv);
        push_line(&mut parts, join_span_groups(&tags, " "));
    }
    assert(lines_view(parts@) =~= info_parts(wv));
    if parts.len() > 0 {
        push_line(out, bar(&join_span_groups(&parts, "    ")));
    } else {
        assert(lines_view(out@) =~= lines_view(out@) + info_rows(wv));
    }
}

fn pad_right(s: &String, w: usize) -> (r: String)
    ensures
        r@ == pad_right_spec(s@, w as nat),
{
    let c = crate::text::chars_of(s.as_str());
    let mut out = s.clone();
    if c.len() < w {
        out.append(space_string(w - c.len()).as_str());
    }
    out
}

fn definition_rows(d: &DefinitionGroup, mw: usize, out: &mut Vec<Vec<Span>>)
    ensures
        lines_view(final(out)@) == lines_view(old(out)@) + definition_rows_spec(d@, mw as nat),
{
    let meaning = crate::text::join_strings(&d.meanings, "\u{ff1b}");
    let lines = crate::width::wrap_display(meaning.as_str(), mw);
    let badge = pad_right(&crate::view::pos_badge(d.pos.as_str()), 8);
    let tone = crate::view::pos_tone(d.pos.as_str());
    let ghost want = definition_rows_spec(d@, mw as nat);
    let ghost start = lines_view(out@);
    let n = lines.len();
    for j in 0..n
        invariant
            n == lines@.len(),
            string_views(lines@) == wrap_display_spec(join_with(d@.1, "\u{ff1b}"@), mw),
            badge@ == pad_right_spec(pos_badge_spec(d@.0), 8),
            tone == pos_tone_spec(unicode_lowercase(d@.0)),
            want == definition_rows_spec(d@, mw as nat),
            lines_view(out@) == start + want.take(j as int),
    {
        let mut content: Vec<Span> = if j == 0 {
            single(Span { text: badge.clone(), tone, bold: true, highlight: false })
        } else {
            single(plain_string(space_string(8)))
        };
        push_span(&mut content, plain_span("  "));
        push_span(&mut content, Span { text: lines[j].clone(), tone: Tone::Foreground, bold: false, highlight: false });
        let row = bar(&content);
        assert(line_view(row) == want[j as int]);
        push_line(out, row);
        assert(want.take(j + 1) =~= want.take(j as int).push(want[j as int]));
    }
    assert(want.take(n as int) =~= want);
}

fn example_rows(index: usize, e: &Example, content: usize, out: &mut Vec<Vec<Span>>)
    requires
        index < usize::MAX,
    ensures
        lines_view(final(out)@) == lines_view(old(out)@) + example_rows_spec(index as nat, e@, content as nat),
{
    let mut num: Vec<char> = Vec::new();
    push_decimal(&mut num, index + 1);
    let mut prefix = crate::text::string_of(&num);
    prefix.append(". ");
    assert(prefix@ =~= number_prefix(index as nat));
    let pw = crate::width::str_width(&crate::text::chars_of(prefix.as_str()));
    let aw = crate::width::str_width(&crate::text::chars_of("↳ "));
    let ow = content.saturating_sub(pw.saturating_add(2));
    let ow = if ow < 1 { 1 } else { ow };
    let tw = content.saturating_sub(pw.saturating_add(aw).saturating_add(2));
    let tw = if tw < 1 { 1 } else { tw };
    let orig = crate::width::wrap_display(e.orig.as_str(), ow);
    let trans = crate::width::wrap_display(e.trans.as_str(), tw);
    let ghost want = example_rows_spec(index as nat, e@, content as nat);
    let ghost start = lines_view(out@);
    let no = orig.len();
    let nt = trans.len();
    assert(want.len() == no + nt);
    for j in 0..no
        invariant
            no == orig@.len(),
            nt == trans@.len(),
            want.len() == no + nt,
            string_views(orig@) == wrap_display_spec(e@.0, ow),
            ow == at_least_one(sat_sub(content as int, sat_add(pw as int, 2) as int)),
            prefix@ == number_prefix(index as nat),
            pw == unicode_str_width(prefix@),
            want == example_rows_spec(index as nat, e@, content as nat),
            lines_view(out@) == start + want.take(j as int),
    {
        let mut c: Vec<Span> = if j == 0 {
            single(Span { text: prefix.clone(), tone: Tone::Blue, bold: true, highlight: false })
        } else {
            single(plain_string(space_string(pw)))
        };
        push_span(&mut c, plain_span(" "));
        push_span(&mut c, Span { text: orig[j].clone(), tone: Tone::Foreground, bold: true, highlight: false });
        let row = bar(&c);
        assert(line_view(row) == want[j as int]);
        push_line(out, row);
        assert(want.take(j + 1) =~= want.take(j as int).push(want[j as int]));
    }
    for j in 0..nt
        invariant
            no == orig@.len(),
            nt == trans@.len(),
            want.len() == no + nt,
            string_views(trans@) == wrap_display_spec(e@.1, tw),
            tw == at_least_one(sat_sub(content as int, sat_add(sat_add(pw as int, aw as int) as int, 2) as int)),
            pw == unicode_str_width(prefix@),
            aw == unicode_str_width("↳ "@),
            prefix@ == number_prefix(index as nat),
            want == example_rows_spec(index as nat, e@, content as nat),
            lines_view(out@) == start + want.take(no + j),
    {
        let mut c: Vec<Span> = if j == 0 {
            let mut c0 = single(plain_string(space_string(pw.saturating_sub(1))));
            push_span(&mut c0, plain_span(" "));
            push_span(&mut c0, Span { text: String::from_str("↳ "), tone: Tone::Cyan, bold: false, highlight: false });
            c0
        } else {
            let mut c1 = single(plain_string(space_string(pw.saturating_add(aw))));
            push_span(&mut c1, plain_span(" "));
            c1
        };
        push_span(&mut c, Span { text: trans[j].clone(), tone: Tone::Translation, bold: false, highlight: false });
        let row = bar(&c);
        assert(line_view(row) == want[no + j]);
        push_line(out, row);
        assert(want.take(no + j + 1) =~= want.take(no + j).push(want[no + j]));
    }
    assert(want.take(no + nt) =~= want);
}

fn definitions_block(w: &WordDetail, card: usize, content: usize, out: &mut Vec<Vec<Span>>)
    ensures
        lines_view(final(out)@) == lines_view(old(out)@) + (if w@.definitions.len() > 0 {
            seq![title_row_spec("├─ "@, "词典释义"@, Tone::Green, card as nat)] + definitions_rows_spec(
                w@.definitions,
                at_least_one(sat_sub(content as int, 12)),
            )
        } else {
            Seq::empty()
        }),
{
    let defs = &w.definitions;
    let nd = defs.len();
    if nd == 0 {
        assert(lines_view(out@) =~= lines_view(out@) + Seq::<Seq<SpanView>>::empty());
        return;
    }
    let ghost start = lines_view(out@);
    push_line(out, title_row("├─ ", "词典释义", Tone::Green, card));
    let mw = content.saturating_sub(12);
    let mw = if mw < 1 { 1 } else { mw };
    let ghost dv = defs@.map_values(|d: DefinitionGroup| d@);
    let ghost pre = lines_view(out@);
    for i in 0..nd
        invariant
            nd == defs@.len(),
            dv == defs@.map_values(|d: DefinitionGroup| d@),
            lines_view(out@) == pre + definitions_rows_spec(dv.take(i as int), mw as nat),
    {
        definition_rows(&defs[i], mw, out);
        assert(dv.take(i + 1).drop_last() =~= dv.take(i as int));
        assert(dv.take(i + 1).last() == dv[i as int]);
    }
    assert(dv.take(nd as int) =~= dv);
    assert(dv == w@.definitions);
}

fn examples_block(w: &WordDetail, card: usize, content: usize, out: &mut Vec<Vec<Span>>)
    ensures
        lines_view(final(out)@) == lines_view(old(out)@) + (if w@.examples.len() > 0 {
            seq![title_row_spec("├─ "@, "双语例句"@, Tone::Magenta, card as nat)] + examples_rows_spec(
                w@.examples,
                content as nat,
            )
        } else {
            Seq::empty()
        }),
{
    let es = &w.examples;
    let ne = es.len();
    if ne == 0 {
        assert(lines_view(out@) =~= lines_view(out@) + Seq::<Seq<SpanView>>::empty());
        return;
    }
    push_line(out, title_row("├─ ", "双语例句", Tone::Magenta, card));
    let ghost ev = es@.map_values(|e: Example| e@);
    let ghost pre = lines_view(out@);
    for i in 0..ne
        invariant
            ne == es@.len(),
            ev == es@.map_values(|e: Example| e@),
            lines_view(out@) == pre + examples_rows_spec(ev.take(i as int), content as nat),
    {
        example_rows(i, &es[i], content, out);
        assert(ev.take(i + 1).drop_last() =~= ev.take(i as int));
        assert(ev.take(i + 1).last() == ev[i as int]);
    }
    assert(ev.take(ne as int) =~= ev);
    assert(ev == w@.examples);
}

/// The card of a dictionary entry for a terminal of `terminal_width` columns.
pub fn word_card(w: &WordDetail, terminal_width: usize) -> (r: Vec<Vec<Span>>)
    ensures
        lines_view(r@) == word_card_spec(w@, terminal_width),
{
    let ghost wv = w@;
    let card = crate::layout::card_width(terminal_width);
    let content = crate::layout::content_width(terminal_width);
    assert(card == card_of(terminal_width));
    assert(content == content_of(terminal_width));
    let mut out: Vec<Vec<Span>> = Vec::new();
    assert(lines_view(out@) =~= Seq::<Seq<SpanView>>::empty());
    push_line(&mut out, blank());
    push_line(&mut out, title_row("╭─ ", w.word.as_str(), Tone::Blue, card));
    info_row(w, &mut out);
    definitions_block(w, card, content, &mut out);
    examples_block(w, card, content, &mut out);
    push_line(&mut out, footer(card));
    push_line(&mut out, blank());
    assert(lines_view(out@) =~= word_card_spec(wv, terminal_width));
    out
}

fn text_rows(text: &str, width: usize, tone: Tone, bold: bool, out: &mut Vec<Vec<Span>>)
    ensures
        lines_view(final(out)@) == lines_view(old(out)@) + text_rows_spec(wrap_display_spec(text@, width), tone, bold),
{
    let lines = crate::width::wrap_display(text, width);
    let ghost want = text_rows_spec(wrap_display_spec(text@, width), tone, bold);
    let ghost start = lines_view(out@);
    let n = lines.len();
    for j in 0..n
        invariant
            n == lines@.len(),
            string_views(lines@) == wrap_display_spec(text@, width),
            want == text_rows_spec(wrap_display_spec(text@, width), tone, bold),
            lines_view(out@) == start + want.take(j as int),
    {
        let mut c = single(plain_span("  "));
        push_span(&mut c, Span { text: lines[j].clone(), tone, bold, highlight: false });
        assert(line_view(c) =~= seq![plain("  "@), (lines@[j as int]@, tone, bold, false)]);
        let row = bar(&c);
        assert(string_views(lines@)[j as int] == lines@[j as int]@);
        assert(line_view(row) == want[j as int]);
        push_line(out, row);
        assert(want.take(j + 1) =~= want.take(j as int).push(want[j as int]));
    }
    assert(want.take(n as int) =~= want);
}

/// The card of a translated sentence for a terminal of `terminal_width` columns.
pub fn sentence_card(
    original: &str,
    translated: &str,
    detected: &str,
    target: &str,
    terminal_width: usize,
) -> (r: Vec<Vec<Span>>)
    ensures
        lines_view(r@) == sentence_card_spec(original@, translated@, detected@, target@, terminal_width),
        ascii_only(detected@) ==> unicode_uppercase(detected@) == detected@.map_values(|c: char| ascii_upper(c)),
        ascii_only(target@) ==> unicode_uppercase(target@) == target@.map_values(|c: char| ascii_upper(c)),
{
    let card = crate::layout::card_width(terminal_width);
    let content = crate::layout::content_width(terminal_width);
    let tw = content.saturating_sub(4);
    let tw = if tw < 1 { 1 } else { tw };
    assert(card == card_of(terminal_width));
    assert(tw == at_least_one(sat_sub(content_of(terminal_width) as int, 4)) as usize);
    let mut title = String::from_str("Google 翻译 · ");
    title.append(crate::screen::to_uppercase(detected).as_str());
    title.append(" ➔ ");
    title.append(crate::screen::to_uppercase(target).as_str());
    assert(title@ == "Google 翻译 · "@ + unicode_uppercase(detected@) + " ➔ "@ + unicode_uppercase(target@));
    let mut out: Vec<Vec<Span>> = Vec::new();
    assert(lines_view(out@) =~= Seq::<Seq<SpanView>>::empty());
    push_line(&mut out, blank());
    push_line(&mut out, title_row("╭─ ", title.as_str(), Tone::Magenta, card));
    push_line(&mut out, bar(&single(Span { text: String::from_str("原文"), tone: Tone::Blue, bold: true, highlight: false })));
    let ghost head = lines_view(out@);
    assert(head =~= seq![
        Seq::<SpanView>::empty(),
        title_row_spec("╭─ "@, title@, Tone::Magenta, card as nat),
        bar_row(seq![("原文"@, Tone::Blue, true, false)]),
    ]);
    text_rows(original, tw, Tone::Foreground, false, &mut out);
    let mut only_bar = single(plain_span("  "));
    push_span(&mut only_bar, Span { text: String::from_str("│"), tone: Tone::Border, bold: false, highlight: false });
    assert(line_view(only_bar) =~= seq![plain("  "@), ("│"@, Tone::Border, false, false)]);
    let ghost mid = lines_view(out@);
    push_line(&mut out, only_bar);
    push_line(&mut out, bar(&single(Span { text: String::from_str("译文"), tone: Tone::Green, bold: true, highlight: false })));
    assert(lines_view(out@) =~= mid + seq![
        seq![plain("  "@), ("│"@, Tone::Border, false, false)],
        bar_row(seq![("译文"@, Tone::Green, true, false)]),
    ]);
    text_rows(translated, tw, Tone::Green, true, &mut out);
    push_line(&mut out, footer(card));
    push_line(&mut out, blank());
    assert(lines_view(out@) =~= sentence_card_spec(original@, translated@, detected@, target@, terminal_width));
    out
}

} // verus!

verus! {

/// The widest timestamp of the records (1 for no record).
pub open spec fn max_stamp_width(items: Seq<HistoryItem>) -> nat
    decreases items.len(),
{
    if items.len() == 0 {
        1
    } else if items.len() == 1 {
        unicode_str_width(items[0].created_at@) as nat
    } else {
        let m = max_stamp_width(items.drop_last());
        let w = unicode_str_width(items.last().created_at@) as nat;
        if w > m {
            w
        } else {
            m
        }
    }
}

/// The rows of one record in the history list: its summary wrapped to `sw`
/// columns; the first row also holds the star or dot, the padded query and
/// the timestamp.
pub open spec fn history_rows_spec(item: HistoryItem, qw: nat, sw: nat) -> Seq<Seq<SpanView>> {
    let lines = wrap_display_spec(single_line_spec(item.result_summary@), sw as usize);
    let q = crate::width::truncate_display_spec(single_line_spec(item.query@), qw);
    Seq::new(
        lines.len(),
        |j: int|
            if j == 0 {
                bar_row(
                    seq![
                        (if item.is_favorite { "★"@ } else { "·"@ }, if item.is_favorite { Tone::Yellow } else { Tone::Muted }, true, false),
                        plain(" "@),
                        (q, Tone::Foreground, true, false),
                        plain(spaces(sat_sub(qw as int, unicode_str_width(q) as int))),
                        plain("  "@),
                        (lines[j], Tone::Translation, false, false),
                        plain("  "@),
                        (item.created_at@, Tone::Muted, false, false),
                    ],
                )
            } else {
                bar_row(seq![plain("  "@ + spaces(qw + 2)), (lines[j], Tone::Translation, false, false)])
            },
    )
}

/// The rows of the records, in order.
pub open spec fn history_list_rows_spec(items: Seq<HistoryItem>, qw: nat, sw: nat) -> Seq<Seq<SpanView>>
    decreases items.len(),
{
    if items.len() == 0 {
        Seq::empty()
    } else {
        history_list_rows_spec(items.drop_last(), qw, sw) + history_rows_spec(items.last(), qw, sw)
    }
}

/// The title of the history card: the list's name and how many records it
/// holds.
pub open spec fn history_title_spec(count: nat, only_favorites: bool) -> Seq<char> {
    (if only_favorites {
        "收藏生词本"@
    } else {
        "历史查询记录"@
    }) + " · "@ + "共 "@ + decimal_spec(count) + " 条"@
}

/// The card of the history list for a terminal of `terminal_width` columns.
/// The query column is at most 24 wide on wide cards and two fifths of
/// narrow ones, leaving room for the widest timestamp (counted up to the
/// content width: a wider one gives the same columns); the summary takes
/// the rest. An empty list shows a notice.
pub open spec fn history_card_spec(items: Seq<HistoryItem>, only_favorites: bool, terminal_width: usize) -> Seq<Seq<SpanView>> {
    let card = card_of(terminal_width);
    let width = content_of(terminal_width);
    let head = seq![
        Seq::<SpanView>::empty(),
        title_row_spec("╭─ "@, history_title_spec(items.len(), only_favorites), Tone::Cyan, card),
    ];
    let tail = seq![footer_spec(card), Seq::<SpanView>::empty()];
    if items.len() == 0 {
        head + seq![bar_row(seq![("暂无记录。查询结果会自动保存在这里。"@, Tone::Muted, false, false)])] + tail
    } else {
        let ts: nat = if max_stamp_width(items) < width {
            max_stamp_width(items)
        } else {
            width
        };
        let qw = query_column_spec(width as usize, 60, 24, (ts + 10) as usize) as nat;
        let sw = at_least_one(sat_sub(width as int, (qw + ts + 10) as int));
        head + history_list_rows_spec(items, qw, sw) + tail
    }
}

fn history_rows(item: &HistoryItem, qw: usize, sw: usize, out: &mut Vec<Vec<Span>>)
    requires
        qw + 2 <= usize::MAX,
    ensures
        lines_view(final(out)@) == lines_view(old(out)@) + history_rows_spec(*item, qw as nat, sw as nat),
{
    let one = crate::text::single_line(item.result_summary.as_str());
    let lines = crate::width::wrap_display(one.as_str(), sw);
    let q = crate::width::truncate_display_width(crate::text::single_line(item.query.as_str()).as_str(), qw);
    let qc = crate::text::chars_of(q.as_str());
    let qwid = crate::width::str_width(&qc);
    let ghost want = history_rows_spec(*item, qw as nat, sw as nat);
    let ghost start = lines_view(out@);
    let n = lines.len();
    for j in 0..n
        invariant
            n == lines@.len(),
            qw + 2 <= usize::MAX,
            string_views(lines@) == wrap_display_spec(single_line_spec(item.result_summary@), sw),
            q@ == crate::width::truncate_display_spec(single_line_spec(item.query@), qw as nat),
            qwid == unicode_str_width(q@),
            want == history_rows_spec(*item, qw as nat, sw as nat),
            lines_view(out@) == start + want.take(j as int),
    {
        let mut c: Vec<Span> = Vec::new();
        assert(line_view(c) =~= Seq::<SpanView>::empty());
        if j == 0 {
            push_span(&mut c, Span {
                text: String::from_str(if item.is_favorite { "★" } else { "·" }),
                tone: if item.is_favorite { Tone::Yellow } else { Tone::Muted },
                bold: true,
                highlight: false,
            });
            push_span(&mut c, plain_span(" "));
            push_span(&mut c, Span { text: q.clone(), tone: Tone::Foreground, bold: true, highlight: false });
            push_span(&mut c, plain_string(space_string(qw.saturating_sub(qwid))));
            push_span(&mut c, plain_span("  "));
            push_span(&mut c, Span { text: lines[j].clone(), tone: Tone::Translation, bold: false, highlight: false });
            push_span(&mut c, plain_span("  "));
            push_span(&mut c, Span { text: item.created_at.clone(), tone: Tone::Muted, bold: false, highlight: false });
        } else {
            let mut lead = String::from_str("  ");
            lead.append(space_string(qw + 2).as_str());
            push_span(&mut c, plain_string(lead));
            push_span(&mut c, Span { text: lines[j].clone(), tone: Tone::Translation, bold: false, highlight: false });
        }
        let row = bar(&c);
        assert(line_view(row) =~= want[j as int]);
        push_line(out, row);
        assert(want.take(j + 1) =~= want.take(j as int).push(want[j as int]));
    }
    assert(want.take(n as int) =~= want);
}

/// The card of the history list for a terminal of `terminal_width` columns.
pub fn history_card(items: &Vec<HistoryItem>, only_favorites: bool, terminal_width: usize) -> (r: Vec<Vec<Span>>)
    ensures
        lines_view(r@) == history_card_spec(items@, only_favorites, terminal_width),
{
    let card = crate::layout::card_width(terminal_width);
    let width = crate::layout::content_width(terminal_width);
    assert(card == card_of(terminal_width));
    assert(width == content_of(terminal_width));
    let mut title = String::from_str(if only_favorites { "收藏生词本" } else { "历史查询记录" });
    title.append(" · ");
    title.append("共 ");
    let mut num: Vec<char> = Vec::new();
    push_decimal(&mut num, items.len());
    assert(num@ =~= decimal_spec(items@.len()));
    title.append(crate::text::string_of(&num).as_str());
    title.append(" 条");
    let mut out: Vec<Vec<Span>> = Vec::new();
    assert(lines_view(out@) =~= Seq::<Seq<SpanView>>::empty());
    push_line(&mut out, blank());
    push_line(&mut out, title_row("╭─ ", title.as_str(), Tone::Cyan, card));
    let ghost head = lines_view(out@);
    let n = items.len();
    if n == 0 {
        push_line(&mut out, bar(&single(Span {
            text: String::from_str("暂无记录。查询结果会自动保存在这里。"),
            tone: Tone::Muted,
            bold: false,
            highlight: false,
        })));
    } else {
        let mut ts: usize = 0;
        for i in 0..n
            invariant
                n == items@.len() > 0,
                i == 0 ==> ts == 0,
                i > 0 ==> ts == max_stamp_width(items@.take(i as int)),
        {
            let w = crate::width::str_width(&crate::text::chars_of(items[i].created_at.as_str()));
            assert(items@.take(i + 1).drop_last() =~= items@.take(i as int));
            assert(items@.take(i + 1).last() == items@[i as int]);
            if i == 0 || w > ts {
                ts = w;
            }
        }
        assert(items@.take(n as int) =~= items@);
        let ts = if ts < width { ts } else { width };
        let (qw, sw) = crate::layout::history_columns(width, ts);
        let ghost rows = history_list_rows_spec(items@, qw as nat, sw as nat);
        for i in 0..n
            invariant
                n == items@.len(),
                qw <= 82,
                lines_view(out@) == head + history_list_rows_spec(items@.take(i as int), qw as nat, sw as nat),
        {
            history_rows(&items[i], qw, sw, &mut out);
            assert(items@.take(i + 1).drop_last() =~= items@.take(i as int));
            assert(items@.take(i + 1).last() == items@[i as int]);
        }
        assert(items@.take(n as int) =~= items@);
    }
    push_line(&mut out, footer(card));
    push_line(&mut out, blank());
    assert(lines_view(out@) =~= history_card_spec(items@, only_favorites, terminal_width));
    out
}

} // verus!


verus! {

/// The texts in `tone` that open rows of the frame (the first span after
/// the bar), in order.
pub open spec fn leads_in_tone(rows: Seq<Seq<SpanView>>, tone: Tone) -> Seq<Seq<char>>
    decreases rows.len(),
{
    if rows.len() == 0 {
        Seq::empty()
    } else {
        leads_in_tone(rows.drop_last(), tone) + (if rows.last().len() > 3 && rows.last()[3].1 == tone {
            seq![rows.last()[3].0]
        } else {
            Seq::empty()
        })
    }
}

proof fn lemma_leads_in_tone_add(a: Seq<Seq<SpanView>>, b: Seq<Seq<SpanView>>, tone: Tone)
    ensures
        leads_in_tone(a + b, tone) == leads_in_tone(a, tone) + leads_in_tone(b, tone),
    decreases b.len(),
{
    if b.len() == 0 {
        assert(a + b =~= a);
    } else {
        lemma_leads_in_tone_add(a, b.drop_last(), tone);
        assert((a + b).drop_last() =~= a + b.drop_last());
    }
}

proof fn lemma_leads_in_tone_none(rows: Seq<Seq<SpanView>>, tone: Tone)
    requires
        forall|i: int| 0 <= i < rows.len() ==> !(#[trigger] rows[i].len() > 3 && rows[i][3].1 == tone),
    ensures
        leads_in_tone(rows, tone) == Seq::<Seq<char>>::empty(),
    decreases rows.len(),
{
    if rows.len() > 0 {
        lemma_leads_in_tone_none(rows.drop_last(), tone);
        assert(!(rows[rows.len() - 1].len() > 3 && rows[rows.len() - 1][3].1 == tone));
    }
}

proof fn lemma_example_rows_lead(index: nat, e: (Seq<char>, Seq<char>), content: nat)
    ensures
        leads_in_tone(example_rows_spec(index, e, content), Tone::Blue) == seq![number_prefix(index)],
{
    let rows = example_rows_spec(index, e, content);
    let pw = unicode_str_width(number_prefix(index)) as nat;
    let orig = wrap_display_spec(e.0, at_least_one(sat_sub(content as int, sat_add(pw as int, 2) as int)) as usize);
    assert(orig.len() > 0);
    assert(rows[0] == bar_row(
        seq![(number_prefix(index), Tone::Blue, true, false), plain(" "@), (orig[0], Tone::Foreground, true, false)],
    ));
    assert(rows[0][3] == (number_prefix(index), Tone::Blue, true, false));
    assert(rows =~= seq![rows[0]] + rows.skip(1));
    lemma_leads_in_tone_add(seq![rows[0]], rows.skip(1), Tone::Blue);
    assert(leads_in_tone(seq![rows[0]], Tone::Blue) =~= seq![number_prefix(index)]) by {
        assert(seq![rows[0]].drop_last() =~= Seq::<Seq<SpanView>>::empty());
        assert(seq![rows[0]].last() == rows[0]);
        assert(leads_in_tone(Seq::<Seq<SpanView>>::empty(), Tone::Blue) =~= Seq::<Seq<char>>::empty());
    }
    assert forall|i: int| 0 <= i < rows.skip(1).len() implies !(#[trigger] rows.skip(1)[i].len() > 3
        && rows.skip(1)[i][3].1 == Tone::Blue) by {
        assert(rows.skip(1)[i] == rows[i + 1]);
    }
    lemma_leads_in_tone_none(rows.skip(1), Tone::Blue);
}

/// In the dictionary card the examples are numbered in order: reading the
/// blue numbers that open the example rows gives `1. `, `2. `, ... up to the
/// number of examples, one per example, so no two examples share a number.
pub proof fn lemma_card_examples_numbered(es: Seq<(Seq<char>, Seq<char>)>, content: nat)
    ensures
        leads_in_tone(examples_rows_spec(es, content), Tone::Blue) == Seq::new(
            es.len(),
            |k: int| decimal_spec((k + 1) as nat) + ". "@,
        ),
        forall|j: int, k: int|
            0 <= j < k < es.len() ==> #[trigger] leads_in_tone(examples_rows_spec(es, content), Tone::Blue)[j]
                != #[trigger] leads_in_tone(examples_rows_spec(es, content), Tone::Blue)[k],
    decreases es.len(),
{
    lemma_card_examples_in_order(es, content);
    let leads = leads_in_tone(examples_rows_spec(es, content), Tone::Blue);
    assert forall|j: int, k: int| 0 <= j < k < es.len() implies #[trigger] leads[j] != #[trigger] leads[k] by {
        if leads[j] == leads[k] {
            let dj = decimal_spec((j + 1) as nat);
            let dk = decimal_spec((k + 1) as nat);
            assert(leads[j] == dj + ". "@);
            assert(leads[k] == dk + ". "@);
            assert((dj + ". "@).len() == (dk + ". "@).len());
            assert(dj =~= (dj + ". "@).take(dj.len() as int));
            assert(dk =~= (dk + ". "@).take(dk.len() as int));
            crate::screen::lemma_decimal_injective((j + 1) as nat, (k + 1) as nat);
        }
    }
}

proof fn lemma_card_examples_in_order(es: Seq<(Seq<char>, Seq<char>)>, content: nat)
    ensures
        leads_in_tone(examples_rows_spec(es, content), Tone::Blue) == Seq::new(
            es.len(),
            |k: int| decimal_spec((k + 1) as nat) + ". "@,
        ),
    decreases es.len(),
{
    if es.len() == 0 {
        assert(leads_in_tone(examples_rows_spec(es, content), Tone::Blue) =~= Seq::new(
            es.len(),
            |k: int| decimal_spec((k + 1) as nat) + ". "@,
        ));
    } else {
        let n = (es.len() - 1) as nat;
        lemma_card_examples_in_order(es.drop_last(), content);
        lemma_leads_in_tone_add(
            examples_rows_spec(es.drop_last(), content),
            example_rows_spec(n, es.last(), content),
            Tone::Blue,
        );
        lemma_example_rows_lead(n, es.last(), content);
        assert(leads_in_tone(examples_rows_spec(es, content), Tone::Blue) =~= Seq::new(
            es.len(),
            |k: int| decimal_spec((k + 1) as nat) + ". "@,
        ));
    }
}

} // verus!

verus! {

/// Whether `t` is one of the two marks of a history row: the star of a
/// favorite or the dot of another record.
pub open spec fn is_mark(t: Seq<char>) -> bool {
    t == "★"@ || t == "·"@
}

/// The marks that open rows of the frame (the first span after the bar), in
/// order.
pub open spec fn row_marks(rows: Seq<Seq<SpanView>>) -> Seq<Seq<char>>
    decreases rows.len(),
{
    if rows.len() == 0 {
        Seq::empty()
    } else {
        row_marks(rows.drop_last()) + (if rows.last().len() > 3 && is_mark(rows.last()[3].0) {
            seq![rows.last()[3].0]
        } else {
            Seq::empty()
        })
    }
}

proof fn lemma_row_marks_add(a: Seq<Seq<SpanView>>, b: Seq<Seq<SpanView>>)
    ensures
        row_marks(a + b) == row_marks(a) + row_marks(b),
    decreases b.len(),
{
    if b.len() == 0 {
        assert(a + b =~= a);
    } else {
        lemma_row_marks_add(a, b.drop_last());
        assert((a + b).drop_last() =~= a + b.drop_last());
    }
}

proof fn lemma_row_marks_none(rows: Seq<Seq<SpanView>>)
    requires
        forall|i: int| 0 <= i < rows.len() ==> !(#[trigger] rows[i].len() > 3 && is_mark(rows[i][3].0)),
    ensures
        row_marks(rows) == Seq::<Seq<char>>::empty(),
    decreases rows.len(),
{
    if rows.len() > 0 {
        lemma_row_marks_none(rows.drop_last());
        assert(!(rows[rows.len() - 1].len() > 3 && is_mark(rows[rows.len() - 1][3].0)));
    }
}

proof fn lemma_row_marks_one(row: Seq<SpanView>)
    ensures
        row_marks(seq![row]) == (if row.len() > 3 && is_mark(row[3].0) {
            seq![row[3].0]
        } else {
            Seq::<Seq<char>>::empty()
        }),
{
    assert(seq![row].drop_last() =~= Seq::<Seq<SpanView>>::empty());
    assert(seq![row].last() == row);
    assert(row_marks(Seq::<Seq<SpanView>>::empty()) =~= Seq::<Seq<char>>::empty());
}

/// The star or dot of a record.
pub open spec fn mark_of(item: HistoryItem) -> Seq<char> {
    if item.is_favorite {
        "★"@
    } else {
        "·"@
    }
}

proof fn lemma_history_rows_mark(item: HistoryItem, qw: nat, sw: nat)
    ensures
        row_marks(history_rows_spec(item, qw, sw)) == seq![mark_of(item)],
{
    reveal_strlit("★");
    reveal_strlit("·");
    reveal_strlit("  ");
    let rows = history_rows_spec(item, qw, sw);
    let lines = wrap_display_spec(single_line_spec(item.result_summary@), sw as usize);
    assert(lines.len() > 0);
    assert(rows[0][3].0 == mark_of(item));
    assert(rows =~= seq![rows[0]] + rows.skip(1));
    lemma_row_marks_add(seq![rows[0]], rows.skip(1));
    lemma_row_marks_one(rows[0]);
    assert forall|i: int| 0 <= i < rows.skip(1).len() implies !(#[trigger] rows.skip(1)[i].len() > 3
        && is_mark(rows.skip(1)[i][3].0)) by {
        assert(rows.skip(1)[i] == rows[i + 1]);
        let t = rows[i + 1][3].0;
        assert(t == "  "@ + spaces(qw + 2));
        assert(t.len() >= 2);
    }
    lemma_row_marks_none(rows.skip(1));
}

proof fn lemma_history_list_marks(items: Seq<HistoryItem>, qw: nat, sw: nat)
    ensures
        row_marks(history_list_rows_spec(items, qw, sw)) == items.map_values(|it: HistoryItem| mark_of(it)),
    decreases items.len(),
{
    if items.len() == 0 {
        assert(row_marks(history_list_rows_spec(items, qw, sw)) =~= items.map_values(
            |it: HistoryItem| mark_of(it),
        ));
    } else {
        lemma_history_list_marks(items.drop_last(), qw, sw);
        lemma_row_marks_add(
            history_list_rows_spec(items.drop_last(), qw, sw),
            history_rows_spec(items.last(), qw, sw),
        );
        lemma_history_rows_mark(items.last(), qw, sw);
        assert(row_marks(history_list_rows_spec(items, qw, sw)) =~= items.map_values(
            |it: HistoryItem| mark_of(it),
        ));
    }
}

/// The history card marks each record, in order, with a star when it is a
/// favorite and a dot when it is not: reading the marks that open its rows
/// gives one mark per record, and no other row carries one.
pub proof fn lemma_history_card_marks(items: Seq<HistoryItem>, only_favorites: bool, terminal_width: usize)
    ensures
        row_marks(history_card_spec(items, only_favorites, terminal_width)) == items.map_values(
            |it: HistoryItem| if it.is_favorite {
                "★"@
            } else {
                "·"@
            },
        ),
{
    reveal_strlit("★");
    reveal_strlit("·");
    reveal_strlit("暂无记录。查询结果会自动保存在这里。");
    let card = card_of(terminal_width);
    let head = seq![
        Seq::<SpanView>::empty(),
        title_row_spec("╭─ "@, history_title_spec(items.len(), only_favorites), Tone::Cyan, card),
    ];
    let tail = seq![footer_spec(card), Seq::<SpanView>::empty()];
    reveal_strlit(" ");
    let title = history_title_spec(items.len(), only_favorites);
    let rest = card - (unicode_str_width(title) + 5);
    let rl = rule(if rest < 2 { 2 } else { rest as nat });
    assert(head[1][3].0 == " "@ + rl);
    assert(rl.len() >= 2);
    assert(head[1][3].0.len() >= 3);
    lemma_row_marks_none(head);
    lemma_row_marks_none(tail);
    let rows = history_card_spec(items, only_favorites, terminal_width);
    if items.len() == 0 {
        let notice = seq![bar_row(seq![("暂无记录。查询结果会自动保存在这里。"@, Tone::Muted, false, false)])];
        assert(notice[0][3].0 == "暂无记录。查询结果会自动保存在这里。"@);
        assert(notice[0][3].0.len() > 1);
        lemma_row_marks_none(notice);
        assert(rows == head + notice + tail);
        lemma_row_marks_add(head, notice);
        lemma_row_marks_add(head + notice, tail);
    } else {
        let width = content_of(terminal_width);
        let ts: nat = if max_stamp_width(items) < width {
            max_stamp_width(items)
        } else {
            width
        };
        let qw = query_column_spec(width as usize, 60, 24, (ts + 10) as usize) as nat;
        let sw = at_least_one(sat_sub(width as int, (qw + ts + 10) as int));
        let body = history_list_rows_spec(items, qw, sw);
        assert(rows == head + body + tail);
        lemma_history_list_marks(items, qw, sw);
        lemma_row_marks_add(head, body);
        lemma_row_marks_add(head + body, tail);
    }
    assert(row_marks(rows) =~= items.map_values(
        |it: HistoryItem| if it.is_favorite {
            "★"@
        } else {
            "·"@
        },
    ));
}

} // verus!

verus! {

/// The dictionary card ends with the rows of all the entry's examples, then
/// the bottom rule and a blank line.
pub proof fn lemma_word_card_ends_with_examples(w: WordDetailView, terminal_width: usize)
    requires
        w.examples.len() > 0,
    ensures
        exists|head: Seq<Seq<SpanView>>| #[trigger] word_card_spec(w, terminal_width) == head
            + examples_rows_spec(w.examples, content_of(terminal_width)) + seq![
            footer_spec(card_of(terminal_width)),
            Seq::<SpanView>::empty(),
        ],
{
    let card = card_of(terminal_width);
    let content = content_of(terminal_width);
    let head = seq![Seq::<SpanView>::empty(), title_row_spec("╭─ "@, w.word, Tone::Blue, card)] + info_rows(w) + (
    if w.definitions.len() > 0 {
        seq![title_row_spec("├─ "@, "词典释义"@, Tone::Green, card)] + definitions_rows_spec(
            w.definitions,
            at_least_one(sat_sub(content as int, 12)),
        )
    } else {
        Seq::empty()
    }) + seq![title_row_spec("├─ "@, "双语例句"@, Tone::Magenta, card)];
    assert(word_card_spec(w, terminal_width) =~= head + examples_rows_spec(w.examples, content) + seq![
        footer_spec(card),
        Seq::<SpanView>::empty(),
    ]);
}

} // verus!
