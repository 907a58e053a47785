//! Display widths of characters and strings in terminal columns, and the
//! truncation and wrapping that rely on them.
use vstd::prelude::*;

use crate::text::{
    chars_of, is_white_space, is_whitespace, normalize_newline_chars, normalize_newlines, split_chars,
    split_on, string_of, string_views, strings_of, sub_chars, trim, trim_chars, trim_end, trim_end_chars,
    trim_start,
};

verus! {

/// What `UnicodeWidthChar::width` (unicode-width) gives for `c`.
pub uninterp spec fn unicode_char_width(c: char) -> Option<usize>;

/// What `UnicodeWidthStr::width` (unicode-width) gives for a string.
pub uninterp spec fn unicode_str_width(s: Seq<char>) -> usize;

/// `UnicodeWidthChar::width` of unicode-width: the columns that `c` takes on a
/// terminal. As the crate's source shows, control characters (below U+0020
/// and U+007F..U+009F) have no width, printable ASCII has width 1, every other
/// character has a width, and no width exceeds 3; the table lookup behind the
/// rest is only named here.
#[verifier::external_body]
pub(crate) fn char_width(c: char) -> (r: Option<usize>)
    ensures
        r == unicode_char_width(c),
        (c as u32) < 0x20 ==> r is None,
        0x20 <= (c as u32) < 0x7f ==> r == Some(1usize),
        0x7f <= (c as u32) < 0xa0 ==> r is None,
        (c as u32) >= 0xa0 ==> r is Some,
        r matches Some(w) ==> w <= 3,
{
    unicode_width::UnicodeWidthChar::width(c)
}

/// `UnicodeWidthStr::width` of unicode-width: the columns a string takes. It
/// is not the sum of the character widths in general (emoji sequences and
/// some ligatures differ), so only its name is stated.
#[verifier::external_body]
pub(crate) fn str_width(s: &[char]) -> (r: usize)
    ensures
        r == unicode_str_width(s@),
{
    let text: String = s.iter().collect();
    unicode_width::UnicodeWidthStr::width(text.as_str())
}

/// The width that the wrapping and truncation code counts for one character:
/// its Unicode width, or 0 for control characters.
pub open spec fn cw(c: char) -> nat {
    match unicode_char_width(c) {
        Some(w) => w as nat,
        None => 0,
    }
}

/// The sum of the character widths of `s`.
pub open spec fn width_sum(s: Seq<char>) -> nat
    decreases s.len(),
{
    if s.len() == 0 {
        0
    } else {
        width_sum(s.drop_last()) + cw(s.last())
    }
}

/// The width of one character, with control characters counted as 0.
pub fn char_columns(c: char) -> (r: usize)
    ensures
        r == cw(c),
        r <= 3,
{
    match char_width(c) {
        Some(w) => w,
        None => 0,
    }
}

/// The length of the longest prefix of `s[i..]` that fits in `budget`
/// columns when `used` columns are already taken, plus `i`.
pub open spec fn fit_from(s: Seq<char>, i: int, used: nat, budget: nat) -> int
    decreases s.len() - i,
{
    if i < 0 || i >= s.len() || used + cw(s[i]) > budget {
        i
    } else {
        fit_from(s, i + 1, used + cw(s[i]), budget)
    }
}

/// What `truncate_display_width(text, max_width)` returns.
pub open spec fn truncate_display_spec(s: Seq<char>, max_width: nat) -> Seq<char> {
    if unicode_str_width(s) <= max_width {
        s
    } else if max_width <= 1 {
        seq!['…']
    } else {
        s.take(fit_from(s, 0, 0, (max_width - 1) as nat)) + seq!['…']
    }
}

proof fn lemma_width_sum_push(s: Seq<char>, c: char)
    ensures
        width_sum(s.push(c)) == width_sum(s) + cw(c),
{
    assert(s.push(c).drop_last() == s);
}

/// The prefix chosen by `fit_from` is the longest one whose widths fit the budget.
pub proof fn lemma_fit_from(s: Seq<char>, i: int, used: nat, budget: nat)
    requires
        0 <= i <= s.len(),
        used == width_sum(s.take(i)),
        used <= budget,
    ensures
        i <= fit_from(s, i, used, budget) <= s.len(),
        width_sum(s.take(fit_from(s, i, used, budget))) <= budget,
        fit_from(s, i, used, budget) < s.len() ==> width_sum(
            s.take(fit_from(s, i, used, budget) + 1),
        ) > budget,
    decreases s.len() - i,
{
    if i < s.len() {
        assert(s.take(i + 1) == s.take(i).push(s[i]));
        lemma_width_sum_push(s.take(i), s[i]);
        if used + cw(s[i]) <= budget {
            lemma_fit_from(s, i + 1, used + cw(s[i]), budget);
        }
    }
}

/// `text` cut to at most `max_width` columns with a trailing `'…'` when it is
/// wider; the kept prefix is the longest whose widths sum to at most
/// `max_width - 1`.
pub fn truncate_display_width(text: &str, max_width: usize) -> (r: String)
    ensures
        r@ == truncate_display_spec(text@, max_width as nat),
        unicode_str_width(text@) > max_width && max_width > 1 ==> {
            let k = fit_from(text@, 0, 0, (max_width - 1) as nat);
            &&& 0 <= k <= text@.len()
            &&& r@ == text@.take(k) + seq!['…']
            &&& width_sum(text@.take(k)) <= max_width - 1
            &&& (k < text@.len() ==> width_sum(text@.take(k + 1)) > max_width - 1)
        },
{
    let v = chars_of(text);
    if str_width(&v) <= max_width {
        return string_of(&v);
    }
    if max_width <= 1 {
        return string_of(&vec!['…']);
    }
    let budget = max_width - 1;
    let n = v.len();
    let mut out: Vec<char> = Vec::new();
    let mut width: usize = 0;
    let mut i: usize = 0;
    assert(v@.take(0) == Seq::<char>::empty());
    while i < n
        invariant
            i <= n == v@.len(),
            width <= budget,
            width == width_sum(v@.take(i as int)),
            out@ == v@.take(i as int),
            fit_from(v@, 0, 0, budget as nat) == fit_from(v@, i as int, width as nat, budget as nat),
        ensures
            i <= n,
            out@ == v@.take(i as int),
            fit_from(v@, 0, 0, budget as nat) == i,
        decreases n - i,
    {
        let w = char_columns(v[i]);
        if w > budget - width {
            break;
        }
        out.push(v[i]);
        proof {
            assert(v@.take(i + 1) == v@.take(i as int).push(v@[i as int]));
            lemma_width_sum_push(v@.take(i as int), v@[i as int]);
        }
        width += w;
        i += 1;
    }
    proof {
        lemma_fit_from(v@, 0, 0, budget as nat);
    }
    out.push('…');
    string_of(&out)
}

/// What `truncate_chars(value, max_chars)` returns: the first `max_chars`
/// characters, followed by `'…'` when some were dropped.
pub open spec fn truncate_chars_spec(s: Seq<char>, max_chars: nat) -> Seq<char> {
    if s.len() > max_chars {
        s.take(max_chars as int) + seq!['…']
    } else {
        s
    }
}

/// Keeps at most `max_chars` characters of `value`, marking a cut with `'…'`.
pub fn truncate_chars(value: &str, max_chars: usize) -> (r: String)
    ensures
        r@ == truncate_chars_spec(value@, max_chars as nat),
{
    let v = chars_of(value);
    if v.len() > max_chars {
        let mut head = sub_chars(&v, 0, max_chars);
        head.push('…');
        string_of(&head)
    } else {
        string_of(&v)
    }
}

} // verus!

verus! {

/// The width counted for `c` by the wrapping code (`width(c).unwrap_or(0)`).
pub open spec fn cwu(c: char) -> usize {
    match unicode_char_width(c) {
        Some(w) => w,
        None => 0,
    }
}

/// Greedy wrapping of the characters `s[i..]` into lines of at most `max`
/// columns: `line` is the line being filled, `width` its counted width and
/// `acc` the lines already finished. A line is closed (trailing whitespace
/// dropped) when the next character would overflow it, and whitespace is never
/// put at the start of a line.
pub open spec fn wrap_run(
    s: Seq<char>,
    i: int,
    line: Seq<char>,
    width: usize,
    max: usize,
    acc: Seq<Seq<char>>,
) -> Seq<Seq<char>>
    decreases s.len() - i,
{
    if i < 0 || i >= s.len() {
        if line.len() > 0 {
            acc.push(trim_end(line))
        } else {
            acc
        }
    } else {
        let c = s[i];
        let w = cwu(c);
        let brk = line.len() > 0 && width.saturating_add(w) > max;
        let acc2 = if brk {
            acc.push(trim_end(line))
        } else {
            acc
        };
        let line2 = if brk {
            Seq::<char>::empty()
        } else {
            line
        };
        let width2: usize = if brk {
            0
        } else {
            width
        };
        if is_white_space(c) && line2.len() == 0 {
            wrap_run(s, i + 1, line2, width2, max, acc2)
        } else {
            wrap_run(s, i + 1, line2.push(c), width2.saturating_add(w), max, acc2)
        }
    }
}

/// The wrapped lines of one source line.
pub open spec fn piece_lines(p: Seq<char>, max: usize) -> Seq<Seq<char>> {
    if trim(p).len() == 0 {
        seq![Seq::<char>::empty()]
    } else {
        wrap_run(trim(p), 0, Seq::empty(), 0, max, Seq::empty())
    }
}

/// The wrapped lines of several source lines, in order.
pub open spec fn wrap_pieces(ps: Seq<Seq<char>>, max: usize) -> Seq<Seq<char>>
    decreases ps.len(),
{
    if ps.len() == 0 {
        Seq::empty()
    } else {
        wrap_pieces(ps.drop_last(), max) + piece_lines(ps.last(), max)
    }
}

/// What `wrap_display(text, max_width)` returns.
pub open spec fn wrap_display_spec(text: Seq<char>, max: usize) -> Seq<Seq<char>> {
    if max == 0 {
        seq![Seq::<char>::empty()]
    } else {
        let r = wrap_pieces(split_on(normalize_newlines(text), '\n'), max);
        if r.len() == 0 {
            seq![Seq::<char>::empty()]
        } else {
            r
        }
    }
}

fn wrap_piece(s: &[char], max: usize) -> (r: Vec<Vec<char>>)
    ensures
        r@.map_values(|p: Vec<char>| p@) == wrap_run(s@, 0, Seq::empty(), 0, max, Seq::empty()),
{
    let n = s.len();
    let mut acc: Vec<Vec<char>> = Vec::new();
    let mut line: Vec<char> = Vec::new();
    let mut width: usize = 0;
    assert(acc@.map_values(|p: Vec<char>| p@) =~= Seq::<Seq<char>>::empty());
    assert(line@ =~= Seq::<char>::empty());
    for i in 0..n
        invariant
            n == s@.len(),
            wrap_run(s@, 0, Seq::empty(), 0, max, Seq::empty()) == wrap_run(
                s@,
                i as int,
                line@,
                width,
                max,
                acc@.map_values(|p: Vec<char>| p@),
            ),
    {
        let c = s[i];
        let w = char_columns(c);
        if line.len() > 0 && width.saturating_add(w) > max {
            let t = trim_end_chars(&line);
            let ghost prev = acc@;
            acc.push(t);
            assert(acc@.map_values(|p: Vec<char>| p@) =~= prev.map_values(|p: Vec<char>| p@).push(
                t@,
            ));
            line = Vec::new();
            width = 0;
        }
        if is_whitespace(c) && line.len() == 0 {
        } else {
            line.push(c);
            width = width.saturating_add(w);
        }
    }
    if line.len() > 0 {
        let t = trim_end_chars(&line);
        let ghost prev = acc@;
        acc.push(t);
        assert(acc@.map_values(|p: Vec<char>| p@) =~= prev.map_values(|p: Vec<char>| p@).push(t@));
    }
    acc
}

/// Wraps `text` into lines of at most `max_width` columns, counting display
/// widths rather than bytes. Blank source lines give empty lines and there is
/// always at least one line.
pub fn wrap_display(text: &str, max_width: usize) -> (r: Vec<String>)
    ensures
        string_views(r@) == wrap_display_spec(text@, max_width),
{
    if max_width == 0 {
        let r = vec![String::new()];
        assert(string_views(r@) =~= seq![Seq::<char>::empty()]);
        return r;
    }
    let v = chars_of(text);
    let norm = normalize_newline_chars(&v);
    let pieces = split_chars(&norm, '\n');
    let ghost pv = pieces@.map_values(|p: Vec<char>| p@);
    let np = pieces.len();
    let mut wrapped: Vec<Vec<char>> = Vec::new();
    for k in 0..np
        invariant
            np == pieces@.len(),
            pv == pieces@.map_values(|p: Vec<char>| p@),
            max_width > 0,
            wrapped@.map_values(|p: Vec<char>| p@) == wrap_pieces(pv.take(k as int), max_width),
    {
        let piece = trim_chars(&pieces[k]);
        let lines = if piece.len() == 0 {
            let l: Vec<Vec<char>> = vec![Vec::new()];
            assert(l@.map_values(|p: Vec<char>| p@) =~= seq![Seq::<char>::empty()]);
            l
        } else {
            wrap_piece(&piece, max_width)
        };
        assert(pv.take(k + 1).drop_last() == pv.take(k as int));
        assert(pv.take(k + 1).last() == pieces@[k as int]@);
        let ghost before = wrapped@.map_values(|p: Vec<char>| p@);
        let nl = lines.len();
        for j in 0..nl
            invariant
                nl == lines@.len(),
                wrapped@.map_values(|p: Vec<char>| p@) == before + lines@.take(j as int).map_values(
                    |p: Vec<char>| p@,
                ),
        {
            let ghost prev = wrapped@;
            wrapped.push(lines[j].clone());
            assert(wrapped@.map_values(|p: Vec<char>| p@) =~= prev.map_values(|p: Vec<char>| p@).push(
                lines@[j as int]@,
            ));
            assert(lines@.take(j + 1).map_values(|p: Vec<char>| p@) =~= lines@.take(j as int).map_values(
                |p: Vec<char>| p@,
            ).push(lines@[j as int]@));
        }
        assert(lines@.take(nl as int) == lines@);
    }
    assert(pv.take(np as int) == pv);
    assert(pv == split_on(normalize_newlines(text@), '\n'));
    if wrapped.len() == 0 {
        wrapped.push(Vec::new());
        assert(wrapped@.map_values(|p: Vec<char>| p@) =~= seq![Seq::<char>::empty()]);
    }
    strings_of(&wrapped)
}

} // verus!

verus! {

/// Every character of `s` but `'\n'` is at most `max` columns wide.
pub open spec fn fits_but_newlines(s: Seq<char>, max: usize) -> bool {
    forall|j: int| 0 <= j < s.len() && s[j] != '\n' ==> cwu(#[trigger] s[j]) <= max
}

proof fn lemma_normalize_fits(s: Seq<char>, max: usize)
    requires
        fits_but_newlines(s, max),
    ensures
        fits_but_newlines(normalize_newlines(s), max),
    decreases s.len(),
{
    if s.len() > 0 {
        let rest = if s[0] == '\r' && s.len() > 1 && s[1] == '\n' {
            s.skip(2)
        } else {
            s.skip(1)
        };
        assert forall|j: int| 0 <= j < rest.len() && rest[j] != '\n' implies cwu(#[trigger] rest[j]) <= max by {
            if s[0] == '\r' && s.len() > 1 && s[1] == '\n' {
                assert(rest[j] == s[j + 2]);
            } else {
                assert(rest[j] == s[j + 1]);
            }
        }
        lemma_normalize_fits(rest, max);
        let n = normalize_newlines(s);
        let head = if s[0] == '\r' { '\n' } else { s[0] };
        assert(n == seq![head] + normalize_newlines(rest));
        assert forall|j: int| 0 <= j < n.len() && n[j] != '\n' implies cwu(#[trigger] n[j]) <= max by {
            if j > 0 {
                assert(n[j] == normalize_newlines(rest)[j - 1]);
            }
        }
    }
}

proof fn lemma_split_fits(s: Seq<char>, max: usize)
    requires
        fits_but_newlines(s, max),
    ensures
        forall|k: int| 0 <= k < split_on(s, '\n').len() ==> forall|j: int|
            0 <= j < (#[trigger] split_on(s, '\n')[k]).len() ==> cwu(split_on(s, '\n')[k][j]) <= max,
    decreases s.len(),
{
    if s.len() > 0 {
        let t = s.drop_last();
        assert forall|j: int| 0 <= j < t.len() && t[j] != '\n' implies cwu(#[trigger] t[j]) <= max by {
            assert(t[j] == s[j]);
        }
        lemma_split_fits(t, max);
        crate::text::lemma_split_nonempty(t, '\n');
        let parts = split_on(t, '\n');
        if s.last() != '\n' {
            let q = parts.update(parts.len() - 1, parts.last().push(s.last()));
            assert(cwu(s[s.len() - 1]) <= max);
            assert forall|k: int| 0 <= k < q.len() implies forall|j: int|
                0 <= j < (#[trigger] q[k]).len() ==> cwu(q[k][j]) <= max by {
                if k == q.len() - 1 {
                    assert forall|j: int| 0 <= j < q[k].len() implies cwu(q[k][j]) <= max by {
                        if j < parts.last().len() {
                            assert(q[k][j] == parts[parts.len() - 1][j]);
                        }
                    }
                } else {
                    assert(q[k] == parts[k]);
                }
            }
        } else {
            let q = parts.push(Seq::<char>::empty());
            assert forall|k: int| 0 <= k < q.len() implies forall|j: int|
                0 <= j < (#[trigger] q[k]).len() ==> cwu(q[k][j]) <= max by {
                if k < parts.len() {
                    assert(q[k] == parts[k]);
                }
            }
        }
    }
}

proof fn lemma_trim_start_sub(s: Seq<char>)
    ensures
        exists|a: int| 0 <= a <= s.len() && trim_start(s) == s.subrange(a, s.len() as int),
    decreases s.len(),
{
    if s.len() > 0 && is_white_space(s[0]) {
        lemma_trim_start_sub(s.drop_first());
        let a = choose|a: int| 0 <= a <= s.drop_first().len() && trim_start(s.drop_first()) == s.drop_first().subrange(a, s.drop_first().len() as int);
        assert(s.drop_first().subrange(a, s.drop_first().len() as int) == s.subrange(a + 1, s.len() as int));
    } else {
        assert(s.subrange(0, s.len() as int) == s);
    }
}

proof fn lemma_trim_end_sub(s: Seq<char>)
    ensures
        exists|b: int| 0 <= b <= s.len() && trim_end(s) == s.subrange(0, b),
    decreases s.len(),
{
    if s.len() > 0 && is_white_space(s.last()) {
        lemma_trim_end_sub(s.drop_last());
        let b = choose|b: int| 0 <= b <= s.drop_last().len() && trim_end(s.drop_last()) == s.drop_last().subrange(0, b);
        assert(s.drop_last().subrange(0, b) == s.subrange(0, b));
    } else {
        assert(s.subrange(0, s.len() as int) == s);
    }
}

proof fn lemma_width_sum_prefix(s: Seq<char>, b: int)
    requires
        0 <= b <= s.len(),
    ensures
        width_sum(s.subrange(0, b)) <= width_sum(s),
    decreases s.len() - b,
{
    if b < s.len() {
        lemma_width_sum_prefix(s, b + 1);
        assert(s.subrange(0, b + 1).drop_last() == s.subrange(0, b));
    } else {
        assert(s.subrange(0, b) == s);
    }
}

proof fn lemma_wrap_run_fits(
    s: Seq<char>,
    i: int,
    line: Seq<char>,
    width: usize,
    max: usize,
    acc: Seq<Seq<char>>,
)
    requires
        0 <= i <= s.len(),
        max < usize::MAX,
        forall|j: int| 0 <= j < s.len() ==> cwu(#[trigger] s[j]) <= max,
        width == width_sum(line),
        width <= max,
        forall|k: int| 0 <= k < acc.len() ==> width_sum(#[trigger] acc[k]) <= max,
    ensures
        forall|k: int| 0 <= k < wrap_run(s, i, line, width, max, acc).len() ==> width_sum(
            #[trigger] wrap_run(s, i, line, width, max, acc)[k],
        ) <= max,
    decreases s.len() - i,
{
    if i >= s.len() {
        if line.len() > 0 {
            lemma_trim_end_sub(line);
            let b = choose|b: int| 0 <= b <= line.len() && trim_end(line) == line.subrange(0, b);
            lemma_width_sum_prefix(line, b);
            let r = acc.push(trim_end(line));
            assert forall|k: int| 0 <= k < r.len() implies width_sum(#[trigger] r[k]) <= max by {
                if k < acc.len() {
                    assert(r[k] == acc[k]);
                }
            }
        }
    } else {
        let c = s[i];
        let w = cwu(c);
        let brk = line.len() > 0 && width.saturating_add(w) > max;
        let acc2 = if brk {
            acc.push(trim_end(line))
        } else {
            acc
        };
        if brk {
            lemma_trim_end_sub(line);
            let b = choose|b: int| 0 <= b <= line.len() && trim_end(line) == line.subrange(0, b);
            lemma_width_sum_prefix(line, b);
            assert forall|k: int| 0 <= k < acc2.len() implies width_sum(#[trigger] acc2[k]) <= max by {
                if k < acc.len() {
                    assert(acc2[k] == acc[k]);
                }
            }
        }
        let line2 = if brk {
            Seq::<char>::empty()
        } else {
            line
        };
        let width2: usize = if brk {
            0
        } else {
            width
        };
        if line.len() == 0 {
            assert(width == 0);
        }
        if is_white_space(c) && line2.len() == 0 {
            assert(wrap_run(s, i, line, width, max, acc) == wrap_run(s, i + 1, line2, width2, max, acc2));
            lemma_wrap_run_fits(s, i + 1, line2, width2, max, acc2);
        } else {
            assert(wrap_run(s, i, line, width, max, acc) == wrap_run(
                s,
                i + 1,
                line2.push(c),
                width2.saturating_add(w),
                max,
                acc2,
            ));
            assert(line2.push(c).drop_last() == line2);
            assert(width_sum(line2.push(c)) == width_sum(line2) + cw(c));
            assert(width2 + w <= max);
            lemma_wrap_run_fits(s, i + 1, line2.push(c), width2.saturating_add(w), max, acc2);
        }
    }
}

proof fn lemma_wrap_pieces_fit(ps: Seq<Seq<char>>, max: usize)
    requires
        0 < max < usize::MAX,
        forall|k: int| 0 <= k < ps.len() ==> forall|j: int|
            0 <= j < (#[trigger] ps[k]).len() ==> cwu(ps[k][j]) <= max,
    ensures
        forall|k: int| 0 <= k < wrap_pieces(ps, max).len() ==> width_sum(#[trigger] wrap_pieces(ps, max)[k]) <= max,
    decreases ps.len(),
{
    if ps.len() > 0 {
        lemma_wrap_pieces_fit(ps.drop_last(), max);
        let p = ps.last();
        let tp = trim(p);
        lemma_trim_start_sub(p);
        let a = choose|a: int| 0 <= a <= p.len() && trim_start(p) == p.subrange(a, p.len() as int);
        lemma_trim_end_sub(trim_start(p));
        let b = choose|b: int| 0 <= b <= trim_start(p).len() && trim_end(trim_start(p)) == trim_start(p).subrange(0, b);
        assert forall|j: int| 0 <= j < tp.len() implies cwu(#[trigger] tp[j]) <= max by {
            assert(tp[j] == p[a + j]);
            assert(ps[ps.len() - 1] == p);
        }
        let pl = piece_lines(p, max);
        if tp.len() > 0 {
            lemma_wrap_run_fits(tp, 0, Seq::empty(), 0, max, Seq::empty());
        }
        let r = wrap_pieces(ps, max);
        let r0 = wrap_pieces(ps.drop_last(), max);
        assert(r == r0 + pl);
        assert forall|k: int| 0 <= k < r.len() implies width_sum(#[trigger] r[k]) <= max by {
            if k < r0.len() {
                assert(r[k] == r0[k]);
            } else {
                assert(r[k] == pl[k - r0.len()]);
            }
        }
    }
}

/// No wrapped line is wider than the wrap width, provided no character of
/// the text is wider than it on its own (a wider character gets a line of
/// its own). The widest width, `usize::MAX`, is left out.
pub proof fn lemma_wrapped_lines_fit(text: Seq<char>, max: usize)
    requires
        max < usize::MAX,
        forall|i: int| 0 <= i < text.len() ==> cwu(#[trigger] text[i]) <= max,
    ensures
        forall|k: int| 0 <= k < wrap_display_spec(text, max).len() ==> width_sum(
            #[trigger] wrap_display_spec(text, max)[k],
        ) <= max,
{
    if max > 0 {
        lemma_normalize_fits(text, max);
        let n = normalize_newlines(text);
        lemma_split_fits(n, max);
        lemma_wrap_pieces_fit(split_on(n, '\n'), max);
    }
}

} // verus!

verus! {

/// The characters of `s` that are not whitespace, in order.
pub open spec fn visible(s: Seq<char>) -> Seq<char>
    decreases s.len(),
{
    if s.len() == 0 {
        s
    } else if is_white_space(s.last()) {
        visible(s.drop_last())
    } else {
        visible(s.drop_last()).push(s.last())
    }
}

/// The lines put together without separators.
pub open spec fn concat_lines(ls: Seq<Seq<char>>) -> Seq<char>
    decreases ls.len(),
{
    if ls.len() == 0 {
        Seq::empty()
    } else {
        concat_lines(ls.drop_last()) + ls.last()
    }
}

proof fn lemma_visible_add(a: Seq<char>, b: Seq<char>)
    ensures
        visible(a + b) == visible(a) + visible(b),
    decreases b.len(),
{
    if b.len() == 0 {
        assert(a + b == a);
    } else {
        lemma_visible_add(a, b.drop_last());
        assert((a + b).drop_last() == a + b.drop_last());
        assert((a + b).last() == b.last());
    }
}

proof fn lemma_visible_ws(c: char)
    requires
        is_white_space(c),
    ensures
        visible(seq![c]) == Seq::<char>::empty(),
{
    let s = seq![c];
    assert(s.drop_last() == Seq::<char>::empty());
    assert(s.last() == c);
    assert(visible(Seq::<char>::empty()) == Seq::<char>::empty());
    assert(visible(s) == visible(s.drop_last()));
}

proof fn lemma_concat_single(l: Seq<char>)
    ensures
        concat_lines(seq![l]) == l,
{
    let s = seq![l];
    assert(s.drop_last() == Seq::<Seq<char>>::empty());
    assert(s.last() == l);
    assert(concat_lines(Seq::<Seq<char>>::empty()) == Seq::<char>::empty());
    assert(concat_lines(s) == concat_lines(s.drop_last()) + s.last());
    assert(Seq::<char>::empty() + l == l);
}

proof fn lemma_visible_trim_end(s: Seq<char>)
    ensures
        visible(trim_end(s)) == visible(s),
    decreases s.len(),
{
    if s.len() > 0 && is_white_space(s.last()) {
        lemma_visible_trim_end(s.drop_last());
    }
}

proof fn lemma_visible_trim_start(s: Seq<char>)
    ensures
        visible(trim_start(s)) == visible(s),
    decreases s.len(),
{
    if s.len() > 0 && is_white_space(s[0]) {
        lemma_visible_trim_start(s.drop_first());
        assert(s == seq![s[0]] + s.drop_first());
        lemma_visible_add(seq![s[0]], s.drop_first());
        lemma_visible_ws(s[0]);
        assert(visible(s) == Seq::<char>::empty() + visible(s.drop_first()));
    }
}

proof fn lemma_concat_push(ls: Seq<Seq<char>>, l: Seq<char>)
    ensures
        concat_lines(ls.push(l)) == concat_lines(ls) + l,
{
    assert(ls.push(l).drop_last() == ls);
}

proof fn lemma_concat_add(a: Seq<Seq<char>>, b: Seq<Seq<char>>)
    ensures
        concat_lines(a + b) == concat_lines(a) + concat_lines(b),
    decreases b.len(),
{
    if b.len() == 0 {
        assert(a + b == a);
    } else {
        lemma_concat_add(a, b.drop_last());
        assert((a + b).drop_last() == a + b.drop_last());
        assert((a + b).last() == b.last());
    }
}

proof fn lemma_wrap_run_visible(
    s: Seq<char>,
    i: int,
    line: Seq<char>,
    width: usize,
    max: usize,
    acc: Seq<Seq<char>>,
)
    requires
        0 <= i <= s.len(),
    ensures
        visible(concat_lines(wrap_run(s, i, line, width, max, acc))) == visible(concat_lines(acc))
            + visible(line) + visible(s.skip(i)),
    decreases s.len() - i,
{
    if i >= s.len() {
        assert(s.skip(i) == Seq::<char>::empty());
        if line.len() > 0 {
            lemma_concat_push(acc, trim_end(line));
            lemma_visible_add(concat_lines(acc), trim_end(line));
            lemma_visible_trim_end(line);
        }
    } else {
        let c = s[i];
        let w = cwu(c);
        let brk = line.len() > 0 && width.saturating_add(w) > max;
        let acc2 = if brk {
            acc.push(trim_end(line))
        } else {
            acc
        };
        let line2 = if brk {
            Seq::<char>::empty()
        } else {
            line
        };
        let width2: usize = if brk {
            0
        } else {
            width
        };
        if brk {
            lemma_concat_push(acc, trim_end(line));
            lemma_visible_add(concat_lines(acc), trim_end(line));
            lemma_visible_trim_end(line);
        }
        assert(visible(concat_lines(acc2)) + visible(line2) == visible(concat_lines(acc)) + visible(line));
        assert(s.skip(i) == seq![c] + s.skip(i + 1));
        lemma_visible_add(seq![c], s.skip(i + 1));
        if is_white_space(c) && line2.len() == 0 {
            assert(wrap_run(s, i, line, width, max, acc) == wrap_run(s, i + 1, line2, width2, max, acc2));
            lemma_wrap_run_visible(s, i + 1, line2, width2, max, acc2);
            lemma_visible_ws(c);
            assert(visible(s.skip(i)) == visible(s.skip(i + 1)));
        } else {
            assert(wrap_run(s, i, line, width, max, acc) == wrap_run(
                s,
                i + 1,
                line2.push(c),
                width2.saturating_add(w),
                max,
                acc2,
            ));
            lemma_wrap_run_visible(s, i + 1, line2.push(c), width2.saturating_add(w), max, acc2);
            assert(line2.push(c) == line2 + seq![c]);
            lemma_visible_add(line2, seq![c]);
        }
    }
}

proof fn lemma_piece_visible(p: Seq<char>, max: usize)
    ensures
        visible(concat_lines(piece_lines(p, max))) == visible(p),
{
    lemma_visible_trim_start(p);
    lemma_visible_trim_end(trim_start(p));
    let t = trim(p);
    if t.len() == 0 {
        lemma_concat_single(Seq::<char>::empty());
    } else {
        lemma_wrap_run_visible(t, 0, Seq::empty(), 0, max, Seq::empty());
        assert(t.skip(0) == t);
    }
}

proof fn lemma_pieces_visible(ps: Seq<Seq<char>>, max: usize)
    ensures
        visible(concat_lines(wrap_pieces(ps, max))) == visible(concat_lines(ps)),
    decreases ps.len(),
{
    if ps.len() > 0 {
        lemma_pieces_visible(ps.drop_last(), max);
        lemma_concat_add(wrap_pieces(ps.drop_last(), max), piece_lines(ps.last(), max));
        lemma_visible_add(
            concat_lines(wrap_pieces(ps.drop_last(), max)),
            concat_lines(piece_lines(ps.last(), max)),
        );
        lemma_piece_visible(ps.last(), max);
        lemma_visible_add(concat_lines(ps.drop_last()), ps.last());
    }
}

proof fn lemma_split_visible(t: Seq<char>)
    ensures
        visible(concat_lines(split_on(t, '\n'))) == visible(t),
    decreases t.len(),
{
    if t.len() == 0 {
        lemma_concat_single(Seq::<char>::empty());
    } else {
        let u = t.drop_last();
        lemma_split_visible(u);
        crate::text::lemma_split_nonempty(u, '\n');
        let parts = split_on(u, '\n');
        assert(t == u + seq![t.last()]);
        lemma_visible_add(u, seq![t.last()]);
        if t.last() == '\n' {
            assert(split_on(t, '\n') == parts.push(Seq::<char>::empty()));
            lemma_concat_push(parts, Seq::<char>::empty());
            assert(concat_lines(parts) + Seq::<char>::empty() == concat_lines(parts));
            lemma_visible_ws('\n');
            assert(visible(t) == visible(u) + Seq::<char>::empty());
            assert(visible(u) + Seq::<char>::empty() == visible(u));
        } else {
            let q = parts.update(parts.len() - 1, parts.last().push(t.last()));
            assert(split_on(t, '\n') == q);
            assert(parts == parts.drop_last().push(parts.last()));
            lemma_concat_push(parts.drop_last(), parts.last());
            assert(q == parts.drop_last().push(parts.last().push(t.last())));
            lemma_concat_push(parts.drop_last(), parts.last().push(t.last()));
            assert(parts.last().push(t.last()) == parts.last() + seq![t.last()]);
            assert(concat_lines(q) == concat_lines(parts) + seq![t.last()]);
            lemma_visible_add(concat_lines(parts), seq![t.last()]);
        }
    }
}

proof fn lemma_normalize_visible(s: Seq<char>)
    ensures
        visible(normalize_newlines(s)) == visible(s),
    decreases s.len(),
{
    if s.len() > 0 {
        let (head, rest): (Seq<char>, Seq<char>) = if s[0] == '\r' && s.len() > 1 && s[1] == '\n' {
            (seq![s[0], s[1]], s.skip(2))
        } else {
            (seq![s[0]], s.skip(1))
        };
        assert(s == head + rest);
        lemma_normalize_visible(rest);
        lemma_visible_add(head, rest);
        let nh = if s[0] == '\r' { '\n' } else { s[0] };
        assert(normalize_newlines(s) == seq![nh] + normalize_newlines(rest));
        lemma_visible_add(seq![nh], normalize_newlines(rest));
        if s[0] == '\r' {
            lemma_visible_ws('\n');
            if s.len() > 1 && s[1] == '\n' {
                assert(head == seq![s[0]] + seq![s[1]]);
                lemma_visible_add(seq![s[0]], seq![s[1]]);
                lemma_visible_ws(s[0]);
                lemma_visible_ws(s[1]);
            } else {
                lemma_visible_ws(s[0]);
            }
        }
    }
}

/// Wrapping loses no visible character: the wrapped lines, put together,
/// hold the text's characters other than whitespace, in order. A zero width
/// is left out: it gives a single empty line.
pub proof fn lemma_wrap_keeps_text(text: Seq<char>, max: usize)
    requires
        max > 0,
    ensures
        visible(concat_lines(wrap_display_spec(text, max))) == visible(text),
{
    let n = normalize_newlines(text);
    lemma_normalize_visible(text);
    lemma_split_visible(n);
    lemma_pieces_visible(split_on(n, '\n'), max);
    let r = wrap_pieces(split_on(n, '\n'), max);
    if r.len() == 0 {
        assert(concat_lines(r) == Seq::<char>::empty());
        lemma_concat_single(Seq::<char>::empty());
    }
}

} // verus!

verus! {

/// The shape of a wrapped line for width `max`: it fits the width or holds a
/// single (too wide) character, and it neither starts nor ends with
/// whitespace.
pub open spec fn line_shape_ok(l: Seq<char>, max: usize) -> bool {
    &&& (width_sum(l) <= max || l.len() == 1)
    &&& (l.len() == 0 || (!is_white_space(l[0]) && !is_white_space(l.last())))
}

proof fn lemma_trim_end_last(s: Seq<char>)
    ensures
        trim_end(s).len() > 0 ==> !is_white_space(trim_end(s).last()),
    decreases s.len(),
{
    if s.len() > 0 && is_white_space(s.last()) {
        lemma_trim_end_last(s.drop_last());
    }
}

proof fn lemma_trimmed_line_shape(line: Seq<char>, max: usize)
    requires
        width_sum(line) <= max || line.len() == 1,
        line.len() == 0 || !is_white_space(line[0]),
    ensures
        line_shape_ok(trim_end(line), max),
{
    lemma_trim_end_sub(line);
    let b = choose|b: int| 0 <= b <= line.len() && trim_end(line) == line.subrange(0, b);
    lemma_width_sum_prefix(line, b);
    lemma_trim_end_last(line);
    let t = trim_end(line);
    if t.len() > 0 {
        assert(t[0] == line[0]);
    }
}

proof fn lemma_wrap_run_shape(
    s: Seq<char>,
    i: int,
    line: Seq<char>,
    width: usize,
    max: usize,
    acc: Seq<Seq<char>>,
)
    requires
        0 <= i <= s.len(),
        max < usize::MAX,
        width == width_sum(line),
        width <= max || line.len() == 1,
        line.len() == 0 || !is_white_space(line[0]),
        forall|k: int| 0 <= k < acc.len() ==> line_shape_ok(#[trigger] acc[k], max),
    ensures
        forall|k: int| 0 <= k < wrap_run(s, i, line, width, max, acc).len() ==> line_shape_ok(
            #[trigger] wrap_run(s, i, line, width, max, acc)[k],
            max,
        ),
    decreases s.len() - i,
{
    if i >= s.len() {
        if line.len() > 0 {
            lemma_trimmed_line_shape(line, max);
            let r = acc.push(trim_end(line));
            assert forall|k: int| 0 <= k < r.len() implies line_shape_ok(#[trigger] r[k], max) by {
                if k < acc.len() {
                    assert(r[k] == acc[k]);
                }
            }
        }
    } else {
        let c = s[i];
        let w = cwu(c);
        let brk = line.len() > 0 && width.saturating_add(w) > max;
        let acc2 = if brk {
            acc.push(trim_end(line))
        } else {
            acc
        };
        if brk {
            lemma_trimmed_line_shape(line, max);
            assert forall|k: int| 0 <= k < acc2.len() implies line_shape_ok(#[trigger] acc2[k], max) by {
                if k < acc.len() {
                    assert(acc2[k] == acc[k]);
                }
            }
        }
        let line2 = if brk {
            Seq::<char>::empty()
        } else {
            line
        };
        let width2: usize = if brk {
            0
        } else {
            width
        };
        if line.len() == 0 {
            assert(width == 0);
        }
        if is_white_space(c) && line2.len() == 0 {
            assert(wrap_run(s, i, line, width, max, acc) == wrap_run(s, i + 1, line2, width2, max, acc2));
            lemma_wrap_run_shape(s, i + 1, line2, width2, max, acc2);
        } else {
            assert(wrap_run(s, i, line, width, max, acc) == wrap_run(
                s,
                i + 1,
                line2.push(c),
                width2.saturating_add(w),
                max,
                acc2,
            ));
            assert(line2.push(c).drop_last() == line2);
            assert(width_sum(line2.push(c)) == width_sum(line2) + cw(c));
            if line2.len() == 0 {
                assert(width2 == 0);
                assert(line2.push(c).len() == 1);
            } else {
                assert(width2 + w <= max);
                assert(line2.push(c)[0] == line2[0]);
            }
            lemma_wrap_run_shape(s, i + 1, line2.push(c), width2.saturating_add(w), max, acc2);
        }
    }
}

proof fn lemma_wrap_pieces_shape(ps: Seq<Seq<char>>, max: usize)
    requires
        max < usize::MAX,
    ensures
        forall|k: int| 0 <= k < wrap_pieces(ps, max).len() ==> line_shape_ok(
            #[trigger] wrap_pieces(ps, max)[k],
            max,
        ),
    decreases ps.len(),
{
    if ps.len() > 0 {
        lemma_wrap_pieces_shape(ps.drop_last(), max);
        let p = ps.last();
        let tp = trim(p);
        let pl = piece_lines(p, max);
        if tp.len() > 0 {
            lemma_wrap_run_shape(tp, 0, Seq::empty(), 0, max, Seq::empty());
        } else {
            assert(pl == seq![Seq::<char>::empty()]);
            assert(line_shape_ok(pl[0], max));
        }
        let r = wrap_pieces(ps, max);
        let r0 = wrap_pieces(ps.drop_last(), max);
        assert(r == r0 + pl);
        assert forall|k: int| 0 <= k < r.len() implies line_shape_ok(#[trigger] r[k], max) by {
            if k < r0.len() {
                assert(r[k] == r0[k]);
            } else {
                assert(r[k] == pl[k - r0.len()]);
            }
        }
    }
}

/// Every wrapped line fits the width, unless it holds a single character
/// that is wider on its own; and no wrapped line starts or ends with
/// whitespace. The widest width, `usize::MAX`, is left out.
pub proof fn lemma_wrapped_lines_shape(text: Seq<char>, max: usize)
    requires
        max < usize::MAX,
    ensures
        forall|k: int| 0 <= k < wrap_display_spec(text, max).len() ==> line_shape_ok(
            #[trigger] wrap_display_spec(text, max)[k],
            max,
        ),
{
    let e = seq![Seq::<char>::empty()];
    assert(line_shape_ok(e[0], max));
    if max > 0 {
        lemma_wrap_pieces_shape(split_on(normalize_newlines(text), '\n'), max);
    }
}

} // verus!

