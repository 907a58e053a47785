//! Character-level text utilities: whitespace, trimming, searching and
//! conversions between `str`, `String` and `Vec<char>`.
use vstd::prelude::*;

verus! {

/// The Unicode `White_Space` property (PropList.txt), which is what
/// `char::is_whitespace` and `str::trim` test.
pub open spec fn is_white_space(c: char) -> bool {
    ||| ('\u{9}' <= c && c <= '\u{d}')
    ||| c == ' '
    ||| c == '\u{85}'
    ||| c == '\u{a0}'
    ||| c == '\u{1680}'
    ||| ('\u{2000}' <= c && c <= '\u{200a}')
    ||| c == '\u{2028}'
    ||| c == '\u{2029}'
    ||| c == '\u{202f}'
    ||| c == '\u{205f}'
    ||| c == '\u{3000}'
}

/// Whether `c` is a Unicode whitespace character.
pub fn is_whitespace(c: char) -> (r: bool)
    ensures
        r == is_white_space(c),
{
    ('\u{9}' <= c && c <= '\u{d}') || c == ' ' || c == '\u{85}' || c == '\u{a0}' || c
        == '\u{1680}' || ('\u{2000}' <= c && c <= '\u{200a}') || c == '\u{2028}' || c
        == '\u{2029}' || c == '\u{202f}' || c == '\u{205f}' || c == '\u{3000}'
}

/// `s` without its leading whitespace.
pub open spec fn trim_start(s: Seq<char>) -> Seq<char>
    decreases s.len(),
{
    if s.len() > 0 && is_white_space(s[0]) {
        trim_start(s.drop_first())
    } else {
        s
    }
}

/// `s` without its trailing whitespace.
pub open spec fn trim_end(s: Seq<char>) -> Seq<char>
    decreases s.len(),
{
    if s.len() > 0 && is_white_space(s.last()) {
        trim_end(s.drop_last())
    } else {
        s
    }
}

/// `s` without leading and trailing whitespace, as `str::trim` gives it.
pub open spec fn trim(s: Seq<char>) -> Seq<char> {
    trim_end(trim_start(s))
}

/// `s` without leading and trailing occurrences of `c`, as `str::trim_matches(c)`.
pub open spec fn strip_char(s: Seq<char>, c: char) -> Seq<char> {
    strip_char_end(strip_char_start(s, c), c)
}

/// `s` without leading occurrences of `c`.
pub open spec fn strip_char_start(s: Seq<char>, c: char) -> Seq<char>
    decreases s.len(),
{
    if s.len() > 0 && s[0] == c {
        strip_char_start(s.drop_first(), c)
    } else {
        s
    }
}

/// `s` without trailing occurrences of `c`.
pub open spec fn strip_char_end(s: Seq<char>, c: char) -> Seq<char>
    decreases s.len(),
{
    if s.len() > 0 && s.last() == c {
        strip_char_end(s.drop_last(), c)
    } else {
        s
    }
}

/// Whether `p` occurs in `h` starting at position `i`.
pub open spec fn occurs_at(h: Seq<char>, p: Seq<char>, i: int) -> bool {
    0 <= i && i + p.len() <= h.len() && h.subrange(i, i + p.len()) == p
}

/// The first position at or after `from` where `p` occurs in `h`.
pub open spec fn find_from(h: Seq<char>, p: Seq<char>, from: int) -> Option<int>
    decreases h.len() + 1 - from,
{
    if from < 0 || from > h.len() || from + p.len() > h.len() {
        None
    } else if occurs_at(h, p, from) {
        Some(from)
    } else {
        find_from(h, p, from + 1)
    }
}

/// The first position where `p` occurs in `h`, as `str::find` gives it
/// (counted in characters rather than bytes).
pub open spec fn find(h: Seq<char>, p: Seq<char>) -> Option<int> {
    find_from(h, p, 0)
}

/// The characters of `s`, in order.
pub fn chars_of(s: &str) -> (r: Vec<char>)
    ensures
        r@ == s@,
{
    let mut v: Vec<char> = Vec::new();
    for c in it: s.chars()
        invariant
            v@ == it.seq().take(it.index() as int),
    {
        v.push(c);
    }
    v
}

/// Appends one character to a `String` (`String::push`).
#[verifier::external_body]
fn string_push(s: &mut String, c: char)
    ensures
        final(s)@ == old(s)@.push(c),
{
    s.push(c);
}

/// The `String` made of the characters of `v`.
pub fn string_of(v: &[char]) -> (r: String)
    ensures
        r@ == v@,
{
    let mut s = String::new();
    let n = v.len();
    for i in 0..n
        invariant
            n == v@.len(),
            s@ == v@.take(i as int),
    {
        string_push(&mut s, v[i]);
        assert(v@.take(i + 1) == v@.take(i as int).push(v@[i as int]));
    }
    assert(v@.take(n as int) == v@);
    s
}

/// Appends the characters of `src` to `dst`.
pub fn extend_chars(dst: &mut Vec<char>, src: &[char])
    ensures
        final(dst)@ == old(dst)@ + src@,
{
    let n = src.len();
    for i in 0..n
        invariant
            n == src@.len(),
            dst@ == old(dst)@ + src@.take(i as int),
    {
        dst.push(src[i]);
        assert(src@.take(i + 1) == src@.take(i as int).push(src@[i as int]));
    }
    assert(src@.take(n as int) == src@);
}

/// The characters `v[from..to]`.
pub fn sub_chars(v: &[char], from: usize, to: usize) -> (r: Vec<char>)
    requires
        from <= to <= v@.len(),
    ensures
        r@ == v@.subrange(from as int, to as int),
{
    let mut r: Vec<char> = Vec::new();
    let mut i = from;
    while i < to
        invariant
            from <= i <= to <= v@.len(),
            r@ == v@.subrange(from as int, i as int),
        decreases to - i,
    {
        r.push(v[i]);
        assert(v@.subrange(from as int, i + 1) == v@.subrange(from as int, i as int).push(
            v@[i as int],
        ));
        i += 1;
    }
    r
}

proof fn lemma_trim_start_skip(s: Seq<char>, i: int)
    requires
        0 <= i < s.len(),
        is_white_space(s[i]),
    ensures
        trim_start(s.subrange(i, s.len() as int)) == trim_start(s.subrange(i + 1, s.len() as int)),
{
    assert(s.subrange(i, s.len() as int).drop_first() == s.subrange(i + 1, s.len() as int));
}

proof fn lemma_trim_end_skip(s: Seq<char>, j: int)
    requires
        0 < j <= s.len(),
        is_white_space(s[j - 1]),
    ensures
        trim_end(s.subrange(0, j)) == trim_end(s.subrange(0, j - 1)),
{
    assert(s.subrange(0, j).drop_last() == s.subrange(0, j - 1));
}

/// The bounds `(start, end)` such that `v[start..end]` is `v` trimmed.
pub fn trim_bounds(v: &[char]) -> (r: (usize, usize))
    ensures
        r.0 <= r.1 <= v@.len(),
        v@.subrange(r.0 as int, r.1 as int) == trim(v@),
{
    let n = v.len();
    let mut i: usize = 0;
    assert(v@.subrange(0, n as int) == v@);
    while i < n && is_whitespace(v[i])
        invariant
            i <= n == v@.len(),
            trim_start(v@) == trim_start(v@.subrange(i as int, n as int)),
        decreases n - i,
    {
        proof {
            lemma_trim_start_skip(v@, i as int);
        }
        i += 1;
    }
    let ghost rest = v@.subrange(i as int, n as int);
    assert(trim_start(v@) == rest);
    let mut j: usize = n;
    assert(rest.subrange(0, (n - i) as int) == rest);
    while j > i && is_whitespace(v[j - 1])
        invariant
            i <= j <= n == v@.len(),
            rest == v@.subrange(i as int, n as int),
            trim_end(rest) == trim_end(rest.subrange(0, (j - i) as int)),
        decreases j - i,
    {
        proof {
            lemma_trim_end_skip(rest, (j - i) as int);
        }
        j -= 1;
    }
    assert(rest.subrange(0, (j - i) as int) == v@.subrange(i as int, j as int));
    (i, j)
}

/// `s` trimmed of leading and trailing whitespace (`str::trim`).
pub fn trim_chars(v: &[char]) -> (r: Vec<char>)
    ensures
        r@ == trim(v@),
{
    let (a, b) = trim_bounds(v);
    sub_chars(v, a, b)
}

/// `s` trimmed of leading and trailing whitespace, as a `String`.
pub fn trim_str(s: &str) -> (r: String)
    ensures
        r@ == trim(s@),
{
    let v = chars_of(s);
    let t = trim_chars(&v);
    string_of(&t)
}

/// The first position at or after `from` where `p` occurs in `h`.
pub fn find_chars_from(h: &[char], p: &[char], from: usize) -> (r: Option<usize>)
    ensures
        match r {
            Some(k) => find_from(h@, p@, from as int) == Some(k as int),
            None => find_from(h@, p@, from as int) is None,
        },
{
    let n = h.len();
    let m = p.len();
    let mut i = from;
    while i <= n && m <= n - i
        invariant
            from <= i,
            n == h@.len(),
            m == p@.len(),
            find_from(h@, p@, from as int) == find_from(h@, p@, i as int),
        decreases n - i,
    {
        let mut k: usize = 0;
        let mut same = true;
        while k < m
            invariant
                k <= m == p@.len(),
                i + m <= n == h@.len(),
                same == (forall|t: int| 0 <= t < k ==> h@[i + t] == p@[t]),
            decreases m - k,
        {
            if h[i + k] != p[k] {
                same = false;
            }
            k += 1;
        }
        if same {
            assert(h@.subrange(i as int, i + m) =~= p@);
            return Some(i);
        } else {
            assert(!occurs_at(h@, p@, i as int)) by {
                if occurs_at(h@, p@, i as int) {
                    assert forall|t: int| 0 <= t < m implies h@[i + t] == p@[t] by {
                        assert(h@.subrange(i as int, i + m)[t] == h@[i + t]);
                    }
                }
            }
        }
        i += 1;
    }
    None
}

} // verus!

verus! {

/// `s` with every `"\r\n"` and then every remaining `'\r'` turned into `'\n'`
/// (what `s.replace("\r\n", "\n").replace('\r', "\n")` gives).
pub open spec fn normalize_newlines(s: Seq<char>) -> Seq<char>
    decreases s.len(),
{
    if s.len() == 0 {
        s
    } else if s[0] == '\r' && s.len() > 1 && s[1] == '\n' {
        seq!['\n'] + normalize_newlines(s.skip(2))
    } else if s[0] == '\r' {
        seq!['\n'] + normalize_newlines(s.skip(1))
    } else {
        seq![s[0]] + normalize_newlines(s.skip(1))
    }
}

/// The pieces of `s` between occurrences of `c` (`str::split(c)`): there is
/// always at least one piece, and one more than there are occurrences of `c`.
pub open spec fn split_on(s: Seq<char>, c: char) -> Seq<Seq<char>>
    decreases s.len(),
{
    if s.len() == 0 {
        seq![Seq::empty()]
    } else {
        let parts = split_on(s.drop_last(), c);
        if s.last() == c {
            parts.push(Seq::empty())
        } else {
            parts.update(parts.len() - 1, parts.last().push(s.last()))
        }
    }
}

/// The pieces of `parts` joined with `sep` between them (`[&str]::join`).
pub open spec fn join_with(parts: Seq<Seq<char>>, sep: Seq<char>) -> Seq<char>
    decreases parts.len(),
{
    if parts.len() == 0 {
        Seq::empty()
    } else if parts.len() == 1 {
        parts[0]
    } else {
        join_with(parts.drop_last(), sep) + sep + parts.last()
    }
}

/// `s` with each `'\r'` and `'\n'` replaced by a space (`replace(['\r', '\n'], " ")`).
pub open spec fn single_line_spec(s: Seq<char>) -> Seq<char> {
    s.map_values(|c: char| if c == '\r' || c == '\n' { ' ' } else { c })
}

/// Splitting always gives at least one piece.
pub proof fn lemma_split_nonempty(s: Seq<char>, c: char)
    ensures
        split_on(s, c).len() >= 1,
    decreases s.len(),
{
    if s.len() > 0 {
        lemma_split_nonempty(s.drop_last(), c);
    }
}

/// Joining the pieces of a split with the separator gives the text back.
pub proof fn lemma_join_split(s: Seq<char>, c: char)
    ensures
        join_with(split_on(s, c), seq![c]) == s,
    decreases s.len(),
{
    if s.len() > 0 {
        let t = s.drop_last();
        lemma_join_split(t, c);
        lemma_split_nonempty(t, c);
        let parts = split_on(t, c);
        if s.last() == c {
            assert(parts.push(Seq::empty()).drop_last() == parts);
            assert(s == t + seq![c] + Seq::<char>::empty());
        } else {
            let q = parts.update(parts.len() - 1, parts.last().push(s.last()));
            if parts.len() == 1 {
                assert(t == parts[0]);
                assert(s == q[0]);
            } else {
                assert(q.drop_last() == parts.drop_last());
                assert(join_with(parts, seq![c]) == join_with(parts.drop_last(), seq![c]) + seq![c]
                    + parts.last());
                assert(s == t.push(s.last()));
                assert(join_with(q, seq![c]) == join_with(q.drop_last(), seq![c]) + seq![c]
                    + q.last());
                assert(s == join_with(parts.drop_last(), seq![c]) + seq![c] + parts.last().push(
                    s.last(),
                ));
            }
        }
    }
}

/// `text` with `"\r\n"` and `'\r'` turned into `'\n'`.
pub fn normalize_newline_chars(v: &[char]) -> (r: Vec<char>)
    ensures
        r@ == normalize_newlines(v@),
{
    let n = v.len();
    let mut out: Vec<char> = Vec::new();
    let mut i: usize = 0;
    assert(v@.skip(0) == v@);
    while i < n
        invariant
            i <= n == v@.len(),
            out@ + normalize_newlines(v@.skip(i as int)) == normalize_newlines(v@),
        decreases n - i,
    {
        let ghost rest = v@.skip(i as int);
        if v[i] == '\r' && i + 1 < n && v[i + 1] == '\n' {
            out.push('\n');
            assert(rest.skip(2) == v@.skip(i + 2));
            i += 2;
        } else if v[i] == '\r' {
            out.push('\n');
            assert(rest.skip(1) == v@.skip(i + 1));
            i += 1;
        } else {
            out.push(v[i]);
            assert(rest.skip(1) == v@.skip(i + 1));
            i += 1;
        }
    }
    assert(v@.skip(n as int) == Seq::<char>::empty());
    out
}

/// The pieces of `v` between occurrences of `c`.
pub fn split_chars(v: &[char], c: char) -> (r: Vec<Vec<char>>)
    ensures
        r@.map_values(|p: Vec<char>| p@) == split_on(v@, c),
{
    let n = v.len();
    let mut parts: Vec<Vec<char>> = Vec::new();
    let mut cur: Vec<char> = Vec::new();
    for i in 0..n
        invariant
            n == v@.len(),
            parts@.map_values(|p: Vec<char>| p@).push(cur@) == split_on(v@.take(i as int), c),
    {
        proof {
            assert(v@.take(i + 1).drop_last() == v@.take(i as int));
            lemma_split_nonempty(v@.take(i as int), c);
        }
        if v[i] == c {
            parts.push(cur);
            cur = Vec::new();
            assert(parts@.map_values(|p: Vec<char>| p@) == split_on(v@.take(i as int), c));
        } else {
            cur.push(v[i]);
            let ghost old_parts = parts@.map_values(|p: Vec<char>| p@);
            assert(old_parts.push(cur@) == split_on(v@.take(i as int), c).update(
                old_parts.len() as int,
                split_on(v@.take(i as int), c).last().push(v@[i as int]),
            ));
        }
    }
    parts.push(cur);
    assert(v@.take(n as int) == v@);
    parts
}

/// The characters of `v` joined with `sep` between them.
pub fn join_chars(parts: &Vec<Vec<char>>, sep: &[char]) -> (r: Vec<char>)
    ensures
        r@ == join_with(parts@.map_values(|p: Vec<char>| p@), sep@),
{
    let ghost views = parts@.map_values(|p: Vec<char>| p@);
    let n = parts.len();
    let mut out: Vec<char> = Vec::new();
    for i in 0..n
        invariant
            n == parts@.len(),
            views == parts@.map_values(|p: Vec<char>| p@),
            out@ == join_with(views.take(i as int), sep@),
    {
        assert(views.take(i + 1).drop_last() == views.take(i as int));
        if i > 0 {
            extend_chars(&mut out, sep);
        }
        extend_chars(&mut out, &parts[i]);
        assert(views.take(i + 1).last() == parts@[i as int]@);
        if i == 0 {
            assert(out@ == views.take(1)[0]);
        }
    }
    assert(views.take(n as int) == views);
    out
}

/// The text on one line: each `'\r'` and `'\n'` replaced by a space.
pub fn single_line(text: &str) -> (r: String)
    ensures
        r@ == single_line_spec(text@),
{
    let v = chars_of(text);
    let n = v.len();
    let mut out: Vec<char> = Vec::new();
    for i in 0..n
        invariant
            n == v@.len(),
            out@ == single_line_spec(v@.take(i as int)),
    {
        if v[i] == '\r' || v[i] == '\n' {
            out.push(' ');
        } else {
            out.push(v[i]);
        }
        assert(single_line_spec(v@.take(i + 1)) == single_line_spec(v@.take(i as int)).push(
            if v@[i as int] == '\r' || v@[i as int] == '\n' { ' ' } else { v@[i as int] },
        ));
    }
    assert(v@.take(n as int) == v@);
    string_of(&out)
}

} // verus!

verus! {

/// `v` without its trailing whitespace (`str::trim_end`).
pub fn trim_end_chars(v: &[char]) -> (r: Vec<char>)
    ensures
        r@ == trim_end(v@),
{
    let n = v.len();
    let mut j: usize = n;
    assert(v@.subrange(0, n as int) == v@);
    while j > 0 && is_whitespace(v[j - 1])
        invariant
            j <= n == v@.len(),
            trim_end(v@) == trim_end(v@.subrange(0, j as int)),
        decreases j,
    {
        assert(v@.subrange(0, j as int).drop_last() == v@.subrange(0, j - 1));
        j -= 1;
    }
    sub_chars(v, 0, j)
}

/// The views of a vector of strings.
pub open spec fn string_views(v: Seq<String>) -> Seq<Seq<char>> {
    v.map_values(|s: String| s@)
}

/// Converts a vector of character vectors into strings.
pub fn strings_of(parts: &Vec<Vec<char>>) -> (r: Vec<String>)
    ensures
        string_views(r@) == parts@.map_values(|p: Vec<char>| p@),
{
    let n = parts.len();
    let mut out: Vec<String> = Vec::new();
    for i in 0..n
        invariant
            n == parts@.len(),
            string_views(out@) == parts@.take(i as int).map_values(|p: Vec<char>| p@),
    {
        let s = string_of(&parts[i]);
        let ghost prev = out@;
        out.push(s);
        assert(string_views(out@) =~= string_views(prev).push(s@));
        assert(parts@.take(i + 1) == parts@.take(i as int).push(parts@[i as int]));
        assert(parts@.take(i + 1).map_values(|p: Vec<char>| p@) =~= parts@.take(
            i as int,
        ).map_values(|p: Vec<char>| p@).push(parts@[i as int]@));
    }
    assert(parts@.take(n as int) == parts@);
    out
}

/// The lines of an input text: newlines normalized, then split on `'\n'`.
/// A trailing newline gives a last, empty line.
pub fn input_lines(text: &str) -> (r: Vec<String>)
    ensures
        string_views(r@) == split_on(normalize_newlines(text@), '\n'),
{
    let v = chars_of(text);
    let norm = normalize_newline_chars(&v);
    let parts = split_chars(&norm, '\n');
    strings_of(&parts)
}

/// The lines joined with `'\n'` (`lines.join("\n")`).
pub fn join_input_lines(lines: &[String]) -> (r: String)
    ensures
        r@ == join_with(string_views(lines@), seq!['\n']),
{
    let n = lines.len();
    let mut parts: Vec<Vec<char>> = Vec::new();
    for i in 0..n
        invariant
            n == lines@.len(),
            parts@.map_values(|p: Vec<char>| p@) == string_views(lines@.take(i as int)),
    {
        let c = chars_of(lines[i].as_str());
        let ghost prev = parts@;
        parts.push(c);
        assert(parts@.map_values(|p: Vec<char>| p@) =~= prev.map_values(|p: Vec<char>| p@).push(
            c@,
        ));
        assert(lines@.take(i + 1) == lines@.take(i as int).push(lines@[i as int]));
        assert(string_views(lines@.take(i + 1)) =~= string_views(lines@.take(i as int)).push(
            lines@[i as int]@,
        ));
    }
    assert(lines@.take(n as int) == lines@);
    let sep = vec!['\n'];
    assert(sep@ =~= seq!['\n']);
    let joined = join_chars(&parts, &sep);
    string_of(&joined)
}

/// Loading a text into the input lines and reading it back gives the text
/// with its line breaks normalized; trailing newlines are kept.
pub proof fn lemma_input_roundtrip(text: Seq<char>)
    ensures
        join_with(split_on(normalize_newlines(text), '\n'), seq!['\n']) == normalize_newlines(text),
{
    lemma_join_split(normalize_newlines(text), '\n');
}

} // verus!

verus! {

/// Whether two character sequences are equal.
pub fn chars_eq(a: &[char], b: &[char]) -> (r: bool)
    ensures
        r == (a@ == b@),
{
    if a.len() != b.len() {
        return false;
    }
    let n = a.len();
    for i in 0..n
        invariant
            n == a@.len() == b@.len(),
            forall|j: int| 0 <= j < i ==> a@[j] == b@[j],
    {
        if a[i] != b[i] {
            return false;
        }
    }
    assert(a@ =~= b@);
    true
}

/// Whether two strings hold the same characters.
pub fn str_eq(a: &str, b: &str) -> (r: bool)
    ensures
        r == (a@ == b@),
{
    let x = chars_of(a);
    let y = chars_of(b);
    chars_eq(&x, &y)
}

} // verus!

verus! {

/// A found position is an occurrence, at or after the start of the search.
pub proof fn lemma_find_from_occurs(h: Seq<char>, p: Seq<char>, from: int)
    ensures
        find_from(h, p, from) matches Some(k) ==> from <= k && occurs_at(h, p, k),
    decreases h.len() + 1 - from,
{
    if !(from < 0 || from > h.len() || from + p.len() > h.len()) && !occurs_at(h, p, from) {
        lemma_find_from_occurs(h, p, from + 1);
    }
}

/// Copies of the strings of `src`, appended to `out`.
pub fn push_strings(out: &mut Vec<String>, src: &Vec<String>)
    ensures
        string_views(final(out)@) == string_views(old(out)@) + string_views(src@),
{
    let n = src.len();
    let ghost start = string_views(out@);
    for i in 0..n
        invariant
            n == src@.len(),
            string_views(out@) == start + string_views(src@.take(i as int)),
    {
        let s = src[i].clone();
        let ghost prev = out@;
        out.push(s);
        assert(string_views(out@) =~= string_views(prev).push(s@));
        assert(src@.take(i + 1) == src@.take(i as int).push(src@[i as int]));
        assert(string_views(src@.take(i + 1)) =~= string_views(src@.take(i as int)).push(
            src@[i as int]@,
        ));
    }
    assert(src@.take(n as int) == src@);
}

/// Copies of the strings of `src`.
pub fn clone_strings(src: &Vec<String>) -> (r: Vec<String>)
    ensures
        string_views(r@) == string_views(src@),
{
    let mut out: Vec<String> = Vec::new();
    assert(string_views(out@) =~= Seq::<Seq<char>>::empty());
    push_strings(&mut out, src);
    assert(string_views(out@) =~= string_views(src@));
    out
}

} // verus!

verus! {

/// The strings joined with `sep` between them (`[String]::join`).
pub fn join_strings(parts: &Vec<String>, sep: &str) -> (r: String)
    ensures
        r@ == join_with(string_views(parts@), sep@),
{
    let n = parts.len();
    let mut out = String::new();
    for i in 0..n
        invariant
            n == parts@.len(),
            out@ == join_with(string_views(parts@.take(i as int)), sep@),
    {
        let ghost sv = string_views(parts@.take(i + 1));
        assert(sv.drop_last() =~= string_views(parts@.take(i as int)));
        assert(sv.last() == parts@[i as int]@);
        if i > 0 {
            out.append(sep);
        } else {
            assert(sv.len() == 1);
        }
        out.append(parts[i].as_str());
    }
    assert(parts@.take(n as int) == parts@);
    out
}

} // verus!

verus! {

/// Whether every character of `s` is ASCII.
pub open spec fn ascii_only(s: Seq<char>) -> bool {
    forall|i: int| 0 <= i < s.len() ==> (#[trigger] s[i] as u32) < 0x80
}

/// ASCII uppercase of one character (`char::to_ascii_uppercase`).
pub open spec fn ascii_upper(c: char) -> char {
    if 'a' <= c && c <= 'z' {
        ((c as u8) - 32) as char
    } else {
        c
    }
}

} // verus!

