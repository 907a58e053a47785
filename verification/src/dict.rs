//! Dictionary entries, the structured answer of the dictionary service, and
//! the query planning that decides between a dictionary lookup and a
//! sentence translation.
use vstd::prelude::*;

use crate::error::AppError;
use crate::text::{
    ascii_only, chars_of, find, find_chars_from, occurs_at, is_white_space, is_whitespace, join_chars, join_with, string_of,
    string_views, sub_chars, trim, trim_chars, trim_str,
};

verus! {

/// A bilingual example sentence.
#[derive(Debug)]
pub struct Example {
    pub orig: String,
    pub trans: String,
}

/// The meanings listed under one part of speech.
#[derive(Debug)]
pub struct DefinitionGroup {
    pub pos: String,
    pub meanings: Vec<String>,
}

/// A dictionary entry for one word.
#[derive(Debug)]
pub struct WordDetail {
    pub word: String,
    pub phonetic_us: Option<String>,
    pub phonetic_uk: Option<String>,
    pub tags: Vec<String>,
    pub definitions: Vec<DefinitionGroup>,
    pub examples: Vec<Example>,
}

/// The result of a query: a dictionary entry or a translated sentence.
#[derive(Debug)]
pub enum QueryOutput {
    Dict(WordDetail),
    Sentence { original: String, translated: String, detected_lang: String, target_lang: String },
}

/// The characters of an optional string.
pub open spec fn opt_view(o: Option<String>) -> Option<Seq<char>> {
    match o {
        Some(s) => Some(s@),
        None => None,
    }
}

/// A part of speech and its meanings, as character sequences.
pub type DefinitionView = (Seq<char>, Seq<Seq<char>>);

/// The abstract content of a dictionary entry.
pub struct WordDetailView {
    pub word: Seq<char>,
    pub phonetic_us: Option<Seq<char>>,
    pub phonetic_uk: Option<Seq<char>>,
    pub tags: Seq<Seq<char>>,
    pub definitions: Seq<DefinitionView>,
    pub examples: Seq<(Seq<char>, Seq<char>)>,
}

/// The abstract content of a query result.
pub enum QueryOutputView {
    Dict(WordDetailView),
    Sentence {
        original: Seq<char>,
        translated: Seq<char>,
        detected_lang: Seq<char>,
        target_lang: Seq<char>,
    },
}

impl View for Example {
    type V = (Seq<char>, Seq<char>);

    open spec fn view(&self) -> (Seq<char>, Seq<char>) {
        (self.orig@, self.trans@)
    }
}

impl View for DefinitionGroup {
    type V = DefinitionView;

    open spec fn view(&self) -> DefinitionView {
        (self.pos@, string_views(self.meanings@))
    }
}

impl View for WordDetail {
    type V = WordDetailView;

    open spec fn view(&self) -> WordDetailView {
        WordDetailView {
            word: self.word@,
            phonetic_us: opt_view(self.phonetic_us),
            phonetic_uk: opt_view(self.phonetic_uk),
            tags: string_views(self.tags@),
            definitions: self.definitions@.map_values(|d: DefinitionGroup| d@),
            examples: self.examples@.map_values(|e: Example| e@),
        }
    }
}

impl View for QueryOutput {
    type V = QueryOutputView;

    open spec fn view(&self) -> QueryOutputView {
        match self {
            QueryOutput::Dict(d) => QueryOutputView::Dict(d@),
            QueryOutput::Sentence { original, translated, detected_lang, target_lang } =>
                QueryOutputView::Sentence {
                original: original@,
                translated: translated@,
                detected_lang: detected_lang@,
                target_lang: target_lang@,
            },
        }
    }
}

/// One definition in a summary: the part of speech followed directly by the
/// meanings separated by spaces.
pub open spec fn definition_summary(d: DefinitionView) -> Seq<char> {
    d.0 + join_with(d.1, seq![' '])
}

/// The one-line summary of a result that the history keeps.
pub open spec fn summary_spec(o: QueryOutputView) -> Seq<char> {
    match o {
        QueryOutputView::Dict(w) => join_with(
            w.definitions.map_values(|d: DefinitionView| definition_summary(d)),
            seq![' '],
        ),
        QueryOutputView::Sentence { translated, .. } => translated,
    }
}

/// The characters of each string.
pub fn chars_of_strings(v: &Vec<String>) -> (r: Vec<Vec<char>>)
    ensures
        r@.map_values(|p: Vec<char>| p@) == string_views(v@),
{
    let n = v.len();
    let mut out: Vec<Vec<char>> = Vec::new();
    for i in 0..n
        invariant
            n == v@.len(),
            out@.map_values(|p: Vec<char>| p@) == string_views(v@.take(i as int)),
    {
        let c = chars_of(v[i].as_str());
        let ghost prev = out@;
        out.push(c);
        assert(out@.map_values(|p: Vec<char>| p@) =~= prev.map_values(|p: Vec<char>| p@).push(c@));
        assert(v@.take(i + 1) == v@.take(i as int).push(v@[i as int]));
        assert(string_views(v@.take(i + 1)) =~= string_views(v@.take(i as int)).push(v@[i as int]@));
    }
    assert(v@.take(n as int) == v@);
    out
}

impl QueryOutput {
    /// A one-line summary: the translation of a sentence, or the parts of
    /// speech with their meanings for a dictionary entry.
    pub fn summary(&self) -> (r: String)
        ensures
            r@ == summary_spec(self@),
    {
        match self {
            QueryOutput::Dict(detail) => {
                let defs = &detail.definitions;
                let ghost dv = defs@.map_values(|d: DefinitionGroup| d@);
                let ghost sv = dv.map_values(|d: DefinitionView| definition_summary(d));
                let n = defs.len();
                let mut parts: Vec<Vec<char>> = Vec::new();
                let space = vec![' '];
                assert(space@ =~= seq![' ']);
                for i in 0..n
                    invariant
                        n == defs@.len(),
                        dv == defs@.map_values(|d: DefinitionGroup| d@),
                        sv == dv.map_values(|d: DefinitionView| definition_summary(d)),
                        space@ == seq![' '],
                        parts@.map_values(|p: Vec<char>| p@) == sv.take(i as int),
                {
                    let mut piece = chars_of(defs[i].pos.as_str());
                    let meanings = chars_of_strings(&defs[i].meanings);
                    let joined = join_chars(&meanings, &space);
                    crate::text::extend_chars(&mut piece, &joined);
                    let ghost prev = parts@;
                    parts.push(piece);
                    assert(parts@.map_values(|p: Vec<char>| p@) =~= prev.map_values(
                        |p: Vec<char>| p@,
                    ).push(piece@));
                    assert(sv.take(i + 1) =~= sv.take(i as int).push(sv[i as int]));
                }
                assert(sv.take(n as int) == sv);
                let all = join_chars(&parts, &space);
                string_of(&all)
            },
            QueryOutput::Sentence { translated, .. } => translated.clone(),
        }
    }
}

} // verus!

verus! {

/// The answer of the dictionary service, as far as the entry is built from it.
#[derive(Debug)]
pub struct YoudaoResponse {
    pub ec: Option<YoudaoEc>,
    pub bilingual_sentences: Option<BilingualSentences>,
}

/// The English-Chinese part of the answer.
#[derive(Debug)]
pub struct YoudaoEc {
    pub exam_type: Option<Vec<String>>,
    pub word: Option<Vec<YoudaoWord>>,
}

/// One word of the English-Chinese part.
#[derive(Debug)]
pub struct YoudaoWord {
    pub usphone: Option<String>,
    pub ukphone: Option<String>,
    pub trs: Option<Vec<YoudaoTranslation>>,
}

/// A group of translation lines.
#[derive(Debug)]
pub struct YoudaoTranslation {
    pub tr: Option<Vec<YoudaoTranslationPart>>,
}

/// One part of a translation group.
#[derive(Debug)]
pub struct YoudaoTranslationPart {
    pub l: Option<YoudaoLanguagePart>,
}

/// The text lines of a translation part.
#[derive(Debug)]
pub struct YoudaoLanguagePart {
    pub i: Option<Vec<String>>,
}

/// The bilingual example sentences of the answer.
#[derive(Debug)]
pub struct BilingualSentences {
    pub sentence_pair: Option<Vec<BilingualSentence>>,
}

/// A sentence and its translation.
#[derive(Debug)]
pub struct BilingualSentence {
    pub sentence: Option<String>,
    pub translation: Option<String>,
}

/// The text lines of a translation part (none when a level is missing).
pub open spec fn part_lines(p: YoudaoTranslationPart) -> Seq<Seq<char>> {
    match p.l {
        Some(l) => match l.i {
            Some(v) => string_views(v@),
            None => Seq::empty(),
        },
        None => Seq::empty(),
    }
}

/// The text lines of the parts, in order.
pub open spec fn parts_lines(ps: Seq<YoudaoTranslationPart>) -> Seq<Seq<char>>
    decreases ps.len(),
{
    if ps.len() == 0 {
        Seq::empty()
    } else {
        parts_lines(ps.drop_last()) + part_lines(ps.last())
    }
}

/// The text lines of a translation group.
pub open spec fn translation_lines(t: YoudaoTranslation) -> Seq<Seq<char>> {
    match t.tr {
        Some(v) => parts_lines(v@),
        None => Seq::empty(),
    }
}

/// The text lines of the translation groups, in order.
pub open spec fn translations_lines(ts: Seq<YoudaoTranslation>) -> Seq<Seq<char>>
    decreases ts.len(),
{
    if ts.len() == 0 {
        Seq::empty()
    } else {
        translations_lines(ts.drop_last()) + translation_lines(ts.last())
    }
}

/// The first word of the English-Chinese part, if any.
pub open spec fn first_word(r: YoudaoResponse) -> Option<YoudaoWord> {
    match r.ec {
        Some(ec) => match ec.word {
            Some(ws) => if ws@.len() > 0 {
                Some(ws@[0])
            } else {
                None
            },
            None => None,
        },
        None => None,
    }
}

/// All definition lines of the answer.
pub open spec fn definition_lines(r: YoudaoResponse) -> Seq<Seq<char>> {
    match first_word(r) {
        Some(w) => match w.trs {
            Some(v) => translations_lines(v@),
            None => Seq::empty(),
        },
        None => Seq::empty(),
    }
}

/// A definition line split at its first `'.'`: the part of speech up to and
/// including the dot, and the trimmed rest as the meaning; without a dot,
/// no part of speech and the trimmed line as the meaning.
pub open spec fn definition_of_line(line: Seq<char>) -> DefinitionView {
    let t = trim(line);
    match find(t, seq!['.']) {
        Some(k) => (t.take(k + 1), seq![trim(t.skip(k + 1))]),
        None => (Seq::empty(), seq![t]),
    }
}

/// A phonetic spelling in the form `/ .. /`, when it is present and not empty.
pub open spec fn phonetic_spec(p: Option<String>) -> Option<Seq<char>> {
    match p {
        Some(s) => if s@.len() > 0 {
            Some(seq!['/', ' '] + s@ + seq![' ', '/'])
        } else {
            None
        },
        None => None,
    }
}

/// An example, when both sentences are present and not empty.
pub open spec fn example_of(p: BilingualSentence) -> Option<(Seq<char>, Seq<char>)> {
    match p.sentence {
        Some(o) => match p.translation {
            Some(t) => if o@.len() > 0 && t@.len() > 0 {
                Some((o@, t@))
            } else {
                None
            },
            None => None,
        },
        None => None,
    }
}

/// The usable examples among `ps`, in order.
pub open spec fn examples_of(ps: Seq<BilingualSentence>) -> Seq<(Seq<char>, Seq<char>)>
    decreases ps.len(),
{
    if ps.len() == 0 {
        Seq::empty()
    } else {
        examples_of(ps.drop_last()) + match example_of(ps.last()) {
            Some(e) => seq![e],
            None => Seq::empty(),
        }
    }
}

/// At most the first three elements of `s`.
pub open spec fn first_three<T>(s: Seq<T>) -> Seq<T> {
    if s.len() <= 3 {
        s
    } else {
        s.take(3)
    }
}

/// The entry built from an answer for `word`, or `None` when the answer
/// holds no definition.
pub open spec fn word_detail_spec(word: Seq<char>, r: YoudaoResponse) -> Option<WordDetailView> {
    let defs = definition_lines(r).map_values(|l: Seq<char>| definition_of_line(l));
    if defs.len() == 0 {
        None
    } else {
        Some(
            WordDetailView {
                word,
                phonetic_us: match first_word(r) {
                    Some(w) => phonetic_spec(w.usphone),
                    None => None,
                },
                phonetic_uk: match first_word(r) {
                    Some(w) => phonetic_spec(w.ukphone),
                    None => None,
                },
                tags: match r.ec {
                    Some(ec) => match ec.exam_type {
                        Some(v) => string_views(v@),
                        None => Seq::empty(),
                    },
                    None => Seq::empty(),
                },
                definitions: defs,
                examples: match r.bilingual_sentences {
                    Some(b) => match b.sentence_pair {
                        Some(v) => examples_of(first_three(v@)),
                        None => Seq::empty(),
                    },
                    None => Seq::empty(),
                },
            },
        )
    }
}

fn lines_from_parts(ps: &Vec<YoudaoTranslationPart>, out: &mut Vec<String>)
    ensures
        string_views(final(out)@) == string_views(old(out)@) + parts_lines(ps@),
{
    let n = ps.len();
    let ghost start = string_views(out@);
    for i in 0..n
        invariant
            n == ps@.len(),
            string_views(out@) == start + parts_lines(ps@.take(i as int)),
    {
        assert(ps@.take(i + 1).drop_last() == ps@.take(i as int));
        match &ps[i].l {
            Some(l) => match &l.i {
                Some(v) => crate::text::push_strings(out, v),
                None => {},
            },
            None => {},
        }
        assert(string_views(out@) =~= start + parts_lines(ps@.take(i + 1)));
    }
    assert(ps@.take(n as int) == ps@);
}

fn lines_from_translations(ts: &Vec<YoudaoTranslation>, out: &mut Vec<String>)
    ensures
        string_views(final(out)@) == string_views(old(out)@) + translations_lines(ts@),
{
    let n = ts.len();
    let ghost start = string_views(out@);
    for i in 0..n
        invariant
            n == ts@.len(),
            string_views(out@) == start + translations_lines(ts@.take(i as int)),
    {
        assert(ts@.take(i + 1).drop_last() == ts@.take(i as int));
        match &ts[i].tr {
            Some(parts) => lines_from_parts(parts, out),
            None => {},
        }
        assert(string_views(out@) =~= start + translations_lines(ts@.take(i + 1)));
    }
    assert(ts@.take(n as int) == ts@);
}

/// The definition made of one line of the dictionary answer.
pub fn definition_from_line(line: &str) -> (r: DefinitionGroup)
    ensures
        r@ == definition_of_line(line@),
{
    let v = chars_of(line);
    let t = trim_chars(&v);
    let dot = vec!['.'];
    assert(dot@ =~= seq!['.']);
    proof {
        crate::text::lemma_find_from_occurs(t@, dot@, 0);
    }
    match find_chars_from(&t, &dot, 0) {
        Some(k) => {
            assert(occurs_at(t@, dot@, k as int));
            let tl = t.len();
            assert(k + 1 <= tl);
            let pos = sub_chars(&t, 0, k + 1);
            let rest = sub_chars(&t, k + 1, tl);
            let meaning = trim_chars(&rest);
            let r = DefinitionGroup { pos: string_of(&pos), meanings: vec![string_of(&meaning)] };
            assert(string_views(r.meanings@) =~= seq![meaning@]);
            r
        },
        None => {
            let r = DefinitionGroup { pos: String::new(), meanings: vec![string_of(&t)] };
            assert(string_views(r.meanings@) =~= seq![t@]);
            r
        },
    }
}

fn phonetic_from(p: &Option<String>) -> (r: Option<String>)
    ensures
        opt_view(r) == phonetic_spec(*p),
{
    match p {
        Some(s) => {
            if !s.as_str().is_empty() {
                let mut v = vec!['/', ' '];
                let body = chars_of(s.as_str());
                crate::text::extend_chars(&mut v, &body);
                v.push(' ');
                v.push('/');
                assert(v@ =~= seq!['/', ' '] + s@ + seq![' ', '/']);
                Some(string_of(&v))
            } else {
                None
            }
        },
        None => None,
    }
}

fn examples_from(ps: &Vec<BilingualSentence>) -> (r: Vec<Example>)
    ensures
        r@.map_values(|e: Example| e@) == examples_of(first_three(ps@)),
{
    let n = if ps.len() <= 3 {
        ps.len()
    } else {
        3
    };
    let ghost src = first_three(ps@);
    assert(src == ps@.take(n as int));
    let mut out: Vec<Example> = Vec::new();
    for i in 0..n
        invariant
            n <= ps@.len(),
            src == ps@.take(n as int),
            out@.map_values(|e: Example| e@) == examples_of(src.take(i as int)),
    {
        assert(src.take(i + 1).drop_last() == src.take(i as int));
        assert(src.take(i + 1).last() == ps@[i as int]);
        let ghost prev = out@;
        match (&ps[i].sentence, &ps[i].translation) {
            (Some(o), Some(t)) => {
                if !o.as_str().is_empty() && !t.as_str().is_empty() {
                    let e = Example { orig: o.clone(), trans: t.clone() };
                    out.push(e);
                    assert(out@.map_values(|e: Example| e@) =~= prev.map_values(|e: Example| e@).push(
                        e@,
                    ));
                }
            },
            _ => {},
        }
        assert(out@.map_values(|e: Example| e@) =~= examples_of(src.take(i + 1)));
    }
    assert(src.take(n as int) == src);
    out
}

/// The dictionary entry for `word` built from the service's answer: exam
/// tags, the phonetics and definition lines of the first word, and at most
/// three complete example sentences. An answer without definitions is
/// `NotFound(word)`.
pub fn word_detail_from_response(word: &str, resp: &YoudaoResponse) -> (r: Result<
    WordDetail,
    AppError,
>)
    ensures
        match r {
            Ok(d) => word_detail_spec(word@, *resp) == Some(d@),
            Err(e) => word_detail_spec(word@, *resp) is None && (e matches AppError::NotFound(w)
                && w@ == word@),
        },
{
    let mut tags: Vec<String> = Vec::new();
    let mut us_phone: Option<String> = None;
    let mut uk_phone: Option<String> = None;
    let mut lines: Vec<String> = Vec::new();
    assert(string_views(lines@) =~= Seq::<Seq<char>>::empty());
    assert(string_views(tags@) =~= Seq::<Seq<char>>::empty());
    match &resp.ec {
        Some(ec) => {
            match &ec.exam_type {
                Some(t) => {
                    tags = crate::text::clone_strings(t);
                },
                None => {},
            }
            match &ec.word {
                Some(words) => {
                    if words.len() > 0 {
                        let w = &words[0];
                        us_phone = phonetic_from(&w.usphone);
                        uk_phone = phonetic_from(&w.ukphone);
                        match &w.trs {
                            Some(trs) => {
                                lines_from_translations(trs, &mut lines);
                            },
                            None => {},
                        }
                    }
                },
                None => {},
            }
        },
        None => {},
    }
    assert(string_views(lines@) =~= definition_lines(*resp));
    let n = lines.len();
    let ghost lv = string_views(lines@);
    let mut definitions: Vec<DefinitionGroup> = Vec::new();
    for i in 0..n
        invariant
            n == lines@.len(),
            lv == string_views(lines@),
            definitions@.map_values(|d: DefinitionGroup| d@) == lv.take(i as int).map_values(
                |l: Seq<char>| definition_of_line(l),
            ),
    {
        let d = definition_from_line(lines[i].as_str());
        let ghost prev = definitions@;
        definitions.push(d);
        assert(definitions@.map_values(|d: DefinitionGroup| d@) =~= prev.map_values(
            |d: DefinitionGroup| d@,
        ).push(d@));
        assert(lv.take(i + 1).map_values(|l: Seq<char>| definition_of_line(l)) =~= lv.take(
            i as int,
        ).map_values(|l: Seq<char>| definition_of_line(l)).push(definition_of_line(lv[i as int])));
    }
    assert(lv.take(n as int) == lv);
    if definitions.len() == 0 {
        return Err(AppError::NotFound(word.to_string()));
    }
    let examples = match &resp.bilingual_sentences {
        Some(b) => match &b.sentence_pair {
            Some(pairs) => examples_from(pairs),
            None => Vec::new(),
        },
        None => Vec::new(),
    };
    let r = WordDetail {
        word: word.to_string(),
        phonetic_us: us_phone,
        phonetic_uk: uk_phone,
        tags,
        definitions,
        examples,
    };
    assert(r@.examples =~= word_detail_spec(word@, *resp).unwrap().examples);
    assert(r@ == word_detail_spec(word@, *resp).unwrap());
    Ok(r)
}

} // verus!

verus! {

/// Whether `c` has the Unicode `Alphabetic` property, as `char::is_alphabetic` tells.
pub uninterp spec fn unicode_alphabetic(c: char) -> bool;

/// `char::is_alphabetic` of std: whether `c` has the Unicode `Alphabetic`
/// property. The property table is only named here, but for the ASCII range,
/// where exactly the Latin letters have the property.
#[verifier::external_body]
fn is_alphabetic(c: char) -> (r: bool)
    ensures
        r == unicode_alphabetic(c),
        (c as u32) < 0x80 ==> (r <==> (('a' <= c && c <= 'z') || ('A' <= c && c <= 'Z'))),
{
    c.is_alphabetic()
}

/// A query that looks like a single word: at most 64 characters, no
/// whitespace, only letters, hyphens and apostrophes.
pub open spec fn is_dictionary_word(t: Seq<char>) -> bool {
    &&& t.len() <= 64
    &&& forall|i: int| 0 <= i < t.len() ==> !is_white_space(#[trigger] t[i])
    &&& forall|i: int|
        0 <= i < t.len() ==> unicode_alphabetic(#[trigger] t[i]) || t[i] == '-' || t[i] == '\''
            || t[i] == '’'
}

/// A character of a plain ASCII word: a Latin letter, a hyphen or an
/// apostrophe.
pub open spec fn ascii_word_char(c: char) -> bool {
    ('a' <= c && c <= 'z') || ('A' <= c && c <= 'Z') || c == '-' || c == '\''
}

/// How a query is answered: the trimmed text, and whether the dictionary is
/// asked first (a translation follows when it has no entry).
#[derive(Debug)]
pub struct QueryPlan {
    pub text: String,
    pub dictionary_first: bool,
}

/// Plans a query: an empty query is rejected; a single word goes to the
/// dictionary first unless a sentence translation is forced. For an ASCII
/// query a single word is one of at most 64 Latin letters, hyphens and
/// apostrophes.
pub fn plan_query(query: &str, force_sentence: bool) -> (r: Result<QueryPlan, AppError>)
    ensures
        r is Err <==> trim(query@).len() == 0,
        r matches Err(e) ==> (e matches AppError::InvalidInput(m) && m@ == "查询内容不能为空"@),
        r matches Ok(p) ==> p.text@ == trim(query@) && p.dictionary_first == (!force_sentence
            && is_dictionary_word(trim(query@))),
        r matches Ok(p) ==> ascii_only(trim(query@)) ==> p.dictionary_first == (!force_sentence
            && trim(query@).len() <= 64 && forall|i: int|
            0 <= i < trim(query@).len() ==> ascii_word_char(#[trigger] trim(query@)[i])),
{
    let v = chars_of(query);
    let t = trim_chars(&v);
    if t.len() == 0 {
        return Err(AppError::InvalidInput("查询内容不能为空".to_string()));
    }
    let mut word = !force_sentence && t.len() <= 64;
    let n = t.len();
    let mut i: usize = 0;
    while word && i < n
        invariant
            i <= n == t@.len(),
            word ==> (forall|j: int| 0 <= j < i ==> !is_white_space(#[trigger] t@[j])),
            word ==> (forall|j: int|
                0 <= j < i ==> unicode_alphabetic(#[trigger] t@[j]) || t@[j] == '-' || t@[j] == '\''
                    || t@[j] == '’'),
            word ==> !force_sentence && t@.len() <= 64,
            !word ==> !(!force_sentence && is_dictionary_word(t@)),
            ascii_only(t@) ==> (word == (!force_sentence && t@.len() <= 64 && forall|j: int|
                0 <= j < i ==> ascii_word_char(#[trigger] t@[j]))),
        decreases n - i,
    {
        let c = t[i];
        if is_whitespace(c) || !(is_alphabetic(c) || c == '-' || c == '\'' || c == '’') {
            word = false;
        }
        i += 1;
    }
    Ok(QueryPlan { text: string_of(&t), dictionary_first: word })
}

} // verus!

verus! {

impl Clone for Example {
    fn clone(&self) -> (r: Example)
        ensures
            r@ == self@,
    {
        Example { orig: self.orig.clone(), trans: self.trans.clone() }
    }
}

impl Clone for DefinitionGroup {
    fn clone(&self) -> (r: DefinitionGroup)
        ensures
            r@ == self@,
    {
        DefinitionGroup { pos: self.pos.clone(), meanings: crate::text::clone_strings(&self.meanings) }
    }
}

fn clone_definitions(v: &Vec<DefinitionGroup>) -> (r: Vec<DefinitionGroup>)
    ensures
        r@.map_values(|d: DefinitionGroup| d@) == v@.map_values(|d: DefinitionGroup| d@),
{
    let n = v.len();
    let mut out: Vec<DefinitionGroup> = Vec::new();
    for i in 0..n
        invariant
            n == v@.len(),
            out@.map_values(|d: DefinitionGroup| d@) == v@.take(i as int).map_values(
                |d: DefinitionGroup| d@,
            ),
    {
        let d = v[i].clone();
        let ghost prev = out@;
        out.push(d);
        assert(out@.map_values(|d: DefinitionGroup| d@) =~= prev.map_values(|d: DefinitionGroup| d@).push(
            d@,
        ));
        assert(v@.take(i + 1).map_values(|d: DefinitionGroup| d@) =~= v@.take(i as int).map_values(
            |d: DefinitionGroup| d@,
        ).push(v@[i as int]@));
    }
    assert(v@.take(n as int) == v@);
    out
}

fn clone_examples(v: &Vec<Example>) -> (r: Vec<Example>)
    ensures
        r@.map_values(|e: Example| e@) == v@.map_values(|e: Example| e@),
{
    let n = v.len();
    let mut out: Vec<Example> = Vec::new();
    for i in 0..n
        invariant
            n == v@.len(),
            out@.map_values(|e: Example| e@) == v@.take(i as int).map_values(|e: Example| e@),
    {
        let e = v[i].clone();
        let ghost prev = out@;
        out.push(e);
        assert(out@.map_values(|e: Example| e@) =~= prev.map_values(|e: Example| e@).push(e@));
        assert(v@.take(i + 1).map_values(|e: Example| e@) =~= v@.take(i as int).map_values(
            |e: Example| e@,
        ).push(v@[i as int]@));
    }
    assert(v@.take(n as int) == v@);
    out
}

fn clone_opt_string(o: &Option<String>) -> (r: Option<String>)
    ensures
        opt_view(r) == opt_view(*o),
{
    match o {
        Some(s) => Some(s.clone()),
        None => None,
    }
}

impl Clone for WordDetail {
    fn clone(&self) -> (r: WordDetail)
        ensures
            r@ == self@,
    {
        WordDetail {
            word: self.word.clone(),
            phonetic_us: clone_opt_string(&self.phonetic_us),
            phonetic_uk: clone_opt_string(&self.phonetic_uk),
            tags: crate::text::clone_strings(&self.tags),
            definitions: clone_definitions(&self.definitions),
            examples: clone_examples(&self.examples),
        }
    }
}

impl Clone for QueryOutput {
    fn clone(&self) -> (r: QueryOutput)
        ensures
            r@ == self@,
    {
        match self {
            QueryOutput::Dict(d) => QueryOutput::Dict(d.clone()),
            QueryOutput::Sentence { original, translated, detected_lang, target_lang } =>
                QueryOutput::Sentence {
                original: original.clone(),
                translated: translated.clone(),
                detected_lang: detected_lang.clone(),
                target_lang: target_lang.clone(),
            },
        }
    }
}

} // verus!

verus! {

/// The next step of a query after the dictionary answered.
#[derive(Debug)]
pub enum DictionaryStep {
    /// The entry is the answer.
    Answer(QueryOutput),
    /// The dictionary has no entry: translate the text instead.
    Translate,
    /// The query fails with this error.
    Fail(AppError),
}

/// What follows the dictionary's answer: an entry is the answer, a missing
/// entry falls back to translation, and any other error ends the query.
pub fn after_dictionary(outcome: Result<WordDetail, AppError>) -> (r: DictionaryStep)
    ensures
        match outcome {
            Ok(d) => r matches DictionaryStep::Answer(o) && o@ == QueryOutputView::Dict(d@),
            Err(AppError::NotFound(_)) => r is Translate,
            Err(e) => r == DictionaryStep::Fail(e),
        },
{
    match outcome {
        Ok(d) => DictionaryStep::Answer(QueryOutput::Dict(d)),
        Err(AppError::NotFound(_)) => DictionaryStep::Translate,
        Err(e) => DictionaryStep::Fail(e),
    }
}

/// The answer made of a translation.
pub fn sentence_output(t: crate::google::TranslationResult) -> (r: QueryOutput)
    ensures
        r@ == (QueryOutputView::Sentence {
            original: t.original@,
            translated: t.translated@,
            detected_lang: t.detected_lang@,
            target_lang: t.target_lang@,
        }),
{
    QueryOutput::Sentence {
        original: t.original,
        translated: t.translated,
        detected_lang: t.detected_lang,
        target_lang: t.target_lang,
    }
}

} // verus!


verus! {

/// Whether the first word of the answer carries the phonetic `p` (`us`
/// picks the American one, else the British one) and it is not empty.
pub open spec fn first_word_has_phonetic(r: YoudaoResponse, us: bool, p: Seq<char>) -> bool {
    &&& r.ec matches Some(ec)
    &&& ec.word matches Some(ws)
    &&& ws@.len() > 0
    &&& (if us { ws@[0].usphone } else { ws@[0].ukphone }) matches Some(u)
    &&& u@ == p
    &&& p.len() > 0
}

proof fn lemma_examples_of_bounds(ps: Seq<BilingualSentence>)
    ensures
        examples_of(ps).len() <= ps.len(),
        forall|k: int| 0 <= k < examples_of(ps).len() ==> (#[trigger] examples_of(ps)[k]).0.len() > 0
            && examples_of(ps)[k].1.len() > 0,
    decreases ps.len(),
{
    if ps.len() > 0 {
        lemma_examples_of_bounds(ps.drop_last());
    }
}

proof fn lemma_examples_complete(r: YoudaoResponse)
    ensures
        r.bilingual_sentences matches Some(b) ==> (b.sentence_pair matches Some(v) ==> {
            &&& examples_of(first_three(v@)).len() <= 3
            &&& forall|k: int| 0 <= k < examples_of(first_three(v@)).len() ==> (#[trigger] examples_of(
                first_three(v@),
            )[k]).0.len() > 0 && examples_of(first_three(v@))[k].1.len() > 0
        }),
{
    if let Some(b) = r.bilingual_sentences {
        if let Some(v) = b.sentence_pair {
            lemma_examples_of_bounds(first_three(v@));
        }
    }
}

/// An entry keeps the word it was built for, has a definition and at most
/// three examples, each with both sentences; and it shows each of the first
/// word's two phonetics independently of the other: the American and the
/// British one are each there, between `/ ` and ` /`, exactly when the
/// answer gives it non-empty.
pub proof fn lemma_entry_contents(word: Seq<char>, r: YoudaoResponse, d: WordDetailView)
    requires
        word_detail_spec(word, r) == Some(d),
    ensures
        d.word == word,
        forall|p: Seq<char>| #[trigger] first_word_has_phonetic(r, true, p) ==> d.phonetic_us == Some(
            seq!['/', ' '] + p + seq![' ', '/'],
        ),
        forall|p: Seq<char>| #[trigger] first_word_has_phonetic(r, false, p) ==> d.phonetic_uk == Some(
            seq!['/', ' '] + p + seq![' ', '/'],
        ),
        d.phonetic_us is Some ==> exists|p: Seq<char>| #[trigger] first_word_has_phonetic(r, true, p),
        d.phonetic_uk is Some ==> exists|p: Seq<char>| #[trigger] first_word_has_phonetic(r, false, p),
        d.definitions.len() > 0,
        d.examples.len() <= 3,
        forall|k: int| 0 <= k < d.examples.len() ==> (#[trigger] d.examples[k]).0.len() > 0 && d.examples[k].1.len() > 0,
{
    lemma_examples_complete(r);
    if d.phonetic_us is Some {
        let w = first_word(r).unwrap();
        assert(first_word_has_phonetic(r, true, w.usphone.unwrap()@));
    }
    if d.phonetic_uk is Some {
        let w = first_word(r).unwrap();
        assert(first_word_has_phonetic(r, false, w.ukphone.unwrap()@));
    }
}

} // verus!
