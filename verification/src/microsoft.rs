//! The Microsoft (Bing) translation service: language codes, the page
//! credentials that requests carry, reading the JSON answer, and the retry
//! rule of a translation request.
use vstd::prelude::*;

use crate::error::AppError;
use crate::google::{contains_cjk, has_cjk, seq_get};
use crate::json::{json_document, parse_json, JsonValue};
use crate::text::{
    chars_of, find, find_chars_from, find_from, lemma_find_from_occurs, occurs_at, split_chars,
    split_on, str_eq, string_of, strip_char, strip_char_end, strip_char_start, sub_chars, trim,
    trim_chars,
};

verus! {

/// The longest text, in characters, that is sent for translation.
pub const MAX_QUERY_CHARS: usize = 10000;

/// How long, in seconds, page credentials are reused.
pub const AUTH_TTL_SECS: u64 = 1800;

/// A translated text with the languages involved.
#[derive(Debug)]
pub struct TranslationResult {
    pub original: String,
    pub translated: String,
    pub detected_lang: String,
    pub target_lang: String,
}

/// The credentials that the translator page hands out for requests.
#[derive(Debug)]
pub struct BingAuth {
    pub ig: String,
    pub iid: String,
    pub key: String,
    pub token: String,
}

/// Source and target language for `text`: detect the source; translate CJK
/// text into English and anything else into simplified Chinese.
pub fn detect_target_lang(text: &str) -> (r: (&'static str, &'static str))
    ensures
        r.0@ == "auto-detect"@,
        r.1@ == (if has_cjk(text@) {
            "en"@
        } else {
            "zh-Hans"@
        }),
{
    if contains_cjk(text) {
        ("auto-detect", "en")
    } else {
        ("auto-detect", "zh-Hans")
    }
}

/// ASCII lowercase of one character (`char::to_ascii_lowercase`).
pub open spec fn ascii_lower(c: char) -> char {
    if 'A' <= c && c <= 'Z' {
        ((c as u8) + 32) as char
    } else {
        c
    }
}

/// `str::eq_ignore_ascii_case` over characters: same length, and equal
/// characters after ASCII lowercasing. For an ASCII `b` this is the byte
/// comparison that std makes.
pub open spec fn eq_ignore_ascii_case_spec(a: Seq<char>, b: Seq<char>) -> bool {
    a.len() == b.len() && forall|i: int| 0 <= i < a.len() ==> ascii_lower(#[trigger] a[i]) == ascii_lower(b[i])
}

fn lower(c: char) -> (r: char)
    ensures
        r == ascii_lower(c),
{
    if 'A' <= c && c <= 'Z' {
        ((c as u8) + 32) as char
    } else {
        c
    }
}

/// Whether the characters equal `b` when ASCII letters are compared without case.
pub fn eq_ignore_ascii_case_chars(a: &[char], b: &str) -> (r: bool)
    ensures
        r == eq_ignore_ascii_case_spec(a@, b@),
{
    let bv = chars_of(b);
    if a.len() != bv.len() {
        return false;
    }
    let n = a.len();
    for i in 0..n
        invariant
            n == a@.len() == bv@.len(),
            bv@ == b@,
            forall|j: int| 0 <= j < i ==> ascii_lower(#[trigger] a@[j]) == ascii_lower(bv@[j]),
    {
        if lower(a[i]) != lower(bv[i]) {
            return false;
        }
    }
    true
}

/// The service's name for a language code: `auto` becomes `auto-detect`,
/// the simplified and traditional Chinese codes become `zh-Hans` and
/// `zh-Hant` (ignoring ASCII case); other codes are kept.
pub open spec fn normalize_lang_spec(code: Seq<char>) -> Seq<char> {
    if eq_ignore_ascii_case_spec(code, "auto"@) || eq_ignore_ascii_case_spec(code, "auto-detect"@) {
        "auto-detect"@
    } else if eq_ignore_ascii_case_spec(code, "zh"@) || eq_ignore_ascii_case_spec(code, "zh-cn"@)
        || eq_ignore_ascii_case_spec(code, "zh-hans"@) {
        "zh-Hans"@
    } else if eq_ignore_ascii_case_spec(code, "zh-tw"@) || eq_ignore_ascii_case_spec(code, "zh-hk"@)
        || eq_ignore_ascii_case_spec(code, "zh-hant"@) {
        "zh-Hant"@
    } else {
        code
    }
}

/// The service's name for a language code.
pub fn normalize_lang_code(code: &str) -> (r: &str)
    ensures
        r@ == normalize_lang_spec(code@),
{
    let c = chars_of(code);
    if eq_ignore_ascii_case_chars(&c, "auto") || eq_ignore_ascii_case_chars(&c, "auto-detect") {
        "auto-detect"
    } else if eq_ignore_ascii_case_chars(&c, "zh") || eq_ignore_ascii_case_chars(&c, "zh-cn")
        || eq_ignore_ascii_case_chars(&c, "zh-hans") {
        "zh-Hans"
    } else if eq_ignore_ascii_case_chars(&c, "zh-tw") || eq_ignore_ascii_case_chars(&c, "zh-hk")
        || eq_ignore_ascii_case_chars(&c, "zh-hant") {
        "zh-Hant"
    } else {
        code
    }
}

} // verus!

verus! {

/// The characters between position `start` and the next `'"'`, if any.
pub open spec fn quoted_from(h: Seq<char>, start: int) -> Option<Seq<char>> {
    match find_from(h, seq!['"'], start) {
        Some(e) => Some(h.subrange(start, e)),
        None => None,
    }
}

/// The `IG` value of the page: after the first `IG:"`, else after the first
/// `IG="`, else after the first `_IG="`, up to the next quote. `None` when
/// no marker occurs or the first one found has no closing quote.
pub open spec fn ig_spec(h: Seq<char>) -> Option<Seq<char>> {
    match find(h, seq!['I', 'G', ':', '"']) {
        Some(i) => quoted_from(h, i + 4),
        None => match find(h, seq!['I', 'G', '=', '"']) {
            Some(i) => quoted_from(h, i + 4),
            None => match find(h, seq!['_', 'I', 'G', '=', '"']) {
                Some(i) => quoted_from(h, i + 5),
                None => None,
            },
        },
    }
}

/// The value after the first `data-iid="` up to the next quote, or
/// `translator.5023` when there is none.
pub open spec fn iid_spec(h: Seq<char>) -> Seq<char> {
    match find(h, seq!['d', 'a', 't', 'a', '-', 'i', 'i', 'd', '=', '"']) {
        Some(i) => match quoted_from(h, i + 10) {
            Some(v) => v,
            None => "translator.5023"@,
        },
        None => "translator.5023"@,
    }
}

/// The marker that precedes the key and token list of the page.
pub open spec fn abuse_marker() -> Seq<char> {
    seq![
        'p', 'a', 'r', 'a', 'm', 's', '_', 'A', 'b', 'u', 's', 'e', 'P', 'r', 'e', 'v', 'e',
        'n', 't', 'i', 'o', 'n', 'H', 'e', 'l', 'p', 'e', 'r',
    ]
}

/// The text between the first `[` after the first `params_AbusePreventionHelper`
/// and the next `]`.
pub open spec fn params_spec(h: Seq<char>) -> Option<Seq<char>> {
    match find(h, abuse_marker()) {
        Some(a) => match find_from(h, seq!['['], a) {
            Some(b) => match find_from(h, seq![']'], b + 1) {
                Some(c) => Some(h.subrange(b + 1, c)),
                None => None,
            },
            None => None,
        },
        None => None,
    }
}

/// The credentials of a translator page `(ig, iid, key, token)`: the key is
/// the first comma-separated entry of the list and the token the second,
/// trimmed and without surrounding quotes. `None` when a part is missing or
/// the IG, key or token is empty.
pub open spec fn bing_auth_spec(h: Seq<char>) -> Option<(Seq<char>, Seq<char>, Seq<char>, Seq<char>)> {
    match ig_spec(h) {
        Some(ig) => match params_spec(h) {
            Some(params) => {
                let parts = split_on(params, ',');
                if parts.len() < 2 {
                    None
                } else {
                    let key = trim(parts[0]);
                    let token = strip_char(trim(parts[1]), '"');
                    if key.len() == 0 || token.len() == 0 || ig.len() == 0 {
                        None
                    } else {
                        Some((ig, iid_spec(h), key, token))
                    }
                }
            },
            None => None,
        },
        None => None,
    }
}

impl View for BingAuth {
    type V = (Seq<char>, Seq<char>, Seq<char>, Seq<char>);

    open spec fn view(&self) -> (Seq<char>, Seq<char>, Seq<char>, Seq<char>) {
        (self.ig@, self.iid@, self.key@, self.token@)
    }
}

fn quoted_after(h: &Vec<char>, start: usize) -> (r: Option<Vec<char>>)
    requires
        start <= h@.len(),
    ensures
        match r {
            Some(v) => quoted_from(h@, start as int) == Some(v@),
            None => quoted_from(h@, start as int) is None,
        },
{
    let q = vec!['"'];
    assert(q@ =~= seq!['"']);
    proof {
        lemma_find_from_occurs(h@, q@, start as int);
    }
    match find_chars_from(h, &q, start) {
        Some(e) => {
            assert(occurs_at(h@, q@, e as int));
            Some(sub_chars(h, start, e))
        },
        None => None,
    }
}

fn find_marker(h: &Vec<char>, p: &Vec<char>) -> (r: Option<usize>)
    ensures
        match r {
            Some(k) => find(h@, p@) == Some(k as int) && k + p@.len() <= h@.len(),
            None => find(h@, p@) is None,
        },
{
    proof {
        lemma_find_from_occurs(h@, p@, 0);
    }
    find_chars_from(h, p, 0)
}

fn ig_of(h: &Vec<char>) -> (r: Option<Vec<char>>)
    ensures
        match r {
            Some(v) => ig_spec(h@) == Some(v@),
            None => ig_spec(h@) is None,
        },
{
    let p1 = vec!['I', 'G', ':', '"'];
    let p2 = vec!['I', 'G', '=', '"'];
    let p3 = vec!['_', 'I', 'G', '=', '"'];
    assert(p1@ =~= seq!['I', 'G', ':', '"']);
    assert(p2@ =~= seq!['I', 'G', '=', '"']);
    assert(p3@ =~= seq!['_', 'I', 'G', '=', '"']);
    let hl: usize = h.len();
    assert(hl == h@.len());
    match find_marker(h, &p1) {
        Some(i) => quoted_after(h, i + 4),
        None => match find_marker(h, &p2) {
            Some(i) => quoted_after(h, i + 4),
            None => match find_marker(h, &p3) {
                Some(i) => quoted_after(h, i + 5),
                None => None,
            },
        },
    }
}

fn iid_of(h: &Vec<char>) -> (r: Vec<char>)
    ensures
        r@ == iid_spec(h@),
{
    let p = vec!['d', 'a', 't', 'a', '-', 'i', 'i', 'd', '=', '"'];
    assert(p@ =~= seq!['d', 'a', 't', 'a', '-', 'i', 'i', 'd', '=', '"']);
    let hl: usize = h.len();
    assert(hl == h@.len());
    match find_marker(h, &p) {
        Some(i) => match quoted_after(h, i + 10) {
            Some(v) => v,
            None => chars_of("translator.5023"),
        },
        None => chars_of("translator.5023"),
    }
}

fn params_of(h: &Vec<char>) -> (r: Option<Vec<char>>)
    ensures
        match r {
            Some(v) => params_spec(h@) == Some(v@),
            None => params_spec(h@) is None,
        },
{
    let marker = vec![
        'p', 'a', 'r', 'a', 'm', 's', '_', 'A', 'b', 'u', 's', 'e', 'P', 'r', 'e', 'v', 'e',
        'n', 't', 'i', 'o', 'n', 'H', 'e', 'l', 'p', 'e', 'r',
    ];
    assert(marker@ =~= abuse_marker());
    let open = vec!['['];
    let close = vec![']'];
    assert(open@ =~= seq!['[']);
    assert(close@ =~= seq![']']);
    let hl = h.len();
    match find_marker(h, &marker) {
        Some(a) => {
            proof {
                lemma_find_from_occurs(h@, open@, a as int);
            }
            match find_chars_from(h, &open, a) {
                Some(b) => {
                    assert(occurs_at(h@, open@, b as int));
                    assert(b + 1 <= hl);
                    proof {
                        lemma_find_from_occurs(h@, close@, b + 1);
                    }
                    match find_chars_from(h, &close, b + 1) {
                        Some(c) => {
                            assert(occurs_at(h@, close@, c as int));
                            Some(sub_chars(h, b + 1, c))
                        },
                        None => None,
                    }
                },
                None => None,
            }
        },
        None => None,
    }
}

/// `s` without leading and trailing occurrences of `c`.
fn strip_char_chars(v: &[char], c: char) -> (r: Vec<char>)
    ensures
        r@ == strip_char(v@, c),
{
    let n = v.len();
    let mut i: usize = 0;
    assert(v@.subrange(0, n as int) == v@);
    while i < n && v[i] == c
        invariant
            i <= n == v@.len(),
            strip_char_start(v@, c) == strip_char_start(v@.subrange(i as int, n as int), c),
        decreases n - i,
    {
        assert(v@.subrange(i as int, n as int).drop_first() == v@.subrange(i + 1, n as int));
        i += 1;
    }
    let ghost rest = v@.subrange(i as int, n as int);
    let mut j: usize = n;
    assert(rest.subrange(0, (n - i) as int) == rest);
    while j > i && v[j - 1] == c
        invariant
            i <= j <= n == v@.len(),
            rest == v@.subrange(i as int, n as int),
            strip_char_end(rest, c) == strip_char_end(rest.subrange(0, (j - i) as int), c),
        decreases j - i,
    {
        assert(rest.subrange(0, (j - i) as int).drop_last() == rest.subrange(0, (j - 1 - i) as int));
        j -= 1;
    }
    assert(rest.subrange(0, (j - i) as int) == v@.subrange(i as int, j as int));
    sub_chars(v, i, j)
}

/// Reads the request credentials from the translator page's HTML.
pub fn parse_bing_html_auth(html: &str) -> (r: Option<BingAuth>)
    ensures
        match r {
            Some(a) => bing_auth_spec(html@) == Some(a@),
            None => bing_auth_spec(html@) is None,
        },
{
    let h = chars_of(html);
    let ig = match ig_of(&h) {
        Some(v) => v,
        None => return None,
    };
    let iid = iid_of(&h);
    let params = match params_of(&h) {
        Some(v) => v,
        None => return None,
    };
    let parts = split_chars(&params, ',');
    assert(parts@.map_values(|p: Vec<char>| p@).len() == parts@.len());
    if parts.len() < 2 {
        return None;
    }
    assert(parts@.map_values(|p: Vec<char>| p@)[0] == parts@[0]@);
    assert(parts@.map_values(|p: Vec<char>| p@)[1] == parts@[1]@);
    let key = trim_chars(&parts[0]);
    let token_raw = trim_chars(&parts[1]);
    let token = strip_char_chars(&token_raw, '"');
    if key.len() == 0 || token.len() == 0 || ig.len() == 0 {
        return None;
    }
    Some(
        BingAuth {
            ig: string_of(&ig),
            iid: string_of(&iid),
            key: string_of(&key),
            token: string_of(&token),
        },
    )
}

} // verus!

verus! {

/// The value of member `key` of an optional value.
pub open spec fn member_of(v: Option<JsonValue>, key: Seq<char>) -> Option<JsonValue> {
    match v {
        Some(x) => x.member_spec(key),
        None => None,
    }
}

/// The string held by an optional value.
pub open spec fn str_of(v: Option<JsonValue>) -> Option<Seq<char>> {
    match v {
        Some(x) => x.str_spec(),
        None => None,
    }
}

/// The first element of an array value.
pub open spec fn first_of(v: Option<JsonValue>) -> Option<JsonValue> {
    match v {
        Some(x) => match x.array_spec() {
            Some(a) => seq_get(a, 0),
            None => None,
        },
        None => None,
    }
}

/// The detected language of the first answer entry, `auto` when absent.
pub open spec fn bing_detected(first: JsonValue) -> Seq<char> {
    match str_of(member_of(first.member_spec("detectedLanguage"@), "language"@)) {
        Some(l) => l,
        None => "auto"@,
    }
}

/// The first translation text of the first answer entry, empty when absent.
pub open spec fn bing_translated(first: JsonValue) -> Seq<char> {
    match str_of(member_of(first_of(first.member_spec("translations"@)), "text"@)) {
        Some(t) => t,
        None => Seq::empty(),
    }
}

/// What the answer holds: `Ok((translation, detected language))` when the
/// first entry has a non-blank translation; otherwise `Err` with the message
/// of the `Protocol` error, which quotes a non-empty `errorMessage`.
pub open spec fn parse_bing_spec(value: JsonValue) -> Result<(Seq<char>, Seq<char>), Seq<char>> {
    let first = first_of(Some(value));
    if first is Some && trim(bing_translated(first.unwrap())).len() > 0 {
        Ok((trim(bing_translated(first.unwrap())), bing_detected(first.unwrap())))
    } else {
        match str_of(value.member_spec("errorMessage"@)) {
            Some(msg) => if msg.len() > 0 {
                Err("微软翻译服务错误: "@ + msg)
            } else {
                Err("未能解析到有效微软翻译结果"@)
            },
            None => Err("未能解析到有效微软翻译结果"@),
        }
    }
}

fn get_opt<'a>(v: Option<&'a JsonValue>, key: &str) -> (r: Option<&'a JsonValue>)
    ensures
        match r {
            Some(x) => member_of(
                match v {
                    Some(y) => Some(*y),
                    None => None,
                },
                key@,
            ) == Some(*x),
            None => member_of(
                match v {
                    Some(y) => Some(*y),
                    None => None,
                },
                key@,
            ) is None,
        },
{
    match v {
        Some(x) => x.get(key),
        None => None,
    }
}

/// Reads the translation and the detected language from the service's answer.
pub fn parse_bing_response(value: &JsonValue) -> (r: Result<(String, String), AppError>)
    ensures
        match r {
            Ok((t, l)) => parse_bing_spec(*value) == Ok::<(Seq<char>, Seq<char>), Seq<char>>(
                (t@, l@),
            ),
            Err(e) => e matches AppError::Protocol(m) && parse_bing_spec(*value) == Err::<
                (Seq<char>, Seq<char>),
                Seq<char>,
            >(m@),
        },
{
    match value.as_array() {
        Some(arr) => {
            if arr.len() > 0 {
                let first = &arr[0];
                let lang_v = get_opt(first.get("detectedLanguage"), "language");
                let detected = match lang_v {
                    Some(l) => match l.as_str() {
                        Some(s) => s.clone(),
                        None => "auto".to_string(),
                    },
                    None => "auto".to_string(),
                };
                let first_translation = match first.get("translations") {
                    Some(t) => match t.as_array() {
                        Some(items) => if items.len() > 0 {
                            Some(&items[0])
                        } else {
                            None
                        },
                        None => None,
                    },
                    None => None,
                };
                let text_v = get_opt(first_translation, "text");
                let translated = match text_v {
                    Some(t) => match t.as_str() {
                        Some(s) => chars_of(s.as_str()),
                        None => Vec::new(),
                    },
                    None => Vec::new(),
                };
                assert(translated@ == bing_translated(*first));
                assert(detected@ == bing_detected(*first));
                let trimmed = trim_chars(&translated);
                if trimmed.len() > 0 {
                    return Ok((string_of(&trimmed), detected));
                }
            }
        },
        None => {},
    }
    match value.get("errorMessage") {
        Some(m) => match m.as_str() {
            Some(msg) => {
                if !msg.as_str().is_empty() {
                    let mut text = chars_of("微软翻译服务错误: ");
                    let mc = chars_of(msg.as_str());
                    crate::text::extend_chars(&mut text, &mc);
                    return Err(AppError::Protocol(string_of(&text)));
                }
            },
            None => {},
        },
        None => {},
    }
    Err(AppError::Protocol("未能解析到有效微软翻译结果".to_string()))
}

/// What is sent for translation: the trimmed text and the two languages,
/// in the service's naming.
#[derive(Debug)]
pub struct TranslationRequest {
    pub text: String,
    pub source_lang: String,
    pub target_lang: String,
}

/// The request for `text`: a blank text or one longer than
/// `MAX_QUERY_CHARS` characters is rejected; a missing language is the one
/// `detect_target_lang` picks; both languages are normalized.
pub fn prepare_request(text: &str, sl: Option<&str>, tl: Option<&str>) -> (r: Result<
    TranslationRequest,
    AppError,
>)
    ensures
        r is Err <==> (trim(text@).len() == 0 || trim(text@).len() > MAX_QUERY_CHARS),
        r matches Err(e) ==> (e matches AppError::InvalidInput(m) && m@ == (if trim(
            text@,
        ).len() == 0 {
            "待翻译文本不能为空"@
        } else {
            "待翻译文本过长，最多支持 10000 个字符"@
        })),
        r matches Ok(q) ==> {
            &&& q.text@ == trim(text@)
            &&& q.source_lang@ == normalize_lang_spec(
                match sl {
                    Some(s) => s@,
                    None => "auto-detect"@,
                },
            )
            &&& q.target_lang@ == normalize_lang_spec(
                match tl {
                    Some(s) => s@,
                    None => if has_cjk(trim(text@)) {
                        "en"@
                    } else {
                        "zh-Hans"@
                    },
                },
            )
        },
{
    let v = chars_of(text);
    let t = trim_chars(&v);
    if t.len() == 0 {
        return Err(AppError::InvalidInput("待翻译文本不能为空".to_string()));
    }
    if t.len() > MAX_QUERY_CHARS {
        return Err(AppError::InvalidInput("待翻译文本过长，最多支持 10000 个字符".to_string()));
    }
    let trimmed = string_of(&t);
    let (default_sl, default_tl) = detect_target_lang(trimmed.as_str());
    let source = normalize_lang_code(
        match sl {
            Some(s) => s,
            None => default_sl,
        },
    ).to_string();
    let target = normalize_lang_code(
        match tl {
            Some(s) => s,
            None => default_tl,
        },
    ).to_string();
    Ok(TranslationRequest { text: trimmed, source_lang: source, target_lang: target })
}

/// Whether cached credentials may be used: no refresh is forced and they are
/// younger than `AUTH_TTL_SECS` seconds.
pub fn cached_auth_usable(force_refresh: bool, age_secs: u64) -> (r: bool)
    ensures
        r == (!force_refresh && age_secs < AUTH_TTL_SECS),
{
    !force_refresh && age_secs < AUTH_TTL_SECS
}

/// What to do with the reply to a translation request.
#[derive(Debug)]
pub enum BingReply {
    /// Send the request again with fresh credentials.
    Retry,
    /// The request is over, with this outcome.
    Done(Result<TranslationResult, AppError>),
    /// The request failed for good; the caller reports the status and body.
    Failed,
}

/// What follows a reply whose JSON is `body` (`None` when the status was
/// not a success or the body was not JSON): a JSON `statusCode` of 400
/// (expired credentials) and an unusable reply are retried once; otherwise
/// a JSON reply is read into the result, which keeps the request's text and
/// target language; a reply that stays unusable fails for good.
pub open spec fn bing_reply_spec(
    request: TranslationRequest,
    retried: bool,
    body: Option<JsonValue>,
    r: BingReply,
) -> bool {
    match body {
        Some(v) => if v.member_spec("statusCode"@) matches Some(c) && c.i64_spec() == Some(400i64)
            && !retried {
            r is Retry
        } else {
            match r {
                BingReply::Done(Ok(res)) => parse_bing_spec(v) == Ok::<(Seq<char>, Seq<char>), Seq<char>>(
                    (res.translated@, res.detected_lang@),
                ) && res.original@ == request.text@ && res.target_lang@ == request.target_lang@,
                BingReply::Done(Err(e)) => e matches AppError::Protocol(m) && parse_bing_spec(v) == Err::<
                    (Seq<char>, Seq<char>),
                    Seq<char>,
                >(m@),
                _ => false,
            }
        },
        None => if retried {
            r is Failed
        } else {
            r is Retry
        },
    }
}

/// The next step after a reply: `body` is the JSON of a successful reply, or
/// `None` when the status was not a success or the body was not JSON (see
/// `bing_reply_spec`). After a retry there is no other, so a request is sent
/// at most twice.
pub fn bing_reply(request: &TranslationRequest, retried: bool, body: Option<&JsonValue>) -> (r:
    BingReply)
    ensures
        retried ==> !(r is Retry),
        bing_reply_spec(
            *request,
            retried,
            match body {
                Some(v) => Some(*v),
                None => None,
            },
            r,
        ),
{
    match body {
        Some(v) => {
            let code = match v.get("statusCode") {
                Some(c) => c.as_i64(),
                None => None,
            };
            if code == Some(400i64) && !retried {
                return BingReply::Retry;
            }
            match parse_bing_response(v) {
                Ok((translated, detected_lang)) => BingReply::Done(
                    Ok(
                        TranslationResult {
                            original: request.text.clone(),
                            translated,
                            detected_lang,
                            target_lang: request.target_lang.clone(),
                        },
                    ),
                ),
                Err(e) => BingReply::Done(Err(e)),
            }
        },
        None => if retried {
            BingReply::Failed
        } else {
            BingReply::Retry
        },
    }
}

} // verus!

verus! {

/// The next step after a reply given as its status and text: the text is
/// read as JSON only after a successful status, and a text that is not JSON
/// counts as no reply.
pub fn bing_reply_text(request: &TranslationRequest, retried: bool, success: bool, body_text: &str) -> (r:
    BingReply)
    ensures
        retried ==> !(r is Retry),
        bing_reply_spec(
            *request,
            retried,
            if success {
                json_document(body_text@)
            } else {
                None
            },
            r,
        ),
{
    let body = if success {
        parse_json(body_text)
    } else {
        None
    };
    match &body {
        Some(v) => bing_reply(request, retried, Some(v)),
        None => bing_reply(request, retried, None),
    }
}

} // verus!

