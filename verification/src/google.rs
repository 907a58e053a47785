//! The Google translation service: choice of languages, checks on the text
//! to translate, and reading the service's JSON answer.
use vstd::prelude::*;

use crate::error::AppError;
use crate::json::JsonValue;
use crate::text::{chars_of, string_of, trim, trim_chars};

verus! {

/// The longest text, in characters, that is sent for translation.
pub const MAX_QUERY_CHARS: usize = 12000;

/// A translated text with the languages involved.
#[derive(Debug)]
pub struct TranslationResult {
    pub original: String,
    pub translated: String,
    pub detected_lang: String,
    pub target_lang: String,
}

/// Characters of the CJK Unified Ideographs (with Extension A), Hiragana,
/// Katakana and Hangul Syllables blocks.
pub open spec fn is_cjk(c: char) -> bool {
    ||| ('\u{3400}' <= c && c <= '\u{4dbf}')
    ||| ('\u{4e00}' <= c && c <= '\u{9fff}')
    ||| ('\u{3040}' <= c && c <= '\u{30ff}')
    ||| ('\u{ac00}' <= c && c <= '\u{d7af}')
}

/// Whether some character of `s` is a CJK character.
pub open spec fn has_cjk(s: Seq<char>) -> bool {
    exists|i: int| 0 <= i < s.len() && is_cjk(#[trigger] s[i])
}

/// Whether `text` holds a CJK character.
pub fn contains_cjk(text: &str) -> (r: bool)
    ensures
        r == has_cjk(text@),
{
    let v = chars_of(text);
    let n = v.len();
    for i in 0..n
        invariant
            n == v@.len(),
            v@ == text@,
            forall|j: int| 0 <= j < i ==> !is_cjk(#[trigger] v@[j]),
    {
        let c = v[i];
        if ('\u{3400}' <= c && c <= '\u{4dbf}') || ('\u{4e00}' <= c && c <= '\u{9fff}') || (
        '\u{3040}' <= c && c <= '\u{30ff}') || ('\u{ac00}' <= c && c <= '\u{d7af}') {
            assert(is_cjk(v@[i as int]));
            return true;
        }
    }
    false
}

/// Source and target language for `text`: detect the source; translate CJK
/// text into English and anything else into simplified Chinese.
pub fn detect_target_lang(text: &str) -> (r: (&'static str, &'static str))
    ensures
        r.0@ == "auto"@,
        r.1@ == (if has_cjk(text@) {
            "en"@
        } else {
            "zh-CN"@
        }),
{
    if contains_cjk(text) {
        ("auto", "en")
    } else {
        ("auto", "zh-CN")
    }
}

/// A language code: two ASCII letters, or two ASCII letters, a hyphen and
/// two ASCII letters (after trimming). Stated over characters; it agrees with
/// the byte-length test of the service code, since only ASCII qualifies.
pub open spec fn is_language_code_spec(s: Seq<char>) -> bool {
    let t = trim(s);
    ||| (t.len() == 2 && is_ascii_letter(t[0]) && is_ascii_letter(t[1]))
    ||| (t.len() == 5 && t[2] == '-' && is_ascii_letter(t[0]) && is_ascii_letter(t[1])
        && is_ascii_letter(t[3]) && is_ascii_letter(t[4]))
}

/// `char::is_ascii_alphabetic`.
pub open spec fn is_ascii_letter(c: char) -> bool {
    ('a' <= c && c <= 'z') || ('A' <= c && c <= 'Z')
}

fn ascii_letter(c: char) -> (r: bool)
    ensures
        r == is_ascii_letter(c),
{
    ('a' <= c && c <= 'z') || ('A' <= c && c <= 'Z')
}

/// Whether `value` looks like a language code such as `en` or `zh-CN`.
pub fn is_language_code(value: &str) -> (r: bool)
    ensures
        r == is_language_code_spec(value@),
{
    let v = chars_of(value);
    let t = trim_chars(&v);
    (t.len() == 2 && ascii_letter(t[0]) && ascii_letter(t[1])) || (t.len() == 5 && t[2] == '-'
        && ascii_letter(t[0]) && ascii_letter(t[1]) && ascii_letter(t[3]) && ascii_letter(t[4]))
}

/// The language code held by an optional JSON value, if it is one.
pub open spec fn lang_of(v: Option<JsonValue>) -> Option<Seq<char>> {
    match v {
        Some(x) => match x.str_spec() {
            Some(s) => if is_language_code_spec(s) {
                Some(s)
            } else {
                None
            },
            None => None,
        },
        None => None,
    }
}

/// The element at `i` of a sequence, if there is one.
pub open spec fn seq_get<T>(s: Seq<T>, i: int) -> Option<T> {
    if 0 <= i < s.len() {
        Some(s[i])
    } else {
        None
    }
}

/// The text of one segment `[translated, source, ..]`, or nothing.
pub open spec fn segment_text(seg: JsonValue) -> Seq<char> {
    match seg.array_spec() {
        Some(parts) => match seq_get(parts, 0) {
            Some(first) => match first.str_spec() {
                Some(t) => t,
                None => Seq::empty(),
            },
            None => Seq::empty(),
        },
        None => Seq::empty(),
    }
}

/// The texts of the segments, concatenated.
pub open spec fn segments_text(segs: Seq<JsonValue>) -> Seq<char>
    decreases segs.len(),
{
    if segs.len() == 0 {
        Seq::empty()
    } else {
        segments_text(segs.drop_last()) + segment_text(segs.last())
    }
}

/// The translation and detected language read from the array shapes of the
/// answer: `[[[t, s], ..], _, lang]` (segments) or `[[t, lang]]` (compact).
pub open spec fn google_array_parse(value: JsonValue) -> (Seq<char>, Option<Seq<char>>) {
    match value.array_spec() {
        Some(root) => {
            let (text, lang) = match seq_get(root, 0) {
                Some(first) => match first.array_spec() {
                    Some(segments) => match seq_get(segments, 0) {
                        Some(s0) => if s0.array_spec() is Some {
                            (segments_text(segments), None)
                        } else {
                            match s0.str_spec() {
                                Some(t) => (t, lang_of(seq_get(segments, 1))),
                                None => (Seq::empty(), None),
                            }
                        },
                        None => (Seq::empty(), None),
                    },
                    None => (Seq::empty(), None),
                },
                None => (Seq::empty(), None),
            };
            if lang is None {
                (text, lang_of(seq_get(root, 2)))
            } else {
                (text, lang)
            }
        },
        None => (Seq::empty(), None),
    }
}

/// What the answer holds: the array shapes first, then the object members
/// `translatedText` and `src`; the detected language defaults to `auto`.
/// `None` when no non-blank translation is found.
pub open spec fn parse_google_spec(value: JsonValue) -> Option<(Seq<char>, Seq<char>)> {
    let (t0, l0) = google_array_parse(value);
    let text = if t0.len() == 0 {
        match value.member_spec("translatedText"@) {
            Some(m) => match m.str_spec() {
                Some(s) => s,
                None => Seq::empty(),
            },
            None => Seq::empty(),
        }
    } else {
        t0
    };
    let lang = if l0 is None {
        lang_of(value.member_spec("src"@))
    } else {
        l0
    };
    if trim(text).len() == 0 {
        None
    } else {
        Some(
            (
                trim(text),
                match lang {
                    Some(l) => l,
                    None => "auto"@,
                },
            ),
        )
    }
}

fn lang_code_of(v: Option<&JsonValue>) -> (r: Option<String>)
    ensures
        match r {
            Some(s) => lang_of(
                match v {
                    Some(x) => Some(*x),
                    None => None,
                },
            ) == Some(s@),
            None => lang_of(
                match v {
                    Some(x) => Some(*x),
                    None => None,
                },
            ) is None,
        },
{
    match v {
        Some(x) => match x.as_str() {
            Some(s) => if is_language_code(s.as_str()) {
                Some(s.clone())
            } else {
                None
            },
            None => None,
        },
        None => None,
    }
}

fn segments_concat(segments: &Vec<JsonValue>) -> (r: Vec<char>)
    ensures
        r@ == segments_text(segments@),
{
    let n = segments.len();
    let mut out: Vec<char> = Vec::new();
    for i in 0..n
        invariant
            n == segments@.len(),
            out@ == segments_text(segments@.take(i as int)),
    {
        assert(segments@.take(i + 1).drop_last() == segments@.take(i as int));
        assert(segments@.take(i + 1).last() == segments@[i as int]);
        match segments[i].as_array() {
            Some(parts) => {
                if parts.len() > 0 {
                    match parts[0].as_str() {
                        Some(t) => {
                            let tc = chars_of(t.as_str());
                            crate::text::extend_chars(&mut out, &tc);
                        },
                        None => {},
                    }
                }
            },
            None => {},
        }
    }
    assert(segments@.take(n as int) == segments@);
    out
}

/// Reads the translation and the detected language from the service's
/// answer; a blank translation is a `Protocol` error.
pub fn parse_google_response(value: &JsonValue) -> (r: Result<(String, String), AppError>)
    ensures
        match r {
            Ok((t, l)) => parse_google_spec(*value) == Some((t@, l@)),
            Err(e) => parse_google_spec(*value) is None && (e matches AppError::Protocol(m) && m@
                == "未能解析到有效翻译结果"@),
        },
{
    let mut translated: Vec<char> = Vec::new();
    let mut detected: Option<String> = None;
    match value.as_array() {
        Some(root) => {
            if root.len() > 0 {
                match root[0].as_array() {
                    Some(segments) => {
                        if segments.len() > 0 {
                            if segments[0].as_array().is_some() {
                                translated = segments_concat(segments);
                            } else {
                                match segments[0].as_str() {
                                    Some(t) => {
                                        translated = chars_of(t.as_str());
                                        detected = lang_code_of(
                                            if segments.len() > 1 {
                                                Some(&segments[1])
                                            } else {
                                                None
                                            },
                                        );
                                    },
                                    None => {},
                                }
                            }
                        }
                    },
                    None => {},
                }
            }
            if detected.is_none() {
                detected = lang_code_of(
                    if root.len() > 2 {
                        Some(&root[2])
                    } else {
                        None
                    },
                );
            }
        },
        None => {},
    }
    assert(translated@ == google_array_parse(*value).0);
    assert(crate::dict::opt_view(detected) == google_array_parse(*value).1);
    if translated.len() == 0 {
        translated = match value.get("translatedText") {
            Some(m) => match m.as_str() {
                Some(s) => chars_of(s.as_str()),
                None => Vec::new(),
            },
            None => Vec::new(),
        };
    }
    if detected.is_none() {
        detected = lang_code_of(value.get("src"));
    }
    let t = trim_chars(&translated);
    if t.len() == 0 {
        return Err(AppError::Protocol("未能解析到有效翻译结果".to_string()));
    }
    let lang = match detected {
        Some(l) => l,
        None => "auto".to_string(),
    };
    Ok((string_of(&t), lang))
}

/// What is sent for translation: the trimmed text and the two languages.
#[derive(Debug)]
pub struct TranslationRequest {
    pub text: String,
    pub source_lang: String,
    pub target_lang: String,
}

/// The request for `text`: a blank text or one longer than
/// `MAX_QUERY_CHARS` characters is rejected; a missing language is the
/// one `detect_target_lang` picks.
pub fn prepare_request(text: &str, sl: Option<&str>, tl: Option<&str>) -> (r: Result<
    TranslationRequest,
    AppError,
>)
    ensures
        r is Err <==> (trim(text@).len() == 0 || trim(text@).len() > MAX_QUERY_CHARS),
        r matches Err(e) ==> (e matches AppError::InvalidInput(m) && m@ == (if trim(
            text@,
        ).len() == 0 {
            "待翻译文本不能为空"@
        } else {
            "待翻译文本过长，最多支持 12000 个字符"@
        })),
        r matches Ok(q) ==> {
            &&& q.text@ == trim(text@)
            &&& q.source_lang@ == (match sl {
                Some(s) => s@,
                None => "auto"@,
            })
            &&& q.target_lang@ == (match tl {
                Some(s) => s@,
                None => if has_cjk(trim(text@)) {
                    "en"@
                } else {
                    "zh-CN"@
                },
            })
        },
{
    let v = chars_of(text);
    let t = trim_chars(&v);
    if t.len() == 0 {
        return Err(AppError::InvalidInput("待翻译文本不能为空".to_string()));
    }
    if t.len() > MAX_QUERY_CHARS {
        return Err(AppError::InvalidInput("待翻译文本过长，最多支持 12000 个字符".to_string()));
    }
    let trimmed = string_of(&t);
    let (default_sl, default_tl) = detect_target_lang(trimmed.as_str());
    let source = match sl {
        Some(s) => s.to_string(),
        None => default_sl.to_string(),
    };
    let target = match tl {
        Some(s) => s.to_string(),
        None => default_tl.to_string(),
    };
    Ok(TranslationRequest { text: trimmed, source_lang: source, target_lang: target })
}

/// The result of a request whose answer was `value`.
pub fn translation_result(request: &TranslationRequest, value: &JsonValue) -> (r: Result<
    TranslationResult,
    AppError,
>)
    ensures
        match r {
            Ok(res) => parse_google_spec(*value) == Some((res.translated@, res.detected_lang@))
                && res.original@ == request.text@ && res.target_lang@ == request.target_lang@,
            Err(e) => parse_google_spec(*value) is None && (e matches AppError::Protocol(m) && m@
                == "未能解析到有效翻译结果"@),
        },
{
    let (translated, detected_lang) = parse_google_response(value)?;
    Ok(
        TranslationResult {
            original: request.text.clone(),
            translated,
            detected_lang,
            target_lang: request.target_lang.clone(),
        },
    )
}

} // verus!
