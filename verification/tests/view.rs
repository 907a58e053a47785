use tran::dict::{DefinitionGroup, Example, QueryOutput, WordDetail};
use tran::screen::Tone;
use tran::theme::{TerminalHints, ThemeMode};
use tran::view::{
    clean_phonetic, cli_color, clipboard_text, formatted_pos, pos_badge, pos_color, pos_tone, starts_with_chars,
    toast_visible, wrap_before_insert,
};
use tran::width::{truncate_chars, truncate_display_width, wrap_display};
use unicode_width::UnicodeWidthStr;

#[test]
fn wraps_wide_characters_without_exceeding_width() {
    let lines = wrap_display("你好世界 hello", 6);
    assert!(lines.iter().all(|line| UnicodeWidthStr::width(line.as_str()) <= 6));
    assert_eq!(lines.join(""), "你好世界 hello");
}

#[test]
fn truncates_by_display_width() {
    assert_eq!(truncate_display_width("你好世界", 5), "你好…");
}

#[test]
fn pos_color_selection() {
    let theme = ThemeMode::Dark.cli(&TerminalHints::none());
    assert_eq!(pos_color("n.", &theme), theme.orange);
    assert_eq!(pos_color("v.", &theme), theme.blue);
    assert_eq!(pos_color("adj.", &theme), theme.green);
    assert_eq!(pos_color("adv.", &theme), theme.magenta);
    assert_eq!(pos_color("prep.", &theme), theme.cyan);
}

#[test]
fn pos_color_other_cases() {
    let theme = ThemeMode::Light.cli(&TerminalHints::none());
    assert_eq!(pos_color("ART.", &theme), theme.green);
    assert_eq!(pos_color("conj.", &theme), theme.cyan);
    assert_eq!(pos_color("pron.", &theme), theme.cyan);
    assert_eq!(pos_color("int.", &theme), theme.yellow);
    assert_eq!(pos_color("", &theme), theme.yellow);
    assert_eq!(pos_tone("Vt."), Tone::Blue);
    assert_eq!(cli_color(&theme, Tone::Plain), None);
    assert_eq!(cli_color(&theme, Tone::Muted), Some(theme.muted));
}

#[test]
fn wrap_keeps_blank_lines_and_drops_leading_spaces() {
    assert_eq!(wrap_display("a\r\n\r\nb", 10), vec!["a", "", "b"]);
    assert_eq!(wrap_display("", 10), vec![""]);
    assert_eq!(wrap_display("abc", 0), vec![""]);
    assert_eq!(wrap_display("ab cd", 3), vec!["ab", "cd"]);
}

#[test]
fn wrapped_lines_fit_their_width() {
    let text = "The quick brown fox 跳过了 the lazy dog, 然后又跑回来了。";
    for width in 2..20 {
        for line in wrap_display(text, width) {
            assert!(UnicodeWidthStr::width(line.as_str()) <= width, "{:?} wider than {}", line, width);
        }
    }
}

#[test]
fn truncation_edge_cases() {
    assert_eq!(truncate_display_width("short", 10), "short");
    assert_eq!(truncate_display_width("long text", 1), "…");
    assert_eq!(truncate_display_width("abcdef", 4), "abc…");
    assert_eq!(truncate_chars("abcdef", 3), "abc…");
    assert_eq!(truncate_chars("abc", 3), "abc");
}

#[test]
fn part_of_speech_labels() {
    assert_eq!(formatted_pos("n"), "n.");
    assert_eq!(formatted_pos("adj."), "adj.");
    assert_eq!(formatted_pos(""), "");
    assert_eq!(pos_badge("n"), "[n.]");
    assert_eq!(pos_badge(""), "");
}

#[test]
fn phonetics_lose_their_marks() {
    assert_eq!(clean_phonetic("/ həˈləʊ /"), "həˈləʊ");
    assert_eq!(clean_phonetic("[ləʊ]"), "ləʊ");
    assert_eq!(clean_phonetic("//"), "");
    assert!(starts_with_chars(&['a', 'd', 'v'], &['a', 'd']));
    assert!(!starts_with_chars(&['a'], &['a', 'd']));
}

fn sample_detail() -> WordDetail {
    WordDetail {
        word: "hello".to_string(),
        phonetic_us: None,
        phonetic_uk: Some("/ həˈləʊ /".to_string()),
        tags: vec!["CET4".to_string()],
        definitions: vec![
            DefinitionGroup { pos: "int.".to_string(), meanings: vec!["喂".to_string(), "你好".to_string()] },
            DefinitionGroup { pos: "n.".to_string(), meanings: vec!["招呼".to_string()] },
        ],
        examples: vec![Example { orig: "Hello there.".to_string(), trans: "你好。".to_string() }],
    }
}

#[test]
fn clipboard_holds_the_entry_or_translation() {
    let dict = QueryOutput::Dict(sample_detail());
    assert_eq!(clipboard_text(&dict), "hello\n/ həˈləʊ /\nint.: 喂；你好\nn.: 招呼");
    let sentence = QueryOutput::Sentence {
        original: "hi".to_string(),
        translated: "嗨".to_string(),
        detected_lang: "en".to_string(),
        target_lang: "zh-CN".to_string(),
    };
    assert_eq!(clipboard_text(&sentence), "嗨");
}

#[test]
fn typing_wraps_before_overflowing() {
    let before: Vec<char> = "abcd".chars().collect();
    assert!(!wrap_before_insert(&before, 'e', 5));
    assert!(wrap_before_insert(&before, '你', 5));
    assert!(!wrap_before_insert(&before, '你', 4));
    assert!(!wrap_before_insert(&[], '你', 5));
}

#[test]
fn notices_last_three_seconds() {
    assert!(toast_visible(0));
    assert!(toast_visible(2999));
    assert!(!toast_visible(3000));
}

#[test]
fn wrapping_keeps_visible_characters() {
    let text = "  hello  world \r\n foo\tbar 你好世界 ";
    for width in 1..12 {
        let joined: String = wrap_display(text, width).concat();
        let a: String = joined.chars().filter(|c| !c.is_whitespace()).collect();
        let b: String = text.chars().filter(|c| !c.is_whitespace()).collect();
        assert_eq!(a, b);
    }
}

#[test]
fn too_wide_characters_stand_alone_and_lines_are_trimmed() {
    assert_eq!(wrap_display("你好", 1), vec!["你", "好"]);
    let text = "  hello   wide  world 你好  ";
    for width in 1..12 {
        for line in wrap_display(text, width) {
            assert_eq!(line.trim(), line, "{:?} at width {}", line, width);
            let chars = line.chars().count();
            assert!(UnicodeWidthStr::width(line.as_str()) <= width || chars == 1);
        }
    }
}
