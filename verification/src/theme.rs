//! Color themes: the theme modes, their palettes for the command line and
//! the full-screen interface, and how the automatic mode is resolved from
//! what the terminal tells about its background.
use vstd::prelude::*;

use crate::json::{json_document, parse_json, JsonValue};
use crate::microsoft::{eq_ignore_ascii_case_spec, member_of, str_of};
use crate::text::{chars_of, find, find_chars_from, split_on, split_chars, str_eq, trim, trim_chars};

verus! {

/// A red, green, blue color.
pub type Rgb = (u8, u8, u8);

/// Theme selection: automatic detection, or a fixed dark or light palette.
#[derive(Debug, Clone, Copy, PartialEq, Eq, Structural)]
pub enum ThemeMode {
    Auto,
    Dark,
    Light,
}

impl Default for ThemeMode {
    fn default() -> (r: ThemeMode)
        ensures
            r == ThemeMode::Auto,
    {
        ThemeMode::Auto
    }
}

/// A terminal color: the terminal's own default, or an RGB value.
#[derive(Debug, Clone, Copy, PartialEq, Eq, Structural)]
pub enum TermColor {
    Reset,
    Rgb(u8, u8, u8),
}

/// The palette of the full-screen interface.
#[derive(Debug, Clone, Copy, PartialEq, Eq, Structural)]
pub struct Theme {
    pub background: TermColor,
    pub foreground: TermColor,
    pub secondary: TermColor,
    pub blue: TermColor,
    pub cyan: TermColor,
    pub green: TermColor,
    pub magenta: TermColor,
    pub purple: TermColor,
    pub orange: TermColor,
    pub yellow: TermColor,
    pub red: TermColor,
    pub comment: TermColor,
    pub selection: TermColor,
    pub border: TermColor,
    pub badge_fg: TermColor,
}

/// The palette of the command-line output.
#[derive(Debug, Clone, Copy, PartialEq, Eq)]
pub struct CliTheme {
    pub foreground: Rgb,
    pub translation: Rgb,
    pub blue: Rgb,
    pub cyan: Rgb,
    pub green: Rgb,
    pub magenta: Rgb,
    pub orange: Rgb,
    pub yellow: Rgb,
    pub muted: Rgb,
    pub border: Rgb,
}

/// What the environment tells about the terminal's colors: the
/// `COLORFGBG`, `TERM_THEME` and `BAT_THEME` variables, and the theme that
/// the Windows Terminal settings give, where they were read.
#[derive(Debug)]
pub struct TerminalHints {
    pub colorfgbg: Option<String>,
    pub term_theme: Option<String>,
    pub bat_theme: Option<String>,
    pub windows_terminal: Option<ThemeMode>,
}

impl TerminalHints {
    /// No hint at all.
    pub fn none() -> (r: TerminalHints)
        ensures
            r.colorfgbg is None,
            r.term_theme is None,
            r.bat_theme is None,
            r.windows_terminal is None,
    {
        TerminalHints { colorfgbg: None, term_theme: None, bat_theme: None, windows_terminal: None }
    }
}

/// The lowercase form of a string, as `str::to_lowercase` gives it.
pub uninterp spec fn unicode_lowercase(s: Seq<char>) -> Seq<char>;

/// `str::to_lowercase` of std: the string with every character mapped to its
/// Unicode lowercase. The case mapping tables are only named here; an ASCII
/// string maps character by character, `A`..`Z` to `a`..`z`.
#[verifier::external_body]
pub(crate) fn to_lowercase(s: &str) -> (r: Vec<char>)
    ensures
        r@ == unicode_lowercase(s@),
        crate::text::ascii_only(s@) ==> r@ == s@.map_values(|c: char| crate::microsoft::ascii_lower(c)),
{
    s.to_lowercase().chars().collect()
}

/// An ASCII decimal digit.
pub open spec fn is_digit(c: char) -> bool {
    '0' <= c && c <= '9'
}

/// The number written by the decimal digits `d`.
pub open spec fn decimal_value(d: Seq<char>) -> nat
    decreases d.len(),
{
    if d.len() == 0 {
        0
    } else {
        decimal_value(d.drop_last()) * 10 + ((d.last() as u32) - ('0' as u32)) as nat
    }
}

/// The text after an optional leading `+`.
pub open spec fn unsigned_digits(s: Seq<char>) -> Seq<char> {
    if s.len() > 0 && s[0] == '+' {
        s.drop_first()
    } else {
        s
    }
}

/// Whether every character is a decimal digit.
pub open spec fn all_digits(d: Seq<char>) -> bool {
    forall|i: int| 0 <= i < d.len() ==> is_digit(#[trigger] d[i])
}

/// What `str::parse::<u8>` gives: an optional `+` and at least one decimal
/// digit, for a value below 256.
pub open spec fn parse_u8_spec(s: Seq<char>) -> Option<u8> {
    let d = unsigned_digits(s);
    if d.len() > 0 && all_digits(d) && decimal_value(d) < 256 {
        Some(decimal_value(d) as u8)
    } else {
        None
    }
}

/// Parses a decimal `u8` as `str::parse::<u8>` does.
pub fn parse_u8(s: &[char]) -> (r: Option<u8>)
    ensures
        r == parse_u8_spec(s@),
{
    let start: usize = if s.len() > 0 && s[0] == '+' {
        1
    } else {
        0
    };
    let ghost d = unsigned_digits(s@);
    assert(d == s@.subrange(start as int, s@.len() as int));
    if start >= s.len() {
        return None;
    }
    let n = s.len();
    let mut value: u32 = 0;
    let mut i = start;
    while i < n
        invariant
            start <= i <= n == s@.len(),
            d == s@.subrange(start as int, n as int),
            d == unsigned_digits(s@),
            forall|j: int| start <= j < i ==> is_digit(#[trigger] s@[j]),
            value as nat == decimal_value(s@.subrange(start as int, i as int)),
            value < 256,
        decreases n - i,
    {
        let c = s[i];
        if !('0' <= c && c <= '9') {
            assert(!is_digit(d[i - start]));
            assert(!all_digits(d));
            return None;
        }
        assert(s@.subrange(start as int, i + 1).drop_last() == s@.subrange(start as int, i as int));
        let next = value * 10 + ((c as u32) - ('0' as u32));
        if next >= 256 {
            proof {
                assert(d.take((i + 1 - start) as int) == s@.subrange(start as int, i + 1));
                assert(decimal_value(s@.subrange(start as int, i + 1)) == next);
                if all_digits(d) {
                    lemma_decimal_prefix_grows(d, (i + 1 - start) as int);
                }
            }
            return None;
        }
        value = next;
        i += 1;
    }
    assert(s@.subrange(start as int, n as int) == d);
    assert forall|j: int| 0 <= j < d.len() implies is_digit(#[trigger] d[j]) by {
        assert(d[j] == s@[start + j]);
    }
    assert(all_digits(d));
    Some(value as u8)
}

proof fn lemma_decimal_prefix_grows(d: Seq<char>, k: int)
    requires
        0 <= k <= d.len(),
        all_digits(d),
    ensures
        decimal_value(d.take(k)) <= decimal_value(d),
    decreases d.len() - k,
{
    if k < d.len() {
        lemma_decimal_prefix_grows(d, k + 1);
        assert(d.take(k + 1).drop_last() == d.take(k));
        assert(is_digit(d[k]));
    } else {
        assert(d.take(k) == d);
    }
}

} // verus!

verus! {

/// The characters of `"light"`.
pub open spec fn light_word() -> Seq<char> {
    seq!['l', 'i', 'g', 'h', 't']
}

/// The characters of `"dark"`.
pub open spec fn dark_word() -> Seq<char> {
    seq!['d', 'a', 'r', 'k']
}

/// Whether `p` occurs in `s`.
pub open spec fn contains(s: Seq<char>, p: Seq<char>) -> bool {
    find(s, p) is Some
}

/// The theme that a `COLORFGBG` value tells: its last `;`-separated field is
/// the background color number; 7 and 15 are light, 0 to 6 and 8 dark.
pub open spec fn colorfgbg_theme(v: Seq<char>) -> Option<ThemeMode> {
    match parse_u8_spec(trim(split_on(v, ';').last())) {
        Some(b) => if b == 7 || b == 15 {
            Some(ThemeMode::Light)
        } else if b <= 6 || b == 8 {
            Some(ThemeMode::Dark)
        } else {
            None
        },
        None => None,
    }
}

/// The theme that the hints give, in order: `COLORFGBG`; `TERM_THEME`
/// naming light or dark; `BAT_THEME` naming light; the Windows Terminal
/// settings; and dark when nothing tells.
pub open spec fn detect_theme_spec(h: TerminalHints) -> ThemeMode {
    let from_colorfgbg = match h.colorfgbg {
        Some(v) => colorfgbg_theme(v@),
        None => None,
    };
    if from_colorfgbg is Some {
        from_colorfgbg.unwrap()
    } else if h.term_theme matches Some(t) && contains(unicode_lowercase(t@), light_word()) {
        ThemeMode::Light
    } else if h.term_theme matches Some(t) && contains(unicode_lowercase(t@), dark_word()) {
        ThemeMode::Dark
    } else if h.bat_theme matches Some(b) && contains(unicode_lowercase(b@), light_word()) {
        ThemeMode::Light
    } else if h.windows_terminal matches Some(m) && m != ThemeMode::Auto {
        h.windows_terminal.unwrap()
    } else {
        ThemeMode::Dark
    }
}

fn colorfgbg_of(v: &str) -> (r: Option<ThemeMode>)
    ensures
        r == colorfgbg_theme(v@),
{
    let c = chars_of(v);
    let parts = split_chars(&c, ';');
    proof {
        crate::text::lemma_split_nonempty(c@, ';');
    }
    let last = &parts[parts.len() - 1];
    assert(parts@.map_values(|p: Vec<char>| p@).last() == last@);
    let t = trim_chars(last);
    match parse_u8(&t) {
        Some(b) => if b == 7 || b == 15 {
            Some(ThemeMode::Light)
        } else if b <= 6 || b == 8 {
            Some(ThemeMode::Dark)
        } else {
            None
        },
        None => None,
    }
}

fn lower_contains(s: &str, p: &Vec<char>) -> (r: bool)
    ensures
        r == contains(unicode_lowercase(s@), p@),
{
    let l = to_lowercase(s);
    find_chars_from(&l, p, 0).is_some()
}

/// The theme that the terminal hints give; never `Auto`.
pub fn detect_terminal_theme(hints: &TerminalHints) -> (r: ThemeMode)
    ensures
        r == detect_theme_spec(*hints),
        r != ThemeMode::Auto,
{
    let light = vec!['l', 'i', 'g', 'h', 't'];
    let dark = vec!['d', 'a', 'r', 'k'];
    assert(light@ =~= light_word());
    assert(dark@ =~= dark_word());
    match &hints.colorfgbg {
        Some(v) => match colorfgbg_of(v.as_str()) {
            Some(m) => return m,
            None => {},
        },
        None => {},
    }
    match &hints.term_theme {
        Some(t) => {
            if lower_contains(t.as_str(), &light) {
                return ThemeMode::Light;
            } else if lower_contains(t.as_str(), &dark) {
                return ThemeMode::Dark;
            }
        },
        None => {},
    }
    match &hints.bat_theme {
        Some(b) => {
            if lower_contains(b.as_str(), &light) {
                return ThemeMode::Light;
            }
        },
        None => {},
    }
    match hints.windows_terminal {
        Some(m) => if m != ThemeMode::Auto {
            return m;
        },
        None => {},
    }
    ThemeMode::Dark
}

/// The fixed dark palette of the command line.
pub open spec fn dark_cli_theme() -> CliTheme {
    CliTheme {
        foreground: (230, 237, 243),
        translation: (115, 218, 202),
        blue: (122, 162, 247),
        cyan: (125, 207, 255),
        green: (115, 218, 202),
        magenta: (187, 154, 247),
        orange: (255, 158, 100),
        yellow: (224, 175, 104),
        muted: (169, 177, 214),
        border: (86, 95, 137),
    }
}

/// The fixed light palette of the command line.
pub open spec fn light_cli_theme() -> CliTheme {
    CliTheme {
        foreground: (40, 44, 60),
        translation: (22, 110, 60),
        blue: (36, 76, 160),
        cyan: (0, 113, 143),
        green: (22, 110, 60),
        magenta: (142, 60, 202),
        orange: (180, 77, 24),
        yellow: (143, 94, 21),
        muted: (100, 110, 140),
        border: (160, 168, 195),
    }
}

/// The fixed dark palette of the full-screen interface.
pub open spec fn dark_tui_theme() -> Theme {
    Theme {
        background: TermColor::Reset,
        foreground: TermColor::Rgb(230, 237, 243),
        secondary: TermColor::Rgb(192, 202, 245),
        blue: TermColor::Rgb(122, 162, 247),
        cyan: TermColor::Rgb(125, 207, 255),
        green: TermColor::Rgb(115, 218, 202),
        magenta: TermColor::Rgb(187, 154, 247),
        purple: TermColor::Rgb(157, 124, 216),
        orange: TermColor::Rgb(255, 158, 100),
        yellow: TermColor::Rgb(224, 175, 104),
        red: TermColor::Rgb(247, 118, 142),
        comment: TermColor::Rgb(169, 177, 214),
        selection: TermColor::Rgb(51, 65, 90),
        border: TermColor::Rgb(86, 95, 137),
        badge_fg: TermColor::Rgb(26, 27, 38),
    }
}

/// The fixed light palette of the full-screen interface.
pub open spec fn light_tui_theme() -> Theme {
    Theme {
        background: TermColor::Reset,
        foreground: TermColor::Rgb(40, 44, 60),
        secondary: TermColor::Rgb(76, 85, 120),
        blue: TermColor::Rgb(36, 76, 160),
        cyan: TermColor::Rgb(0, 113, 143),
        green: TermColor::Rgb(22, 110, 60),
        magenta: TermColor::Rgb(142, 60, 202),
        purple: TermColor::Rgb(115, 60, 190),
        orange: TermColor::Rgb(180, 77, 24),
        yellow: TermColor::Rgb(143, 94, 21),
        red: TermColor::Rgb(199, 44, 72),
        comment: TermColor::Rgb(132, 142, 179),
        selection: TermColor::Rgb(210, 214, 224),
        border: TermColor::Rgb(160, 168, 195),
        badge_fg: TermColor::Rgb(255, 255, 255),
    }
}

impl ThemeMode {
    /// `Auto` resolved to the dark or light mode that the terminal hints
    /// give; a fixed mode stays as it is.
    pub open spec fn resolved_spec(self, hints: TerminalHints) -> ThemeMode {
        match self {
            ThemeMode::Auto => detect_theme_spec(hints),
            other => other,
        }
    }

    /// Resolves `Auto` from the terminal hints; the result is never `Auto`.
    pub fn resolved(self, hints: &TerminalHints) -> (r: ThemeMode)
        ensures
            r == self.resolved_spec(*hints),
            r != ThemeMode::Auto,
    {
        match self {
            ThemeMode::Auto => detect_terminal_theme(hints),
            other => other,
        }
    }

    /// The palette of the full-screen interface: light for the light mode,
    /// dark otherwise.
    pub fn tui(self, hints: &TerminalHints) -> (r: Theme)
        ensures
            r == (if self.resolved_spec(*hints) == ThemeMode::Light {
                light_tui_theme()
            } else {
                dark_tui_theme()
            }),
    {
        match self.resolved(hints) {
            ThemeMode::Light => Theme {
                background: TermColor::Reset,
                foreground: TermColor::Rgb(40, 44, 60),
                secondary: TermColor::Rgb(76, 85, 120),
                blue: TermColor::Rgb(36, 76, 160),
                cyan: TermColor::Rgb(0, 113, 143),
                green: TermColor::Rgb(22, 110, 60),
                magenta: TermColor::Rgb(142, 60, 202),
                purple: TermColor::Rgb(115, 60, 190),
                orange: TermColor::Rgb(180, 77, 24),
                yellow: TermColor::Rgb(143, 94, 21),
                red: TermColor::Rgb(199, 44, 72),
                comment: TermColor::Rgb(132, 142, 179),
                selection: TermColor::Rgb(210, 214, 224),
                border: TermColor::Rgb(160, 168, 195),
                badge_fg: TermColor::Rgb(255, 255, 255),
            },
            _ => Theme {
                background: TermColor::Reset,
                foreground: TermColor::Rgb(230, 237, 243),
                secondary: TermColor::Rgb(192, 202, 245),
                blue: TermColor::Rgb(122, 162, 247),
                cyan: TermColor::Rgb(125, 207, 255),
                green: TermColor::Rgb(115, 218, 202),
                magenta: TermColor::Rgb(187, 154, 247),
                purple: TermColor::Rgb(157, 124, 216),
                orange: TermColor::Rgb(255, 158, 100),
                yellow: TermColor::Rgb(224, 175, 104),
                red: TermColor::Rgb(247, 118, 142),
                comment: TermColor::Rgb(169, 177, 214),
                selection: TermColor::Rgb(51, 65, 90),
                border: TermColor::Rgb(86, 95, 137),
                badge_fg: TermColor::Rgb(26, 27, 38),
            },
        }
    }

    /// The palette of the command line: light for the light mode, dark
    /// otherwise.
    pub fn cli(self, hints: &TerminalHints) -> (r: CliTheme)
        ensures
            r == (if self.resolved_spec(*hints) == ThemeMode::Light {
                light_cli_theme()
            } else {
                dark_cli_theme()
            }),
    {
        match self.resolved(hints) {
            ThemeMode::Light => CliTheme {
                foreground: (40, 44, 60),
                translation: (22, 110, 60),
                blue: (36, 76, 160),
                cyan: (0, 113, 143),
                green: (22, 110, 60),
                magenta: (142, 60, 202),
                orange: (180, 77, 24),
                yellow: (143, 94, 21),
                muted: (100, 110, 140),
                border: (160, 168, 195),
            },
            _ => CliTheme {
                foreground: (230, 237, 243),
                translation: (115, 218, 202),
                blue: (122, 162, 247),
                cyan: (125, 207, 255),
                green: (115, 218, 202),
                magenta: (187, 154, 247),
                orange: (255, 158, 100),
                yellow: (224, 175, 104),
                muted: (169, 177, 214),
                border: (86, 95, 137),
            },
        }
    }

    /// The mode's name: `auto`, `dark` or `light`.
    pub fn to_string(&self) -> (r: String)
        ensures
            r@ == (match *self {
                ThemeMode::Auto => "auto"@,
                ThemeMode::Dark => "dark"@,
                ThemeMode::Light => "light"@,
            }),
    {
        match self {
            ThemeMode::Auto => "auto".to_string(),
            ThemeMode::Dark => "dark".to_string(),
            ThemeMode::Light => "light".to_string(),
        }
    }
}

/// What parsing a mode name gives: the lowercase, trimmed name `auto`,
/// `dark` or `light`, or an error quoting it.
pub open spec fn parse_theme_spec(s: Seq<char>) -> Result<ThemeMode, Seq<char>> {
    let t = trim(unicode_lowercase(s));
    if t == "auto"@ {
        Ok(ThemeMode::Auto)
    } else if t == "dark"@ {
        Ok(ThemeMode::Dark)
    } else if t == "light"@ {
        Ok(ThemeMode::Light)
    } else {
        Err("未知主题: "@ + t)
    }
}

/// Parses a theme mode name, ignoring case and surrounding whitespace.
pub fn parse_theme_mode(s: &str) -> (r: Result<ThemeMode, String>)
    ensures
        crate::text::ascii_only(s@) ==> unicode_lowercase(s@) == s@.map_values(
            |c: char| crate::microsoft::ascii_lower(c),
        ),
        match r {
            Ok(m) => parse_theme_spec(s@) == Ok::<ThemeMode, Seq<char>>(m),
            Err(e) => parse_theme_spec(s@) == Err::<ThemeMode, Seq<char>>(e@),
        },
{
    let l = to_lowercase(s);
    let t = trim_chars(&l);
    if crate::text::chars_eq(&t, &chars_of("auto")) {
        Ok(ThemeMode::Auto)
    } else if crate::text::chars_eq(&t, &chars_of("dark")) {
        Ok(ThemeMode::Dark)
    } else if crate::text::chars_eq(&t, &chars_of("light")) {
        Ok(ThemeMode::Light)
    } else {
        let mut msg = chars_of("未知主题: ");
        crate::text::extend_chars(&mut msg, &t);
        Err(crate::text::string_of(&msg))
    }
}

impl core::str::FromStr for ThemeMode {
    type Err = String;

    fn from_str(s: &str) -> (r: Result<ThemeMode, String>)
        ensures
            crate::text::ascii_only(s@) ==> unicode_lowercase(s@) == s@.map_values(
                |c: char| crate::microsoft::ascii_lower(c),
            ),
            match r {
                Ok(m) => parse_theme_spec(s@) == Ok::<ThemeMode, Seq<char>>(m),
                Err(e) => parse_theme_spec(s@) == Err::<ThemeMode, Seq<char>>(e@),
            },
    {
        parse_theme_mode(s)
    }
}

} // verus!

verus! {

/// What the Windows Terminal settings tell about the theme.
#[derive(Debug)]
pub enum WindowsTerminalTheme {
    /// The settings fix the mode.
    Fixed(ThemeMode),
    /// The default profile's color scheme has this background color; its
    /// lightness decides.
    SchemeBackground(String),
}

/// The background of the first scheme named `name` that has one.
pub open spec fn scheme_background(schemes: Seq<JsonValue>, name: Seq<char>) -> Option<Seq<char>>
    decreases schemes.len(),
{
    if schemes.len() == 0 {
        None
    } else {
        let s = schemes[0];
        if str_of(s.member_spec("name"@)) == Some(name) && str_of(s.member_spec("background"@)) is Some {
            str_of(s.member_spec("background"@))
        } else {
            scheme_background(schemes.drop_first(), name)
        }
    }
}

/// The theme that Windows Terminal settings give: a root `theme` of
/// `light` or `dark` (ignoring ASCII case); else the background of the
/// default profile's color scheme; else dark, the default scheme's colors.
pub open spec fn windows_theme_spec(settings: JsonValue) -> Result<ThemeMode, Seq<char>> {
    let theme = str_of(settings.member_spec("theme"@));
    if theme matches Some(t) && eq_ignore_ascii_case_spec(t, "light"@) {
        Ok(ThemeMode::Light)
    } else if theme matches Some(t) && eq_ignore_ascii_case_spec(t, "dark"@) {
        Ok(ThemeMode::Dark)
    } else {
        let scheme = str_of(
            member_of(member_of(settings.member_spec("profiles"@), "defaults"@), "colorScheme"@),
        );
        let schemes = settings.member_spec("schemes"@);
        let found = match scheme {
            Some(name) => match schemes {
                Some(list) => match list.array_spec() {
                    Some(items) => scheme_background(items, name),
                    None => None,
                },
                None => None,
            },
            None => None,
        };
        match found {
            Some(b) => Err(b),
            None => Ok(ThemeMode::Dark),
        }
    }
}

/// Reads the theme from parsed Windows Terminal settings.
pub fn windows_terminal_theme(settings: &JsonValue) -> (r: WindowsTerminalTheme)
    ensures
        match r {
            WindowsTerminalTheme::Fixed(m) => windows_theme_spec(*settings) == Ok::<
                ThemeMode,
                Seq<char>,
            >(m),
            WindowsTerminalTheme::SchemeBackground(b) => windows_theme_spec(*settings) == Err::<
                ThemeMode,
                Seq<char>,
            >(b@),
        },
{
    match settings.get("theme") {
        Some(t) => match t.as_str() {
            Some(s) => {
                let c = chars_of(s.as_str());
                if crate::microsoft::eq_ignore_ascii_case_chars(&c, "light") {
                    return WindowsTerminalTheme::Fixed(ThemeMode::Light);
                } else if crate::microsoft::eq_ignore_ascii_case_chars(&c, "dark") {
                    return WindowsTerminalTheme::Fixed(ThemeMode::Dark);
                }
            },
            None => {},
        },
        None => {},
    }
    let defaults = match settings.get("profiles") {
        Some(p) => p.get("defaults"),
        None => None,
    };
    let scheme = match defaults {
        Some(d) => match d.get("colorScheme") {
            Some(c) => c.as_str(),
            None => None,
        },
        None => None,
    };
    match scheme {
        Some(name) => match settings.get("schemes") {
            Some(list) => match list.as_array() {
                Some(items) => {
                    let n = items.len();
                    assert(items@.skip(0) == items@);
                    assert(windows_theme_spec(*settings) == match scheme_background(items@, name@) {
                        Some(b) => Err::<ThemeMode, Seq<char>>(b),
                        None => Ok(ThemeMode::Dark),
                    });
                    for i in 0..n
                        invariant
                            n == items@.len(),
                            windows_theme_spec(*settings) == match scheme_background(items@, name@) {
                                Some(b) => Err::<ThemeMode, Seq<char>>(b),
                                None => Ok(ThemeMode::Dark),
                            },
                            scheme_background(items@, name@) == scheme_background(
                                items@.skip(i as int),
                                name@,
                            ),
                    {
                        assert(items@.skip(i as int).drop_first() == items@.skip(i + 1));
                        assert(items@.skip(i as int)[0] == items@[i as int]);
                        let s = &items[i];
                        let matches_name = match s.get("name") {
                            Some(v) => match v.as_str() {
                                Some(x) => str_eq(x.as_str(), name.as_str()),
                                None => false,
                            },
                            None => false,
                        };
                        if matches_name {
                            match s.get("background") {
                                Some(bg) => match bg.as_str() {
                                    Some(b) => {
                                        return WindowsTerminalTheme::SchemeBackground(b.clone());
                                    },
                                    None => {},
                                },
                                None => {},
                            }
                        }
                    }
                    assert(items@.skip(n as int) == Seq::<JsonValue>::empty());
                    WindowsTerminalTheme::Fixed(ThemeMode::Dark)
                },
                None => WindowsTerminalTheme::Fixed(ThemeMode::Dark),
            },
            None => WindowsTerminalTheme::Fixed(ThemeMode::Dark),
        },
        None => WindowsTerminalTheme::Fixed(ThemeMode::Dark),
    }
}

} // verus!

verus! {

/// The bytes that `c` takes in UTF-8.
pub open spec fn utf8_width(c: char) -> int {
    if (c as u32) < 0x80 {
        1
    } else if (c as u32) < 0x800 {
        2
    } else if (c as u32) < 0x10000 {
        3
    } else {
        4
    }
}

/// The bytes that `s` takes in UTF-8.
pub open spec fn utf8_len(s: Seq<char>) -> int
    decreases s.len(),
{
    if s.len() == 0 {
        0
    } else {
        utf8_len(s.drop_last()) + utf8_width(s.last())
    }
}

/// Whether byte offset `b` falls between two characters of `s`.
pub open spec fn char_boundary(s: Seq<char>, b: int) -> bool
    decreases s.len(),
{
    if b == 0 {
        true
    } else if s.len() == 0 || b < 0 {
        false
    } else {
        char_boundary(s.drop_first(), b - utf8_width(s[0]))
    }
}

/// The value of a hexadecimal digit.
pub open spec fn hex_value(c: char) -> Option<u8> {
    if '0' <= c && c <= '9' {
        Some(((c as u32) - ('0' as u32)) as u8)
    } else if 'a' <= c && c <= 'f' {
        Some(((c as u32) - ('a' as u32) + 10) as u8)
    } else if 'A' <= c && c <= 'F' {
        Some(((c as u32) - ('A' as u32) + 10) as u8)
    } else {
        None
    }
}

/// Two characters read as a hexadecimal byte, as `u8::from_str_radix(_, 16)`
/// reads them: two digits, or a `+` sign and one digit.
pub open spec fn hex_pair(a: char, b: char) -> Option<u8> {
    if a == '+' {
        hex_value(b)
    } else {
        match (hex_value(a), hex_value(b)) {
            (Some(x), Some(y)) => Some((16 * x + y) as u8),
            _ => None,
        }
    }
}

/// The text of a color with surrounding whitespace and leading `#` removed.
pub open spec fn color_digits(hex: Seq<char>) -> Seq<char> {
    crate::text::strip_char_start(trim(hex), '#')
}

/// The color that a `#rrggbb` text names: six ASCII characters after the
/// `#`, read in pairs as hexadecimal bytes.
pub open spec fn hex_rgb_spec(hex: Seq<char>) -> Option<Rgb> {
    let d = color_digits(hex);
    if d.len() == 6 && (forall|i: int| 0 <= i < 6 ==> (#[trigger] d[i] as u32) < 0x80) {
        match (hex_pair(d[0], d[1]), hex_pair(d[2], d[3]), hex_pair(d[4], d[5])) {
            (Some(r), Some(g), Some(b)) => Some((r, g, b)),
            _ => None,
        }
    } else {
        None
    }
}

fn hex_digit(c: char) -> (r: Option<u8>)
    ensures
        r == hex_value(c),
{
    if '0' <= c && c <= '9' {
        Some(((c as u32) - ('0' as u32)) as u8)
    } else if 'a' <= c && c <= 'f' {
        Some(((c as u32) - ('a' as u32) + 10) as u8)
    } else if 'A' <= c && c <= 'F' {
        Some(((c as u32) - ('A' as u32) + 10) as u8)
    } else {
        None
    }
}

fn hex_byte(a: char, b: char) -> (r: Option<u8>)
    ensures
        r == hex_pair(a, b),
{
    if a == '+' {
        hex_digit(b)
    } else {
        match (hex_digit(a), hex_digit(b)) {
            (Some(x), Some(y)) => Some(16 * x + y),
            _ => None,
        }
    }
}

/// The red, green and blue bytes of a `#rrggbb` color. A text whose
/// digits are not six ASCII characters names no color. Texts whose digits
/// take six UTF-8 bytes but are cut inside a character at byte 2 or 4
/// cannot be split into pairs and are left out.
pub fn hex_rgb(hex: &str) -> (r: Option<Rgb>)
    requires
        utf8_len(color_digits(hex@)) != 6 || (char_boundary(color_digits(hex@), 2) && char_boundary(
            color_digits(hex@),
            4,
        )),
    ensures
        r == hex_rgb_spec(hex@),
{
    let t = trim_chars(&chars_of(hex));
    let n = t.len();
    let mut i: usize = 0;
    assert(t@.subrange(0, n as int) == t@);
    while i < n && t[i] == '#'
        invariant
            i <= n == t@.len(),
            t@ == trim(hex@),
            crate::text::strip_char_start(t@, '#') == crate::text::strip_char_start(t@.subrange(i as int, n as int), '#'),
        decreases n - i,
    {
        assert(t@.subrange(i as int, n as int).drop_first() == t@.subrange(i + 1, n as int));
        i += 1;
    }
    let d = crate::text::sub_chars(&t, i, n);
    assert(crate::text::strip_char_start(d@, '#') == d@);
    assert(d@ == color_digits(hex@));
    if d.len() != 6 {
        return None;
    }
    let mut k: usize = 0;
    while k < 6
        invariant
            d@.len() == 6,
            d@ == color_digits(hex@),
            k <= 6,
            forall|j: int| 0 <= j < k ==> (#[trigger] d@[j] as u32) < 0x80,
        decreases 6 - k,
    {
        if (d[k] as u32) >= 0x80 {
            assert((d@[k as int] as u32) >= 0x80);
            return None;
        }
        k += 1;
    }
    match (hex_byte(d[0], d[1]), hex_byte(d[2], d[3]), hex_byte(d[4], d[5])) {
        (Some(r), Some(g), Some(b)) => Some((r, g, b)),
        _ => None,
    }
}

} // verus!

verus! {

/// Reads the theme from the text of a Windows Terminal settings file: `None`
/// when the text is not JSON, else what `windows_terminal_theme` reads.
pub fn settings_text_theme(content: &str) -> (r: Option<WindowsTerminalTheme>)
    ensures
        r is None <==> json_document(content@) is None,
        r matches Some(WindowsTerminalTheme::Fixed(m)) ==> json_document(content@) matches Some(v)
            && windows_theme_spec(v) == Ok::<ThemeMode, Seq<char>>(m),
        r matches Some(WindowsTerminalTheme::SchemeBackground(b)) ==> json_document(content@) matches Some(v)
            && windows_theme_spec(v) == Err::<ThemeMode, Seq<char>>(b@),
{
    match parse_json(content) {
        Some(v) => Some(windows_terminal_theme(&v)),
        None => None,
    }
}

} // verus!
