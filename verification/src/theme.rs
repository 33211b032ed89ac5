//! Theming for the terminal UI.
//!
//! A theme is a set of named colour *tokens*. Built-in themes are provided,
//! and any token can be overridden from the user configuration
//! (`[ui.theme_overrides]`) without touching the source code.

use vstd::prelude::*;

use crate::text::{chars_of, owned, str_eq, trim, trim_range};

verus! {

/// A terminal colour.
#[derive(Debug, Clone, Copy, PartialEq, Eq, Structural)]
pub enum Color {
    /// The terminal's own default colour.
    Reset,
    Rgb(u8, u8, u8),
    Yellow,
    LightYellow,
    LightGreen,
    LightRed,
    LightCyan,
    White,
    Gray,
    DarkGray,
    Blue,
}

/// A fully resolved palette used by the renderer.
#[derive(Debug, Clone)]
pub struct ThemePalette {
    pub name: String,
    pub accent: Color,
    pub accent_alt: Color,
    pub success: Color,
    pub warning: Color,
    pub danger: Color,
    pub info: Color,
    pub fg: Color,
    pub fg_dim: Color,
    pub muted: Color,
    pub border: Color,
    pub border_focus: Color,
    pub selection_bg: Color,
    pub selection_fg: Color,
    pub panel_bg: Color,
}

/// The palette's colours, token by token (in the order of
/// [`token_index`]).
pub open spec fn colors(p: ThemePalette) -> Seq<Color> {
    seq![
        p.accent,
        p.accent_alt,
        p.success,
        p.warning,
        p.danger,
        p.info,
        p.fg,
        p.fg_dim,
        p.muted,
        p.border,
        p.border_focus,
        p.selection_bg,
        p.selection_fg,
        p.panel_bg,
    ]
}

/// The position of the token named `t` among a palette's colours; unknown
/// names have none.
pub open spec fn token_index(t: Seq<char>) -> Option<int> {
    if t == "accent"@ {
        Some(0)
    } else if t == "accent_alt"@ {
        Some(1)
    } else if t == "success"@ {
        Some(2)
    } else if t == "warning"@ {
        Some(3)
    } else if t == "danger"@ {
        Some(4)
    } else if t == "info"@ {
        Some(5)
    } else if t == "fg"@ {
        Some(6)
    } else if t == "fg_dim"@ {
        Some(7)
    } else if t == "muted"@ {
        Some(8)
    } else if t == "border"@ {
        Some(9)
    } else if t == "border_focus"@ {
        Some(10)
    } else if t == "selection_bg"@ {
        Some(11)
    } else if t == "selection_fg"@ {
        Some(12)
    } else if t == "panel_bg"@ {
        Some(13)
    } else {
        None
    }
}

/// The colours after setting token `t` to `c` (unknown tokens are ignored).
pub open spec fn with_token(cs: Seq<Color>, t: Seq<char>, c: Color) -> Seq<Color> {
    match token_index(t) {
        Some(i) => cs.update(i, c),
        None => cs,
    }
}

impl ThemePalette {
    /// Set the colour of the token named `token`; unknown tokens are
    /// ignored.
    pub fn set_token(&mut self, token: &str, color: Color)
        ensures
            final(self).name == old(self).name,
            colors(*final(self)) == with_token(colors(*old(self)), token@, color),
    {
        if str_eq(token, "accent") {
            self.accent = color;
        } else if str_eq(token, "accent_alt") {
            self.accent_alt = color;
        } else if str_eq(token, "success") {
            self.success = color;
        } else if str_eq(token, "warning") {
            self.warning = color;
        } else if str_eq(token, "danger") {
            self.danger = color;
        } else if str_eq(token, "info") {
            self.info = color;
        } else if str_eq(token, "fg") {
            self.fg = color;
        } else if str_eq(token, "fg_dim") {
            self.fg_dim = color;
        } else if str_eq(token, "muted") {
            self.muted = color;
        } else if str_eq(token, "border") {
            self.border = color;
        } else if str_eq(token, "border_focus") {
            self.border_focus = color;
        } else if str_eq(token, "selection_bg") {
            self.selection_bg = color;
        } else if str_eq(token, "selection_fg") {
            self.selection_fg = color;
        } else if str_eq(token, "panel_bg") {
            self.panel_bg = color;
        }
    }
}

} // verus!

verus! {

/// The colours of the `moss` theme, token by token.
pub open spec fn moss_colors() -> Seq<Color> {
    seq![
        Color::Rgb(0x9E, 0xD9, 0x6B),
        Color::Rgb(0x6B, 0xBF, 0x7B),
        Color::Rgb(0x6B, 0xBF, 0x7B),
        Color::Rgb(0xD9, 0xA4, 0x41),
        Color::Rgb(0xE0, 0x6C, 0x75),
        Color::Rgb(0x58, 0xA6, 0xC9),
        Color::Rgb(0xE6, 0xE9, 0xE1),
        Color::Rgb(0xB4, 0xBA, 0xAF),
        Color::Rgb(0x6B, 0x72, 0x80),
        Color::Rgb(0x3A, 0x40, 0x38),
        Color::Rgb(0x9E, 0xD9, 0x6B),
        Color::Rgb(0x2C, 0x38, 0x24),
        Color::Rgb(0xE6, 0xE9, 0xE1),
        Color::Reset,
    ]
}

fn moss() -> (r: ThemePalette)
    ensures
        r.name@ == "moss"@,
        colors(r) == moss_colors(),
{
    let r = ThemePalette {
        name: owned("moss"),
        accent: Color::Rgb(0x9E, 0xD9, 0x6B),
        accent_alt: Color::Rgb(0x6B, 0xBF, 0x7B),
        success: Color::Rgb(0x6B, 0xBF, 0x7B),
        warning: Color::Rgb(0xD9, 0xA4, 0x41),
        danger: Color::Rgb(0xE0, 0x6C, 0x75),
        info: Color::Rgb(0x58, 0xA6, 0xC9),
        fg: Color::Rgb(0xE6, 0xE9, 0xE1),
        fg_dim: Color::Rgb(0xB4, 0xBA, 0xAF),
        muted: Color::Rgb(0x6B, 0x72, 0x80),
        border: Color::Rgb(0x3A, 0x40, 0x38),
        border_focus: Color::Rgb(0x9E, 0xD9, 0x6B),
        selection_bg: Color::Rgb(0x2C, 0x38, 0x24),
        selection_fg: Color::Rgb(0xE6, 0xE9, 0xE1),
        panel_bg: Color::Reset,
    };
    assert(colors(r) =~= moss_colors());
    r
}

/// The colours of the `amber` theme, token by token.
pub open spec fn amber_colors() -> Seq<Color> {
    seq![
        Color::Rgb(0xE8, 0xB8, 0x4B),
        Color::Rgb(0xD9, 0xA4, 0x41),
        Color::Rgb(0x6B, 0xBF, 0x7B),
        Color::Rgb(0xD9, 0xA4, 0x41),
        Color::Rgb(0xE0, 0x6C, 0x75),
        Color::Rgb(0x58, 0xA6, 0xC9),
        Color::Rgb(0xEC, 0xE6, 0xD8),
        Color::Rgb(0xBE, 0xB6, 0xA2),
        Color::Rgb(0x6B, 0x72, 0x80),
        Color::Rgb(0x40, 0x3A, 0x2C),
        Color::Rgb(0xE8, 0xB8, 0x4B),
        Color::Rgb(0x3A, 0x30, 0x1C),
        Color::Rgb(0xEC, 0xE6, 0xD8),
        Color::Reset,
    ]
}

fn amber() -> (r: ThemePalette)
    ensures
        r.name@ == "amber"@,
        colors(r) == amber_colors(),
{
    let r = ThemePalette {
        name: owned("amber"),
        accent: Color::Rgb(0xE8, 0xB8, 0x4B),
        accent_alt: Color::Rgb(0xD9, 0xA4, 0x41),
        success: Color::Rgb(0x6B, 0xBF, 0x7B),
        warning: Color::Rgb(0xD9, 0xA4, 0x41),
        danger: Color::Rgb(0xE0, 0x6C, 0x75),
        info: Color::Rgb(0x58, 0xA6, 0xC9),
        fg: Color::Rgb(0xEC, 0xE6, 0xD8),
        fg_dim: Color::Rgb(0xBE, 0xB6, 0xA2),
        muted: Color::Rgb(0x6B, 0x72, 0x80),
        border: Color::Rgb(0x40, 0x3A, 0x2C),
        border_focus: Color::Rgb(0xE8, 0xB8, 0x4B),
        selection_bg: Color::Rgb(0x3A, 0x30, 0x1C),
        selection_fg: Color::Rgb(0xEC, 0xE6, 0xD8),
        panel_bg: Color::Reset,
    };
    assert(colors(r) =~= amber_colors());
    r
}

/// The colours of the `ocean` theme, token by token.
pub open spec fn ocean_colors() -> Seq<Color> {
    seq![
        Color::Rgb(0x56, 0xB6, 0xD6),
        Color::Rgb(0x4A, 0x90, 0xC2),
        Color::Rgb(0x5F, 0xC9, 0xA8),
        Color::Rgb(0xE5, 0xC0, 0x7B),
        Color::Rgb(0xE0, 0x6C, 0x75),
        Color::Rgb(0x7A, 0xB8, 0xE0),
        Color::Rgb(0xDC, 0xE6, 0xEC),
        Color::Rgb(0xA8, 0xB6, 0xC0),
        Color::Rgb(0x60, 0x6C, 0x78),
        Color::Rgb(0x2C, 0x38, 0x42),
        Color::Rgb(0x56, 0xB6, 0xD6),
        Color::Rgb(0x1C, 0x30, 0x3C),
        Color::Rgb(0xDC, 0xE6, 0xEC),
        Color::Reset,
    ]
}

fn ocean() -> (r: ThemePalette)
    ensures
        r.name@ == "ocean"@,
        colors(r) == ocean_colors(),
{
    let r = ThemePalette {
        name: owned("ocean"),
        accent: Color::Rgb(0x56, 0xB6, 0xD6),
        accent_alt: Color::Rgb(0x4A, 0x90, 0xC2),
        success: Color::Rgb(0x5F, 0xC9, 0xA8),
        warning: Color::Rgb(0xE5, 0xC0, 0x7B),
        danger: Color::Rgb(0xE0, 0x6C, 0x75),
        info: Color::Rgb(0x7A, 0xB8, 0xE0),
        fg: Color::Rgb(0xDC, 0xE6, 0xEC),
        fg_dim: Color::Rgb(0xA8, 0xB6, 0xC0),
        muted: Color::Rgb(0x60, 0x6C, 0x78),
        border: Color::Rgb(0x2C, 0x38, 0x42),
        border_focus: Color::Rgb(0x56, 0xB6, 0xD6),
        selection_bg: Color::Rgb(0x1C, 0x30, 0x3C),
        selection_fg: Color::Rgb(0xDC, 0xE6, 0xEC),
        panel_bg: Color::Reset,
    };
    assert(colors(r) =~= ocean_colors());
    r
}

/// The colours of the `mono` theme, token by token.
pub open spec fn mono_colors() -> Seq<Color> {
    seq![
        Color::Rgb(0xE6, 0xE6, 0xE6),
        Color::Rgb(0xB0, 0xB0, 0xB0),
        Color::Rgb(0xC8, 0xC8, 0xC8),
        Color::Rgb(0xD0, 0xD0, 0xD0),
        Color::Rgb(0xF0, 0xF0, 0xF0),
        Color::Rgb(0xB8, 0xB8, 0xB8),
        Color::Rgb(0xE0, 0xE0, 0xE0),
        Color::Rgb(0xA0, 0xA0, 0xA0),
        Color::Rgb(0x70, 0x70, 0x70),
        Color::Rgb(0x40, 0x40, 0x40),
        Color::Rgb(0xE6, 0xE6, 0xE6),
        Color::Rgb(0x30, 0x30, 0x30),
        Color::Rgb(0xF4, 0xF4, 0xF4),
        Color::Reset,
    ]
}

fn mono() -> (r: ThemePalette)
    ensures
        r.name@ == "mono"@,
        colors(r) == mono_colors(),
{
    let r = ThemePalette {
        name: owned("mono"),
        accent: Color::Rgb(0xE6, 0xE6, 0xE6),
        accent_alt: Color::Rgb(0xB0, 0xB0, 0xB0),
        success: Color::Rgb(0xC8, 0xC8, 0xC8),
        warning: Color::Rgb(0xD0, 0xD0, 0xD0),
        danger: Color::Rgb(0xF0, 0xF0, 0xF0),
        info: Color::Rgb(0xB8, 0xB8, 0xB8),
        fg: Color::Rgb(0xE0, 0xE0, 0xE0),
        fg_dim: Color::Rgb(0xA0, 0xA0, 0xA0),
        muted: Color::Rgb(0x70, 0x70, 0x70),
        border: Color::Rgb(0x40, 0x40, 0x40),
        border_focus: Color::Rgb(0xE6, 0xE6, 0xE6),
        selection_bg: Color::Rgb(0x30, 0x30, 0x30),
        selection_fg: Color::Rgb(0xF4, 0xF4, 0xF4),
        panel_bg: Color::Reset,
    };
    assert(colors(r) =~= mono_colors());
    r
}

/// The colours of the `high-contrast` theme, token by token.
pub open spec fn high_contrast_colors() -> Seq<Color> {
    seq![
        Color::Yellow,
        Color::LightYellow,
        Color::LightGreen,
        Color::LightYellow,
        Color::LightRed,
        Color::LightCyan,
        Color::White,
        Color::Gray,
        Color::DarkGray,
        Color::Gray,
        Color::Yellow,
        Color::Blue,
        Color::White,
        Color::Reset,
    ]
}

fn high_contrast() -> (r: ThemePalette)
    ensures
        r.name@ == "high-contrast"@,
        colors(r) == high_contrast_colors(),
{
    let r = ThemePalette {
        name: owned("high-contrast"),
        accent: Color::Yellow,
        accent_alt: Color::LightYellow,
        success: Color::LightGreen,
        warning: Color::LightYellow,
        danger: Color::LightRed,
        info: Color::LightCyan,
        fg: Color::White,
        fg_dim: Color::Gray,
        muted: Color::DarkGray,
        border: Color::Gray,
        border_focus: Color::Yellow,
        selection_bg: Color::Blue,
        selection_fg: Color::White,
        panel_bg: Color::Reset,
    };
    assert(colors(r) =~= high_contrast_colors());
    r
}

/// The name of the built-in theme `name` selects: the known names select
/// themselves, anything else `moss`.
pub open spec fn builtin_name(name: Seq<char>) -> Seq<char> {
    if name == "amber"@ {
        "amber"@
    } else if name == "ocean"@ {
        "ocean"@
    } else if name == "mono"@ {
        "mono"@
    } else if name == "high-contrast"@ {
        "high-contrast"@
    } else {
        "moss"@
    }
}

/// The colours of the built-in theme `name` selects.
pub open spec fn builtin_colors(name: Seq<char>) -> Seq<Color> {
    if name == "amber"@ {
        amber_colors()
    } else if name == "ocean"@ {
        ocean_colors()
    } else if name == "mono"@ {
        mono_colors()
    } else if name == "high-contrast"@ {
        high_contrast_colors()
    } else {
        moss_colors()
    }
}

/// A built-in palette by name, defaulting to `moss`.
pub fn builtin(name: &str) -> (r: ThemePalette)
    ensures
        r.name@ == builtin_name(name@),
        colors(r) == builtin_colors(name@),
{
    if str_eq(name, "amber") {
        amber()
    } else if str_eq(name, "ocean") {
        ocean()
    } else if str_eq(name, "mono") {
        mono()
    } else if str_eq(name, "high-contrast") {
        high_contrast()
    } else {
        moss()
    }
}

/// The colour of an environment status in the environments panel.
pub fn status_color(status: crate::domain::EnvStatus, theme: &ThemePalette) -> (r: Color)
    ensures
        r == match status {
            crate::domain::EnvStatus::Ready => theme.success,
            crate::domain::EnvStatus::Empty => theme.warning,
            crate::domain::EnvStatus::Missing => theme.muted,
            crate::domain::EnvStatus::Broken => theme.danger,
            crate::domain::EnvStatus::Unknown => theme.fg_dim,
        },
{
    match status {
        crate::domain::EnvStatus::Ready => theme.success,
        crate::domain::EnvStatus::Empty => theme.warning,
        crate::domain::EnvStatus::Missing => theme.muted,
        crate::domain::EnvStatus::Broken => theme.danger,
        crate::domain::EnvStatus::Unknown => theme.fg_dim,
    }
}

} // verus!

verus! {

/// The value of a hexadecimal digit (either case).
pub open spec fn hex_digit_value(c: char) -> Option<nat> {
    if '0' <= c && c <= '9' {
        Some((c as nat - '0' as nat) as nat)
    } else if 'a' <= c && c <= 'f' {
        Some((c as nat - 'a' as nat + 10) as nat)
    } else if 'A' <= c && c <= 'F' {
        Some((c as nat - 'A' as nat + 10) as nat)
    } else {
        None
    }
}

/// The byte two hexadecimal digits `ab` write.
pub open spec fn pair_value(a: char, b: char) -> Option<u8> {
    match (hex_digit_value(a), hex_digit_value(b)) {
        (Some(x), Some(y)) => Some((16 * x + y) as u8),
        _ => None,
    }
}

/// `s` without its leading `#` characters.
pub open spec fn trim_hashes(s: Seq<char>) -> Seq<char>
    decreases s.len(),
{
    if s.len() > 0 && s[0] == '#' {
        trim_hashes(s.drop_first())
    } else {
        s
    }
}

/// The digits of a colour text: trimmed, without leading `#`s.
pub open spec fn hex_body(hex: Seq<char>) -> Seq<char> {
    trim_hashes(trim(hex))
}

/// The colour a `#rrggbb` (or `rrggbb`) text names: six hexadecimal
/// digits after the leading `#`s, whitespace around them ignored; any other
/// text names none.
pub open spec fn spec_parse_hex(hex: Seq<char>) -> Option<Color> {
    let h = hex_body(hex);
    if h.len() == 6 {
        match (pair_value(h[0], h[1]), pair_value(h[2], h[3]), pair_value(h[4], h[5])) {
            (Some(r), Some(g), Some(b)) => Some(Color::Rgb(r, g, b)),
            _ => None,
        }
    } else {
        None
    }
}

fn hex_digit_exec(c: char) -> (r: Option<u8>)
    ensures
        r matches Some(v) ==> hex_digit_value(c) == Some(v as nat),
        r is None ==> hex_digit_value(c) is None,
{
    if '0' <= c && c <= '9' {
        Some(((c as u32) - 48) as u8)
    } else if 'a' <= c && c <= 'f' {
        Some(((c as u32) - 87) as u8)
    } else if 'A' <= c && c <= 'F' {
        Some(((c as u32) - 55) as u8)
    } else {
        None
    }
}

fn pair_exec(a: char, b: char) -> (r: Option<u8>)
    ensures
        r == pair_value(a, b),
{
    match (hex_digit_exec(a), hex_digit_exec(b)) {
        (Some(x), Some(y)) => Some(16 * x + y),
        _ => None,
    }
}

/// Parse a `#rrggbb` (or `rrggbb`) hex string into a colour; any other
/// text gives `None`.
pub fn parse_hex(hex: &str) -> (r: Option<Color>)
    ensures
        r == spec_parse_hex(hex@),
{
    let cs = chars_of(hex);
    let (mut a, b) = trim_range(&cs, 0, cs.len());
    assert(cs@.subrange(0, cs.len() as int) == cs@);
    assert(cs@.subrange(a as int, b as int) == trim(hex@));
    while a < b && cs[a] == '#'
        invariant
            a <= b <= cs.len(),
            trim_hashes(cs@.subrange(a as int, b as int)) == hex_body(hex@),
        decreases b - a,
    {
        assert(cs@.subrange(a as int, b as int).drop_first() == cs@.subrange(a + 1, b as int));
        a = a + 1;
    }
    let ghost h = cs@.subrange(a as int, b as int);
    assert(trim_hashes(h) == h);
    if b - a != 6 {
        return None;
    }
    let r = pair_exec(cs[a], cs[a + 1]);
    let g = pair_exec(cs[a + 2], cs[a + 3]);
    let bl = pair_exec(cs[a + 4], cs[a + 5]);
    match (r, g, bl) {
        (Some(r), Some(g), Some(bl)) => Some(Color::Rgb(r, g, bl)),
        _ => None,
    }
}

/// The colours after applying each override `(token, text)` in order: a
/// text that names a colour sets the token (unknown tokens and texts are
/// ignored).
pub open spec fn apply_overrides(cs: Seq<Color>, ov: Seq<(Seq<char>, Seq<char>)>) -> Seq<Color>
    decreases ov.len(),
{
    if ov.len() == 0 {
        cs
    } else {
        let prev = apply_overrides(cs, ov.drop_last());
        match spec_parse_hex(ov.last().1) {
            Some(c) => with_token(prev, ov.last().0, c),
            None => prev,
        }
    }
}

/// Resolve a palette by name, then apply the user's token overrides.
///
/// Unknown theme names fall back to the default `moss` theme. Unknown
/// override tokens are ignored. Invalid hex values are ignored.
pub fn resolve(name: &str, overrides: &Vec<(String, String)>) -> (r: ThemePalette)
    ensures
        r.name@ == builtin_name(name@),
        colors(r) == apply_overrides(builtin_colors(name@), crate::runner::pairs(overrides@)),
{
    let mut palette = builtin(name);
    let ghost ov = crate::runner::pairs(overrides@);
    let mut i: usize = 0;
    while i < overrides.len()
        invariant
            i <= overrides.len(),
            ov == crate::runner::pairs(overrides@),
            palette.name@ == builtin_name(name@),
            colors(palette) == apply_overrides(builtin_colors(name@), ov.take(i as int)),
        decreases overrides.len() - i,
    {
        let (token, hex) = (&overrides[i].0, &overrides[i].1);
        assert(ov.take(i + 1).drop_last() == ov.take(i as int));
        assert(ov.take(i + 1).last() == (token@, hex@));
        if let Some(color) = parse_hex(hex.as_str()) {
            palette.set_token(token.as_str(), color);
        }
        i = i + 1;
    }
    assert(ov.take(overrides.len() as int) == ov);
    palette
}

} // verus!

verus! {

/// Overrides whose token is unknown or whose text names no colour leave the
/// palette's colours as they are.
pub proof fn law_ignored_overrides(cs: Seq<Color>, ov: Seq<(Seq<char>, Seq<char>)>)
    requires
        forall|i: int|
            0 <= i < ov.len() ==> token_index(#[trigger] ov[i].0) is None || spec_parse_hex(ov[i].1) is None,
    ensures
        apply_overrides(cs, ov) == cs,
    decreases ov.len(),
{
    if ov.len() > 0 {
        assert forall|i: int| 0 <= i < ov.drop_last().len() implies token_index(
            #[trigger] ov.drop_last()[i].0,
        ) is None || spec_parse_hex(ov.drop_last()[i].1) is None by {
            assert(ov.drop_last()[i] == ov[i]);
        }
        law_ignored_overrides(cs, ov.drop_last());
        assert(token_index(ov[ov.len() - 1].0) is None || spec_parse_hex(ov[ov.len() - 1].1) is None);
    }
}

/// The two lower-case hexadecimal digits of a byte.
pub open spec fn hex_byte(b: u8) -> Seq<char> {
    seq![crate::registry::hex_char((b / 16) as nat), crate::registry::hex_char((b % 16) as nat)]
}

proof fn lemma_hex_char_value(d: nat)
    requires
        d < 16,
    ensures
        hex_digit_value(crate::registry::hex_char(d)) == Some(d),
        crate::registry::hex_char(d) != '#',
        !crate::text::is_ws(crate::registry::hex_char(d)),
{
}

proof fn lemma_hex_byte_pair(b: u8)
    ensures
        pair_value(hex_byte(b)[0], hex_byte(b)[1]) == Some(b),
{
    lemma_hex_char_value((b / 16) as nat);
    lemma_hex_char_value((b % 16) as nat);
    assert(16 * ((b / 16) as nat) + ((b % 16) as nat) == b);
}

/// Writing a colour as `#rrggbb` and reading it back gives the colour.
pub proof fn law_hex_round_trip(r: u8, g: u8, b: u8)
    ensures
        spec_parse_hex(seq!['#'] + hex_byte(r) + hex_byte(g) + hex_byte(b)) == Some(Color::Rgb(r, g, b)),
{
    let digits = hex_byte(r) + hex_byte(g) + hex_byte(b);
    let s = seq!['#'] + hex_byte(r) + hex_byte(g) + hex_byte(b);
    lemma_hex_char_value((r / 16) as nat);
    lemma_hex_char_value((r % 16) as nat);
    lemma_hex_char_value((g / 16) as nat);
    lemma_hex_char_value((g % 16) as nat);
    lemma_hex_char_value((b / 16) as nat);
    lemma_hex_char_value((b % 16) as nat);
    lemma_hex_byte_pair(r);
    lemma_hex_byte_pair(g);
    lemma_hex_byte_pair(b);
    assert(s.len() == 7);
    assert(!crate::text::is_ws(s[0]));
    assert(crate::text::trim_start(s) == s);
    assert(s[6] == hex_byte(b)[1]);
    assert(!crate::text::is_ws(s[6]));
    assert(crate::text::trim_end(s) == s);
    assert(s.drop_first() =~= digits);
    assert(trim_hashes(digits) == digits);
    assert(trim_hashes(s) == digits);
    assert(trim(s) == s);
    assert(hex_body(s) == digits);
    assert(digits[0] == hex_byte(r)[0] && digits[1] == hex_byte(r)[1]);
    assert(digits[2] == hex_byte(g)[0] && digits[3] == hex_byte(g)[1]);
    assert(digits[4] == hex_byte(b)[0] && digits[5] == hex_byte(b)[1]);
    assert(spec_parse_hex(s) == Some(Color::Rgb(r, g, b)));
}

} // verus!
