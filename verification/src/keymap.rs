//! Configurable key bindings.
//!
//! Every action reachable by a single key press is a named, string-valued
//! binding so users can remap keys from the configuration file. Key strings
//! support single characters, named keys (`tab`, `enter`, `esc`, arrows,
//! function keys) and `ctrl+` / `alt+` / `shift+` prefixes.

use vstd::prelude::*;

use crate::pyfinder::digits_value;
use crate::text::{
    ascii_lower, ascii_lower_exec, chars_of, eq_lit, is_digit, owned, starts_with,
    starts_with_lit, sub_vec, to_ascii_lower, trim, trim_range,
};

verus! {

/// User-configurable key bindings; each value is a key descriptor.
#[derive(Clone, Debug)]
pub struct KeyConfig {
    pub quit: String,
    pub help: String,
    pub palette: String,
    pub up: String,
    pub down: String,
    pub left: String,
    pub right: String,
    pub select: String,
    pub back: String,
    pub run: String,
    pub install: String,
    pub search: String,
    pub new: String,
    pub refresh: String,
    pub next_tab: String,
    pub prev_tab: String,
    pub delete: String,
    pub shell: String,
    pub page_up: String,
    pub page_down: String,
}

/// The built-in key bindings.
pub open spec fn default_keys(k: KeyConfig) -> bool {
    &&& k.quit@ == "q"@
    &&& k.help@ == "?"@
    &&& k.palette@ == "a"@
    &&& k.up@ == "up"@
    &&& k.down@ == "down"@
    &&& k.left@ == "left"@
    &&& k.right@ == "right"@
    &&& k.select@ == "enter"@
    &&& k.back@ == "esc"@
    &&& k.run@ == "r"@
    &&& k.install@ == "i"@
    &&& k.search@ == "/"@
    &&& k.new@ == "n"@
    &&& k.refresh@ == "f5"@
    &&& k.next_tab@ == "tab"@
    &&& k.prev_tab@ == "backtab"@
    &&& k.delete@ == "d"@
    &&& k.shell@ == "s"@
    &&& k.page_up@ == "pageup"@
    &&& k.page_down@ == "pagedown"@
}

impl Default for KeyConfig {
    fn default() -> (r: KeyConfig)
        ensures
            default_keys(r),
    {
        KeyConfig {
            quit: owned("q"),
            help: owned("?"),
            palette: owned("a"),
            up: owned("up"),
            down: owned("down"),
            left: owned("left"),
            right: owned("right"),
            select: owned("enter"),
            back: owned("esc"),
            run: owned("r"),
            install: owned("i"),
            search: owned("/"),
            new: owned("n"),
            refresh: owned("f5"),
            next_tab: owned("tab"),
            prev_tab: owned("backtab"),
            delete: owned("d"),
            shell: owned("s"),
            page_up: owned("pageup"),
            page_down: owned("pagedown"),
        }
    }
}

} // verus!

verus! {

/// A key, as the terminal reports it or as a descriptor names it.
#[derive(Debug, Clone, Copy, PartialEq, Eq, Structural)]
pub enum KeyCode {
    Enter,
    Esc,
    Tab,
    BackTab,
    Char(char),
    Backspace,
    Delete,
    Up,
    Down,
    Left,
    Right,
    Home,
    End,
    PageUp,
    PageDown,
    F(u8),
    /// Any other key the terminal can report.
    Other,
}

/// Modifier keys held with a key.
#[derive(Debug, Clone, Copy, PartialEq, Eq, Structural)]
pub struct KeyMods {
    pub control: bool,
    pub alt: bool,
    pub shift: bool,
}

/// A key press.
#[derive(Debug, Clone, Copy, PartialEq, Eq, Structural)]
pub struct KeyEvent {
    pub code: KeyCode,
    pub modifiers: KeyMods,
}

/// No modifiers.
pub open spec fn no_mods() -> KeyMods {
    KeyMods { control: false, alt: false, shift: false }
}

/// Leading `ctrl+` / `alt+` / `shift+` prefixes (any case) removed from
/// `rest`, with the modifiers they name added to `mods`.
pub open spec fn strip_mods(rest: Seq<char>, mods: KeyMods) -> (Seq<char>, KeyMods)
    decreases rest.len(),
{
    let lower = to_ascii_lower(rest);
    if starts_with(lower, "ctrl+"@) && rest.len() >= 5 {
        strip_mods(rest.subrange(5, rest.len() as int), KeyMods { control: true, ..mods })
    } else if starts_with(lower, "alt+"@) && rest.len() >= 4 {
        strip_mods(rest.subrange(4, rest.len() as int), KeyMods { alt: true, ..mods })
    } else if starts_with(lower, "shift+"@) && rest.len() >= 6 {
        strip_mods(rest.subrange(6, rest.len() as int), KeyMods { shift: true, ..mods })
    } else {
        (rest, mods)
    }
}

/// The key a lower-cased key name stands for.
pub open spec fn named_key(n: Seq<char>) -> Option<KeyCode> {
    if n == "enter"@ || n == "return"@ {
        Some(KeyCode::Enter)
    } else if n == "esc"@ || n == "escape"@ {
        Some(KeyCode::Esc)
    } else if n == "tab"@ {
        Some(KeyCode::Tab)
    } else if n == "backtab"@ {
        Some(KeyCode::BackTab)
    } else if n == "space"@ {
        Some(KeyCode::Char(' '))
    } else if n == "backspace"@ {
        Some(KeyCode::Backspace)
    } else if n == "delete"@ || n == "del"@ {
        Some(KeyCode::Delete)
    } else if n == "up"@ {
        Some(KeyCode::Up)
    } else if n == "down"@ {
        Some(KeyCode::Down)
    } else if n == "left"@ {
        Some(KeyCode::Left)
    } else if n == "right"@ {
        Some(KeyCode::Right)
    } else if n == "home"@ {
        Some(KeyCode::Home)
    } else if n == "end"@ {
        Some(KeyCode::End)
    } else if n == "pageup"@ || n == "pgup"@ {
        Some(KeyCode::PageUp)
    } else if n == "pagedown"@ || n == "pgdn"@ {
        Some(KeyCode::PageDown)
    } else {
        None
    }
}

/// All characters of `d` are ASCII digits.
pub open spec fn all_digits(d: Seq<char>) -> bool {
    forall|k: int| 0 <= k < d.len() ==> is_digit(#[trigger] d[k])
}

/// `str::parse::<u8>`: an optional `+` and at least one digit, at most 255.
pub open spec fn parse_u8_text(s: Seq<char>) -> Option<u8> {
    let d = if s.len() > 0 && s[0] == '+' {
        s.drop_first()
    } else {
        s
    };
    if d.len() == 0 || !all_digits(d) || digits_value(d) > 255 {
        None
    } else {
        Some(digits_value(d) as u8)
    }
}

/// The key and modifiers a key descriptor names (e.g. `q`, `enter`, `f5`,
/// `ctrl+r`).
pub open spec fn spec_parse_key(spec: Seq<char>) -> Option<(KeyCode, KeyMods)> {
    let t = trim(spec);
    if t.len() == 0 {
        None
    } else {
        let (rest, mods) = strip_mods(t, no_mods());
        let lower = to_ascii_lower(rest);
        match named_key(lower) {
            Some(c) => Some((c, mods)),
            None => if lower.len() > 0 && lower[0] == 'f' && parse_u8_text(lower.drop_first()) is Some {
                Some((KeyCode::F(parse_u8_text(lower.drop_first())->0), mods))
            } else if rest.len() == 1 {
                Some((KeyCode::Char(rest[0]), mods))
            } else {
                None
            },
        }
    }
}

/// The CTRL and ALT states agree (SHIFT is not compared).
pub open spec fn ctrl_alt_eq(a: KeyMods, b: KeyMods) -> bool {
    a.control == b.control && a.alt == b.alt
}

/// A key event matches a descriptor: same key (characters compared ignoring
/// ASCII case) and the same CTRL and ALT states.
pub open spec fn spec_key_matches(ev: KeyEvent, spec: Seq<char>) -> bool {
    match spec_parse_key(spec) {
        None => false,
        Some((code, mods)) => match (code, ev.code) {
            (KeyCode::Char(a), KeyCode::Char(b)) => ascii_lower(a) == ascii_lower(b) && ctrl_alt_eq(mods, ev.modifiers),
            (a, b) => a == b && ctrl_alt_eq(mods, ev.modifiers),
        },
    }
}

fn lower_vec(v: &Vec<char>) -> (r: Vec<char>)
    ensures
        r@ == to_ascii_lower(v@),
{
    let mut r: Vec<char> = Vec::new();
    let mut i: usize = 0;
    while i < v.len()
        invariant
            i <= v.len(),
            r@ == to_ascii_lower(v@.take(i as int)),
        decreases v.len() - i,
    {
        r.push(ascii_lower_exec(v[i]));
        assert(to_ascii_lower(v@.take(i + 1)) =~= to_ascii_lower(v@.take(i as int)).push(ascii_lower(v@[i as int])));
        i = i + 1;
    }
    assert(v@.take(v.len() as int) =~= v@);
    r
}

fn named_key_exec(n: &Vec<char>) -> (r: Option<KeyCode>)
    ensures
        r == named_key(n@),
{
    let l = n.len();
    assert(n@.subrange(0, l as int) == n@);
    if eq_lit(n, 0, l, "enter") || eq_lit(n, 0, l, "return") {
        Some(KeyCode::Enter)
    } else if eq_lit(n, 0, l, "esc") || eq_lit(n, 0, l, "escape") {
        Some(KeyCode::Esc)
    } else if eq_lit(n, 0, l, "tab") {
        Some(KeyCode::Tab)
    } else if eq_lit(n, 0, l, "backtab") {
        Some(KeyCode::BackTab)
    } else if eq_lit(n, 0, l, "space") {
        Some(KeyCode::Char(' '))
    } else if eq_lit(n, 0, l, "backspace") {
        Some(KeyCode::Backspace)
    } else if eq_lit(n, 0, l, "delete") || eq_lit(n, 0, l, "del") {
        Some(KeyCode::Delete)
    } else if eq_lit(n, 0, l, "up") {
        Some(KeyCode::Up)
    } else if eq_lit(n, 0, l, "down") {
        Some(KeyCode::Down)
    } else if eq_lit(n, 0, l, "left") {
        Some(KeyCode::Left)
    } else if eq_lit(n, 0, l, "right") {
        Some(KeyCode::Right)
    } else if eq_lit(n, 0, l, "home") {
        Some(KeyCode::Home)
    } else if eq_lit(n, 0, l, "end") {
        Some(KeyCode::End)
    } else if eq_lit(n, 0, l, "pageup") || eq_lit(n, 0, l, "pgup") {
        Some(KeyCode::PageUp)
    } else if eq_lit(n, 0, l, "pagedown") || eq_lit(n, 0, l, "pgdn") {
        Some(KeyCode::PageDown)
    } else {
        None
    }
}

proof fn lemma_digits_push(d: Seq<char>, c: char)
    requires
        is_digit(c),
    ensures
        digits_value(d.push(c)) == digits_value(d) * 10 + ((c as u32) - ('0' as u32)) as nat,
{
    assert(d.push(c).drop_last() =~= d);
}

/// Executable `parse_u8_text` on `v[lo..]`.
fn parse_u8_exec(v: &Vec<char>, lo: usize) -> (r: Option<u8>)
    requires
        lo <= v.len(),
    ensures
        r == parse_u8_text(v@.subrange(lo as int, v.len() as int)),
{
    let ghost s = v@.subrange(lo as int, v.len() as int);
    let start = if lo < v.len() && v[lo] == '+' {
        lo + 1
    } else {
        lo
    };
    let ghost d = v@.subrange(start as int, v.len() as int);
    assert(d == (if s.len() > 0 && s[0] == '+' { s.drop_first() } else { s }));
    if start == v.len() {
        return None;
    }
    let mut i = start;
    let mut val: u32 = 0;
    while i < v.len()
        invariant
            lo <= start <= i <= v.len(),
            start < v.len(),
            d == v@.subrange(start as int, v.len() as int),
            s == v@.subrange(lo as int, v.len() as int),
            d == (if s.len() > 0 && s[0] == '+' { s.drop_first() } else { s }),
            all_digits(v@.subrange(start as int, i as int)),
            val as nat == digits_value(v@.subrange(start as int, i as int)),
            val <= 255,
        decreases v.len() - i,
    {
        let c = v[i];
        if !('0' <= c && c <= '9') {
            assert(!is_digit(d[i - start]));
            assert(!all_digits(d));
            return None;
        }
        proof {
            assert(v@.subrange(start as int, i + 1) =~= v@.subrange(start as int, i as int).push(c));
            lemma_digits_push(v@.subrange(start as int, i as int), c);
        }
        let nv = val * 10 + ((c as u32) - ('0' as u32));
        if nv > 255 {
            proof {
                assert(d.take(i + 1 - start) =~= v@.subrange(start as int, i + 1));
                assert forall|j: int| 0 <= j < i + 1 - start implies is_digit(#[trigger] d[j]) by {
                    if j < i - start {
                        assert(v@.subrange(start as int, i as int)[j] == d[j]);
                    }
                }
                lemma_digits_prefix_bound(d, (i + 1 - start) as int);
            }
            return None;
        }
        val = nv;
        i = i + 1;
    }
    assert(v@.subrange(start as int, v.len() as int) == d);
    Some(val as u8)
}

proof fn lemma_digits_prefix_bound(d: Seq<char>, k: int)
    requires
        0 <= k <= d.len(),
        forall|j: int| 0 <= j < k ==> is_digit(#[trigger] d[j]),
    ensures
        all_digits(d) ==> digits_value(d) >= digits_value(d.take(k)),
    decreases d.len() - k,
{
    if k < d.len() && all_digits(d) {
        lemma_digits_prefix_bound(d, k + 1);
        assert(d.take(k + 1) =~= d.take(k).push(d[k]));
        lemma_digits_push(d.take(k), d[k]);
    } else if k == d.len() {
        assert(d.take(k) =~= d);
    }
}

/// Parse a key descriptor string into a key and modifiers.
///
/// Examples: `"q"`, `"enter"`, `"esc"`, `"tab"`, `"up"`, `"f5"`, `"ctrl+r"`,
/// `"alt+x"`.
pub fn parse_key(spec: &str) -> (r: Option<(KeyCode, KeyMods)>)
    ensures
        r == spec_parse_key(spec@),
{
    let all = chars_of(spec);
    let (a, b) = trim_range(&all, 0, all.len());
    assert(all@.subrange(0, all.len() as int) == all@);
    if a == b {
        return None;
    }
    let mut rest = sub_vec(&all, a, b);
    let mut mods = KeyMods { control: false, alt: false, shift: false };
    let ghost t = rest@;
    loop
        invariant
            strip_mods(rest@, mods) == strip_mods(t, no_mods()),
        ensures
            strip_mods(t, no_mods()) == (rest@, mods),
        decreases rest.len(),
    {
        let lower = lower_vec(&rest);
        proof {
            reveal_strlit("ctrl+");
            reveal_strlit("alt+");
            reveal_strlit("shift+");
        }
        if starts_with_lit(&lower, "ctrl+") {
            mods = KeyMods { control: true, ..mods };
            rest = sub_vec(&rest, 5, rest.len());
        } else if starts_with_lit(&lower, "alt+") {
            mods = KeyMods { alt: true, ..mods };
            rest = sub_vec(&rest, 4, rest.len());
        } else if starts_with_lit(&lower, "shift+") {
            mods = KeyMods { shift: true, ..mods };
            rest = sub_vec(&rest, 6, rest.len());
        } else {
            break;
        }
    }
    let lower = lower_vec(&rest);
    match named_key_exec(&lower) {
        Some(c) => Some((c, mods)),
        None => {
            if lower.len() > 0 && lower[0] == 'f' {
                assert(lower@.subrange(1, lower.len() as int) =~= lower@.drop_first());
                if let Some(n) = parse_u8_exec(&lower, 1) {
                    return Some((KeyCode::F(n), mods));
                }
            }
            assert(t == trim(spec@));
            if rest.len() == 1 {
                Some((KeyCode::Char(rest[0]), mods))
            } else {
                None
            }
        },
    }
}

/// Return `true` when the key event matches the descriptor `spec`.
///
/// Characters are compared ignoring ASCII case and only CTRL and ALT are
/// compared, so that, e.g., `"?"` matches however the terminal reports SHIFT.
pub fn key_matches(event: &KeyEvent, spec: &str) -> (r: bool)
    ensures
        r == spec_key_matches(*event, spec@),
{
    let Some((code, mods)) = parse_key(spec) else {
        return false;
    };
    let same_mods = mods.control == event.modifiers.control && mods.alt == event.modifiers.alt;
    match (code, event.code) {
        (KeyCode::Char(a), KeyCode::Char(b)) => ascii_lower_exec(a) == ascii_lower_exec(b) && same_mods,
        (a, b) => a == b && same_mods,
    }
}

} // verus!

verus! {

/// Two key presses that differ only in SHIFT, or in the ASCII case of the
/// character typed, match the same descriptors: `"?"` matches however the
/// terminal reports SHIFT.
pub proof fn law_match_ignores_shift_and_case(a: KeyEvent, b: KeyEvent, spec: Seq<char>)
    requires
        ctrl_alt_eq(a.modifiers, b.modifiers),
        match (a.code, b.code) {
            (KeyCode::Char(x), KeyCode::Char(y)) => ascii_lower(x) == ascii_lower(y),
            (x, y) => x == y,
        },
    ensures
        spec_key_matches(a, spec) == spec_key_matches(b, spec),
{
}

} // verus!
