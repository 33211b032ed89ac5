//! Discovery of Python interpreters: the decisions taken on what the system
//! reports (which names are interpreters, which version a banner names, which
//! interpreter is newest and which one matches a request).

use vstd::prelude::*;

use crate::text::{
    chars_of, eq_lit, is_digit, next_ws_exec, skip_ws_exec, starts_with, string_of, trim,
    trim_range, words, words_from, skip_ws_from, next_ws_from, lemma_skip_ws_from,
    lemma_next_ws_from,
};

verus! {

/// A discovered Python interpreter.
#[derive(Debug, Clone)]
pub struct PythonInterpreter {
    pub path: String,
    pub version: String,
}

/// The first word that starts with an ASCII digit.
pub open spec fn first_numeric(ws: Seq<Seq<char>>) -> Option<Seq<char>>
    decreases ws.len(),
{
    if ws.len() == 0 {
        None
    } else if ws[0].len() > 0 && is_digit(ws[0][0]) {
        Some(ws[0])
    } else {
        first_numeric(ws.drop_first())
    }
}

/// The version that a `Python X.Y.Z` banner names: its first
/// whitespace-separated word that starts with a digit.
pub open spec fn spec_parse_version(banner: Seq<char>) -> Option<Seq<char>> {
    first_numeric(words(banner))
}

/// Extract the `X.Y.Z` portion from a `Python X.Y.Z` banner.
pub fn parse_version(banner: &str) -> (r: Option<String>)
    ensures
        r matches Some(s) ==> spec_parse_version(banner@) == Some(s@),
        r is None ==> spec_parse_version(banner@) is None,
{
    let v = chars_of(banner);
    let n = v.len();
    let mut pos: usize = 0;
    while pos < n
        invariant
            n == v.len(),
            v@ == banner@,
            pos <= n,
            first_numeric(words_from(v@, pos as int)) == spec_parse_version(banner@),
        decreases n - pos,
    {
        let a = skip_ws_exec(&v, pos);
        if a >= n {
            return None;
        }
        let b = next_ws_exec(&v, a);
        proof {
            lemma_skip_ws_from(v@, pos as int);
            lemma_next_ws_from(v@, a as int);
        }
        let ghost w = v@.subrange(a as int, b as int);
        assert(words_from(v@, pos as int) == seq![w] + words_from(v@, b as int));
        assert((seq![w] + words_from(v@, b as int)).drop_first() =~= words_from(v@, b as int));
        if '0' <= v[a] && v[a] <= '9' {
            return Some(string_of(&v, a, b));
        }
        pos = b;
    }
    None
}

/// The version reported by running an interpreter with `--version`: nothing
/// when the run failed, otherwise the banner on standard output, or on
/// standard error when standard output is blank.
pub open spec fn spec_version_of_output(success: bool, stdout: Seq<char>, stderr: Seq<char>) -> Option<
    Seq<char>,
> {
    if !success {
        None
    } else if trim(stdout).len() > 0 {
        spec_parse_version(trim(stdout))
    } else {
        spec_parse_version(trim(stderr))
    }
}

/// Interpret the result of `<exe> --version`.
pub fn version_of_output(success: bool, stdout: &str, stderr: &str) -> (r: Option<String>)
    ensures
        r matches Some(s) ==> spec_version_of_output(success, stdout@, stderr@) == Some(s@),
        r is None ==> spec_version_of_output(success, stdout@, stderr@) is None,
{
    if !success {
        return None;
    }
    let o = chars_of(stdout);
    let (a, b) = trim_range(&o, 0, o.len());
    assert(o@.subrange(0, o.len() as int) == o@);
    if a < b {
        let t = string_of(&o, a, b);
        return parse_version(t.as_str());
    }
    let e = chars_of(stderr);
    let (c, d) = trim_range(&e, 0, e.len());
    assert(e@.subrange(0, e.len() as int) == e@);
    let t = string_of(&e, c, d);
    parse_version(t.as_str())
}

/// A file name that names a Python interpreter: `python` followed only by
/// digits, dots and `m` (e.g. `python3`, `python3.12`, `python3.12m`).
pub open spec fn spec_is_python_binary_name(name: Seq<char>) -> bool {
    &&& starts_with(name, "python"@)
    &&& forall|k: int|
        6 <= k < name.len() ==> is_digit(#[trigger] name[k]) || name[k] == '.' || name[k] == 'm'
}

/// Whether a directory entry name looks like a Python interpreter.
pub fn is_python_binary_name(name: &str) -> (b: bool)
    ensures
        b == spec_is_python_binary_name(name@),
{
    let v = chars_of(name);
    proof {
        reveal_strlit("python");
    }
    if v.len() < 6 || !eq_lit(&v, 0, 6, "python") {
        return false;
    }
    let mut k: usize = 6;
    while k < v.len()
        invariant
            v@ == name@,
            6 <= k <= v.len(),
            forall|j: int| 6 <= j < k ==> is_digit(#[trigger] v@[j]) || v@[j] == '.' || v@[j] == 'm',
        decreases v.len() - k,
    {
        let c = v[k];
        if !(('0' <= c && c <= '9') || c == '.' || c == 'm') {
            return false;
        }
        k = k + 1;
    }
    true
}

} // verus!

verus! {

/// The pieces of `s` between `'.'` separators, from position `pos` on
/// (`str::split('.')`).
pub open spec fn dot_parts_from(s: Seq<char>, pos: int) -> Seq<Seq<char>>
    decreases s.len() - pos,
{
    if pos < 0 || pos > s.len() {
        Seq::empty()
    } else {
        match crate::text::find_from(s, seq!['.'], pos) {
            Some(i) => if pos <= i < s.len() {
                seq![s.subrange(pos, i)] + dot_parts_from(s, i + 1)
            } else {
                Seq::empty()
            },
            None => seq![s.subrange(pos, s.len() as int)],
        }
    }
}

/// The number of leading ASCII digits of `s`.
pub open spec fn leading_digits(s: Seq<char>) -> int
    decreases s.len(),
{
    if s.len() > 0 && is_digit(s[0]) {
        1 + leading_digits(s.drop_first())
    } else {
        0
    }
}

/// The value of a string of decimal digits.
pub open spec fn digits_value(d: Seq<char>) -> nat
    decreases d.len(),
{
    if d.len() == 0 {
        0
    } else {
        digits_value(d.drop_last()) * 10 + ((d.last() as u32) - ('0' as u32)) as nat
    }
}

/// The number a version component stands for: its leading digits parsed as
/// a `u32`, or 0 when there are none or they do not fit.
pub open spec fn component_value(p: Seq<char>) -> u32 {
    let d = p.take(leading_digits(p));
    if d.len() == 0 || digits_value(d) > u32::MAX {
        0
    } else {
        digits_value(d) as u32
    }
}

/// The `k`-th component value of a version, 0 when absent.
pub open spec fn part_value(parts: Seq<Seq<char>>, k: int) -> u32 {
    if k < parts.len() {
        component_value(parts[k])
    } else {
        0
    }
}

/// The sort key of a version string: its first three dot-separated
/// components as numbers.
pub open spec fn spec_version_key(version: Seq<char>) -> (u32, u32, u32) {
    let parts = dot_parts_from(version, 0);
    (part_value(parts, 0), part_value(parts, 1), part_value(parts, 2))
}

proof fn lemma_leading_digits(s: Seq<char>)
    ensures
        0 <= leading_digits(s) <= s.len(),
        forall|k: int| 0 <= k < leading_digits(s) ==> is_digit(#[trigger] s[k]),
        leading_digits(s) < s.len() ==> !is_digit(s[leading_digits(s)]),
    decreases s.len(),
{
    if s.len() > 0 && is_digit(s[0]) {
        lemma_leading_digits(s.drop_first());
        assert forall|k: int| 0 <= k < leading_digits(s) implies is_digit(#[trigger] s[k]) by {
            if k > 0 {
                assert(s[k] == s.drop_first()[k - 1]);
            }
        }
    }
}

proof fn lemma_digits_value_grows(d: Seq<char>, c: char)
    requires
        is_digit(c),
    ensures
        digits_value(d.push(c)) == digits_value(d) * 10 + ((c as u32) - ('0' as u32)) as nat,
        digits_value(d.push(c)) >= digits_value(d),
{
    assert(d.push(c).drop_last() =~= d);
}

/// The value of the component `v[lo..hi]` (see [`component_value`]).
fn component_value_exec(v: &Vec<char>, lo: usize, hi: usize) -> (r: u32)
    requires
        lo <= hi <= v.len(),
    ensures
        r == component_value(v@.subrange(lo as int, hi as int)),
{
    let ghost p = v@.subrange(lo as int, hi as int);
    proof {
        lemma_leading_digits(p);
    }
    let mut i = lo;
    let mut val: u64 = 0;
    let mut over = false;
    while i < hi && '0' <= v[i] && v[i] <= '9'
        invariant
            lo <= i <= hi <= v.len(),
            p == v@.subrange(lo as int, hi as int),
            forall|k: int| lo <= k < i ==> is_digit(#[trigger] v@[k]),
            i - lo <= leading_digits(p),
            0 <= leading_digits(p) <= p.len(),
            forall|k: int| 0 <= k < leading_digits(p) ==> is_digit(#[trigger] p[k]),
            leading_digits(p) < p.len() ==> !is_digit(p[leading_digits(p)]),
            !over ==> val as nat == digits_value(p.take(i - lo)) && val <= u32::MAX,
            over ==> digits_value(p.take(i - lo)) > u32::MAX,
        decreases hi - i,
    {
        let dgt = (v[i] as u32) - ('0' as u32);
        proof {
            assert(p.take(i - lo + 1) =~= p.take(i - lo).push(v@[i as int]));
            lemma_digits_value_grows(p.take(i - lo), v@[i as int]);
            if i - lo == leading_digits(p) {
                assert(p[i - lo] == v@[i as int]);
            }
        }
        if !over {
            assert(val * 10 + dgt <= 0xffff_ffff * 10 + 9) by (nonlinear_arith)
                requires
                    val <= 0xffff_ffff,
                    dgt <= 9,
            ;
            val = val * 10 + (dgt as u64);
            if val > 0xffff_ffff {
                over = true;
            }
        }
        i = i + 1;
    }
    proof {
        if i < hi {
            assert(!is_digit(p[i - lo]));
        }
        assert(i - lo == leading_digits(p));
    }
    if i == lo || over {
        0
    } else {
        val as u32
    }
}

/// Turn a version string into a comparable tuple for sorting.
pub fn version_key(version: &str) -> (r: (u32, u32, u32))
    ensures
        r == spec_version_key(version@),
{
    let v = chars_of(version);
    let dot: Vec<char> = vec!['.'];
    let n = v.len();
    assert(v@.subrange(0, n as int) == v@);
    let ghost parts = dot_parts_from(v@, 0);
    let mut vals: [u32; 3] = [0, 0, 0];
    let mut k: usize = 0;
    let mut pos: usize = 0;
    let mut done = false;
    while k < 3 && !done
        invariant
            n == v.len(),
            v@ == version@,
            dot@ == seq!['.'],
            parts == dot_parts_from(v@, 0),
            k <= 3,
            !done ==> pos <= n,
            !done ==> parts == parts.take(k as int) + dot_parts_from(v@, pos as int),
            done ==> parts.len() == k,
            k <= parts.len(),
            forall|j: int| 0 <= j < k ==> vals@[j] == part_value(parts, j),
            forall|j: int| k <= j < 3 ==> vals@[j] == 0,
        decreases 3 - k, (if done { 0int } else { 1int }),
    {
        proof {
            crate::text::lemma_find_from(v@, seq!['.'], pos as int);
        }
        let ghost rest = dot_parts_from(v@, pos as int);
        assert(v@.subrange(0, n as int) == v@);
        match crate::text::find_exec(&v, n, &dot, pos) {
            Some(i) => {
                assert(crate::text::matches_at(v@, seq!['.'], i as int));
                vals.set(k, component_value_exec(&v, pos, i));
                assert(rest[0] == v@.subrange(pos as int, i as int));
                assert(parts.take(k + 1) =~= parts.take(k as int).push(rest[0]));
                assert(parts =~= parts.take(k + 1) + dot_parts_from(v@, i + 1));
                pos = i + 1;
            },
            None => {
                vals.set(k, component_value_exec(&v, pos, n));
                assert(rest =~= seq![v@.subrange(pos as int, n as int)]);
                assert(parts.take(k + 1) =~= parts);
                done = true;
            },
        }
        k = k + 1;
    }
    (vals[0], vals[1], vals[2])
}

} // verus!

verus! {

/// The model of an interpreter: its path and version.
pub open spec fn interp_view(p: PythonInterpreter) -> (Seq<char>, Seq<char>) {
    (p.path@, p.version@)
}

impl PythonInterpreter {
    /// An owned copy with the same path and version.
    pub fn copied(&self) -> (r: PythonInterpreter)
        ensures
            interp_view(r) == interp_view(*self),
    {
        PythonInterpreter { path: self.path.clone(), version: self.version.clone() }
    }
}

/// Lexicographic `<` on version keys.
pub open spec fn key_lt(a: (u32, u32, u32), b: (u32, u32, u32)) -> bool {
    a.0 < b.0 || (a.0 == b.0 && (a.1 < b.1 || (a.1 == b.1 && a.2 < b.2)))
}

/// The version key of the `i`-th interpreter.
pub open spec fn key_at(s: Seq<PythonInterpreter>, i: int) -> (u32, u32, u32) {
    spec_version_key(s[i].version@)
}

/// Interpreter `i` comes before interpreter `j` in newest-first order: it has
/// the higher version, or the same version and came first.
pub open spec fn ranks_before(s: Seq<PythonInterpreter>, i: int, j: int) -> bool {
    key_lt(key_at(s, j), key_at(s, i)) || (key_at(s, i) == key_at(s, j) && i < j)
}

/// `order` lists every index of `s` once, newest version first, keeping the
/// input order among equal versions (a stable descending sort).
pub open spec fn is_newest_first(s: Seq<PythonInterpreter>, order: Seq<int>) -> bool {
    &&& order.len() == s.len()
    &&& forall|k: int| 0 <= k < order.len() ==> 0 <= #[trigger] order[k] < s.len()
    &&& forall|k: int, l: int| 0 <= k < l < order.len() ==> #[trigger] order[k] != #[trigger] order[l]
    &&& forall|k: int, l: int|
        0 <= k < l < order.len() ==> ranks_before(s, #[trigger] order[k], #[trigger] order[l])
}

/// Executable `key_lt`.
fn key_less(a: (u32, u32, u32), b: (u32, u32, u32)) -> (r: bool)
    ensures
        r == key_lt(a, b),
{
    a.0 < b.0 || (a.0 == b.0 && (a.1 < b.1 || (a.1 == b.1 && a.2 < b.2)))
}

/// A version key as one number that orders keys the way the ordinary
/// (major, minor, patch) tuple order does.
pub open spec fn version_rank(k: (u32, u32, u32)) -> int {
    k.0 * 0x1_0000_0000_0000_0000 + k.1 * 0x1_0000_0000 + k.2
}

/// The rank of an interpreter's version.
pub open spec fn interp_rank(p: PythonInterpreter) -> int {
    version_rank(spec_version_key(p.version@))
}

proof fn lemma_key_lt_rank(a: (u32, u32, u32), b: (u32, u32, u32))
    requires
        key_lt(a, b),
    ensures
        version_rank(a) < version_rank(b),
{
    let (a0, a1, a2) = (a.0 as int, a.1 as int, a.2 as int);
    let (b0, b1, b2) = (b.0 as int, b.1 as int, b.2 as int);
    if a0 < b0 {
        assert(a0 * 0x1_0000_0000_0000_0000 + a1 * 0x1_0000_0000 + a2 < b0 * 0x1_0000_0000_0000_0000 + b1
            * 0x1_0000_0000 + b2) by (nonlinear_arith)
            requires
                a0 < b0,
                0 <= a1 < 0x1_0000_0000,
                0 <= a2 < 0x1_0000_0000,
                0 <= b1,
                0 <= b2,
        ;
    } else if a1 < b1 {
        assert(a1 * 0x1_0000_0000 + a2 < b1 * 0x1_0000_0000 + b2) by (nonlinear_arith)
            requires
                a1 < b1,
                0 <= a2 < 0x1_0000_0000,
                0 <= b2,
        ;
    }
}

/// In any newest-first order, an interpreter never comes after one with an
/// older version: version ranks (the ordinary (major, minor, patch) order)
/// never increase along the order.
pub proof fn law_newest_first_never_rises(s: Seq<PythonInterpreter>, order: Seq<int>)
    requires
        is_newest_first(s, order),
    ensures
        forall|k: int, l: int|
            0 <= k < l < order.len() ==> interp_rank(#[trigger] s[order[k]]) >= interp_rank(
                #[trigger] s[order[l]],
            ),
{
    assert forall|k: int, l: int| 0 <= k < l < order.len() implies interp_rank(
        #[trigger] s[order[k]],
    ) >= interp_rank(#[trigger] s[order[l]]) by {
        assert(ranks_before(s, order[k], order[l]));
        if key_lt(key_at(s, order[l]), key_at(s, order[k])) {
            lemma_key_lt_rank(key_at(s, order[l]), key_at(s, order[k]));
        }
    }
}

/// Sort interpreters newest version first (stable among equal versions).
pub fn sort_newest_first(found: &Vec<PythonInterpreter>) -> (r: Vec<PythonInterpreter>)
    ensures
        forall|k: int, l: int|
            0 <= k < l < r.len() ==> interp_rank(#[trigger] r@[k]) >= interp_rank(#[trigger] r@[l]),
        exists|order: Seq<int>|
            is_newest_first(found@, order) && r@.len() == order.len() && forall|k: int|
                0 <= k < order.len() ==> interp_view(#[trigger] r@[k]) == interp_view(
                    found@[order[k]],
                ),
{
    let n = found.len();
    let mut keys: Vec<(u32, u32, u32)> = Vec::new();
    let mut i: usize = 0;
    while i < n
        invariant
            n == found.len(),
            i <= n,
            keys.len() == i,
            forall|j: int| 0 <= j < i ==> #[trigger] keys@[j] == key_at(found@, j),
        decreases n - i,
    {
        keys.push(version_key(found[i].version.as_str()));
        i = i + 1;
    }
    let mut order: Vec<usize> = Vec::new();
    let mut i: usize = 0;
    while i < n
        invariant
            n == found.len(),
            keys.len() == n,
            forall|j: int| 0 <= j < n ==> #[trigger] keys@[j] == key_at(found@, j),
            i <= n,
            order.len() == i,
            forall|k: int| 0 <= k < order.len() ==> #[trigger] order@[k] < i,
            forall|k: int, l: int|
                0 <= k < l < order.len() ==> #[trigger] order@[k] != #[trigger] order@[l],
            forall|k: int, l: int|
                0 <= k < l < order.len() ==> ranks_before(
                    found@,
                    #[trigger] order@[k] as int,
                    #[trigger] order@[l] as int,
                ),
        decreases n - i,
    {
        let ki = keys[i];
        let mut p: usize = 0;
        while p < order.len() && !key_less(keys[order[p]], ki)
            invariant
                n == found.len(),
                keys.len() == n,
                forall|j: int| 0 <= j < n ==> #[trigger] keys@[j] == key_at(found@, j),
                i < n,
                ki == keys@[i as int],
                order.len() == i,
                forall|k: int| 0 <= k < order.len() ==> #[trigger] order@[k] < i,
                p <= order.len(),
                forall|q: int| 0 <= q < p ==> !key_lt(#[trigger] key_at(found@, order@[q] as int), ki),
            decreases order.len() - p,
        {
            p = p + 1;
        }
        let ghost old_order = order@;
        proof {
            if p < order.len() {
                assert(key_lt(key_at(found@, order@[p as int] as int), ki));
                assert forall|q: int| p <= q < old_order.len() implies key_lt(
                    #[trigger] key_at(found@, old_order[q] as int),
                    ki,
                ) by {
                    if q > p {
                        assert(ranks_before(found@, old_order[p as int] as int, old_order[q] as int));
                    }
                }
            }
        }
        order.insert(p, i);
        proof {
            assert forall|k: int, l: int| 0 <= k < l < order.len() implies ranks_before(
                found@,
                #[trigger] order@[k] as int,
                #[trigger] order@[l] as int,
            ) by {
                if k < p && l < p {
                    assert(order@[k] == old_order[k] && order@[l] == old_order[l]);
                } else if k < p && l == p {
                } else if k < p && l > p {
                    assert(order@[k] == old_order[k] && order@[l] == old_order[l - 1]);
                } else if k == p {
                    assert(order@[l] == old_order[l - 1]);
                } else {
                    assert(order@[k] == old_order[k - 1] && order@[l] == old_order[l - 1]);
                }
            }
            assert forall|k: int, l: int| 0 <= k < l < order.len() implies #[trigger] order@[k]
                != #[trigger] order@[l] by {
                if k < p && l < p {
                    assert(order@[k] == old_order[k] && order@[l] == old_order[l]);
                } else if k < p && l > p {
                    assert(order@[k] == old_order[k] && order@[l] == old_order[l - 1]);
                } else if k == p {
                    assert(order@[l] == old_order[l - 1]);
                } else if l == p {
                    assert(order@[k] == old_order[k]);
                } else {
                    assert(order@[k] == old_order[k - 1] && order@[l] == old_order[l - 1]);
                }
            }
            assert forall|k: int| 0 <= k < order.len() implies #[trigger] order@[k] < i + 1 by {
                if k < p {
                    assert(order@[k] == old_order[k]);
                } else if k > p {
                    assert(order@[k] == old_order[k - 1]);
                }
            }
        }
        i = i + 1;
    }
    let mut r: Vec<PythonInterpreter> = Vec::new();
    let mut k: usize = 0;
    while k < n
        invariant
            n == found.len(),
            order.len() == n,
            forall|q: int| 0 <= q < order.len() ==> #[trigger] order@[q] < n,
            k <= n,
            r.len() == k,
            forall|q: int| 0 <= q < k ==> interp_view(#[trigger] r@[q]) == interp_view(
                found@[order@[q] as int],
            ),
        decreases n - k,
    {
        r.push(found[order[k]].copied());
        k = k + 1;
    }
    let ghost og = order@.map_values(|x: usize| x as int);
    assert(is_newest_first(found@, og)) by {
        assert forall|k: int, l: int| 0 <= k < l < og.len() implies ranks_before(
            found@,
            #[trigger] og[k],
            #[trigger] og[l],
        ) by {
            assert(ranks_before(found@, order@[k] as int, order@[l] as int));
        }
        assert forall|k: int, l: int| 0 <= k < l < og.len() implies #[trigger] og[k]
            != #[trigger] og[l] by {
            assert(order@[k] != order@[l]);
        }
    }
    assert forall|q: int| 0 <= q < og.len() implies interp_view(#[trigger] r@[q]) == interp_view(
        found@[og[q]],
    ) by {}
    proof {
        law_newest_first_never_rises(found@, og);
        assert forall|k: int, l: int| 0 <= k < l < r.len() implies interp_rank(#[trigger] r@[k])
            >= interp_rank(#[trigger] r@[l]) by {
            assert(interp_view(r@[k]) == interp_view(found@[og[k]]));
            assert(interp_view(r@[l]) == interp_view(found@[og[l]]));
            assert(interp_rank(found@[og[k]]) >= interp_rank(found@[og[l]]));
        }
    }
    r
}

} // verus!

verus! {

/// Whether each candidate is the first one resolving to its path (later
/// candidates that resolve to an already seen path are skipped).
pub fn first_occurrences(resolved: &Vec<String>) -> (keep: Vec<bool>)
    ensures
        keep.len() == resolved.len(),
        forall|i: int|
            0 <= i < resolved.len() ==> #[trigger] keep@[i] == forall|j: int|
                0 <= j < i ==> resolved@[j]@ != resolved@[i]@,
{
    let mut keep: Vec<bool> = Vec::new();
    let mut i: usize = 0;
    while i < resolved.len()
        invariant
            i <= resolved.len(),
            keep.len() == i,
            forall|q: int|
                0 <= q < i ==> #[trigger] keep@[q] == forall|j: int|
                    0 <= j < q ==> resolved@[j]@ != resolved@[q]@,
        decreases resolved.len() - i,
    {
        let mut fresh = true;
        let mut j: usize = 0;
        while j < i
            invariant
                i < resolved.len(),
                j <= i,
                fresh == forall|q: int| 0 <= q < j ==> resolved@[q]@ != resolved@[i as int]@,
            decreases i - j,
        {
            if resolved[j] == resolved[i] {
                fresh = false;
            }
            j = j + 1;
        }
        keep.push(fresh);
        i = i + 1;
    }
    keep
}

/// The first interpreter whose version starts with `req`, from index `i` on.
pub open spec fn first_with_prefix(s: Seq<PythonInterpreter>, req: Seq<char>, i: int) -> Option<int>
    decreases s.len() - i,
{
    if i < 0 || i >= s.len() {
        None
    } else if starts_with(s[i].version@, req) {
        Some(i)
    } else {
        first_with_prefix(s, req, i + 1)
    }
}

/// The index [`best_match`] picks: the first interpreter matching the
/// requested version prefix, or else the first (newest) one.
pub open spec fn best_index(s: Seq<PythonInterpreter>, requested: Option<Seq<char>>) -> Option<int> {
    let first = if s.len() > 0 { Some(0int) } else { None };
    match requested {
        Some(req) => match first_with_prefix(s, req, 0) {
            Some(i) => Some(i),
            None => first,
        },
        None => first,
    }
}

/// Return the first interpreter matching a requested version prefix, or the
/// first (newest) interpreter when none matches or none is requested.
///
/// `all` is the discovered list, newest first (see [`sort_newest_first`]).
pub fn best_match(requested: Option<&str>, all: &Vec<PythonInterpreter>) -> (r: Option<
    PythonInterpreter,
>)
    ensures
        best_index(all@, crate::backend::opt_str(requested)) is None ==> r is None,
        best_index(all@, crate::backend::opt_str(requested)) matches Some(i) ==> (r matches Some(p)
            && interp_view(p) == interp_view(all@[i])),
{
    if let Some(req) = requested {
        let rq = chars_of(req);
        let mut i: usize = 0;
        while i < all.len()
            invariant
                requested == Some(req),
                rq@ == req@,
                i <= all.len(),
                first_with_prefix(all@, req@, 0) == first_with_prefix(all@, req@, i as int),
            decreases all.len() - i,
        {
            let ver = chars_of(all[i].version.as_str());
            if rq.len() <= ver.len() && crate::text::eq_lit(&ver, 0, rq.len(), req) {
                assert(starts_with(all@[i as int].version@, req@));
                assert(first_with_prefix(all@, req@, i as int) == Some(i as int));
                assert(crate::backend::opt_str(requested) == Some(req@));
                assert(best_index(all@, crate::backend::opt_str(requested)) == Some(i as int));
                return Some(all[i].copied());
            }
            i = i + 1;
        }
    }
    if all.len() > 0 {
        Some(all[0].copied())
    } else {
        None
    }
}

} // verus!

verus! {

/// Whether directory entry `i` (named `names[i]`, resolving to
/// `resolved[i]`) is probed for its version: it looks like an interpreter,
/// and no earlier interpreter-looking entry resolved to the same file.
pub open spec fn is_probed(names: Seq<Seq<char>>, resolved: Seq<Seq<char>>, i: int) -> bool {
    &&& spec_is_python_binary_name(names[i])
    &&& forall|j: int|
        0 <= j < i ==> !(spec_is_python_binary_name(#[trigger] names[j]) && resolved[j] == resolved[i])
}

/// Which directory entries to probe, in the order the directories were read.
pub fn probe_candidates(names: &Vec<String>, resolved: &Vec<String>) -> (r: Vec<bool>)
    requires
        names.len() == resolved.len(),
    ensures
        r.len() == names.len(),
        forall|i: int|
            0 <= i < names.len() ==> #[trigger] r@[i] == is_probed(
                crate::text::strs(names@),
                crate::text::strs(resolved@),
                i,
            ),
{
    let ghost ns = crate::text::strs(names@);
    let ghost rs = crate::text::strs(resolved@);
    let mut python: Vec<bool> = Vec::new();
    let mut r: Vec<bool> = Vec::new();
    let mut i: usize = 0;
    while i < names.len()
        invariant
            names.len() == resolved.len(),
            ns == crate::text::strs(names@),
            rs == crate::text::strs(resolved@),
            i <= names.len(),
            python.len() == i,
            r.len() == i,
            forall|q: int| 0 <= q < i ==> #[trigger] python@[q] == spec_is_python_binary_name(ns[q]),
            forall|q: int| 0 <= q < i ==> #[trigger] r@[q] == is_probed(ns, rs, q),
        decreases names.len() - i,
    {
        let is_py = is_python_binary_name(names[i].as_str());
        let mut fresh = true;
        let mut j: usize = 0;
        while j < i
            invariant
                i < names.len(),
                names.len() == resolved.len(),
                ns == crate::text::strs(names@),
                rs == crate::text::strs(resolved@),
                python.len() == i,
                forall|q: int| 0 <= q < i ==> #[trigger] python@[q] == spec_is_python_binary_name(ns[q]),
                j <= i,
                fresh == forall|q: int|
                    0 <= q < j ==> !(spec_is_python_binary_name(#[trigger] ns[q]) && rs[q] == rs[i as int]),
            decreases i - j,
        {
            if python[j] && crate::text::str_eq(resolved[j].as_str(), resolved[i].as_str()) {
                fresh = false;
            }
            j = j + 1;
        }
        python.push(is_py);
        r.push(is_py && fresh);
        i = i + 1;
    }
    r
}

/// The interpreters found among the first `n` entries: each probed entry
/// whose version could be read, with its path and version, in order.
pub open spec fn found_interpreters(
    paths: Seq<Seq<char>>,
    probed: Seq<bool>,
    versions: Seq<Option<Seq<char>>>,
    n: int,
) -> Seq<(Seq<char>, Seq<char>)>
    decreases n,
{
    if n <= 0 {
        Seq::empty()
    } else {
        let prev = found_interpreters(paths, probed, versions, n - 1);
        if probed[n - 1] && versions[n - 1] is Some {
            prev.push((paths[n - 1], versions[n - 1]->0))
        } else {
            prev
        }
    }
}

/// The version texts of a list of probes.
pub open spec fn versions_view(v: Seq<Option<String>>) -> Seq<Option<Seq<char>>> {
    v.map_values(|o: Option<String>| crate::domain::opt_view(o))
}

/// The paths and versions of a list of interpreters.
pub open spec fn interps_view(s: Seq<PythonInterpreter>) -> Seq<(Seq<char>, Seq<char>)> {
    s.map_values(|p: PythonInterpreter| interp_view(p))
}

/// The interpreters discovered: every probed entry whose version could be
/// read, newest version first (stable among equal versions).
pub fn collect_interpreters(paths: &Vec<String>, probed: &Vec<bool>, versions: &Vec<Option<String>>) -> (r: Vec<
    PythonInterpreter,
>)
    requires
        paths.len() == probed.len(),
        paths.len() == versions.len(),
    ensures
        forall|k: int, l: int|
            0 <= k < l < r.len() ==> interp_rank(#[trigger] r@[k]) >= interp_rank(#[trigger] r@[l]),
        exists|found: Seq<PythonInterpreter>|
            #![trigger interps_view(found)]
            interps_view(found) == found_interpreters(
                crate::text::strs(paths@),
                probed@,
                versions_view(versions@),
                paths.len() as int,
            ) && exists|order: Seq<int>|
                is_newest_first(found, order) && r@.len() == order.len() && forall|k: int|
                    0 <= k < order.len() ==> interp_view(#[trigger] r@[k]) == interp_view(
                        found[order[k]],
                    ),
{
    let ghost ps = crate::text::strs(paths@);
    let ghost vs = versions_view(versions@);
    let mut found: Vec<PythonInterpreter> = Vec::new();
    let mut i: usize = 0;
    while i < paths.len()
        invariant
            paths.len() == probed.len(),
            paths.len() == versions.len(),
            ps == crate::text::strs(paths@),
            vs == versions_view(versions@),
            i <= paths.len(),
            interps_view(found@) == found_interpreters(
                ps,
                probed@,
                vs,
                i as int,
            ),
        decreases paths.len() - i,
    {
        if probed[i] {
            if let Some(v) = &versions[i] {
                let ghost prev = found@;
                found.push(PythonInterpreter { path: paths[i].clone(), version: v.clone() });
                assert(interps_view(found@) =~= interps_view(prev).push((ps[i as int], vs[i as int]->0)));
            }
        }
        i = i + 1;
    }
    let r = sort_newest_first(&found);
    assert(interps_view(found@) == found_interpreters(
        ps,
        probed@,
        vs,
        paths.len() as int,
    ));
    r
}

} // verus!
