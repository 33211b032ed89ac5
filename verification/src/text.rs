//! Character-level text helpers with their mathematical models.
//!
//! Strings are modelled as `Seq<char>`; every helper states its result over
//! that model so higher layers can be specified without byte offsets.
//! Windows into a character vector are given as `lo..hi` index pairs.

use vstd::prelude::*;

verus! {

// ----- Models ---------------------------------------------------------------

/// The Unicode `White_Space` property (what `char::is_whitespace` tests).
pub open spec fn is_ws(c: char) -> bool {
    let n = c as u32;
    ||| n == 0x09 || n == 0x0A || n == 0x0B || n == 0x0C || n == 0x0D || n == 0x20
    ||| n == 0x85 || n == 0xA0 || n == 0x1680
    ||| (0x2000 <= n && n <= 0x200A)
    ||| n == 0x2028 || n == 0x2029 || n == 0x202F || n == 0x205F || n == 0x3000
}

/// `s` without leading whitespace.
pub open spec fn trim_start(s: Seq<char>) -> Seq<char>
    decreases s.len(),
{
    if s.len() > 0 && is_ws(s[0]) {
        trim_start(s.drop_first())
    } else {
        s
    }
}

/// `s` without trailing whitespace.
pub open spec fn trim_end(s: Seq<char>) -> Seq<char>
    decreases s.len(),
{
    if s.len() > 0 && is_ws(s.last()) {
        trim_end(s.drop_last())
    } else {
        s
    }
}

/// `s` without leading and trailing whitespace (`str::trim`).
pub open spec fn trim(s: Seq<char>) -> Seq<char> {
    trim_end(trim_start(s))
}

/// `p` occurs in `s` at position `i`.
pub open spec fn matches_at(s: Seq<char>, p: Seq<char>, i: int) -> bool {
    0 <= i && i + p.len() <= s.len() && s.subrange(i, i + p.len()) == p
}

/// The first position at or after `i` where `p` occurs in `s`.
pub open spec fn find_from(s: Seq<char>, p: Seq<char>, i: int) -> Option<int>
    decreases s.len() + 1 - i,
{
    if i < 0 || i + p.len() > s.len() {
        None
    } else if matches_at(s, p, i) {
        Some(i)
    } else {
        find_from(s, p, i + 1)
    }
}

/// The first position where `p` occurs in `s`.
pub open spec fn find(s: Seq<char>, p: Seq<char>) -> Option<int> {
    find_from(s, p, 0)
}

/// `s` starts with `p`.
pub open spec fn starts_with(s: Seq<char>, p: Seq<char>) -> bool {
    p.len() <= s.len() && s.subrange(0, p.len() as int) == p
}

/// `s` ends with `p`.
pub open spec fn ends_with(s: Seq<char>, p: Seq<char>) -> bool {
    p.len() <= s.len() && s.subrange(s.len() - p.len(), s.len() as int) == p
}

/// `str::split_once`: the parts before and after the first occurrence of `p`.
pub open spec fn split_once(s: Seq<char>, p: Seq<char>) -> Option<(Seq<char>, Seq<char>)> {
    match find(s, p) {
        Some(i) => Some((s.subrange(0, i), s.subrange(i + p.len(), s.len() as int))),
        None => None,
    }
}

/// ASCII lower-casing of one character.
pub open spec fn ascii_lower(c: char) -> char {
    if 'A' <= c && c <= 'Z' {
        ((c as u32) + 32) as char
    } else {
        c
    }
}

/// `str::to_ascii_lowercase`.
pub open spec fn to_ascii_lower(s: Seq<char>) -> Seq<char> {
    s.map_values(|c: char| ascii_lower(c))
}

/// A line as `str::lines` yields it: one trailing `'\r'` is dropped.
pub open spec fn strip_cr(l: Seq<char>) -> Seq<char> {
    if l.len() > 0 && l.last() == '\r' {
        l.drop_last()
    } else {
        l
    }
}

/// The lines of `s` starting at position `pos` (see [`lines`]).
pub open spec fn lines_from(s: Seq<char>, pos: int) -> Seq<Seq<char>>
    decreases s.len() - pos,
{
    if pos < 0 || pos >= s.len() {
        Seq::empty()
    } else {
        match find_from(s, seq!['\n'], pos) {
            Some(i) => if pos <= i < s.len() {
                seq![strip_cr(s.subrange(pos, i))] + lines_from(s, i + 1)
            } else {
                Seq::empty()
            },
            None => seq![s.subrange(pos, s.len() as int)],
        }
    }
}

/// `str::lines`: split at `'\n'`, with `"\r\n"` also accepted as a line end
/// and no empty line after a final terminator.
pub open spec fn lines(s: Seq<char>) -> Seq<Seq<char>> {
    lines_from(s, 0)
}

/// The first position at or after `i` that does not hold whitespace (or `s.len()`).
pub open spec fn skip_ws_from(s: Seq<char>, i: int) -> int
    decreases s.len() - i,
{
    if i < 0 {
        0
    } else if i >= s.len() {
        s.len() as int
    } else if is_ws(s[i]) {
        skip_ws_from(s, i + 1)
    } else {
        i
    }
}

/// The first position at or after `i` that holds whitespace (or `s.len()`).
pub open spec fn next_ws_from(s: Seq<char>, i: int) -> int
    decreases s.len() - i,
{
    if i < 0 {
        0
    } else if i >= s.len() {
        s.len() as int
    } else if is_ws(s[i]) {
        i
    } else {
        next_ws_from(s, i + 1)
    }
}

/// The whitespace-separated words of `s` at or after position `pos`.
pub open spec fn words_from(s: Seq<char>, pos: int) -> Seq<Seq<char>>
    decreases s.len() - pos,
{
    let a = skip_ws_from(s, pos);
    if pos < 0 || a >= s.len() || a < pos {
        Seq::empty()
    } else {
        let b = next_ws_from(s, a);
        if a < b <= s.len() {
            seq![s.subrange(a, b)] + words_from(s, b)
        } else {
            Seq::empty()
        }
    }
}

/// `str::split_whitespace`: the maximal runs of non-whitespace characters.
pub open spec fn words(s: Seq<char>) -> Seq<Seq<char>> {
    words_from(s, 0)
}

// ----- Lemmas ---------------------------------------------------------------

pub proof fn lemma_trim_start_len(s: Seq<char>)
    ensures
        trim_start(s).len() <= s.len(),
        trim_start(s).len() == 0 || !is_ws(trim_start(s)[0]),
    decreases s.len(),
{
    if s.len() > 0 && is_ws(s[0]) {
        lemma_trim_start_len(s.drop_first());
    }
}

pub proof fn lemma_find_from(s: Seq<char>, p: Seq<char>, i: int)
    requires
        0 <= i,
    ensures
        find_from(s, p, i) matches Some(j) ==> i <= j && matches_at(s, p, j) && forall|k: int|
            i <= k < j ==> !matches_at(s, p, k),
        find_from(s, p, i) is None ==> forall|k: int| i <= k ==> !matches_at(s, p, k),
    decreases s.len() + 1 - i,
{
    if i < 0 || i + p.len() > s.len() {
    } else if matches_at(s, p, i) {
    } else {
        lemma_find_from(s, p, i + 1);
    }
}

pub proof fn lemma_skip_ws_from(s: Seq<char>, i: int)
    requires
        0 <= i <= s.len(),
    ensures
        i <= skip_ws_from(s, i) <= s.len(),
        skip_ws_from(s, i) < s.len() ==> !is_ws(s[skip_ws_from(s, i)]),
        forall|k: int| i <= k < skip_ws_from(s, i) ==> is_ws(#[trigger] s[k]),
    decreases s.len() - i,
{
    if i < s.len() && is_ws(s[i]) {
        lemma_skip_ws_from(s, i + 1);
    }
}

pub proof fn lemma_next_ws_from(s: Seq<char>, i: int)
    requires
        0 <= i <= s.len(),
    ensures
        i <= next_ws_from(s, i) <= s.len(),
        next_ws_from(s, i) < s.len() ==> is_ws(s[next_ws_from(s, i)]),
        forall|k: int| i <= k < next_ws_from(s, i) ==> !is_ws(#[trigger] s[k]),
    decreases s.len() - i,
{
    if i < s.len() && !is_ws(s[i]) {
        lemma_next_ws_from(s, i + 1);
    }
}

// ----- Executable helpers ---------------------------------------------------

/// Appends one character to a `String` by calling std's `String::push`;
/// the contract claims that afterwards the string holds its old characters
/// followed by `c`, which is what std documents.
#[verifier::external_body]
pub(crate) fn push_char(s: &mut String, c: char)
    ensures
        final(s)@ == old(s)@.push(c),
{
    s.push(c);
}

/// The characters of `s`, in order.
pub fn chars_of(s: &str) -> (v: Vec<char>)
    ensures
        v@ == s@,
{
    let mut v: Vec<char> = Vec::new();
    for c in it: s.chars()
        invariant
            v@ == it.seq().take(it.index() as int),
            it.seq() == s@,
    {
        v.push(c);
    }
    v
}

/// The string made of `v[lo..hi]`.
pub fn string_of(v: &Vec<char>, lo: usize, hi: usize) -> (s: String)
    requires
        lo <= hi <= v.len(),
    ensures
        s@ == v@.subrange(lo as int, hi as int),
{
    let mut s = String::new();
    let mut i = lo;
    while i < hi
        invariant
            lo <= i <= hi <= v.len(),
            s@ == v@.subrange(lo as int, i as int),
        decreases hi - i,
    {
        push_char(&mut s, v[i]);
        assert(v@.subrange(lo as int, i + 1) == v@.subrange(lo as int, i as int).push(v@[i as int]));
        i = i + 1;
    }
    s
}

/// Executable `is_ws`.
pub fn is_whitespace(c: char) -> (b: bool)
    ensures
        b == is_ws(c),
{
    let n = c as u32;
    n == 0x09 || n == 0x0A || n == 0x0B || n == 0x0C || n == 0x0D || n == 0x20 || n == 0x85
        || n == 0xA0 || n == 0x1680 || (0x2000 <= n && n <= 0x200A) || n == 0x2028 || n == 0x2029
        || n == 0x202F || n == 0x205F || n == 0x3000
}

/// The trimmed window of `v[lo..hi]`.
pub fn trim_range(v: &Vec<char>, lo: usize, hi: usize) -> (r: (usize, usize))
    requires
        lo <= hi <= v.len(),
    ensures
        lo <= r.0 <= r.1 <= hi,
        v@.subrange(r.0 as int, r.1 as int) == trim(v@.subrange(lo as int, hi as int)),
{
    let ghost s = v@.subrange(lo as int, hi as int);
    let mut a = lo;
    while a < hi && is_whitespace(v[a])
        invariant
            lo <= a <= hi <= v.len(),
            s == v@.subrange(lo as int, hi as int),
            trim_start(v@.subrange(a as int, hi as int)) == trim_start(s),
        decreases hi - a,
    {
        assert(v@.subrange(a as int, hi as int).drop_first() == v@.subrange(a + 1, hi as int));
        a = a + 1;
    }
    let ghost t = v@.subrange(a as int, hi as int);
    assert(trim_start(t) == t);
    let mut b = hi;
    while b > a && is_whitespace(v[b - 1])
        invariant
            lo <= a <= b <= hi <= v.len(),
            t == v@.subrange(a as int, hi as int),
            trim_end(v@.subrange(a as int, b as int)) == trim_end(t),
        decreases b - a,
    {
        assert(v@.subrange(a as int, b as int).drop_last() == v@.subrange(a as int, b - 1));
        b = b - 1;
    }
    (a, b)
}

/// Whether `p` occurs in `v` at position `i` (within the window ending at `hi`).
pub fn matches_at_exec(v: &Vec<char>, hi: usize, p: &Vec<char>, i: usize) -> (b: bool)
    requires
        hi <= v.len(),
    ensures
        b == matches_at(v@.subrange(0, hi as int), p@, i as int),
{
    let ghost s = v@.subrange(0, hi as int);
    if i > hi || p.len() > hi - i {
        return false;
    }
    let mut k: usize = 0;
    while k < p.len()
        invariant
            i + p.len() <= hi <= v.len(),
            s == v@.subrange(0, hi as int),
            k <= p.len(),
            forall|j: int| 0 <= j < k ==> v@[i + j] == p@[j],
        decreases p.len() - k,
    {
        if v[i + k] != p[k] {
            assert(s.subrange(i as int, i + p.len())[k as int] != p@[k as int]);
            return false;
        }
        k = k + 1;
    }
    assert(s.subrange(i as int, i + p.len()) =~= p@);
    true
}

/// The first occurrence of `p` in `v[0..hi]` at or after `from`.
pub fn find_exec(v: &Vec<char>, hi: usize, p: &Vec<char>, from: usize) -> (r: Option<usize>)
    requires
        hi <= v.len(),
    ensures
        r matches Some(i) ==> find_from(v@.subrange(0, hi as int), p@, from as int) == Some(i as int),
        r is None ==> find_from(v@.subrange(0, hi as int), p@, from as int) is None,
{
    let ghost s = v@.subrange(0, hi as int);
    let mut i = from;
    while i <= hi
        invariant
            hi <= v.len(),
            s == v@.subrange(0, hi as int),
            from <= i,
            find_from(s, p@, from as int) == find_from(s, p@, i as int),
        decreases hi + 1 - i,
    {
        if p.len() > hi - i {
            return None;
        }
        if p.len() == 0 {
            assert(s.subrange(i as int, i as int) =~= p@);
            return Some(i);
        }
        if matches_at_exec(v, hi, p, i) {
            return Some(i);
        }
        i = i + 1;
    }
    None
}

/// Whether `v[lo..hi]` equals the literal `lit`.
pub fn eq_lit(v: &Vec<char>, lo: usize, hi: usize, lit: &str) -> (b: bool)
    requires
        lo <= hi <= v.len(),
    ensures
        b == (v@.subrange(lo as int, hi as int) == lit@),
{
    let l = chars_of(lit);
    if l.len() != hi - lo {
        return false;
    }
    let mut k: usize = 0;
    while k < l.len()
        invariant
            lo <= hi <= v.len(),
            l@ == lit@,
            l.len() == hi - lo,
            k <= l.len(),
            forall|j: int| 0 <= j < k ==> v@[lo + j] == l@[j],
        decreases l.len() - k,
    {
        if v[lo + k] != l[k] {
            assert(v@.subrange(lo as int, hi as int)[k as int] != lit@[k as int]);
            return false;
        }
        k = k + 1;
    }
    assert(v@.subrange(lo as int, hi as int) =~= lit@);
    true
}

/// Executable `ascii_lower`.
pub fn ascii_lower_exec(c: char) -> (r: char)
    ensures
        r == ascii_lower(c),
{
    if 'A' <= c && c <= 'Z' {
        let b: u8 = (c as u32) as u8;
        (b + 32) as char
    } else {
        c
    }
}

} // verus!

verus! {

/// The character windows `v[r.0..r.1]` for each window `r` of `rs`.
pub open spec fn windows_view(v: Seq<char>, rs: Seq<(usize, usize)>) -> Seq<Seq<char>> {
    rs.map_values(|r: (usize, usize)| v.subrange(r.0 as int, r.1 as int))
}

/// The lines of `v`, as index windows.
#[verifier::spinoff_prover]
pub fn line_ranges(v: &Vec<char>) -> (rs: Vec<(usize, usize)>)
    ensures
        windows_view(v@, rs@) == lines(v@),
        forall|k: int| 0 <= k < rs.len() ==> #[trigger] rs@[k].0 <= rs@[k].1 <= v.len(),
{
    let n = v.len();
    let nl: Vec<char> = vec!['\n'];
    let mut rs: Vec<(usize, usize)> = Vec::new();
    let mut pos: usize = 0;
    assert(v@.subrange(0, n as int) == v@);
    while pos < n
        invariant
            n == v.len(),
            nl@ == seq!['\n'],
            pos <= n,
            windows_view(v@, rs@) + lines_from(v@, pos as int) == lines(v@),
            forall|k: int| 0 <= k < rs.len() ==> #[trigger] rs@[k].0 <= rs@[k].1 <= v.len(),
        decreases n - pos,
    {
        let ghost before = rs@;
        proof {
            lemma_find_from(v@, seq!['\n'], pos as int);
        }
        assert(v@.subrange(0, n as int) == v@);
        match find_exec(v, n, &nl, pos) {
            Some(i) => {
                assert(matches_at(v@, seq!['\n'], i as int));
                let end = if i > pos && v[i - 1] == '\r' {
                    i - 1
                } else {
                    i
                };
                assert(v@.subrange(pos as int, end as int) == strip_cr(
                    v@.subrange(pos as int, i as int),
                ));
                rs.push((pos, end));
                assert(windows_view(v@, rs@) == windows_view(v@, before).push(
                    v@.subrange(pos as int, end as int),
                ));
                pos = i + 1;
            },
            None => {
                rs.push((pos, n));
                assert(windows_view(v@, rs@) == windows_view(v@, before).push(
                    v@.subrange(pos as int, n as int),
                ));
                pos = n;
            },
        }
    }
    assert(windows_view(v@, rs@) + Seq::<Seq<char>>::empty() == windows_view(v@, rs@));
    rs
}

} // verus!

verus! {

/// An owned copy of `s`.
pub fn owned(s: &str) -> (r: String)
    ensures
        r@ == s@,
{
    s.to_owned()
}

/// The trimmed, ASCII-lower-cased characters of `s`.
pub fn lower_trimmed(s: &str) -> (v: Vec<char>)
    ensures
        v@ == to_ascii_lower(trim(s@)),
{
    let cs = chars_of(s);
    let (a, b) = trim_range(&cs, 0, cs.len());
    assert(cs@.subrange(0, cs.len() as int) == cs@);
    let mut v: Vec<char> = Vec::new();
    let mut i = a;
    while i < b
        invariant
            a <= i <= b <= cs.len(),
            v@ == to_ascii_lower(cs@.subrange(a as int, i as int)),
        decreases b - i,
    {
        v.push(ascii_lower_exec(cs[i]));
        assert(to_ascii_lower(cs@.subrange(a as int, i + 1)) =~= to_ascii_lower(
            cs@.subrange(a as int, i as int),
        ).push(ascii_lower(cs@[i as int])));
        i = i + 1;
    }
    v
}

/// The ASCII-lower-cased characters of `s`.
pub fn lower_chars(s: &str) -> (v: Vec<char>)
    ensures
        v@ == to_ascii_lower(s@),
{
    let cs = chars_of(s);
    let mut v: Vec<char> = Vec::new();
    let mut i: usize = 0;
    while i < cs.len()
        invariant
            i <= cs.len(),
            cs@ == s@,
            v@ == to_ascii_lower(cs@.subrange(0, i as int)),
        decreases cs.len() - i,
    {
        v.push(ascii_lower_exec(cs[i]));
        assert(to_ascii_lower(cs@.subrange(0, i + 1)) =~= to_ascii_lower(cs@.subrange(0, i as int)).push(
            ascii_lower(cs@[i as int]),
        ));
        i = i + 1;
    }
    assert(cs@.subrange(0, cs.len() as int) =~= cs@);
    v
}

/// `words` joined with `sep` between consecutive items.
pub open spec fn join(items: Seq<Seq<char>>, sep: Seq<char>) -> Seq<char>
    decreases items.len(),
{
    if items.len() == 0 {
        Seq::empty()
    } else if items.len() == 1 {
        items[0]
    } else {
        join(items.drop_last(), sep) + sep + items.last()
    }
}

/// The views of a sequence of strings.
pub open spec fn strs(v: Seq<String>) -> Seq<Seq<char>> {
    v.map_values(|s: String| s@)
}

/// `items` joined with `sep` (`[String]::join`).
pub fn join_strings(items: &Vec<String>, sep: &str) -> (r: String)
    ensures
        r@ == join(strs(items@), sep@),
{
    let mut r = String::new();
    let mut i: usize = 0;
    while i < items.len()
        invariant
            i <= items.len(),
            r@ == join(strs(items@.take(i as int)), sep@),
        decreases items.len() - i,
    {
        let ghost prev = strs(items@.take(i as int));
        if i > 0 {
            r.append(sep);
        }
        r.append(items[i].as_str());
        assert(strs(items@.take(i + 1)).drop_last() =~= prev);
        assert(strs(items@.take(i + 1)).last() == items@[i as int]@);
        if i == 0 {
            assert(strs(items@.take(1)) =~= seq![items@[0]@]);
        }
        i = i + 1;
    }
    assert(items@.take(items.len() as int) =~= items@);
    r
}

} // verus!

verus! {

/// A copy of `v[lo..hi]`.
pub fn sub_vec(v: &Vec<char>, lo: usize, hi: usize) -> (r: Vec<char>)
    requires
        lo <= hi <= v.len(),
    ensures
        r@ == v@.subrange(lo as int, hi as int),
{
    let mut r: Vec<char> = Vec::new();
    let mut i = lo;
    while i < hi
        invariant
            lo <= i <= hi <= v.len(),
            r@ == v@.subrange(lo as int, i as int),
        decreases hi - i,
    {
        r.push(v[i]);
        assert(v@.subrange(lo as int, i + 1) =~= v@.subrange(lo as int, i as int).push(v@[i as int]));
        i = i + 1;
    }
    r
}

/// The trimmed copy of `v[lo..hi]`.
pub fn trimmed_vec(v: &Vec<char>, lo: usize, hi: usize) -> (r: Vec<char>)
    requires
        lo <= hi <= v.len(),
    ensures
        r@ == trim(v@.subrange(lo as int, hi as int)),
{
    let (a, b) = trim_range(v, lo, hi);
    sub_vec(v, a, b)
}

/// Whether `v` starts with the literal `lit`.
pub fn starts_with_lit(v: &Vec<char>, lit: &str) -> (b: bool)
    ensures
        b == starts_with(v@, lit@),
{
    let l = chars_of(lit);
    if l.len() > v.len() {
        return false;
    }
    eq_lit(v, 0, l.len(), lit)
}

/// Whether `v` ends with the literal `lit`.
pub fn ends_with_lit(v: &Vec<char>, lit: &str) -> (b: bool)
    ensures
        b == ends_with(v@, lit@),
{
    let l = chars_of(lit);
    if l.len() > v.len() {
        return false;
    }
    eq_lit(v, v.len() - l.len(), v.len(), lit)
}

/// The first occurrence of the literal `lit` in `v`.
pub fn find_lit(v: &Vec<char>, lit: &str) -> (r: Option<usize>)
    ensures
        r matches Some(i) ==> find(v@, lit@) == Some(i as int),
        r is None ==> find(v@, lit@) is None,
{
    let l = chars_of(lit);
    assert(v@.subrange(0, v.len() as int) == v@);
    find_exec(v, v.len(), &l, 0)
}

} // verus!

verus! {

/// Executable `skip_ws_from`.
pub fn skip_ws_exec(v: &Vec<char>, i: usize) -> (j: usize)
    requires
        i <= v.len(),
    ensures
        j as int == skip_ws_from(v@, i as int),
        i <= j <= v.len(),
{
    let mut j = i;
    while j < v.len() && is_whitespace(v[j])
        invariant
            i <= j <= v.len(),
            skip_ws_from(v@, j as int) == skip_ws_from(v@, i as int),
        decreases v.len() - j,
    {
        j = j + 1;
    }
    j
}

/// Executable `next_ws_from`.
pub fn next_ws_exec(v: &Vec<char>, i: usize) -> (j: usize)
    requires
        i <= v.len(),
    ensures
        j as int == next_ws_from(v@, i as int),
        i <= j <= v.len(),
{
    let mut j = i;
    while j < v.len() && !is_whitespace(v[j])
        invariant
            i <= j <= v.len(),
            next_ws_from(v@, j as int) == next_ws_from(v@, i as int),
        decreases v.len() - j,
    {
        j = j + 1;
    }
    j
}

/// An ASCII decimal digit.
pub open spec fn is_digit(c: char) -> bool {
    '0' <= c && c <= '9'
}

} // verus!

verus! {

/// Whether two strings are equal.
pub fn str_eq(a: &str, b: &str) -> (r: bool)
    ensures
        r == (a@ == b@),
{
    let x = chars_of(a);
    let y = chars_of(b);
    if x.len() != y.len() {
        return false;
    }
    let mut k: usize = 0;
    while k < x.len()
        invariant
            x@ == a@,
            y@ == b@,
            x.len() == y.len(),
            k <= x.len(),
            forall|j: int| 0 <= j < k ==> x@[j] == y@[j],
        decreases x.len() - k,
    {
        if x[k] != y[k] {
            return false;
        }
        k = k + 1;
    }
    assert(x@ =~= y@);
    true
}

} // verus!

verus! {

/// Lexicographic `<` on strings by code point (the order of `String`'s `Ord`
/// on valid UTF-8).
pub open spec fn str_lt(a: Seq<char>, b: Seq<char>) -> bool
    decreases a.len(),
{
    if a.len() == 0 {
        b.len() > 0
    } else if b.len() == 0 {
        false
    } else if a[0] != b[0] {
        (a[0] as u32) < (b[0] as u32)
    } else {
        str_lt(a.drop_first(), b.drop_first())
    }
}

pub proof fn lemma_str_lt_irrefl(a: Seq<char>)
    ensures
        !str_lt(a, a),
    decreases a.len(),
{
    if a.len() > 0 {
        lemma_str_lt_irrefl(a.drop_first());
    }
}

pub proof fn lemma_str_lt_trans(a: Seq<char>, b: Seq<char>, c: Seq<char>)
    requires
        str_lt(a, b),
        str_lt(b, c),
    ensures
        str_lt(a, c),
    decreases a.len(),
{
    if a.len() > 0 && b.len() > 0 && c.len() > 0 && a[0] == b[0] && b[0] == c[0] {
        lemma_str_lt_trans(a.drop_first(), b.drop_first(), c.drop_first());
    }
}

pub proof fn lemma_str_lt_total(a: Seq<char>, b: Seq<char>)
    ensures
        str_lt(a, b) || str_lt(b, a) || a == b,
    decreases a.len(),
{
    if a.len() > 0 && b.len() > 0 && a[0] == b[0] {
        lemma_str_lt_total(a.drop_first(), b.drop_first());
        if a.drop_first() == b.drop_first() {
            assert(a =~= seq![a[0]] + a.drop_first());
            assert(b =~= seq![b[0]] + b.drop_first());
        }
    } else if a.len() == 0 && b.len() == 0 {
        assert(a =~= b);
    } else if a.len() > 0 && b.len() > 0 {
        vstd::utf8::char_u32_cast(a[0], a[0] as u32);
        vstd::utf8::char_u32_cast(b[0], b[0] as u32);
    }
}

/// Executable `str_lt`.
pub fn str_less(a: &str, b: &str) -> (r: bool)
    ensures
        r == str_lt(a@, b@),
{
    let x = chars_of(a);
    let y = chars_of(b);
    let mut i: usize = 0;
    assert(x@.subrange(0, x.len() as int) =~= x@);
    assert(y@.subrange(0, y.len() as int) =~= y@);
    while i < x.len() && i < y.len() && x[i] == y[i]
        invariant
            x@ == a@,
            y@ == b@,
            i <= x.len(),
            i <= y.len(),
            str_lt(a@, b@) == str_lt(x@.subrange(i as int, x.len() as int), y@.subrange(i as int, y.len() as int)),
        decreases x.len() - i,
    {
        assert(x@.subrange(i as int, x.len() as int).drop_first() =~= x@.subrange(i + 1, x.len() as int));
        assert(y@.subrange(i as int, y.len() as int).drop_first() =~= y@.subrange(i + 1, y.len() as int));
        i = i + 1;
    }
    if i == x.len() {
        i < y.len()
    } else if i == y.len() {
        false
    } else {
        (x[i] as u32) < (y[i] as u32)
    }
}

/// `s` is in nondecreasing lexicographic order.
pub open spec fn sorted_strs(s: Seq<Seq<char>>) -> bool {
    forall|i: int, j: int| 0 <= i < j < s.len() ==> !str_lt(#[trigger] s[j], #[trigger] s[i])
}

/// `order` lists every index of `s` exactly once.
pub open spec fn is_permutation(order: Seq<int>, n: int) -> bool {
    &&& order.len() == n
    &&& forall|k: int| 0 <= k < order.len() ==> 0 <= #[trigger] order[k] < n
    &&& forall|k: int, l: int| 0 <= k < l < order.len() ==> #[trigger] order[k] != #[trigger] order[l]
}

/// Sort strings in lexicographic order.
pub fn sort_strings(v: Vec<String>) -> (r: Vec<String>)
    ensures
        sorted_strs(strs(r@)),
        exists|order: Seq<int>|
            is_permutation(order, v.len() as int) && r.len() == v.len() && forall|k: int|
                0 <= k < order.len() ==> (#[trigger] r@[k])@ == v@[order[k]]@,
{
    let n = v.len();
    let mut order: Vec<usize> = Vec::new();
    let mut i: usize = 0;
    while i < n
        invariant
            n == v.len(),
            i <= n,
            order.len() == i,
            forall|k: int| 0 <= k < order.len() ==> #[trigger] order@[k] < i,
            forall|k: int, l: int| 0 <= k < l < order.len() ==> #[trigger] order@[k] != #[trigger] order@[l],
            forall|k: int, l: int|
                0 <= k < l < order.len() ==> !str_lt(v@[#[trigger] order@[l] as int]@, v@[#[trigger] order@[k] as int]@),
        decreases n - i,
    {
        let mut p: usize = 0;
        while p < order.len() && !str_less(v[i].as_str(), v[order[p]].as_str())
            invariant
                n == v.len(),
                i < n,
                order.len() == i,
                forall|k: int| 0 <= k < order.len() ==> #[trigger] order@[k] < i,
                p <= order.len(),
                forall|q: int| 0 <= q < p ==> !str_lt(v@[i as int]@, v@[#[trigger] order@[q] as int]@),
            decreases order.len() - p,
        {
            p = p + 1;
        }
        let ghost old_order = order@;
        proof {
            if p < order.len() {
                assert forall|q: int| p <= q < old_order.len() implies str_lt(
                    v@[i as int]@,
                    v@[#[trigger] old_order[q] as int]@,
                ) by {
                    if q > p {
                        let a = v@[i as int]@;
                        let b = v@[old_order[p as int] as int]@;
                        let c = v@[old_order[q] as int]@;
                        assert(!str_lt(c, b));
                        lemma_str_lt_total(b, c);
                        if str_lt(b, c) {
                            lemma_str_lt_trans(a, b, c);
                        }
                    }
                }
            }
            assert forall|q: int| 0 <= q < p implies !str_lt(
                v@[i as int]@,
                v@[#[trigger] old_order[q] as int]@,
            ) by {}
        }
        order.insert(p, i);
        proof {
            assert forall|k: int, l: int| 0 <= k < l < order.len() implies !str_lt(
                v@[#[trigger] order@[l] as int]@,
                v@[#[trigger] order@[k] as int]@,
            ) by {
                if k < p && l < p {
                    assert(order@[k] == old_order[k] && order@[l] == old_order[l]);
                } else if k < p && l == p {
                    assert(order@[k] == old_order[k]);
                    let a = v@[i as int]@;
                    let b = v@[old_order[k] as int]@;
                    lemma_str_lt_total(a, b);
                    if a == b {
                        lemma_str_lt_irrefl(a);
                    }
                } else if k < p && l > p {
                    assert(order@[k] == old_order[k] && order@[l] == old_order[l - 1]);
                } else if k == p {
                    assert(order@[l] == old_order[l - 1]);
                    let a = v@[i as int]@;
                    let c = v@[old_order[l - 1] as int]@;
                    lemma_str_lt_total(a, c);
                    if str_lt(c, a) {
                        lemma_str_lt_trans(a, c, a);
                        lemma_str_lt_irrefl(a);
                    }
                } else {
                    assert(order@[k] == old_order[k - 1] && order@[l] == old_order[l - 1]);
                }
            }
            assert forall|k: int, l: int| 0 <= k < l < order.len() implies #[trigger] order@[k]
                != #[trigger] order@[l] by {
                if k < p && l < p {
                    assert(order@[k] == old_order[k] && order@[l] == old_order[l]);
                } else if k < p && l > p {
                    assert(order@[k] == old_order[k] && order@[l] == old_order[l - 1]);
                } else if k == p {
                    assert(order@[l] == old_order[l - 1]);
                } else if l == p {
                    assert(order@[k] == old_order[k]);
                } else {
                    assert(order@[k] == old_order[k - 1] && order@[l] == old_order[l - 1]);
                }
            }
            assert forall|k: int| 0 <= k < order.len() implies #[trigger] order@[k] < i + 1 by {
                if k < p {
                    assert(order@[k] == old_order[k]);
                } else if k > p {
                    assert(order@[k] == old_order[k - 1]);
                }
            }
        }
        i = i + 1;
    }
    let mut r: Vec<String> = Vec::new();
    let mut k: usize = 0;
    while k < n
        invariant
            n == v.len(),
            order.len() == n,
            forall|q: int| 0 <= q < order.len() ==> #[trigger] order@[q] < n,
            k <= n,
            r.len() == k,
            forall|q: int| 0 <= q < k ==> (#[trigger] r@[q])@ == v@[order@[q] as int]@,
        decreases n - k,
    {
        r.push(v[order[k]].clone());
        k = k + 1;
    }
    let ghost og = order@.map_values(|x: usize| x as int);
    assert(is_permutation(og, n as int)) by {
        assert forall|k: int, l: int| 0 <= k < l < og.len() implies #[trigger] og[k]
            != #[trigger] og[l] by {
            assert(order@[k] != order@[l]);
        }
    }
    assert forall|q: int| 0 <= q < og.len() implies (#[trigger] r@[q])@ == v@[og[q]]@ by {}
    assert forall|a: int, b: int| 0 <= a < b < r.len() implies !str_lt(
        #[trigger] strs(r@)[b],
        #[trigger] strs(r@)[a],
    ) by {
        assert(!str_lt(v@[order@[b] as int]@, v@[order@[a] as int]@));
    }
    r
}

} // verus!

verus! {

/// The decimal digit for `d < 10`.
pub open spec fn digit_char(d: nat) -> char {
    ((('0' as u32) + d) as u32) as char
}

/// The decimal digits of `n` (no leading zeros; `0` for zero).
pub open spec fn decimal_string(n: nat) -> Seq<char>
    decreases n,
{
    if n < 10 {
        seq![digit_char(n)]
    } else {
        decimal_string(n / 10).push(digit_char(n % 10))
    }
}

/// `n` written in decimal, with a leading `-` when negative (what `{}`
/// prints for an integer).
pub open spec fn int_text(n: int) -> Seq<char> {
    if n < 0 {
        seq!['-'] + decimal_string((-n) as nat)
    } else {
        decimal_string(n as nat)
    }
}

fn digit_exec(d: u64) -> (c: char)
    requires
        d < 10,
    ensures
        c == digit_char(d as nat),
{
    ((d as u8) + 48) as char
}

fn decimal_of(n: u64) -> (v: Vec<char>)
    ensures
        v@ == decimal_string(n as nat),
    decreases n,
{
    if n < 10 {
        vec![digit_exec(n)]
    } else {
        let mut v = decimal_of(n / 10);
        v.push(digit_exec(n % 10));
        v
    }
}

/// `n` in decimal.
pub fn i32_text(n: i32) -> (r: String)
    ensures
        r@ == int_text(n as int),
{
    let wide: i64 = n as i64;
    if wide < 0 {
        let digits = decimal_of((-wide) as u64);
        let mut v: Vec<char> = vec!['-'];
        let mut k: usize = 0;
        while k < digits.len()
            invariant
                k <= digits.len(),
                v@ == seq!['-'] + digits@.take(k as int),
            decreases digits.len() - k,
        {
            v.push(digits[k]);
            assert(digits@.take(k + 1) =~= digits@.take(k as int).push(digits@[k as int]));
            k = k + 1;
        }
        assert(digits@.take(digits.len() as int) =~= digits@);
        string_of(&v, 0, v.len())
    } else {
        let digits = decimal_of(wide as u64);
        assert(digits@.subrange(0, digits.len() as int) =~= digits@);
        string_of(&digits, 0, digits.len())
    }
}

} // verus!

verus! {

/// `trim_start(s)` is a suffix of `s` that starts with no whitespace.
pub proof fn lemma_trim_start_suffix(s: Seq<char>) -> (k: int)
    ensures
        0 <= k <= s.len(),
        trim_start(s) == s.subrange(k, s.len() as int),
        trim_start(s).len() == 0 || !is_ws(trim_start(s)[0]),
    decreases s.len(),
{
    if s.len() > 0 && is_ws(s[0]) {
        let k = lemma_trim_start_suffix(s.drop_first());
        assert(s.drop_first().subrange(k, s.drop_first().len() as int) =~= s.subrange(k + 1, s.len() as int));
        k + 1
    } else {
        assert(s.subrange(0, s.len() as int) =~= s);
        0
    }
}

/// `trim_end(s)` is a prefix of `s` that ends with no whitespace.
pub proof fn lemma_trim_end_prefix(s: Seq<char>) -> (k: int)
    ensures
        0 <= k <= s.len(),
        trim_end(s) == s.subrange(0, k),
        trim_end(s).len() == 0 || !is_ws(trim_end(s).last()),
    decreases s.len(),
{
    if s.len() > 0 && is_ws(s.last()) {
        let k = lemma_trim_end_prefix(s.drop_last());
        assert(s.drop_last().subrange(0, k) =~= s.subrange(0, k));
        k
    } else {
        assert(s.subrange(0, s.len() as int) =~= s);
        s.len() as int
    }
}

/// `trim(s)` is a window `s[a..b]` of `s`, neither starting nor ending with
/// whitespace.
pub proof fn lemma_trim_window(s: Seq<char>) -> (ab: (int, int))
    ensures
        0 <= ab.0 <= ab.1 <= s.len(),
        trim(s) == s.subrange(ab.0, ab.1),
        trim(s).len() == 0 || (!is_ws(trim(s)[0]) && !is_ws(trim(s).last())),
{
    let a = lemma_trim_start_suffix(s);
    let u = trim_start(s);
    let k = lemma_trim_end_prefix(u);
    assert(u.subrange(0, k) =~= s.subrange(a, a + k));
    if k > 0 {
        assert(trim(s)[0] == u[0]);
    }
    (a, a + k)
}

/// Trimming twice is trimming once: `trim(s)` neither starts nor ends with
/// whitespace.
pub proof fn law_trim_idempotent(s: Seq<char>)
    ensures
        trim(trim(s)) == trim(s),
{
    let t = trim(s);
    lemma_trim_window(s);
    if t.len() > 0 {
        assert(!is_ws(t[0]));
        assert(trim_start(t) == t);
        assert(!is_ws(t.last()));
        assert(trim_end(t) == t);
    } else {
        assert(trim_start(t) == t);
        assert(trim_end(t) == t);
    }
}

} // verus!
