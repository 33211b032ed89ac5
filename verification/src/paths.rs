//! Unix path arithmetic over strings.
//!
//! Paths are carried as `String`s; [`join`] models `Path::join` on Unix and
//! [`parent`] models `Path::parent`.

use vstd::prelude::*;

use crate::text::chars_of;

verus! {

/// `Path::join` on Unix: an absolute component replaces the base; otherwise a
/// separator is inserted unless the base is empty or already ends in one.
pub open spec fn join(base: Seq<char>, comp: Seq<char>) -> Seq<char> {
    if comp.len() > 0 && comp[0] == '/' {
        comp
    } else if base.len() > 0 && base.last() != '/' {
        base + seq!['/'] + comp
    } else {
        base + comp
    }
}

/// `base` joined with `comp`.
pub fn join_path(base: &str, comp: &str) -> (r: String)
    ensures
        r@ == join(base@, comp@),
{
    let b = chars_of(base);
    let c = chars_of(comp);
    if c.len() > 0 && c[0] == '/' {
        return comp.to_owned();
    }
    let mut r = base.to_owned();
    if b.len() > 0 && b[b.len() - 1] != '/' {
        r.append("/");
        proof {
            reveal_strlit("/");
            assert("/"@ =~= seq!['/']);
        }
    }
    r.append(comp);
    r
}

/// The directory holding an environment's executables.
pub open spec fn spec_bin_dir(env: Seq<char>) -> Seq<char> {
    join(env, "bin"@)
}

/// The Python interpreter inside an environment.
pub open spec fn spec_python_exe(env: Seq<char>) -> Seq<char> {
    join(spec_bin_dir(env), "python"@)
}

} // verus!

verus! {

/// Where the body of a path starts: after a root `/`, or after a leading
/// `.` component of a relative path, else at 0.
pub open spec fn body_start(p: Seq<char>) -> int {
    if p.len() > 0 && p[0] == '/' {
        1
    } else if p.len() > 0 && p[0] == '.' && (p.len() == 1 || p[1] == '/') {
        1
    } else {
        0
    }
}

/// The path is relative and starts with a `.` component.
pub open spec fn has_cur_dir(p: Seq<char>) -> bool {
    !(p.len() > 0 && p[0] == '/') && body_start(p) == 1
}

/// The position of the last `/` in `p[lo..hi]`, or `lo - 1` when none.
pub open spec fn last_sep(p: Seq<char>, lo: int, hi: int) -> int
    decreases hi - lo,
{
    if hi <= lo {
        lo - 1
    } else if p[hi - 1] == '/' {
        hi - 1
    } else {
        last_sep(p, lo, hi - 1)
    }
}

/// A piece between separators that the component iterator skips.
pub open spec fn skipped_piece(piece: Seq<char>) -> bool {
    piece.len() == 0 || piece == seq!['.']
}

/// Scanning `p[..hi]` from the back: the last component that is neither empty
/// nor `.`, as `(start, end, cut)` where `p[..cut]` is what precedes it.
pub open spec fn last_comp(p: Seq<char>, hi: int) -> Option<(int, int, int)>
    decreases hi,
{
    let lo = body_start(p);
    if hi <= lo || hi > p.len() {
        None
    } else {
        let k = last_sep(p, lo, hi);
        let start = k + 1;
        let cut = if k >= lo { k } else { lo };
        if lo <= cut < hi {
            if skipped_piece(p.subrange(start, hi)) {
                last_comp(p, cut)
            } else {
                Some((start, hi, cut))
            }
        } else {
            None
        }
    }
}

/// `p[..hi]` with trailing separators and `.` components removed (never past
/// the body start).
pub open spec fn trim_back(p: Seq<char>, hi: int) -> int
    decreases hi,
{
    let lo = body_start(p);
    if hi <= lo || hi > p.len() {
        hi
    } else {
        let k = last_sep(p, lo, hi);
        let cut = if k >= lo { k } else { lo };
        if lo <= cut < hi && skipped_piece(p.subrange(k + 1, hi)) {
            trim_back(p, cut)
        } else {
            hi
        }
    }
}

/// `Path::parent` on Unix: the path without its final component; `None` for
/// a root, an empty path, or a path that is only a root.
pub open spec fn parent(p: Seq<char>) -> Option<Seq<char>> {
    match last_comp(p, p.len() as int) {
        Some((s, e, cut)) => Some(p.subrange(0, trim_back(p, cut))),
        None => if has_cur_dir(p) {
            Some(Seq::empty())
        } else {
            None
        },
    }
}

/// `Path::file_name` on Unix: the final component unless it is `..`.
pub open spec fn file_name(p: Seq<char>) -> Option<Seq<char>> {
    match last_comp(p, p.len() as int) {
        Some((s, e, cut)) => if p.subrange(s, e) == seq!['.', '.'] {
            None
        } else {
            Some(p.subrange(s, e))
        },
        None => None,
    }
}

pub proof fn lemma_last_sep(p: Seq<char>, lo: int, hi: int)
    requires
        0 <= lo <= hi <= p.len(),
    ensures
        lo - 1 <= last_sep(p, lo, hi) < hi,
        last_sep(p, lo, hi) >= lo ==> p[last_sep(p, lo, hi)] == '/',
        forall|j: int| last_sep(p, lo, hi) < j < hi && lo <= j ==> p[j] != '/',
    decreases hi - lo,
{
    if hi > lo && p[hi - 1] != '/' {
        lemma_last_sep(p, lo, hi - 1);
    }
}

pub proof fn lemma_trim_back(p: Seq<char>, hi: int)
    requires
        0 <= hi <= p.len(),
    ensures
        trim_back(p, hi) <= hi,
        hi >= body_start(p) ==> trim_back(p, hi) >= body_start(p),
        hi < body_start(p) ==> trim_back(p, hi) == hi,
    decreases hi,
{
    let lo = body_start(p);
    if hi <= lo || hi > p.len() {
    } else {
        lemma_last_sep(p, lo, hi);
        let k = last_sep(p, lo, hi);
        let cut = if k >= lo { k } else { lo };
        if lo <= cut < hi && skipped_piece(p.subrange(k + 1, hi)) {
            lemma_trim_back(p, cut);
        }
    }
}

/// A parent is strictly shorter than its path.
pub proof fn lemma_parent_shorter(p: Seq<char>)
    ensures
        parent(p) matches Some(q) ==> q.len() < p.len(),
{
    lemma_last_comp_bounds(p, p.len() as int);
    match last_comp(p, p.len() as int) {
        Some((s, e, cut)) => {
            lemma_trim_back(p, cut);
        },
        None => {},
    }
}

pub proof fn lemma_last_comp_bounds(p: Seq<char>, hi: int)
    requires
        0 <= hi <= p.len(),
    ensures
        last_comp(p, hi) matches Some((s, e, cut)) ==> body_start(p) <= cut < e && cut <= s < e
            && e <= hi && e <= p.len(),
    decreases hi,
{
    let lo = body_start(p);
    if hi <= lo || hi > p.len() {
    } else {
        lemma_last_sep(p, lo, hi);
        let k = last_sep(p, lo, hi);
        let cut = if k >= lo { k } else { lo };
        if lo <= cut < hi {
            if skipped_piece(p.subrange(k + 1, hi)) {
                lemma_last_comp_bounds(p, cut);
                assert(last_comp(p, hi) == last_comp(p, cut));
            }
        }
    }
}

} // verus!

verus! {

fn body_start_exec(v: &Vec<char>) -> (r: usize)
    ensures
        r as int == body_start(v@),
        r <= v.len(),
{
    if v.len() > 0 && v[0] == '/' {
        1
    } else if v.len() > 0 && v[0] == '.' && (v.len() == 1 || v[1] == '/') {
        1
    } else {
        0
    }
}

fn last_sep_exec(v: &Vec<char>, lo: usize, hi: usize) -> (r: Option<usize>)
    requires
        lo <= hi <= v.len(),
    ensures
        r matches Some(k) ==> k as int == last_sep(v@, lo as int, hi as int) && lo <= k < hi,
        r is None ==> last_sep(v@, lo as int, hi as int) == lo - 1,
{
    let mut h = hi;
    while h > lo
        invariant
            lo <= h <= hi <= v.len(),
            last_sep(v@, lo as int, h as int) == last_sep(v@, lo as int, hi as int),
        decreases h - lo,
    {
        if v[h - 1] == '/' {
            return Some(h - 1);
        }
        h = h - 1;
    }
    None
}

/// Whether `v[a..b]` is empty or a single `.`.
fn skipped_exec(v: &Vec<char>, a: usize, b: usize) -> (r: bool)
    requires
        a <= b <= v.len(),
    ensures
        r == skipped_piece(v@.subrange(a as int, b as int)),
{
    if a == b {
        return true;
    }
    if b - a == 1 && v[a] == '.' {
        assert(v@.subrange(a as int, b as int) =~= seq!['.']);
        return true;
    }
    if b - a == 1 {
        assert(v@.subrange(a as int, b as int)[0] != '.');
    }
    false
}

fn last_comp_exec(v: &Vec<char>, hi: usize) -> (r: Option<(usize, usize, usize)>)
    requires
        hi <= v.len(),
    ensures
        r matches Some((s, e, c)) ==> last_comp(v@, hi as int) == Some((s as int, e as int, c as int)),
        r is None ==> last_comp(v@, hi as int) is None,
{
    let lo = body_start_exec(v);
    let mut h = hi;
    loop
        invariant
            lo as int == body_start(v@),
            h <= hi <= v.len(),
            last_comp(v@, h as int) == last_comp(v@, hi as int),
        decreases h,
    {
        if h <= lo {
            return None;
        }
        proof {
            lemma_last_sep(v@, lo as int, h as int);
        }
        let (start, cut) = match last_sep_exec(v, lo, h) {
            Some(k) => (k + 1, k),
            None => (lo, lo),
        };
        if skipped_exec(v, start, h) {
            h = cut;
        } else {
            return Some((start, h, cut));
        }
    }
}

fn trim_back_exec(v: &Vec<char>, hi: usize) -> (r: usize)
    requires
        hi <= v.len(),
    ensures
        r as int == trim_back(v@, hi as int),
        r <= hi,
{
    let lo = body_start_exec(v);
    let mut h = hi;
    loop
        invariant
            lo as int == body_start(v@),
            h <= hi <= v.len(),
            trim_back(v@, h as int) == trim_back(v@, hi as int),
        decreases h,
    {
        if h <= lo {
            return h;
        }
        proof {
            lemma_last_sep(v@, lo as int, h as int);
        }
        let (start, cut) = match last_sep_exec(v, lo, h) {
            Some(k) => (k + 1, k),
            None => (lo, lo),
        };
        if skipped_exec(v, start, h) {
            h = cut;
        } else {
            return h;
        }
    }
}

/// The parent directory of a path (`Path::parent`).
pub fn parent_path(p: &str) -> (r: Option<String>)
    ensures
        r matches Some(q) ==> parent(p@) == Some(q@),
        r is None ==> parent(p@) is None,
{
    let v = chars_of(p);
    proof {
        lemma_last_comp_bounds(v@, v.len() as int);
    }
    match last_comp_exec(&v, v.len()) {
        Some((_s, _e, cut)) => {
            let t = trim_back_exec(&v, cut);
            Some(crate::text::string_of(&v, 0, t))
        },
        None => {
            let lo = body_start_exec(&v);
            if lo == 1 && !(v.len() > 0 && v[0] == '/') {
                Some(String::new())
            } else {
                None
            }
        },
    }
}

/// The final component of a path, unless it is `..` (`Path::file_name`).
pub fn file_name_of(p: &str) -> (r: Option<String>)
    ensures
        r matches Some(q) ==> file_name(p@) == Some(q@),
        r is None ==> file_name(p@) is None,
{
    let v = chars_of(p);
    proof {
        lemma_last_comp_bounds(v@, v.len() as int);
    }
    match last_comp_exec(&v, v.len()) {
        Some((s, e, _cut)) => {
            if e - s == 2 && v[s] == '.' && v[s + 1] == '.' {
                assert(v@.subrange(s as int, e as int) =~= seq!['.', '.']);
                None
            } else {
                proof {
                    assert(seq!['.', '.'].len() == 2);
                    assert(seq!['.', '.'][0] == '.' && seq!['.', '.'][1] == '.');
                    if e - s == 2 {
                        assert(v@.subrange(s as int, e as int)[0] == v@[s as int]);
                        assert(v@.subrange(s as int, e as int)[1] == v@[s + 1]);
                    }
                }
                Some(crate::text::string_of(&v, s, e))
            }
        },
        None => None,
    }
}

/// The path and each of its successive parents, ending with the last one
/// that has no parent.
pub open spec fn ancestors(p: Seq<char>) -> Seq<Seq<char>>
    decreases p.len(),
{
    match parent(p) {
        Some(q) => if q.len() < p.len() {
            seq![p] + ancestors(q)
        } else {
            seq![p]
        },
        None => seq![p],
    }
}

/// The directories from `start` up to the root (`start` first).
pub fn ancestor_dirs(start: &str) -> (r: Vec<String>)
    ensures
        crate::text::strs(r@) == ancestors(start@),
{
    let mut out: Vec<String> = Vec::new();
    let mut cur = start.to_owned();
    loop
        invariant
            crate::text::strs(out@) + ancestors(cur@) == ancestors(start@),
        decreases cur@.len(),
    {
        proof {
            lemma_parent_shorter(cur@);
        }
        let ghost before = out@;
        let ghost c = cur@;
        let next = parent_path(cur.as_str());
        out.push(cur);
        assert(crate::text::strs(out@) =~= crate::text::strs(before).push(c));
        match next {
            Some(q) => {
                assert(ancestors(c) == seq![c] + ancestors(q@));
                assert(crate::text::strs(out@) + ancestors(q@) =~= crate::text::strs(before) + ancestors(c));
                cur = q;
            },
            None => {
                assert(crate::text::strs(out@) =~= crate::text::strs(before) + ancestors(c));
                return out;
            },
        }
    }
}

} // verus!
