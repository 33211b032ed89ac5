//! The machine-local registry of known projects.
//!
//! The registry maps stable project IDs to on-disk locations. Portable,
//! shareable project settings live in each project's `.molt.toml` manifest.

use vstd::prelude::*;
use vstd::utf8::encode_utf8;

use crate::domain::{opt_view, BackendKind};
use crate::text::{chars_of, to_ascii_lower, ascii_lower_exec, string_of};

verus! {

/// One registered project.
#[derive(Debug, Clone)]
pub struct ProjectEntry {
    /// Stable identifier derived from the canonical path.
    pub id: String,
    /// Human-friendly name.
    pub name: String,
    /// Absolute path to the project root.
    pub path: String,
    /// Backend override for this project.
    pub backend: Option<BackendKind>,
    /// Name of the default environment.
    pub default_env: Option<String>,
    /// When the project was added (RFC 3339 string).
    pub added: String,
}

/// The mathematical model of a [`ProjectEntry`].
pub struct EntryView {
    pub id: Seq<char>,
    pub name: Seq<char>,
    pub path: Seq<char>,
    pub backend: Option<BackendKind>,
    pub default_env: Option<Seq<char>>,
    pub added: Seq<char>,
}

impl View for ProjectEntry {
    type V = EntryView;

    open spec fn view(&self) -> EntryView {
        EntryView {
            id: self.id@,
            name: self.name@,
            path: self.path@,
            backend: self.backend,
            default_env: opt_view(self.default_env),
            added: self.added@,
        }
    }
}

impl ProjectEntry {
    /// An owned copy with the same view.
    pub fn copied(&self) -> (r: ProjectEntry)
        ensures
            r@ == self@,
    {
        ProjectEntry {
            id: self.id.clone(),
            name: self.name.clone(),
            path: self.path.clone(),
            backend: self.backend,
            default_env: crate::domain::copy_opt(&self.default_env),
            added: self.added.clone(),
        }
    }
}

/// The persisted registry document.
#[derive(Debug, Clone)]
pub struct Registry {
    pub projects: Vec<ProjectEntry>,
}

/// The models of a list of entries.
pub open spec fn entries(v: Seq<ProjectEntry>) -> Seq<EntryView> {
    v.map_values(|e: ProjectEntry| e@)
}

impl View for Registry {
    type V = Seq<EntryView>;

    open spec fn view(&self) -> Seq<EntryView> {
        entries(self.projects@)
    }
}

/// The first position at or after `i` of an entry with id `id`.
pub open spec fn index_of_id_from(s: Seq<EntryView>, id: Seq<char>, i: int) -> Option<int>
    decreases s.len() - i,
{
    if i < 0 || i >= s.len() {
        None
    } else if s[i].id == id {
        Some(i)
    } else {
        index_of_id_from(s, id, i + 1)
    }
}

/// The position of the first entry with id `id`.
pub open spec fn index_of_id(s: Seq<EntryView>, id: Seq<char>) -> Option<int> {
    index_of_id_from(s, id, 0)
}

/// The first position at or after `i` of an entry named `name`, ignoring
/// ASCII case.
pub open spec fn index_of_name_from(s: Seq<EntryView>, name: Seq<char>, i: int) -> Option<int>
    decreases s.len() - i,
{
    if i < 0 || i >= s.len() {
        None
    } else if to_ascii_lower(s[i].name) == to_ascii_lower(name) {
        Some(i)
    } else {
        index_of_name_from(s, name, i + 1)
    }
}

/// The first position at or after `i` whose canonical path equals `target`.
pub open spec fn index_of_path_from(canon: Seq<Seq<char>>, target: Seq<char>, i: int) -> Option<int>
    decreases canon.len() - i,
{
    if i < 0 || i >= canon.len() {
        None
    } else if canon[i] == target {
        Some(i)
    } else {
        index_of_path_from(canon, target, i + 1)
    }
}

/// The registry after storing `e`, whose path has the canonical form
/// `target`, given the canonical path of every entry: `e` replaces the first
/// entry at the same canonical path, or is added at the end.
pub open spec fn spec_upsert(
    s: Seq<EntryView>,
    canon: Seq<Seq<char>>,
    target: Seq<char>,
    e: EntryView,
) -> Seq<EntryView> {
    match index_of_path_from(canon, target, 0) {
        Some(i) => s.update(i, e),
        None => s.push(e),
    }
}

/// The canonical paths of the entries after the same upsert.
pub open spec fn upserted_paths(canon: Seq<Seq<char>>, target: Seq<char>) -> Seq<Seq<char>> {
    match index_of_path_from(canon, target, 0) {
        Some(_) => canon,
        None => canon.push(target),
    }
}

/// No two entries share a canonical path.
pub open spec fn paths_unique(canon: Seq<Seq<char>>) -> bool {
    forall|i: int, j: int| 0 <= i < j < canon.len() ==> #[trigger] canon[i] != #[trigger] canon[j]
}

pub proof fn lemma_index_of_path_from(canon: Seq<Seq<char>>, t: Seq<char>, i: int)
    requires
        0 <= i,
    ensures
        index_of_path_from(canon, t, i) matches Some(j) ==> i <= j < canon.len() && canon[j] == t
            && forall|k: int| i <= k < j ==> canon[k] != t,
        index_of_path_from(canon, t, i) is None ==> forall|k: int| i <= k < canon.len() ==> canon[k] != t,
    decreases canon.len() - i,
{
    if i < canon.len() && canon[i] != t {
        lemma_index_of_path_from(canon, t, i + 1);
    }
}

/// The registry after removing the first entry with id `id`.
pub open spec fn spec_remove(s: Seq<EntryView>, id: Seq<char>) -> Seq<EntryView> {
    match index_of_id(s, id) {
        Some(i) => s.remove(i),
        None => s,
    }
}

/// Every id occurs at most once.
pub open spec fn ids_unique(s: Seq<EntryView>) -> bool {
    forall|i: int, j: int| 0 <= i < j < s.len() ==> #[trigger] s[i].id != #[trigger] s[j].id
}

pub proof fn lemma_index_of_id_from(s: Seq<EntryView>, id: Seq<char>, i: int)
    requires
        0 <= i,
    ensures
        index_of_id_from(s, id, i) matches Some(j) ==> i <= j < s.len() && s[j].id == id
            && forall|k: int| i <= k < j ==> s[k].id != id,
        index_of_id_from(s, id, i) is None ==> forall|k: int| i <= k < s.len() ==> s[k].id != id,
    decreases s.len() - i,
{
    if i < s.len() && s[i].id != id {
        lemma_index_of_id_from(s, id, i + 1);
    }
}

/// Whether the ASCII-lower-cased forms of two strings are equal
/// (`str::eq_ignore_ascii_case`).
pub fn eq_ignore_ascii_case(a: &str, b: &str) -> (r: bool)
    ensures
        r == (to_ascii_lower(a@) == to_ascii_lower(b@)),
{
    let x = chars_of(a);
    let y = chars_of(b);
    if x.len() != y.len() {
        assert(to_ascii_lower(a@).len() != to_ascii_lower(b@).len());
        return false;
    }
    let mut k: usize = 0;
    while k < x.len()
        invariant
            x@ == a@,
            y@ == b@,
            x.len() == y.len(),
            k <= x.len(),
            forall|j: int| 0 <= j < k ==> to_ascii_lower(x@)[j] == to_ascii_lower(y@)[j],
        decreases x.len() - k,
    {
        if ascii_lower_exec(x[k]) != ascii_lower_exec(y[k]) {
            assert(to_ascii_lower(x@)[k as int] != to_ascii_lower(y@)[k as int]);
            return false;
        }
        k = k + 1;
    }
    assert(to_ascii_lower(a@) =~= to_ascii_lower(b@));
    true
}

impl Registry {
    /// Find a project by its stable id.
    pub fn find_by_id(&self, id: &str) -> (r: Option<&ProjectEntry>)
        ensures
            index_of_id(self@, id@) is None ==> r is None,
            index_of_id(self@, id@) matches Some(i) ==> (r matches Some(e) && e@ == self@[i]),
    {
        let mut i: usize = 0;
        while i < self.projects.len()
            invariant
                i <= self.projects.len(),
                index_of_id(self@, id@) == index_of_id_from(self@, id@, i as int),
            decreases self.projects.len() - i,
        {
            if crate::text::str_eq(self.projects[i].id.as_str(), id) {
                assert(self@[i as int].id == id@);
                return Some(&self.projects[i]);
            }
            assert(self@[i as int].id != id@);
            i = i + 1;
        }
        None
    }

    /// Find a project whose canonical path equals `target` (itself canonical);
    /// `canonical[i]` is the canonical form of the `i`-th project's path.
    pub fn find_by_path(&self, target: &str, canonical: &Vec<String>) -> (r: Option<&ProjectEntry>)
        requires
            canonical.len() == self.projects.len(),
        ensures
            index_of_path_from(crate::text::strs(canonical@), target@, 0) is None ==> r is None,
            index_of_path_from(crate::text::strs(canonical@), target@, 0) matches Some(i) ==> (
            r matches Some(e) && e@ == self@[i]),
    {
        let ghost canon = crate::text::strs(canonical@);
        let mut i: usize = 0;
        while i < self.projects.len()
            invariant
                canon == crate::text::strs(canonical@),
                canonical.len() == self.projects.len(),
                i <= self.projects.len(),
                index_of_path_from(canon, target@, 0) == index_of_path_from(canon, target@, i as int),
            decreases self.projects.len() - i,
        {
            if crate::text::str_eq(canonical[i].as_str(), target) {
                return Some(&self.projects[i]);
            }
            i = i + 1;
        }
        None
    }

    /// Find a project by name, ignoring ASCII case.
    pub fn find_by_name(&self, name: &str) -> (r: Option<&ProjectEntry>)
        ensures
            index_of_name_from(self@, name@, 0) is None ==> r is None,
            index_of_name_from(self@, name@, 0) matches Some(i) ==> (r matches Some(e) && e@
                == self@[i]),
    {
        let mut i: usize = 0;
        while i < self.projects.len()
            invariant
                i <= self.projects.len(),
                index_of_name_from(self@, name@, 0) == index_of_name_from(self@, name@, i as int),
            decreases self.projects.len() - i,
        {
            if eq_ignore_ascii_case(self.projects[i].name.as_str(), name) {
                return Some(&self.projects[i]);
            }
            i = i + 1;
        }
        None
    }

    /// The position of the first entry with id `id`.
    fn position_of(&self, id: &str) -> (r: Option<usize>)
        ensures
            index_of_id(self@, id@) is None ==> r is None,
            index_of_id(self@, id@) matches Some(i) ==> r == Some(i as usize),
    {
        let mut i: usize = 0;
        while i < self.projects.len()
            invariant
                i <= self.projects.len(),
                index_of_id(self@, id@) == index_of_id_from(self@, id@, i as int),
            decreases self.projects.len() - i,
        {
            if crate::text::str_eq(self.projects[i].id.as_str(), id) {
                assert(self@[i as int].id == id@);
                return Some(i);
            }
            assert(self@[i as int].id != id@);
            i = i + 1;
        }
        None
    }

    /// Insert a new entry or update the existing one with the same path:
    /// `canonical[i]` is the canonical form of the `i`-th project's path and
    /// `target` that of the entry's path.
    pub fn upsert(&mut self, entry: ProjectEntry, canonical: &Vec<String>, target: &str)
        requires
            canonical.len() == old(self).projects.len(),
        ensures
            final(self)@ == spec_upsert(old(self)@, crate::text::strs(canonical@), target@, entry@),
    {
        let ghost canon = crate::text::strs(canonical@);
        proof {
            lemma_index_of_path_from(canon, target@, 0);
        }
        let mut i: usize = 0;
        let mut found: Option<usize> = None;
        while i < canonical.len()
            invariant
                canon == crate::text::strs(canonical@),
                canonical.len() == self.projects.len(),
                self@ == old(self)@,
                i <= canonical.len(),
                found matches Some(k) ==> k < canonical.len() && index_of_path_from(canon, target@, 0)
                    == Some(k as int),
                found is None ==> index_of_path_from(canon, target@, 0) == index_of_path_from(
                    canon,
                    target@,
                    i as int,
                ),
            decreases canonical.len() - i,
        {
            if found.is_none() && crate::text::str_eq(canonical[i].as_str(), target) {
                found = Some(i);
            }
            i = i + 1;
        }
        match found {
            Some(k) => {
                let ghost e = entry@;
                self.projects.set(k, entry);
                assert(self@ =~= old(self)@.update(k as int, e));
            },
            None => {
                let ghost e = entry@;
                self.projects.push(entry);
                assert(self@ =~= old(self)@.push(e));
            },
        }
    }

    /// Remove a project by id, returning it if present.
    pub fn remove(&mut self, id: &str) -> (r: Option<ProjectEntry>)
        ensures
            final(self)@ == spec_remove(old(self)@, id@),
            index_of_id(old(self)@, id@) is None ==> r is None,
            index_of_id(old(self)@, id@) matches Some(i) ==> (r matches Some(e) && e@ == old(
                self,
            )@[i]),
    {
        proof {
            lemma_index_of_id_from(self@, id@, 0);
        }
        match self.position_of(id) {
            Some(i) => {
                let e = self.projects.remove(i);
                assert(self@ =~= old(self)@.remove(i as int));
                Some(e)
            },
            None => None,
        }
    }
}

} // verus!

verus! {

/// The FNV-1a offset basis.
pub open spec fn fnv_basis() -> u64 {
    0xcbf29ce484222325
}

/// The FNV-1a prime.
pub open spec fn fnv_prime() -> u64 {
    0x00000100000001B3
}

/// One FNV-1a step: xor the byte in, then multiply modulo 2^64.
pub open spec fn fnv_step(h: u64, b: u8) -> u64 {
    (((h ^ (b as u64)) as nat * fnv_prime() as nat) % 0x1_0000_0000_0000_0000) as u64
}

/// The FNV-1a hash of `bytes`.
pub open spec fn fnv1a(bytes: Seq<u8>) -> u64
    decreases bytes.len(),
{
    if bytes.len() == 0 {
        fnv_basis()
    } else {
        fnv_step(fnv1a(bytes.drop_last()), bytes.last())
    }
}

/// The lower-case hex digit for `d < 16`.
pub open spec fn hex_char(d: nat) -> char {
    if d < 10 {
        (('0' as u32) + d) as char
    } else {
        (('a' as u32) + (d - 10)) as char
    }
}

/// The lower-case hexadecimal digits of `n` (no leading zeros; `0` for zero).
pub open spec fn hex_string(n: nat) -> Seq<char>
    decreases n,
{
    if n < 16 {
        seq![hex_char(n)]
    } else {
        hex_string(n / 16).push(hex_char(n % 16))
    }
}

/// `s` left-padded with `0` to at least `w` characters.
pub open spec fn zero_pad(s: Seq<char>, w: nat) -> Seq<char> {
    if s.len() < w {
        Seq::new((w - s.len()) as nat, |i: int| '0') + s
    } else {
        s
    }
}

/// The id of a project at canonical path `path`: the first 8 characters of
/// the FNV-1a hash of its UTF-8 bytes, printed as at least 12 lower-case hex
/// digits.
pub open spec fn spec_project_id(path: Seq<char>) -> Seq<char> {
    zero_pad(hex_string(fnv1a(encode_utf8(path)) as nat), 12).take(8)
}

fn hex_char_exec(d: u64) -> (c: char)
    requires
        d < 16,
    ensures
        c == hex_char(d as nat),
{
    if d < 10 {
        ((d as u8) + 48) as char
    } else {
        ((d as u8) + 87) as char
    }
}

proof fn lemma_hex_len(n: nat)
    requires
        n < 0x1_0000_0000_0000_0000,
    ensures
        1 <= hex_string(n).len() <= 16,
{
    reveal_with_fuel(pow16, 17);
    assert(pow16(16) == 0x1_0000_0000_0000_0000);
    lemma_hex_len_bound(n, 16);
}

proof fn lemma_hex_len_bound(n: nat, k: nat)
    requires
        n < pow16(k),
    ensures
        hex_string(n).len() <= if k == 0 { 1 } else { k },
    decreases n,
{
    if n >= 16 {
        assert(k >= 2) by {
            if k <= 1 {
                assert(pow16(0) == 1);
                assert(pow16(1) == 16) by {
                    assert(pow16(1) == 16 * pow16(0));
                }
            }
        }
        assert(n / 16 < pow16((k - 1) as nat)) by {
            assert(pow16(k) == 16 * pow16((k - 1) as nat));
        }
        lemma_hex_len_bound(n / 16, (k - 1) as nat);
    }
}

/// 16 to the power `k`.
pub open spec fn pow16(k: nat) -> nat
    decreases k,
{
    if k == 0 {
        1
    } else {
        16 * pow16((k - 1) as nat)
    }
}

fn hex_of(n: u64) -> (v: Vec<char>)
    ensures
        v@ == hex_string(n as nat),
    decreases n,
{
    if n < 16 {
        vec![hex_char_exec(n)]
    } else {
        let mut v = hex_of(n / 16);
        v.push(hex_char_exec(n % 16));
        v
    }
}

/// Derive a short, stable id from a canonical path using an FNV-1a hash.
pub fn project_id(canonical: &str) -> (r: String)
    ensures
        r@ == spec_project_id(canonical@),
{
    let bytes = canonical.as_bytes();
    let mut hash: u64 = 0xcbf29ce484222325;
    let mut i: usize = 0;
    while i < bytes.len()
        invariant
            bytes@ == encode_utf8(canonical@),
            i <= bytes.len(),
            hash == fnv1a(bytes@.take(i as int)),
        decreases bytes.len() - i,
    {
        assert(bytes@.take(i + 1).drop_last() =~= bytes@.take(i as int));
        hash = hash ^ (bytes[i] as u64);
        hash = hash.wrapping_mul(0x00000100000001B3);
        i = i + 1;
    }
    assert(bytes@.take(bytes.len() as int) =~= bytes@);
    let digits = hex_of(hash);
    proof {
        lemma_hex_len(hash as nat);
    }
    let mut padded: Vec<char> = Vec::new();
    let mut z: usize = 0;
    let zeros: usize = if digits.len() < 12 {
        12 - digits.len()
    } else {
        0
    };
    while z < zeros
        invariant
            z <= zeros,
            padded@ == Seq::new(z as nat, |i: int| '0'),
        decreases zeros - z,
    {
        padded.push('0');
        assert(padded@ =~= Seq::new((z + 1) as nat, |i: int| '0'));
        z = z + 1;
    }
    let mut k: usize = 0;
    let ghost pre = padded@;
    while k < digits.len()
        invariant
            k <= digits.len(),
            padded@ == pre + digits@.take(k as int),
        decreases digits.len() - k,
    {
        padded.push(digits[k]);
        assert(digits@.take(k + 1) =~= digits@.take(k as int).push(digits@[k as int]));
        k = k + 1;
    }
    assert(digits@.take(digits.len() as int) =~= digits@);
    assert(padded@ =~= zero_pad(hex_string(hash as nat), 12));
    crate::text::string_of(&padded, 0, 8)
}

} // verus!

verus! {

/// The first entry with id `id` at or after `j` is the one at `i` when
/// none of `j..i` has that id.
proof fn lemma_first_id(s: Seq<EntryView>, id: Seq<char>, j: int, i: int)
    requires
        0 <= j <= i < s.len(),
        s[i].id == id,
        forall|k: int| j <= k < i ==> s[k].id != id,
    ensures
        index_of_id_from(s, id, j) == Some(i),
    decreases i - j,
{
    if j < i {
        lemma_first_id(s, id, j + 1, i);
    }
}

/// No entry has id `id` exactly when looking it up finds nothing.
proof fn lemma_no_id(s: Seq<EntryView>, id: Seq<char>)
    requires
        forall|k: int| 0 <= k < s.len() ==> s[k].id != id,
    ensures
        index_of_id(s, id) is None,
{
    lemma_index_of_id_from(s, id, 0);
}

/// The first entry at canonical path `t` at or after `j` is the one at `i`
/// when none of `j..i` is at that path.
proof fn lemma_first_path(canon: Seq<Seq<char>>, t: Seq<char>, j: int, i: int)
    requires
        0 <= j <= i < canon.len(),
        canon[i] == t,
        forall|k: int| j <= k < i ==> canon[k] != t,
    ensures
        index_of_path_from(canon, t, j) == Some(i),
    decreases i - j,
{
    if j < i {
        lemma_first_path(canon, t, j + 1, i);
    }
}

/// After an upsert, looking up the entry's canonical path finds exactly that
/// entry, and the registry and its paths still line up.
pub proof fn law_upsert_then_find(s: Seq<EntryView>, canon: Seq<Seq<char>>, target: Seq<char>, e: EntryView)
    requires
        canon.len() == s.len(),
    ensures
        spec_upsert(s, canon, target, e).len() == upserted_paths(canon, target).len(),
        index_of_path_from(upserted_paths(canon, target), target, 0) matches Some(i) && spec_upsert(
            s,
            canon,
            target,
            e,
        )[i] == e,
{
    lemma_index_of_path_from(canon, target, 0);
    if index_of_path_from(canon, target, 0) is None {
        let c = canon.push(target);
        assert forall|k: int| 0 <= k < canon.len() implies c[k] != target by {
            assert(c[k] == canon[k]);
        }
        lemma_first_path(c, target, 0, canon.len() as int);
    }
}

/// Upserting the same entry at the same path twice is the same as once.
pub proof fn law_upsert_idempotent(s: Seq<EntryView>, canon: Seq<Seq<char>>, target: Seq<char>, e: EntryView)
    requires
        canon.len() == s.len(),
    ensures
        spec_upsert(spec_upsert(s, canon, target, e), upserted_paths(canon, target), target, e)
            == spec_upsert(s, canon, target, e),
{
    law_upsert_then_find(s, canon, target, e);
    let u = spec_upsert(s, canon, target, e);
    let c = upserted_paths(canon, target);
    lemma_index_of_path_from(c, target, 0);
    if let Some(i) = index_of_path_from(c, target, 0) {
        assert(u[i] == e);
        assert(u.update(i, e) =~= u);
    }
}

/// An upsert keeps canonical paths unique.
pub proof fn law_upsert_keeps_paths_unique(canon: Seq<Seq<char>>, target: Seq<char>)
    requires
        paths_unique(canon),
    ensures
        paths_unique(upserted_paths(canon, target)),
{
    lemma_index_of_path_from(canon, target, 0);
    let c = upserted_paths(canon, target);
    assert forall|i: int, j: int| 0 <= i < j < c.len() implies #[trigger] c[i] != #[trigger] c[j] by {
        if j == canon.len() {
            assert(c[i] == canon[i]);
        } else {
            assert(c[i] == canon[i] && c[j] == canon[j]);
        }
    }
}

/// A removal keeps ids unique.
pub proof fn law_remove_keeps_ids_unique(s: Seq<EntryView>, id: Seq<char>)
    requires
        ids_unique(s),
    ensures
        ids_unique(spec_remove(s, id)),
{
    let r = spec_remove(s, id);
    if let Some(p) = index_of_id(s, id) {
        lemma_index_of_id_from(s, id, 0);
        assert forall|i: int, j: int| 0 <= i < j < r.len() implies #[trigger] r[i].id != #[trigger] r[j].id by {
            let a = if i < p { i } else { i + 1 };
            let b = if j < p { j } else { j + 1 };
            assert(r[i] == s[a] && r[j] == s[b]);
        }
    }
}

/// Removing a project that was just registered at a new path under a new
/// id gives back the registry as it was.
pub proof fn law_remove_undoes_insert(s: Seq<EntryView>, canon: Seq<Seq<char>>, target: Seq<char>, e: EntryView)
    requires
        canon.len() == s.len(),
        index_of_path_from(canon, target, 0) is None,
        index_of_id(s, e.id) is None,
    ensures
        spec_remove(spec_upsert(s, canon, target, e), e.id) == s,
{
    lemma_index_of_id_from(s, e.id, 0);
    let u = s.push(e);
    assert forall|k: int| 0 <= k < s.len() implies u[k].id != e.id by {
        assert(u[k] == s[k]);
    }
    lemma_first_id(u, e.id, 0, s.len() as int);
    assert(u.remove(s.len() as int) =~= s);
}

/// Once removed from a registry with unique ids, an id is no longer found.
pub proof fn law_remove_forgets(s: Seq<EntryView>, id: Seq<char>)
    requires
        ids_unique(s),
    ensures
        index_of_id(spec_remove(s, id), id) is None,
{
    lemma_index_of_id_from(s, id, 0);
    let r = spec_remove(s, id);
    if let Some(p) = index_of_id(s, id) {
        assert forall|k: int| 0 <= k < r.len() implies r[k].id != id by {
            let a = if k < p { k } else { k + 1 };
            assert(r[k] == s[a]);
            assert(s[a].id != s[p].id);
        }
    }
    lemma_no_id(r, id);
}

/// A project id is always eight characters long.
pub proof fn law_project_id_len(path: Seq<char>)
    ensures
        spec_project_id(path).len() == 8,
{
    let h = hex_string(fnv1a(encode_utf8(path)) as nat);
    assert(zero_pad(h, 12).len() >= 12);
}

} // verus!

verus! {

/// Registering a project again at the same path replaces its entry: the
/// registry keeps one entry for it, and that entry is the newest.
pub proof fn law_reimport_keeps_one_entry(
    s: Seq<EntryView>,
    canon: Seq<Seq<char>>,
    target: Seq<char>,
    first: EntryView,
    again: EntryView,
)
    requires
        canon.len() == s.len(),
    ensures
        upserted_paths(upserted_paths(canon, target), target) == upserted_paths(canon, target),
        spec_upsert(spec_upsert(s, canon, target, first), upserted_paths(canon, target), target, again).len()
            == spec_upsert(s, canon, target, first).len(),
        index_of_path_from(upserted_paths(canon, target), target, 0) matches Some(i) && spec_upsert(
            spec_upsert(s, canon, target, first),
            upserted_paths(canon, target),
            target,
            again,
        )[i] == again,
{
    law_upsert_then_find(s, canon, target, first);
    let u = spec_upsert(s, canon, target, first);
    let c = upserted_paths(canon, target);
    law_upsert_then_find(u, c, target, again);
    lemma_index_of_path_from(c, target, 0);
}

} // verus!
