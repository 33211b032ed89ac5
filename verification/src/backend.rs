//! Environment and package backends.
//!
//! A [`Backend`] abstracts the concrete tool used to create environments and
//! manage packages. Two implementations are provided: [`UvBackend`] (fast,
//! preferred) and [`VenvBackend`] (the standard library `venv` + `pip`).
//! Backends build [`PlannedCommand`]s so callers control how commands run.

use vstd::prelude::*;

use crate::config::{spec_forced, BackendPreference};
use crate::domain::{BackendKind, Package};
use crate::paths::{join_path, spec_bin_dir, spec_python_exe};
use crate::runner::{command_of, with_args, CapturedOutput, CommandView, PlannedCommand};
use crate::text::{
    chars_of, find_lit, lines, line_ranges, owned, split_once, starts_with, starts_with_lit,
    string_of, strs, trim, trim_range, trimmed_vec,
};

verus! {

/// The directory containing the environment's executables.
pub fn bin_dir(env: &str) -> (r: String)
    ensures
        r@ == spec_bin_dir(env@),
{
    join_path(env, "bin")
}

/// The Python interpreter inside an environment.
pub fn python_exe(env: &str) -> (r: String)
    ensures
        r@ == spec_python_exe(env@),
{
    let b = bin_dir(env);
    join_path(b.as_str(), "python")
}

/// Why a backend could not be chosen or could not report packages.
#[derive(Debug, Clone)]
pub enum BackendError {
    /// The `uv` backend was requested but `uv` is not on PATH.
    UvUnavailable,
    /// Listing packages failed; holds the trimmed error output.
    ListFailed(String),
}

/// The views of optional string arguments.
pub open spec fn opt_str(o: Option<&str>) -> Option<Seq<char>> {
    match o {
        Some(s) => Some(s@),
        None => None,
    }
}

/// The views of a list of commands.
pub open spec fn commands(v: Seq<PlannedCommand>) -> Seq<CommandView> {
    v.map_values(|c: PlannedCommand| c@)
}

/// Common behaviour of an environment/package backend.
pub trait Backend {
    /// The kind of this backend.
    spec fn spec_kind(&self) -> BackendKind;

    /// The commands that create an environment at `path`.
    spec fn spec_create_env(&self, path: Seq<char>, python: Option<Seq<char>>) -> Seq<CommandView>;

    /// The command that installs from a requirements file.
    spec fn spec_install_requirements(&self, env: Seq<char>, file: Seq<char>) -> CommandView;

    /// The command that installs packages.
    spec fn spec_install_packages(&self, env: Seq<char>, packages: Seq<Seq<char>>) -> CommandView;

    /// The command that uninstalls packages.
    spec fn spec_uninstall_packages(&self, env: Seq<char>, packages: Seq<Seq<char>>) -> CommandView;

    /// The command that lists installed packages in `pip freeze` format.
    spec fn spec_freeze(&self, env: Seq<char>) -> CommandView;

    /// Which backend this is.
    fn kind(&self) -> (k: BackendKind)
        ensures
            k == self.spec_kind(),
    ;

    /// Build the command(s) to create an environment at `path`.
    fn create_env(&self, path: &str, python: Option<&str>) -> (r: Result<Vec<PlannedCommand>, BackendError>)
        ensures
            r matches Ok(v) && commands(v@) == self.spec_create_env(path@, opt_str(python)),
    ;

    /// Build the command to install from a requirements file.
    fn install_requirements(&self, env: &str, file: &str) -> (c: PlannedCommand)
        ensures
            c@ == self.spec_install_requirements(env@, file@),
    ;

    /// Build the command to install the given packages.
    fn install_packages(&self, env: &str, packages: &[String]) -> (c: PlannedCommand)
        ensures
            c@ == self.spec_install_packages(env@, strs(packages@)),
    ;

    /// Build the command to uninstall the given packages.
    fn uninstall_packages(&self, env: &str, packages: &[String]) -> (c: PlannedCommand)
        ensures
            c@ == self.spec_uninstall_packages(env@, strs(packages@)),
    ;

    /// Build the command that lists the environment's packages.
    fn freeze(&self, env: &str) -> (c: PlannedCommand)
        ensures
            c@ == self.spec_freeze(env@),
    ;
}

/// An owned copy of a slice of strings.
pub fn to_owned_strings(v: &[String]) -> (r: Vec<String>)
    ensures
        strs(r@) == strs(v@),
{
    let mut r: Vec<String> = Vec::new();
    let mut i: usize = 0;
    while i < v.len()
        invariant
            i <= v.len(),
            strs(r@) == strs(v@.take(i as int)),
        decreases v.len() - i,
    {
        let ghost prev = r@;
        r.push(v[i].clone());
        assert(strs(r@) =~= strs(prev).push(v@[i as int]@));
        assert(strs(v@.take(i + 1)) =~= strs(v@.take(i as int)).push(v@[i as int]@));
        i = i + 1;
    }
    assert(v@.take(v.len() as int) =~= v@);
    r
}

/// `uv pip <sub> --python <env python>`.
pub open spec fn uv_pip(sub: Seq<char>, env: Seq<char>) -> CommandView {
    with_args(command_of("uv"@), seq!["pip"@, sub, "--python"@, spec_python_exe(env)])
}

/// `<env python> -m pip <args>`.
pub open spec fn env_pip(env: Seq<char>, args: Seq<Seq<char>>) -> CommandView {
    with_args(command_of(spec_python_exe(env)), seq!["-m"@, "pip"@] + args)
}

/// The commands a backend of `kind` (bootstrapping with `base`) runs to
/// create an environment at `path`.
pub open spec fn kind_create_env(kind: BackendKind, base: Seq<char>, path: Seq<char>, python: Option<
    Seq<char>,
>) -> Seq<CommandView> {
    match kind {
        BackendKind::Uv => {
            let c = with_args(command_of("uv"@), seq!["venv"@, path]);
            match python {
                Some(p) => seq![with_args(c, seq!["--python"@, p])],
                None => seq![c],
            }
        },
        BackendKind::Venv => {
            let interpreter = match python {
                Some(p) => p,
                None => base,
            };
            seq![
                with_args(command_of(interpreter), seq!["-m"@, "venv"@, path]),
                env_pip(path, seq!["install"@, "--upgrade"@, "pip"@]),
            ]
        },
    }
}

/// The command a backend of `kind` runs to install from a requirements file.
pub open spec fn kind_install_requirements(kind: BackendKind, env: Seq<char>, file: Seq<char>) -> CommandView {
    match kind {
        BackendKind::Uv => with_args(uv_pip("install"@, env), seq!["-r"@, file]),
        BackendKind::Venv => env_pip(env, seq!["install"@, "-r"@, file]),
    }
}

/// The command a backend of `kind` runs to install packages.
pub open spec fn kind_install_packages(kind: BackendKind, env: Seq<char>, packages: Seq<Seq<char>>) -> CommandView {
    match kind {
        BackendKind::Uv => with_args(uv_pip("install"@, env), packages),
        BackendKind::Venv => env_pip(env, seq!["install"@] + packages),
    }
}

/// The command a backend of `kind` runs to uninstall packages.
pub open spec fn kind_uninstall_packages(kind: BackendKind, env: Seq<char>, packages: Seq<Seq<char>>) -> CommandView {
    match kind {
        BackendKind::Uv => with_args(uv_pip("uninstall"@, env), packages),
        BackendKind::Venv => env_pip(env, seq!["uninstall"@, "-y"@] + packages),
    }
}

/// The command a backend of `kind` runs to list packages.
pub open spec fn kind_freeze(kind: BackendKind, env: Seq<char>) -> CommandView {
    match kind {
        BackendKind::Uv => uv_pip("freeze"@, env),
        BackendKind::Venv => env_pip(env, seq!["freeze"@]),
    }
}

/// The `uv` backend.
pub struct UvBackend {
    program: String,
}

impl UvBackend {
    #[verifier::type_invariant]
    spec fn runs_uv(self) -> bool {
        self.program@ == "uv"@
    }

    /// The program this backend runs.
    pub closed spec fn program(&self) -> Seq<char> {
        self.program@
    }

    /// A backend running the `uv` program found on PATH.
    pub fn new() -> (r: UvBackend)
        ensures
            r.program() == "uv"@,
    {
        UvBackend { program: owned("uv") }
    }

    fn pip_exec(&self, sub: &str, env: &str) -> (c: PlannedCommand)
        ensures
            c@ == uv_pip(sub@, env@),
    {
        proof {
            use_type_invariant(self);
        }
        let c = PlannedCommand::new(self.program.clone()).arg(owned("pip")).arg(owned(sub)).arg(
            owned("--python"),
        ).arg(python_exe(env));
        assert(c@ =~= uv_pip(sub@, env@));
        c
    }
}

impl Backend for UvBackend {
    open spec fn spec_kind(&self) -> BackendKind {
        BackendKind::Uv
    }

    open spec fn spec_create_env(&self, path: Seq<char>, python: Option<Seq<char>>) -> Seq<CommandView> {
        kind_create_env(BackendKind::Uv, Seq::empty(), path, python)
    }

    open spec fn spec_install_requirements(&self, env: Seq<char>, file: Seq<char>) -> CommandView {
        kind_install_requirements(BackendKind::Uv, env, file)
    }

    open spec fn spec_install_packages(&self, env: Seq<char>, packages: Seq<Seq<char>>) -> CommandView {
        kind_install_packages(BackendKind::Uv, env, packages)
    }

    open spec fn spec_uninstall_packages(&self, env: Seq<char>, packages: Seq<Seq<char>>) -> CommandView {
        kind_uninstall_packages(BackendKind::Uv, env, packages)
    }

    open spec fn spec_freeze(&self, env: Seq<char>) -> CommandView {
        kind_freeze(BackendKind::Uv, env)
    }

    fn kind(&self) -> (k: BackendKind) {
        BackendKind::Uv
    }

    fn create_env(&self, path: &str, python: Option<&str>) -> (r: Result<Vec<PlannedCommand>, BackendError>) {
        proof {
            use_type_invariant(self);
        }
        let mut cmd = PlannedCommand::new(self.program.clone()).arg(owned("venv")).arg(owned(path));
        let ghost base = with_args(command_of("uv"@), seq!["venv"@, path@]);
        assert(cmd@ =~= base);
        if let Some(python) = python {
            cmd = cmd.arg(owned("--python")).arg(owned(python));
            assert(cmd@ =~= with_args(base, seq!["--python"@, python@]));
        }
        let v = vec![cmd];
        assert(commands(v@) =~= seq![v@[0]@]);
        Ok(v)
    }

    fn install_requirements(&self, env: &str, file: &str) -> (c: PlannedCommand) {
        let c = self.pip_exec("install", env).arg(owned("-r")).arg(owned(file));
        assert(c@ =~= self.spec_install_requirements(env@, file@));
        c
    }

    fn install_packages(&self, env: &str, packages: &[String]) -> (c: PlannedCommand) {
        let c = self.pip_exec("install", env).args(to_owned_strings(packages));
        assert(c@ =~= self.spec_install_packages(env@, strs(packages@)));
        c
    }

    fn uninstall_packages(&self, env: &str, packages: &[String]) -> (c: PlannedCommand) {
        let c = self.pip_exec("uninstall", env).args(to_owned_strings(packages));
        assert(c@ =~= self.spec_uninstall_packages(env@, strs(packages@)));
        c
    }

    fn freeze(&self, env: &str) -> (c: PlannedCommand) {
        self.pip_exec("freeze", env)
    }
}

/// The standard `venv` + `pip` backend.
pub struct VenvBackend {
    /// The base interpreter used to create environments.
    base_python: String,
}

impl VenvBackend {
    /// The base interpreter used to create environments.
    pub closed spec fn base_python(&self) -> Seq<char> {
        self.base_python@
    }

    /// A backend that bootstraps environments with `base_python`.
    pub fn new(base_python: &str) -> (r: VenvBackend)
        ensures
            r.base_python() == base_python@,
    {
        VenvBackend { base_python: owned(base_python) }
    }
}

fn env_pip_exec(env: &str) -> (c: PlannedCommand)
    ensures
        c@ == env_pip(env@, seq![]),
{
    let c = PlannedCommand::new(python_exe(env)).arg(owned("-m")).arg(owned("pip"));
    assert(c@ =~= env_pip(env@, seq![]));
    c
}

impl Backend for VenvBackend {
    open spec fn spec_kind(&self) -> BackendKind {
        BackendKind::Venv
    }

    open spec fn spec_create_env(&self, path: Seq<char>, python: Option<Seq<char>>) -> Seq<CommandView> {
        kind_create_env(BackendKind::Venv, self.base_python(), path, python)
    }

    open spec fn spec_install_requirements(&self, env: Seq<char>, file: Seq<char>) -> CommandView {
        kind_install_requirements(BackendKind::Venv, env, file)
    }

    open spec fn spec_install_packages(&self, env: Seq<char>, packages: Seq<Seq<char>>) -> CommandView {
        kind_install_packages(BackendKind::Venv, env, packages)
    }

    open spec fn spec_uninstall_packages(&self, env: Seq<char>, packages: Seq<Seq<char>>) -> CommandView {
        kind_uninstall_packages(BackendKind::Venv, env, packages)
    }

    open spec fn spec_freeze(&self, env: Seq<char>) -> CommandView {
        kind_freeze(BackendKind::Venv, env)
    }

    fn kind(&self) -> (k: BackendKind) {
        BackendKind::Venv
    }

    fn create_env(&self, path: &str, python: Option<&str>) -> (r: Result<Vec<PlannedCommand>, BackendError>) {
        let interpreter = match python {
            Some(p) => owned(p),
            None => self.base_python.clone(),
        };
        let create = PlannedCommand::new(interpreter).arg(owned("-m")).arg(owned("venv")).arg(
            owned(path),
        );
        let upgrade = env_pip_exec(path).arg(owned("install")).arg(owned("--upgrade")).arg(
            owned("pip"),
        );
        let ghost expected = self.spec_create_env(path@, opt_str(python));
        assert(create@ =~= expected[0]);
        assert(upgrade@ =~= expected[1]);
        let v = vec![create, upgrade];
        assert(commands(v@) =~= seq![v@[0]@, v@[1]@]);
        Ok(v)
    }

    fn install_requirements(&self, env: &str, file: &str) -> (c: PlannedCommand) {
        let c = env_pip_exec(env).arg(owned("install")).arg(owned("-r")).arg(owned(file));
        assert(c@ =~= env_pip(env@, seq!["install"@, "-r"@, file@]));
        c
    }

    fn install_packages(&self, env: &str, packages: &[String]) -> (c: PlannedCommand) {
        let c = env_pip_exec(env).arg(owned("install")).args(to_owned_strings(packages));
        assert(c@ =~= env_pip(env@, seq!["install"@] + strs(packages@)));
        c
    }

    fn uninstall_packages(&self, env: &str, packages: &[String]) -> (c: PlannedCommand) {
        let c = env_pip_exec(env).arg(owned("uninstall")).arg(owned("-y")).args(
            to_owned_strings(packages),
        );
        assert(c@ =~= env_pip(env@, seq!["uninstall"@, "-y"@] + strs(packages@)));
        c
    }

    fn freeze(&self, env: &str) -> (c: PlannedCommand) {
        let c = env_pip_exec(env).arg(owned("freeze"));
        assert(c@ =~= env_pip(env@, seq!["freeze"@]));
        c
    }
}

} // verus!

verus! {

/// The model of a package: its name and version.
pub open spec fn package_view(p: Package) -> (Seq<char>, Seq<char>) {
    (p.name@, p.version@)
}

/// The models of a list of packages.
pub open spec fn packages_view(v: Seq<Package>) -> Seq<(Seq<char>, Seq<char>)> {
    v.map_values(|p: Package| package_view(p))
}

/// The package that one line of `pip freeze` output describes, if any.
///
/// Blank lines, comments and editable (`-e `) lines describe none;
/// `name==version` and `name @ url` give a name and version; any other line
/// is a bare name with an empty version.
pub open spec fn freeze_entry(raw: Seq<char>) -> Option<(Seq<char>, Seq<char>)> {
    let l = trim(raw);
    if l.len() == 0 || starts_with(l, "#"@) || starts_with(l, "-e "@) {
        None
    } else {
        match split_once(l, "=="@) {
            Some((n, v)) => Some((trim(n), trim(v))),
            None => match split_once(l, " @ "@) {
                Some((n, r)) => Some((trim(n), trim(r))),
                None => Some((l, Seq::empty())),
            },
        }
    }
}

/// The packages described by a sequence of `pip freeze` lines, in order.
pub open spec fn freeze_packages(ls: Seq<Seq<char>>) -> Seq<(Seq<char>, Seq<char>)>
    decreases ls.len(),
{
    if ls.len() == 0 {
        Seq::empty()
    } else {
        let rest = freeze_packages(ls.drop_last());
        match freeze_entry(ls.last()) {
            Some(p) => rest.push(p),
            None => rest,
        }
    }
}

fn split_package(l: &Vec<char>, at: usize, pat_len: usize) -> (p: Package)
    requires
        at + pat_len <= l.len(),
    ensures
        package_view(p) == (trim(l@.subrange(0, at as int)), trim(
            l@.subrange(at + pat_len, l.len() as int),
        )),
{
    let (a, b) = trim_range(l, 0, at);
    let (c, d) = trim_range(l, at + pat_len, l.len());
    Package { name: string_of(l, a, b), version: string_of(l, c, d) }
}

/// Parse `pip freeze` / `uv pip freeze` output into packages.
pub fn parse_freeze(text: &str) -> (r: Vec<Package>)
    ensures
        packages_view(r@) == freeze_packages(lines(text@)),
{
    let v = chars_of(text);
    let rs = line_ranges(&v);
    let ghost ls = lines(text@);
    let mut out: Vec<Package> = Vec::new();
    let mut k: usize = 0;
    while k < rs.len()
        invariant
            v@ == text@,
            ls == lines(text@),
            crate::text::windows_view(v@, rs@) == ls,
            forall|j: int| 0 <= j < rs.len() ==> #[trigger] rs@[j].0 <= rs@[j].1 <= v.len(),
            k <= rs.len(),
            packages_view(out@) == freeze_packages(ls.take(k as int)),
        decreases rs.len() - k,
    {
        let (lo, hi) = rs[k];
        let ghost raw = v@.subrange(lo as int, hi as int);
        assert(raw == ls[k as int]);
        assert(ls.take(k + 1).drop_last() =~= ls.take(k as int));
        assert(ls.take(k + 1).last() == raw);
        let l = trimmed_vec(&v, lo, hi);
        let ghost before = out@;
        if l.len() == 0 || starts_with_lit(&l, "#") || starts_with_lit(&l, "-e ") {
        } else {
            assert(l@.subrange(0, l.len() as int) == l@);
            match find_lit(&l, "==") {
                Some(i) => {
                    proof {
                        reveal_strlit("==");
                        crate::text::lemma_find_from(l@, "=="@, 0);
                    }
                    out.push(split_package(&l, i, 2));
                },
                None => match find_lit(&l, " @ ") {
                    Some(i) => {
                        proof {
                            reveal_strlit(" @ ");
                            crate::text::lemma_find_from(l@, " @ "@, 0);
                        }
                        out.push(split_package(&l, i, 3));
                    },
                    None => {
                        let name = string_of(&l, 0, l.len());
                        out.push(Package { name, version: String::new() });
                    },
                },
            }
            assert(packages_view(out@) =~= packages_view(before).push(freeze_entry(raw)->0));
        }
        k = k + 1;
    }
    assert(ls.take(rs.len() as int) =~= ls);
    out
}

/// The packages reported by a finished `freeze` command: its parsed output
/// on success, otherwise the trimmed error output as the failure.
pub fn packages_from_output(output: &CapturedOutput) -> (r: Result<Vec<Package>, BackendError>)
    ensures
        output.code != 0 ==> (r matches Err(BackendError::ListFailed(e)) && e@ == trim(
            output.stderr@,
        )),
        output.code == 0 ==> (r matches Ok(v) && packages_view(v@) == freeze_packages(
            lines(output.stdout@),
        )),
{
    if !output.success() {
        let e = chars_of(output.stderr.as_str());
        let (a, b) = trim_range(&e, 0, e.len());
        assert(e@.subrange(0, e.len() as int) == e@);
        return Err(BackendError::ListFailed(string_of(&e, a, b)));
    }
    Ok(parse_freeze(output.stdout.as_str()))
}

/// A concrete backend chosen at run time.
pub enum SelectedBackend {
    Uv(UvBackend),
    Venv(VenvBackend),
}

impl SelectedBackend {
    /// The interpreter a `venv` backend bootstraps with (empty for `uv`).
    pub open spec fn spec_base(&self) -> Seq<char> {
        match self {
            SelectedBackend::Uv(_) => Seq::empty(),
            SelectedBackend::Venv(w) => w.base_python(),
        }
    }
}

impl Backend for SelectedBackend {
    open spec fn spec_kind(&self) -> BackendKind {
        match self {
            SelectedBackend::Uv(b) => b.spec_kind(),
            SelectedBackend::Venv(b) => b.spec_kind(),
        }
    }

    open spec fn spec_create_env(&self, path: Seq<char>, python: Option<Seq<char>>) -> Seq<CommandView> {
        match self {
            SelectedBackend::Uv(b) => b.spec_create_env(path, python),
            SelectedBackend::Venv(b) => b.spec_create_env(path, python),
        }
    }

    open spec fn spec_install_requirements(&self, env: Seq<char>, file: Seq<char>) -> CommandView {
        match self {
            SelectedBackend::Uv(b) => b.spec_install_requirements(env, file),
            SelectedBackend::Venv(b) => b.spec_install_requirements(env, file),
        }
    }

    open spec fn spec_install_packages(&self, env: Seq<char>, packages: Seq<Seq<char>>) -> CommandView {
        match self {
            SelectedBackend::Uv(b) => b.spec_install_packages(env, packages),
            SelectedBackend::Venv(b) => b.spec_install_packages(env, packages),
        }
    }

    open spec fn spec_uninstall_packages(&self, env: Seq<char>, packages: Seq<Seq<char>>) -> CommandView {
        match self {
            SelectedBackend::Uv(b) => b.spec_uninstall_packages(env, packages),
            SelectedBackend::Venv(b) => b.spec_uninstall_packages(env, packages),
        }
    }

    open spec fn spec_freeze(&self, env: Seq<char>) -> CommandView {
        match self {
            SelectedBackend::Uv(b) => b.spec_freeze(env),
            SelectedBackend::Venv(b) => b.spec_freeze(env),
        }
    }

    fn kind(&self) -> (k: BackendKind) {
        match self {
            SelectedBackend::Uv(b) => b.kind(),
            SelectedBackend::Venv(b) => b.kind(),
        }
    }

    fn create_env(&self, path: &str, python: Option<&str>) -> (r: Result<Vec<PlannedCommand>, BackendError>) {
        match self {
            SelectedBackend::Uv(b) => b.create_env(path, python),
            SelectedBackend::Venv(b) => b.create_env(path, python),
        }
    }

    fn install_requirements(&self, env: &str, file: &str) -> (c: PlannedCommand) {
        match self {
            SelectedBackend::Uv(b) => b.install_requirements(env, file),
            SelectedBackend::Venv(b) => b.install_requirements(env, file),
        }
    }

    fn install_packages(&self, env: &str, packages: &[String]) -> (c: PlannedCommand) {
        match self {
            SelectedBackend::Uv(b) => b.install_packages(env, packages),
            SelectedBackend::Venv(b) => b.install_packages(env, packages),
        }
    }

    fn uninstall_packages(&self, env: &str, packages: &[String]) -> (c: PlannedCommand) {
        match self {
            SelectedBackend::Uv(b) => b.uninstall_packages(env, packages),
            SelectedBackend::Venv(b) => b.uninstall_packages(env, packages),
        }
    }

    fn freeze(&self, env: &str) -> (c: PlannedCommand) {
        match self {
            SelectedBackend::Uv(b) => b.freeze(env),
            SelectedBackend::Venv(b) => b.freeze(env),
        }
    }
}

/// The backend kind requested by a project override or, failing that, by
/// the user preference (`None` means "auto").
pub open spec fn requested_kind(preference: BackendPreference, project_override: Option<
    BackendKind,
>) -> Option<BackendKind> {
    match project_override {
        Some(k) => Some(k),
        None => spec_forced(preference),
    }
}

/// The backend kind that [`resolve_backend`] selects, or `None` when `uv`
/// was requested but is unavailable.
pub open spec fn resolved_kind(
    preference: BackendPreference,
    project_override: Option<BackendKind>,
    uv_available: bool,
) -> Option<BackendKind> {
    match requested_kind(preference, project_override) {
        Some(BackendKind::Uv) => if uv_available {
            Some(BackendKind::Uv)
        } else {
            None
        },
        Some(BackendKind::Venv) => Some(BackendKind::Venv),
        None => if uv_available {
            Some(BackendKind::Uv)
        } else {
            Some(BackendKind::Venv)
        },
    }
}

/// Choose a backend given the user preference, an optional project override
/// and whether `uv` is on PATH.
///
/// `base_python` is the interpreter the `venv` backend uses to bootstrap new
/// environments.
pub fn resolve_backend(
    preference: BackendPreference,
    project_override: Option<BackendKind>,
    base_python: &str,
    uv_available: bool,
) -> (r: Result<SelectedBackend, BackendError>)
    ensures
        resolved_kind(preference, project_override, uv_available) is None ==> r matches Err(
            BackendError::UvUnavailable,
        ),
        resolved_kind(preference, project_override, uv_available) matches Some(k) ==> (r matches Ok(
            b,
        ) && b.spec_kind() == k && (k == BackendKind::Venv ==> b.spec_base() == base_python@)),
{
    let requested = match project_override {
        Some(k) => Some(k),
        None => preference.forced(),
    };
    match requested {
        Some(BackendKind::Uv) => {
            if uv_available {
                Ok(SelectedBackend::Uv(UvBackend::new()))
            } else {
                Err(BackendError::UvUnavailable)
            }
        },
        Some(BackendKind::Venv) => Ok(SelectedBackend::Venv(VenvBackend::new(base_python))),
        None => {
            if uv_available {
                Ok(SelectedBackend::Uv(UvBackend::new()))
            } else {
                Ok(SelectedBackend::Venv(VenvBackend::new(base_python)))
            }
        },
    }
}

} // verus!

verus! {

/// Backend choice: a project's own backend wins over the configured
/// preference; `auto` takes `uv` exactly when it is available and falls
/// back to `venv`; asking for `uv` where it is missing selects nothing; the
/// `venv` backend is always available.
pub proof fn law_backend_choice(preference: BackendPreference, project: BackendKind, uv_available: bool)
    ensures
        resolved_kind(preference, Some(project), uv_available) == resolved_kind(
            BackendPreference::Auto,
            Some(project),
            uv_available,
        ),
        resolved_kind(BackendPreference::Auto, None, uv_available) == Some(
            if uv_available {
                BackendKind::Uv
            } else {
                BackendKind::Venv
            },
        ),
        resolved_kind(BackendPreference::Uv, None, uv_available) == if uv_available {
            Some(BackendKind::Uv)
        } else {
            None
        },
        resolved_kind(BackendPreference::Venv, None, uv_available) == Some(BackendKind::Venv),
        resolved_kind(preference, Some(BackendKind::Venv), uv_available) == Some(BackendKind::Venv),
{
}

} // verus!
