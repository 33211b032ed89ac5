//! High-level application services shared by the CLI and the TUI.
//!
//! The service owns the merged [`Config`] and the project [`Registry`] and
//! exposes intention-level operations (import a project, create an
//! environment, install requirements, run a task, ...). Everything long-running
//! is returned as a [`PlannedCommand`] so the caller decides how it runs, and
//! everything the system has to report (whether `uv` is installed, which
//! interpreters exist, what a directory holds) is handed in as plain values.

use vstd::prelude::*;

use crate::backend::{
    opt_str, packages_from_output, packages_view, freeze_packages, python_exe, resolve_backend,
    resolved_kind, Backend, BackendError, SelectedBackend, bin_dir,
};
use crate::config::{spec_forced, Config};
use crate::domain::{
    copy_opt, copy_strings, opt_view, spec_relative_path, BackendKind, EnvInfo, EnvSpec,
    EnvSpecView, EnvStatus, Package, Task, TaskKind,
};
use crate::paths::{join, join_path, spec_bin_dir, spec_python_exe};
use crate::pyfinder::{best_index, best_match, PythonInterpreter};
use crate::registry::{ProjectEntry, Registry, spec_remove, index_of_id};
use crate::runner::{
    command_of, pairs, with_args, with_cwd, with_env, CapturedOutput, CommandView, PlannedCommand,
};
use crate::text::{lines, owned, strs, str_eq};

verus! {

/// The name of the per-project manifest file.
pub open spec fn manifest_file_name() -> Seq<char> {
    ".molt.toml"@
}

/// The manifest file of a project directory (`<dir>/.molt.toml`).
pub fn manifest_path(dir: &str) -> (r: String)
    ensures
        r@ == join(dir@, manifest_file_name()),
{
    join_path(dir, ".molt.toml")
}

/// Portable, shareable per-project settings stored in `.molt.toml`.
#[derive(Debug, Clone)]
pub struct ProjectManifest {
    pub name: Option<String>,
    pub python: Option<String>,
    pub backend: Option<BackendKind>,
    pub environments: Vec<EnvSpec>,
    pub tasks: Vec<Task>,
}

impl Default for ProjectManifest {
    fn default() -> (r: ProjectManifest)
        ensures
            r.name is None,
            r.python is None,
            r.backend is None,
            r.environments@.len() == 0,
            r.tasks@.len() == 0,
    {
        ProjectManifest {
            name: None,
            python: None,
            backend: None,
            environments: Vec::new(),
            tasks: Vec::new(),
        }
    }
}

/// A fully resolved view of a project for display and action.
#[derive(Debug, Clone)]
pub struct ProjectView {
    pub entry: ProjectEntry,
    pub manifest: ProjectManifest,
    pub environments: Vec<EnvInfo>,
    pub tasks: Vec<Task>,
    pub scripts: Vec<String>,
    pub requirements_files: Vec<String>,
}

/// The first environment at or after `i` named `name`.
pub open spec fn env_info_index(s: Seq<EnvInfo>, name: Seq<char>, i: int) -> Option<int>
    decreases s.len() - i,
{
    if i < 0 || i >= s.len() {
        None
    } else if s[i].name@ == name {
        Some(i)
    } else {
        env_info_index(s, name, i + 1)
    }
}

/// The environment [`ProjectView::env`] selects: the one named `name`; with
/// no name, the project's default environment if it exists, else the first.
pub open spec fn selected_env(v: ProjectView, name: Option<Seq<char>>) -> Option<int> {
    match name {
        Some(n) => env_info_index(v.environments@, n, 0),
        None => {
            let first = if v.environments@.len() > 0 { Some(0int) } else { None };
            match v.entry.default_env {
                Some(d) => match env_info_index(v.environments@, d@, 0) {
                    Some(i) => Some(i),
                    None => first,
                },
                None => first,
            }
        },
    }
}

fn find_env_info(envs: &Vec<EnvInfo>, name: &str) -> (r: Option<usize>)
    ensures
        r matches Some(i) ==> env_info_index(envs@, name@, 0) == Some(i as int) && i < envs.len(),
        r is None ==> env_info_index(envs@, name@, 0) is None,
{
    let mut i: usize = 0;
    while i < envs.len()
        invariant
            i <= envs.len(),
            env_info_index(envs@, name@, 0) == env_info_index(envs@, name@, i as int),
        decreases envs.len() - i,
    {
        if str_eq(envs[i].name.as_str(), name) {
            return Some(i);
        }
        i = i + 1;
    }
    None
}

impl ProjectView {
    /// The environment selected by name, or the project default, or the first.
    pub fn env(&self, name: Option<&str>) -> (r: Option<&EnvInfo>)
        ensures
            selected_env(*self, opt_str(name)) is None ==> r is None,
            selected_env(*self, opt_str(name)) matches Some(i) ==> (r matches Some(e) && *e
                == self.environments@[i]),
    {
        if let Some(name) = name {
            return match find_env_info(&self.environments, name) {
                Some(i) => Some(&self.environments[i]),
                None => None,
            };
        }
        if let Some(default) = &self.entry.default_env {
            if let Some(i) = find_env_info(&self.environments, default.as_str()) {
                return Some(&self.environments[i]);
            }
        }
        if self.environments.len() > 0 {
            Some(&self.environments[0])
        } else {
            None
        }
    }
}

/// What the host system reports that the service's decisions depend on.
#[derive(Debug, Clone)]
pub struct Host {
    /// Whether `uv` is on PATH.
    pub uv_available: bool,
    /// The discovered interpreters, newest first.
    pub interpreters: Vec<PythonInterpreter>,
    /// The value of `PATH` (empty when unset).
    pub path_var: String,
    /// The value of `SHELL`, when set.
    pub shell_var: Option<String>,
}

/// Why a service operation could not be planned.
#[derive(Debug, Clone)]
pub enum ServiceError {
    /// The named environment is not defined for the project.
    EnvNotDefined(String),
    /// The requirements file (full path) does not exist.
    RequirementsNotFound(String),
    /// The backend could not be resolved or failed.
    Backend(BackendError),
}

/// The application service.
pub struct Service {
    pub config: Config,
    pub registry: Registry,
}

} // verus!

verus! {

/// The first manifest environment at or after `i` named `name`.
pub open spec fn env_spec_index(s: Seq<EnvSpec>, name: Seq<char>, i: int) -> Option<int>
    decreases s.len() - i,
{
    if i < 0 || i >= s.len() {
        None
    } else if s[i].name@ == name {
        Some(i)
    } else {
        env_spec_index(s, name, i + 1)
    }
}

/// The environment spec the service uses for `name`: the manifest's
/// declaration, or a conventional one for a discovered environment or for
/// `default`; `None` when the environment is not defined.
pub open spec fn spec_env_spec(s: Service, v: ProjectView, name: Seq<char>) -> Option<EnvSpecView> {
    match env_spec_index(v.manifest.environments@, name, 0) {
        Some(i) => Some(v.manifest.environments@[i]@),
        None => if env_info_index(v.environments@, name, 0) is Some || name == "default"@ {
            Some(
                EnvSpecView {
                    name,
                    path: Some(s.config.python.default_venv_name@),
                    python: opt_view(v.manifest.python),
                    requirements: None,
                },
            )
        } else {
            None
        },
    }
}

/// The directory of the environment `name`, when it is defined.
pub open spec fn spec_env_path(s: Service, v: ProjectView, name: Seq<char>) -> Option<Seq<char>> {
    match spec_env_spec(s, v, name) {
        Some(e) => Some(join(v.entry.path@, spec_relative_path(e))),
        None => None,
    }
}

/// The backend kind shown for a project: the project's or manifest's
/// override, else the configured preference, else `uv` when available.
pub open spec fn spec_effective_kind(s: Service, entry: ProjectEntry, m: ProjectManifest, uv_available: bool) -> BackendKind {
    let requested = match entry.backend {
        Some(k) => Some(k),
        None => match m.backend {
            Some(k) => Some(k),
            None => spec_forced(s.config.backend),
        },
    };
    match requested {
        Some(k) => k,
        None => if uv_available {
            BackendKind::Uv
        } else {
            BackendKind::Venv
        },
    }
}

/// The project-level backend override: the entry's, else the manifest's.
pub open spec fn project_override(entry: ProjectEntry, m: ProjectManifest) -> Option<BackendKind> {
    match entry.backend {
        Some(k) => Some(k),
        None => m.backend,
    }
}

/// The Python version a project asks for: the manifest's, else the
/// configured preference.
pub open spec fn requested_python(s: Service, m: ProjectManifest) -> Option<Seq<char>> {
    match m.python {
        Some(p) => Some(p@),
        None => opt_view(s.config.python.preferred_version),
    }
}

/// The interpreter used to bootstrap `venv` environments: the best match
/// among the discovered interpreters, else `python3` from PATH.
pub open spec fn spec_base_python(s: Service, m: ProjectManifest, interps: Seq<PythonInterpreter>) -> Seq<char> {
    match best_index(interps, requested_python(s, m)) {
        Some(i) => interps[i].path@,
        None => "python3"@,
    }
}

/// The backend kind [`Service::backend_for`] selects (`None`: `uv` was
/// requested but is unavailable).
pub open spec fn spec_backend_kind(s: Service, entry: ProjectEntry, m: ProjectManifest, h: Host) -> Option<BackendKind> {
    resolved_kind(s.config.backend, project_override(entry, m), h.uv_available)
}

/// `b` is the backend `backend_for` selects.
pub open spec fn is_backend_for(b: SelectedBackend, s: Service, entry: ProjectEntry, m: ProjectManifest, h: Host) -> bool {
    &&& spec_backend_kind(s, entry, m, h) == Some(b.spec_kind())
    &&& b.spec_kind() == BackendKind::Venv ==> b.spec_base() == spec_base_python(s, m, h.interpreters@)
}

impl Service {
    /// Build a service from the loaded configuration and registry.
    pub fn load(config: Config, registry: Registry) -> (r: Service)
        ensures
            r.config == config,
            r.registry == registry,
    {
        Service { config, registry }
    }

    /// All registered projects.
    pub fn projects(&self) -> (r: &[ProjectEntry])
        ensures
            r@ == self.registry.projects@,
    {
        self.registry.projects.as_slice()
    }

    /// Forget a project in the registry (files on disk are untouched),
    /// returning the removed entry.
    pub fn remove_project(&mut self, id: &str) -> (r: Option<ProjectEntry>)
        ensures
            final(self).config == old(self).config,
            final(self).registry@ == spec_remove(old(self).registry@, id@),
            index_of_id(old(self).registry@, id@) is None ==> r is None,
            index_of_id(old(self).registry@, id@) matches Some(i) ==> (r matches Some(e) && e@
                == old(self).registry@[i]),
    {
        self.registry.remove(id)
    }

    /// The backend kind that would be used for a project (for display).
    pub fn effective_backend_kind(&self, entry: &ProjectEntry, manifest: &ProjectManifest, uv_available: bool) -> (r: BackendKind)
        ensures
            r == spec_effective_kind(*self, *entry, *manifest, uv_available),
    {
        let requested = match entry.backend {
            Some(k) => Some(k),
            None => match manifest.backend {
                Some(k) => Some(k),
                None => self.config.backend.forced(),
            },
        };
        match requested {
            Some(kind) => kind,
            None => if uv_available {
                BackendKind::Uv
            } else {
                BackendKind::Venv
            },
        }
    }

    /// The interpreter used to bootstrap venvs for a project.
    pub fn base_python(&self, manifest: &ProjectManifest, interpreters: &Vec<PythonInterpreter>) -> (r: String)
        ensures
            r@ == spec_base_python(*self, *manifest, interpreters@),
    {
        let requested = match &manifest.python {
            Some(p) => Some(p.as_str()),
            None => match &self.config.python.preferred_version {
                Some(p) => Some(p.as_str()),
                None => None,
            },
        };
        assert(opt_str(requested) == requested_python(*self, *manifest));
        match best_match(requested, interpreters) {
            Some(found) => found.path,
            None => owned("python3"),
        }
    }

    /// Resolve a concrete backend implementation for a project.
    pub fn backend_for(&self, entry: &ProjectEntry, manifest: &ProjectManifest, host: &Host) -> (r: Result<SelectedBackend, ServiceError>)
        ensures
            spec_backend_kind(*self, *entry, *manifest, *host) is None ==> r matches Err(
                ServiceError::Backend(BackendError::UvUnavailable),
            ),
            spec_backend_kind(*self, *entry, *manifest, *host) is Some ==> (r matches Ok(b)
                && is_backend_for(b, *self, *entry, *manifest, *host)),
    {
        let base = self.base_python(manifest, &host.interpreters);
        let over = match entry.backend {
            Some(k) => Some(k),
            None => manifest.backend,
        };
        match resolve_backend(self.config.backend, over, base.as_str(), host.uv_available) {
            Ok(b) => Ok(b),
            Err(e) => Err(ServiceError::Backend(e)),
        }
    }

    /// The environment spec for `env_name`: declared in the manifest, or a
    /// conventional one for a discovered environment or for `default`.
    pub fn env_spec(&self, view: &ProjectView, env_name: &str) -> (r: Result<EnvSpec, ServiceError>)
        ensures
            spec_env_spec(*self, *view, env_name@) is None ==> (r matches Err(
                ServiceError::EnvNotDefined(n),
            ) && n@ == env_name@),
            spec_env_spec(*self, *view, env_name@) matches Some(e) ==> (r matches Ok(x) && x@ == e),
    {
        let envs = &view.manifest.environments;
        let mut i: usize = 0;
        while i < envs.len()
            invariant
                *envs == view.manifest.environments,
                i <= envs.len(),
                env_spec_index(envs@, env_name@, 0) == env_spec_index(envs@, env_name@, i as int),
            decreases envs.len() - i,
        {
            if str_eq(envs[i].name.as_str(), env_name) {
                return Ok(envs[i].copied());
            }
            i = i + 1;
        }
        let known = find_env_info(&view.environments, env_name).is_some();
        if known || str_eq(env_name, "default") {
            let spec = EnvSpec {
                name: owned(env_name),
                path: Some(self.config.python.default_venv_name.clone()),
                python: copy_opt(&view.manifest.python),
                requirements: None,
            };
            return Ok(spec);
        }
        Err(ServiceError::EnvNotDefined(owned(env_name)))
    }

    /// The directory of environment `env_name`.
    pub fn env_path(&self, view: &ProjectView, env_name: &str) -> (r: Result<String, ServiceError>)
        ensures
            spec_env_path(*self, *view, env_name@) is None ==> (r matches Err(
                ServiceError::EnvNotDefined(n),
            ) && n@ == env_name@),
            spec_env_path(*self, *view, env_name@) matches Some(p) ==> (r matches Ok(x) && x@ == p),
    {
        let spec = self.env_spec(view, env_name)?;
        let rel = spec.relative_path();
        Ok(join_path(view.entry.path.as_str(), rel.as_str()))
    }
}

} // verus!

verus! {

/// A dotenv value without one pair of matching surrounding quotes.
pub open spec fn unquote(v: Seq<char>) -> Seq<char> {
    if v.len() >= 2 && ((v[0] == '"' && v.last() == '"') || (v[0] == '\'' && v.last() == '\'')) {
        v.subrange(1, v.len() - 1)
    } else {
        v
    }
}

/// The variable one dotenv line sets, if any: blank lines and comments set
/// none, an `export ` prefix is ignored, the key and value are trimmed around
/// the first `=`, the value loses surrounding quotes, and an empty key sets
/// nothing.
pub open spec fn dotenv_entry(raw: Seq<char>) -> Option<(Seq<char>, Seq<char>)> {
    let l = crate::text::trim(raw);
    if l.len() == 0 || crate::text::starts_with(l, "#"@) {
        None
    } else {
        let l2 = if crate::text::starts_with(l, "export "@) {
            l.subrange(7, l.len() as int)
        } else {
            l
        };
        match crate::text::split_once(l2, "="@) {
            Some((k, v)) => {
                let key = crate::text::trim(k);
                if key.len() > 0 {
                    Some((key, unquote(crate::text::trim(v))))
                } else {
                    None
                }
            },
            None => None,
        }
    }
}

/// The variables set by a sequence of dotenv lines, in order.
pub open spec fn dotenv_pairs(ls: Seq<Seq<char>>) -> Seq<(Seq<char>, Seq<char>)>
    decreases ls.len(),
{
    if ls.len() == 0 {
        Seq::empty()
    } else {
        let rest = dotenv_pairs(ls.drop_last());
        match dotenv_entry(ls.last()) {
            Some(p) => rest.push(p),
            None => rest,
        }
    }
}

/// Parse a minimal dotenv file into key/value pairs.
pub fn parse_dotenv(text: &str) -> (r: Vec<(String, String)>)
    ensures
        pairs(r@) == dotenv_pairs(lines(text@)),
        forall|i: int|
            0 <= i < r.len() ==> crate::text::trim(#[trigger] r@[i].0@) == r@[i].0@ && r@[i].0@.len() > 0,
{
    let v = crate::text::chars_of(text);
    let rs = crate::text::line_ranges(&v);
    let ghost ls = lines(text@);
    let mut out: Vec<(String, String)> = Vec::new();
    let mut k: usize = 0;
    while k < rs.len()
        invariant
            v@ == text@,
            ls == lines(text@),
            crate::text::windows_view(v@, rs@) == ls,
            forall|j: int| 0 <= j < rs.len() ==> #[trigger] rs@[j].0 <= rs@[j].1 <= v.len(),
            k <= rs.len(),
            pairs(out@) == dotenv_pairs(ls.take(k as int)),
        decreases rs.len() - k,
    {
        proof {
            reveal_strlit("#");
            reveal_strlit("export ");
            reveal_strlit("=");
        }
        let (lo, hi) = rs[k];
        let ghost raw = v@.subrange(lo as int, hi as int);
        assert(raw == ls[k as int]);
        assert(ls.take(k + 1).drop_last() =~= ls.take(k as int));
        assert(ls.take(k + 1).last() == raw);
        let l = crate::text::trimmed_vec(&v, lo, hi);
        let ghost before = out@;
        if l.len() == 0 || crate::text::starts_with_lit(&l, "#") {
        } else {
            let start: usize = if crate::text::starts_with_lit(&l, "export ") {
                7
            } else {
                0
            };
            let l2 = crate::text::sub_vec(&l, start, l.len());
            assert(start == 0 ==> l2@ =~= l@);
            match crate::text::find_lit(&l2, "=") {
                Some(i) => {
                    proof {
                        crate::text::lemma_find_from(l2@, "="@, 0);
                    }
                    let (ka, kb) = crate::text::trim_range(&l2, 0, i);
                    if ka < kb {
                        let (va, vb) = crate::text::trim_range(&l2, i + 1, l2.len());
                        let (qa, qb) = if vb - va >= 2 && ((l2[va] == '"' && l2[vb - 1] == '"') || (
                        l2[va] == '\'' && l2[vb - 1] == '\'')) {
                            (va + 1, vb - 1)
                        } else {
                            (va, vb)
                        };
                        let ghost tv = l2@.subrange(va as int, vb as int);
                        assert(l2@.subrange(qa as int, qb as int) =~= unquote(tv));
                        let key = crate::text::string_of(&l2, ka, kb);
                        let val = crate::text::string_of(&l2, qa, qb);
                        out.push((key, val));
                        assert(pairs(out@) =~= pairs(before).push(dotenv_entry(raw)->0));
                    }
                },
                None => {},
            }
        }
        assert(pairs(out@) == dotenv_pairs(ls.take(k + 1)));
        k = k + 1;
    }
    assert(ls.take(rs.len() as int) =~= ls);
    proof {
        law_dotenv_keys_are_trimmed(lines(text@));
        assert forall|i: int| 0 <= i < out.len() implies crate::text::trim(#[trigger] out@[i].0@)
            == out@[i].0@ && out@[i].0@.len() > 0 by {
            assert(pairs(out@)[i].0 == out@[i].0@);
        }
    }
    out
}

} // verus!

verus! {

/// The environment variables that activate the environment at `env` for a
/// child process: `VIRTUAL_ENV`, `PATH` with the environment's executables
/// first, `PYTHONNOUSERSITE=1`, then the variables of the dotenv text, if any.
pub open spec fn spec_activation_env(env: Seq<char>, path_var: Seq<char>, dotenv: Option<Seq<char>>) -> Seq<(Seq<char>, Seq<char>)> {
    seq![
        ("VIRTUAL_ENV"@, env),
        ("PATH"@, spec_bin_dir(env) + ":"@ + path_var),
        ("PYTHONNOUSERSITE"@, "1"@),
    ] + match dotenv {
        Some(t) => dotenv_pairs(lines(t)),
        None => Seq::empty(),
    }
}

/// The shell the service launches: the configured one, else `$SHELL`, else
/// `/bin/sh`.
pub open spec fn spec_shell(s: Service, h: Host) -> Seq<char> {
    match s.config.behavior.shell {
        Some(sh) => sh@,
        None => match h.shell_var {
            Some(sh) => sh@,
            None => "/bin/sh"@,
        },
    }
}

/// The Python version an environment is created with: the environment's,
/// else the manifest's, else the configured preference.
pub open spec fn create_python(s: Service, v: ProjectView, e: EnvSpecView) -> Option<Seq<char>> {
    match e.python {
        Some(p) => Some(p),
        None => match v.manifest.python {
            Some(p) => Some(p@),
            None => opt_view(s.config.python.preferred_version),
        },
    }
}

/// The requirements file a `plan_install_requirements` call uses: the one
/// given, else the environment's, else the first discovered one, else
/// `requirements.txt`, resolved against the project root.
pub open spec fn spec_requirements_path(s: Service, v: ProjectView, name: Seq<char>, requested: Option<Seq<char>>) -> Option<Seq<char>> {
    match spec_env_spec(s, v, name) {
        Some(e) => {
            let file = match requested {
                Some(f) => f,
                None => match e.requirements {
                    Some(f) => f,
                    None => if v.requirements_files@.len() > 0 {
                        v.requirements_files@[0]@
                    } else {
                        "requirements.txt"@
                    },
                },
            };
            Some(join(v.entry.path@, file))
        },
        None => None,
    }
}

/// The command that runs a task of `kind`.
pub open spec fn task_command(kind: TaskKind, python: Seq<char>, command: Seq<char>, args: Seq<Seq<char>>, shell: Seq<char>) -> CommandView {
    match kind {
        TaskKind::Script => with_args(command_of(python), seq![command] + args),
        TaskKind::Module => with_args(command_of(python), seq!["-m"@, command] + args),
        TaskKind::Exec => with_args(command_of(command), args),
        TaskKind::Shell => with_args(command_of(shell), seq!["-c"@, command]),
    }
}

/// Where a task runs: its directory resolved against the project root, or
/// the project root.
pub open spec fn task_cwd(root: Seq<char>, task: Task) -> Seq<char> {
    match task.cwd {
        Some(d) => join(root, d@),
        None => root,
    }
}

/// The dotenv text that applies to a task: the text read from its env file,
/// when it names one.
pub open spec fn task_dotenv(task: Task, text: Option<&str>) -> Option<Seq<char>> {
    match task.env_file {
        Some(_) => opt_str(text),
        None => None,
    }
}

impl Service {
    /// The shell used for shell tasks and interactive shells.
    pub fn shell(&self, host: &Host) -> (r: String)
        ensures
            r@ == spec_shell(*self, *host),
    {
        match &self.config.behavior.shell {
            Some(sh) => sh.clone(),
            None => match &host.shell_var {
                Some(sh) => sh.clone(),
                None => owned("/bin/sh"),
            },
        }
    }

    /// Compute environment variables that activate a venv for a child process.
    pub fn activation_env(&self, env_path: &str, dotenv: Option<&str>, host: &Host) -> (r: Vec<(String, String)>)
        ensures
            pairs(r@) == spec_activation_env(env_path@, host.path_var@, opt_str(dotenv)),
    {
        let mut vars: Vec<(String, String)> = Vec::new();
        vars.push((owned("VIRTUAL_ENV"), owned(env_path)));
        let mut p = bin_dir(env_path);
        p.append(":");
        p.append(host.path_var.as_str());
        vars.push((owned("PATH"), p));
        vars.push((owned("PYTHONNOUSERSITE"), owned("1")));
        let ghost head = pairs(vars@);
        assert(head =~= seq![
            ("VIRTUAL_ENV"@, env_path@),
            ("PATH"@, spec_bin_dir(env_path@) + ":"@ + host.path_var@),
            ("PYTHONNOUSERSITE"@, "1"@),
        ]);
        if let Some(text) = dotenv {
            let mut extra = parse_dotenv(text);
            vars.append(&mut extra);
            assert(pairs(vars@) =~= head + dotenv_pairs(lines(text@)));
        } else {
            assert(pairs(vars@) =~= head + Seq::<(Seq<char>, Seq<char>)>::empty());
        }
        vars
    }

    /// Plan environment creation: the commands to run, in order.
    pub fn plan_create_env(&self, view: &ProjectView, env_name: &str, host: &Host) -> (r: Result<Vec<PlannedCommand>, ServiceError>)
        ensures
            spec_env_spec(*self, *view, env_name@) is None ==> (r matches Err(
                ServiceError::EnvNotDefined(n),
            ) && n@ == env_name@),
            spec_env_spec(*self, *view, env_name@) is Some && spec_backend_kind(*self, view.entry, view.manifest, *host) is None
                ==> r matches Err(ServiceError::Backend(BackendError::UvUnavailable)),
            spec_env_spec(*self, *view, env_name@) matches Some(e) ==> (spec_backend_kind(*self, view.entry, view.manifest, *host) matches Some(k) ==> (r matches Ok(v)
                && crate::backend::commands(v@) == crate::backend::kind_create_env(
                k,
                spec_base_python(*self, view.manifest, host.interpreters@),
                join(view.entry.path@, spec_relative_path(e)),
                create_python(*self, *view, e),
            ))),
    {
        let spec = self.env_spec(view, env_name)?;
        let rel = spec.relative_path();
        let env_path = join_path(view.entry.path.as_str(), rel.as_str());
        let backend = self.backend_for(&view.entry, &view.manifest, host)?;
        let python: Option<&str> = match &spec.python {
            Some(p) => Some(p.as_str()),
            None => match &view.manifest.python {
                Some(p) => Some(p.as_str()),
                None => match &self.config.python.preferred_version {
                    Some(p) => Some(p.as_str()),
                    None => None,
                },
            },
        };
        match backend.create_env(env_path.as_str(), python) {
            Ok(v) => Ok(v),
            Err(e) => Err(ServiceError::Backend(e)),
        }
    }

    /// The requirements file that installing into `env_name` would use.
    pub fn requirements_path(&self, view: &ProjectView, env_name: &str, requirements: Option<&str>) -> (r: Result<String, ServiceError>)
        ensures
            spec_env_spec(*self, *view, env_name@) is None ==> (r matches Err(
                ServiceError::EnvNotDefined(n),
            ) && n@ == env_name@),
            spec_requirements_path(*self, *view, env_name@, opt_str(requirements)) matches Some(p)
                ==> (r matches Ok(x) && x@ == p),
    {
        let spec = self.env_spec(view, env_name)?;
        let file: String = match requirements {
            Some(f) => owned(f),
            None => match &spec.requirements {
                Some(f) => f.clone(),
                None => if view.requirements_files.len() > 0 {
                    view.requirements_files[0].clone()
                } else {
                    owned("requirements.txt")
                },
            },
        };
        Ok(join_path(view.entry.path.as_str(), file.as_str()))
    }

    /// Plan installation from a requirements file into an environment.
    ///
    /// `file_exists` tells whether the file that [`Service::requirements_path`]
    /// names exists; this is the primary "install requirements.txt" entry point.
    pub fn plan_install_requirements(
        &self,
        view: &ProjectView,
        env_name: &str,
        requirements: Option<&str>,
        host: &Host,
        file_exists: bool,
    ) -> (r: Result<PlannedCommand, ServiceError>)
        ensures
            spec_env_spec(*self, *view, env_name@) is None ==> (r matches Err(
                ServiceError::EnvNotDefined(n),
            ) && n@ == env_name@),
            spec_requirements_path(*self, *view, env_name@, opt_str(requirements)) matches Some(f)
                ==> (!file_exists ==> (r matches Err(ServiceError::RequirementsNotFound(p)) && p@
                == f)),
            spec_env_spec(*self, *view, env_name@) is Some && file_exists && spec_backend_kind(
                *self,
                view.entry,
                view.manifest,
                *host,
            ) is None ==> r matches Err(ServiceError::Backend(BackendError::UvUnavailable)),
            spec_env_path(*self, *view, env_name@) matches Some(env) ==> (spec_requirements_path(
                *self,
                *view,
                env_name@,
                opt_str(requirements),
            ) matches Some(f) ==> (file_exists ==> (spec_backend_kind(*self, view.entry, view.manifest, *host) matches Some(k)
                ==> (r matches Ok(c) && c@ == crate::backend::kind_install_requirements(k, env, f))))),
    {
        let env_path = self.env_path(view, env_name)?;
        let file_path = self.requirements_path(view, env_name, requirements)?;
        if !file_exists {
            return Err(ServiceError::RequirementsNotFound(file_path));
        }
        let backend = self.backend_for(&view.entry, &view.manifest, host)?;
        Ok(backend.install_requirements(env_path.as_str(), file_path.as_str()))
    }

    /// Plan installation of explicit packages.
    pub fn plan_add_packages(&self, view: &ProjectView, env_name: &str, packages: &[String], host: &Host) -> (r: Result<PlannedCommand, ServiceError>)
        ensures
            spec_env_path(*self, *view, env_name@) is None ==> (r matches Err(
                ServiceError::EnvNotDefined(n),
            ) && n@ == env_name@),
            spec_env_path(*self, *view, env_name@) is Some && spec_backend_kind(*self, view.entry, view.manifest, *host) is None
                ==> r matches Err(ServiceError::Backend(BackendError::UvUnavailable)),
            spec_env_path(*self, *view, env_name@) matches Some(env) ==> (spec_backend_kind(*self, view.entry, view.manifest, *host) matches Some(k)
                ==> (r matches Ok(c) && c@ == crate::backend::kind_install_packages(k, env, strs(packages@)))),
    {
        let env_path = self.env_path(view, env_name)?;
        let backend = self.backend_for(&view.entry, &view.manifest, host)?;
        Ok(backend.install_packages(env_path.as_str(), packages))
    }

    /// Plan removal of explicit packages.
    pub fn plan_remove_packages(&self, view: &ProjectView, env_name: &str, packages: &[String], host: &Host) -> (r: Result<PlannedCommand, ServiceError>)
        ensures
            spec_env_path(*self, *view, env_name@) is None ==> (r matches Err(
                ServiceError::EnvNotDefined(n),
            ) && n@ == env_name@),
            spec_env_path(*self, *view, env_name@) is Some && spec_backend_kind(*self, view.entry, view.manifest, *host) is None
                ==> r matches Err(ServiceError::Backend(BackendError::UvUnavailable)),
            spec_env_path(*self, *view, env_name@) matches Some(env) ==> (spec_backend_kind(*self, view.entry, view.manifest, *host) matches Some(k)
                ==> (r matches Ok(c) && c@ == crate::backend::kind_uninstall_packages(k, env, strs(packages@)))),
    {
        let env_path = self.env_path(view, env_name)?;
        let backend = self.backend_for(&view.entry, &view.manifest, host)?;
        Ok(backend.uninstall_packages(env_path.as_str(), packages))
    }

    /// Plan the command that lists an environment's installed packages.
    pub fn plan_list_packages(&self, view: &ProjectView, env_name: &str, host: &Host) -> (r: Result<PlannedCommand, ServiceError>)
        ensures
            spec_env_path(*self, *view, env_name@) is None ==> (r matches Err(
                ServiceError::EnvNotDefined(n),
            ) && n@ == env_name@),
            spec_env_path(*self, *view, env_name@) is Some && spec_backend_kind(*self, view.entry, view.manifest, *host) is None
                ==> r matches Err(ServiceError::Backend(BackendError::UvUnavailable)),
            spec_env_path(*self, *view, env_name@) matches Some(env) ==> (spec_backend_kind(*self, view.entry, view.manifest, *host) matches Some(k)
                ==> (r matches Ok(c) && c@ == crate::backend::kind_freeze(k, env))),
    {
        let env_path = self.env_path(view, env_name)?;
        let backend = self.backend_for(&view.entry, &view.manifest, host)?;
        Ok(backend.freeze(env_path.as_str()))
    }

    /// List installed packages for an environment, given the output of the
    /// command that [`Service::plan_list_packages`] planned.
    pub fn list_packages(&self, view: &ProjectView, env_name: &str, host: &Host, output: &CapturedOutput) -> (r: Result<Vec<Package>, ServiceError>)
        ensures
            spec_env_path(*self, *view, env_name@) is None ==> (r matches Err(
                ServiceError::EnvNotDefined(n),
            ) && n@ == env_name@),
            spec_env_path(*self, *view, env_name@) is Some && spec_backend_kind(*self, view.entry, view.manifest, *host) is None
                ==> r matches Err(ServiceError::Backend(BackendError::UvUnavailable)),
            spec_env_path(*self, *view, env_name@) is Some && spec_backend_kind(*self, view.entry, view.manifest, *host) is Some
                ==> (output.code != 0 ==> (r matches Err(ServiceError::Backend(BackendError::ListFailed(e))) && e@ == crate::text::trim(output.stderr@))),
            spec_env_path(*self, *view, env_name@) is Some && spec_backend_kind(*self, view.entry, view.manifest, *host) is Some
                ==> (output.code == 0 ==> (r matches Ok(v) && packages_view(v@) == freeze_packages(lines(output.stdout@)))),
    {
        let _env_path = self.env_path(view, env_name)?;
        let _backend = self.backend_for(&view.entry, &view.manifest, host)?;
        match packages_from_output(output) {
            Ok(v) => Ok(v),
            Err(e) => Err(ServiceError::Backend(e)),
        }
    }

    /// The dotenv file a task loads (resolved against the project root).
    pub fn env_file_path(&self, view: &ProjectView, task: &Task) -> (r: Option<String>)
        ensures
            task.env_file is None ==> r is None,
            task.env_file matches Some(f) ==> (r matches Some(p) && p@ == join(view.entry.path@, f@)),
    {
        match &task.env_file {
            Some(f) => Some(join_path(view.entry.path.as_str(), f.as_str())),
            None => None,
        }
    }

    /// Build the command to run a task inside an environment; `env_file_text`
    /// is the content of the task's env file when it could be read.
    pub fn plan_task(&self, view: &ProjectView, task: &Task, env_name: &str, host: &Host, env_file_text: Option<&str>) -> (r: Result<PlannedCommand, ServiceError>)
        ensures
            spec_env_path(*self, *view, env_name@) is None ==> (r matches Err(
                ServiceError::EnvNotDefined(n),
            ) && n@ == env_name@),
            spec_env_path(*self, *view, env_name@) matches Some(env) ==> (r matches Ok(c) && c@
                == with_env(
                with_cwd(
                    task_command(task.kind, spec_python_exe(env), task.command@, strs(task.args@), spec_shell(*self, *host)),
                    task_cwd(view.entry.path@, *task),
                ),
                spec_activation_env(env, host.path_var@, task_dotenv(*task, env_file_text)),
            )),
    {
        let env_path = self.env_path(view, env_name)?;
        let dotenv = match &task.env_file {
            Some(_) => env_file_text,
            None => None,
        };
        let env_vars = self.activation_env(env_path.as_str(), dotenv, host);
        let cwd = match &task.cwd {
            Some(dir) => join_path(view.entry.path.as_str(), dir.as_str()),
            None => view.entry.path.clone(),
        };
        let python = python_exe(env_path.as_str());
        let command = match task.kind {
            TaskKind::Script => {
                let c = PlannedCommand::new(python).arg(task.command.clone()).args(copy_strings(&task.args));
                assert(c@ =~= task_command(task.kind, spec_python_exe(env_path@), task.command@, strs(task.args@), spec_shell(*self, *host)));
                c
            },
            TaskKind::Module => {
                let c = PlannedCommand::new(python).arg(owned("-m")).arg(task.command.clone()).args(copy_strings(&task.args));
                assert(c@ =~= task_command(task.kind, spec_python_exe(env_path@), task.command@, strs(task.args@), spec_shell(*self, *host)));
                c
            },
            TaskKind::Exec => {
                let c = PlannedCommand::new(task.command.clone()).args(copy_strings(&task.args));
                c
            },
            TaskKind::Shell => {
                let c = PlannedCommand::new(self.shell(host)).arg(owned("-c")).arg(task.command.clone());
                assert(c@ =~= task_command(task.kind, spec_python_exe(env_path@), task.command@, strs(task.args@), spec_shell(*self, *host)));
                c
            },
        };
        Ok(command.cwd(cwd).envs(env_vars))
    }

    /// Build the command to run a Python script file directly.
    pub fn plan_script(&self, view: &ProjectView, script: &str, args: &[String], env_name: &str, host: &Host) -> (r: Result<PlannedCommand, ServiceError>)
        ensures
            spec_env_path(*self, *view, env_name@) is None ==> (r matches Err(
                ServiceError::EnvNotDefined(n),
            ) && n@ == env_name@),
            spec_env_path(*self, *view, env_name@) matches Some(env) ==> (r matches Ok(c) && c@
                == with_env(
                with_cwd(
                    with_args(command_of(spec_python_exe(env)), seq![script@] + strs(args@)),
                    view.entry.path@,
                ),
                spec_activation_env(env, host.path_var@, None),
            )),
    {
        let env_path = self.env_path(view, env_name)?;
        let env_vars = self.activation_env(env_path.as_str(), None, host);
        let python = python_exe(env_path.as_str());
        let c = PlannedCommand::new(python).arg(owned(script)).args(crate::backend::to_owned_strings(args));
        assert(c@ =~= with_args(command_of(spec_python_exe(env_path@)), seq![script@] + strs(args@)));
        Ok(c.cwd(view.entry.path.clone()).envs(env_vars))
    }

    /// Build a command that opens an interactive shell with the env activated.
    pub fn plan_shell(&self, view: &ProjectView, env_name: &str, host: &Host) -> (r: Result<PlannedCommand, ServiceError>)
        ensures
            spec_env_path(*self, *view, env_name@) is None ==> (r matches Err(
                ServiceError::EnvNotDefined(n),
            ) && n@ == env_name@),
            spec_env_path(*self, *view, env_name@) matches Some(env) ==> (r matches Ok(c) && c@
                == with_env(
                with_cwd(command_of(spec_shell(*self, *host)), view.entry.path@),
                spec_activation_env(env, host.path_var@, None),
            )),
    {
        let env_path = self.env_path(view, env_name)?;
        let env_vars = self.activation_env(env_path.as_str(), None, host);
        Ok(PlannedCommand::new(self.shell(host)).cwd(view.entry.path.clone()).envs(env_vars))
    }
}

} // verus!

verus! {

/// The script names looked for first, in order.
pub open spec fn script_candidates() -> Seq<Seq<char>> {
    seq!["main.py"@, "app.py"@, "run.py"@, "manage.py"@, "__main__.py"@]
}

/// The requirements files looked for first, in order.
pub open spec fn requirements_candidates() -> Seq<Seq<char>> {
    seq!["requirements.txt"@, "requirements-dev.txt"@, "dev-requirements.txt"@, "requirements/base.txt"@]
}

/// The candidates whose flag in `present` is set, in order.
pub open spec fn present_candidates(c: Seq<Seq<char>>, present: Seq<bool>) -> Seq<Seq<char>>
    decreases c.len(),
{
    if c.len() == 0 || present.len() < c.len() {
        Seq::empty()
    } else {
        let rest = present_candidates(c.drop_last(), present.take(c.len() - 1));
        if present[c.len() - 1] {
            rest.push(c.last())
        } else {
            rest
        }
    }
}

/// `found` extended with each entry that is not already listed and that is
/// a requirements file (`reqs`) or a Python file (`!reqs`), in order.
pub open spec fn add_new(found: Seq<Seq<char>>, entries: Seq<Seq<char>>, reqs: bool) -> Seq<Seq<char>>
    decreases entries.len(),
{
    if entries.len() == 0 {
        found
    } else {
        let prev = add_new(found, entries.drop_last(), reqs);
        let e = entries.last();
        let keep = if reqs {
            is_requirements_file(e)
        } else {
            is_py_file(e)
        };
        if keep && !prev.contains(e) {
            prev.push(e)
        } else {
            prev
        }
    }
}

/// A top-level Python file name.
pub open spec fn is_py_file(n: Seq<char>) -> bool {
    crate::text::ends_with(n, ".py"@)
}

/// A name of the form `requirements*.txt`.
pub open spec fn is_requirements_file(n: Seq<char>) -> bool {
    crate::text::starts_with(n, "requirements"@) && crate::text::ends_with(n, ".txt"@)
}

/// The names [`discover_scripts`] collects before sorting.
pub open spec fn collected_scripts(present: Seq<bool>, entries: Seq<Seq<char>>) -> Seq<Seq<char>> {
    add_new(present_candidates(script_candidates(), present), entries, false)
}

/// The names [`discover_requirements`] reports.
pub open spec fn collected_requirements(present: Seq<bool>, entries: Seq<Seq<char>>) -> Seq<Seq<char>> {
    add_new(present_candidates(requirements_candidates(), present), entries, true)
}

/// The script names to check for existence, in order.
pub fn script_candidate_names() -> (r: Vec<String>)
    ensures
        strs(r@) == script_candidates(),
{
    let r = vec![owned("main.py"), owned("app.py"), owned("run.py"), owned("manage.py"), owned("__main__.py")];
    assert(strs(r@) =~= script_candidates());
    r
}

/// The requirements files to check for existence, in order.
pub fn requirements_candidate_names() -> (r: Vec<String>)
    ensures
        strs(r@) == requirements_candidates(),
{
    let r = vec![owned("requirements.txt"), owned("requirements-dev.txt"), owned("dev-requirements.txt"), owned("requirements/base.txt")];
    assert(strs(r@) =~= requirements_candidates());
    r
}

fn keep_present(names: &Vec<String>, present: &Vec<bool>) -> (r: Vec<String>)
    requires
        present.len() == names.len(),
    ensures
        strs(r@) == present_candidates(strs(names@), present@),
{
    let mut r: Vec<String> = Vec::new();
    let mut i: usize = 0;
    while i < names.len()
        invariant
            present.len() == names.len(),
            i <= names.len(),
            strs(r@) == present_candidates(strs(names@.take(i as int)), present@.take(i as int)),
        decreases names.len() - i,
    {
        let ghost prev = r@;
        assert(strs(names@.take(i + 1)).drop_last() =~= strs(names@.take(i as int)));
        assert(present@.take(i + 1).take(i as int) =~= present@.take(i as int));
        if present[i] {
            r.push(names[i].clone());
            assert(strs(r@) =~= strs(prev).push(names@[i as int]@));
        }
        i = i + 1;
    }
    assert(names@.take(names.len() as int) =~= names@);
    assert(present@.take(names.len() as int) =~= present@);
    r
}

fn contains_str(v: &Vec<String>, s: &str) -> (r: bool)
    ensures
        r == strs(v@).contains(s@),
{
    let mut i: usize = 0;
    while i < v.len()
        invariant
            i <= v.len(),
            forall|k: int| 0 <= k < i ==> v@[k]@ != s@,
        decreases v.len() - i,
    {
        if str_eq(v[i].as_str(), s) {
            assert(strs(v@)[i as int] == s@);
            return true;
        }
        i = i + 1;
    }
    proof {
        if strs(v@).contains(s@) {
            let k = choose|k: int| 0 <= k < strs(v@).len() && strs(v@)[k] == s@;
            assert(v@[k]@ == s@);
        }
    }
    false
}

/// Candidate Python entry-point scripts at the project root, sorted:
/// `present[i]` tells whether the `i`-th of [`script_candidate_names`]
/// exists, and `entries` are the names of the root's directory entries.
pub fn discover_scripts(present: &Vec<bool>, entries: &Vec<String>) -> (r: Vec<String>)
    requires
        present.len() == 5,
    ensures
        crate::text::sorted_strs(strs(r@)),
        exists|order: Seq<int>|
            crate::text::is_permutation(order, collected_scripts(present@, strs(entries@)).len() as int)
                && r.len() == order.len() && forall|k: int|
                0 <= k < order.len() ==> (#[trigger] r@[k])@ == collected_scripts(present@, strs(entries@))[order[k]],
{
    let names = script_candidate_names();
    let mut scripts = keep_present(&names, present);
    let ghost start = strs(scripts@);
    let mut i: usize = 0;
    while i < entries.len()
        invariant
            strs(scripts@) == add_new(start, strs(entries@.take(i as int)), false),
            i <= entries.len(),
        decreases entries.len() - i,
    {
        let ghost prev = scripts@;
        assert(strs(entries@.take(i + 1)).drop_last() =~= strs(entries@.take(i as int)));
        let name = &entries[i];
        let cs = crate::text::chars_of(name.as_str());
        if crate::text::ends_with_lit(&cs, ".py") && !contains_str(&scripts, name.as_str()) {
            scripts.push(name.clone());
            assert(strs(scripts@) =~= strs(prev).push(name@));
        }
        i = i + 1;
    }
    assert(entries@.take(entries.len() as int) =~= entries@);
    let ghost collected = strs(scripts@);
    assert(collected == collected_scripts(present@, strs(entries@)));
    let sorted = crate::text::sort_strings(scripts);
    sorted
}

/// Requirements files at the project root: `present[i]` tells whether the
/// `i`-th of [`requirements_candidate_names`] exists, and `entries` are the
/// names of the root's directory entries.
pub fn discover_requirements(present: &Vec<bool>, entries: &Vec<String>) -> (r: Vec<String>)
    requires
        present.len() == 4,
    ensures
        strs(r@) == collected_requirements(present@, strs(entries@)),
{
    let names = requirements_candidate_names();
    let mut files = keep_present(&names, present);
    let ghost start = strs(files@);
    let mut i: usize = 0;
    while i < entries.len()
        invariant
            strs(files@) == add_new(start, strs(entries@.take(i as int)), true),
            i <= entries.len(),
        decreases entries.len() - i,
    {
        let ghost prev = files@;
        assert(strs(entries@.take(i + 1)).drop_last() =~= strs(entries@.take(i as int)));
        let name = &entries[i];
        let cs = crate::text::chars_of(name.as_str());
        if crate::text::starts_with_lit(&cs, "requirements") && crate::text::ends_with_lit(&cs, ".txt")
            && !contains_str(&files, name.as_str()) {
            files.push(name.clone());
            assert(strs(files@) =~= strs(prev).push(name@));
        }
        i = i + 1;
    }
    assert(entries@.take(entries.len() as int) =~= entries@);
    files
}

} // verus!

verus! {

/// The status and interpreter version of an environment directory, from
/// what the file system reports: whether the directory exists, whether its
/// interpreter exists, and the version the interpreter reported (if it ran).
pub open spec fn spec_probe(env_exists: bool, python_exists: bool, version: Option<Seq<char>>) -> (EnvStatus, Option<Seq<char>>) {
    if !env_exists {
        (EnvStatus::Missing, None)
    } else if !python_exists {
        (EnvStatus::Empty, None)
    } else {
        match version {
            Some(v) => (EnvStatus::Ready, Some(v)),
            None => (EnvStatus::Broken, None),
        }
    }
}

/// Classify an environment directory.
pub fn probe_env(env_exists: bool, python_exists: bool, version: Option<String>) -> (r: (EnvStatus, Option<String>))
    ensures
        (r.0, opt_view(r.1)) == spec_probe(env_exists, python_exists, opt_view(version)),
{
    if !env_exists {
        return (EnvStatus::Missing, None);
    }
    if !python_exists {
        return (EnvStatus::Empty, None);
    }
    match version {
        Some(v) => (EnvStatus::Ready, Some(v)),
        None => (EnvStatus::Broken, None),
    }
}

/// The models of a list of environment specs.
pub open spec fn specs_view(v: Seq<EnvSpec>) -> Seq<EnvSpecView> {
    v.map_values(|e: EnvSpec| e@)
}

/// The models of a list of resolved environments.
pub open spec fn infos_view(v: Seq<EnvInfo>) -> Seq<(Seq<char>, Seq<char>, Option<Seq<char>>, EnvStatus, BackendKind, Option<usize>)> {
    v.map_values(|e: EnvInfo| env_info_view(e))
}

/// The environments a project declares, or the conventional default one.
pub open spec fn spec_environment_specs(s: Service, m: ProjectManifest) -> Seq<EnvSpecView> {
    if m.environments@.len() == 0 {
        seq![EnvSpecView {
            name: "default"@,
            path: Some(s.config.python.default_venv_name@),
            python: opt_view(m.python),
            requirements: None,
        }]
    } else {
        specs_view(m.environments@)
    }
}

/// The model of a resolved environment.
pub open spec fn env_info_view(e: EnvInfo) -> (Seq<char>, Seq<char>, Option<Seq<char>>, EnvStatus, BackendKind, Option<usize>) {
    (e.name@, e.path@, opt_view(e.python_version), e.status, e.backend, e.package_count)
}

/// The resolved environments of a project, given a probe result per
/// declared environment.
pub open spec fn spec_resolved_envs(specs: Seq<EnvSpecView>, root: Seq<char>, kind: BackendKind, probes: Seq<(EnvStatus, Option<Seq<char>>)>) -> Seq<(Seq<char>, Seq<char>, Option<Seq<char>>, EnvStatus, BackendKind, Option<usize>)> {
    Seq::new(specs.len(), |i: int| (specs[i].name, join(root, spec_relative_path(specs[i])), probes[i].1, probes[i].0, kind, None))
}

/// The models of a list of probe results.
pub open spec fn probes_view(p: Seq<(EnvStatus, Option<String>)>) -> Seq<(EnvStatus, Option<Seq<char>>)> {
    p.map_values(|x: (EnvStatus, Option<String>)| (x.0, opt_view(x.1)))
}

impl Service {
    /// The environments a project declares, or the conventional default one.
    pub fn environment_specs(&self, manifest: &ProjectManifest) -> (r: Vec<EnvSpec>)
        ensures
            specs_view(r@) == spec_environment_specs(*self, *manifest),
    {
        let mut r: Vec<EnvSpec> = Vec::new();
        if manifest.environments.len() == 0 {
            r.push(EnvSpec {
                name: owned("default"),
                path: Some(self.config.python.default_venv_name.clone()),
                python: copy_opt(&manifest.python),
                requirements: None,
            });
            assert(specs_view(r@) =~= spec_environment_specs(*self, *manifest));
            return r;
        }
        let mut i: usize = 0;
        while i < manifest.environments.len()
            invariant
                i <= manifest.environments.len(),
                specs_view(r@) == specs_view(manifest.environments@.take(i as int)),
            decreases manifest.environments.len() - i,
        {
            let ghost prev = r@;
            r.push(manifest.environments[i].copied());
            assert(specs_view(r@) =~= specs_view(prev).push(manifest.environments@[i as int]@));
            assert(specs_view(manifest.environments@.take(i + 1)) =~= specs_view(manifest.environments@.take(i as int)).push(manifest.environments@[i as int]@));
            i = i + 1;
        }
        assert(manifest.environments@.take(manifest.environments.len() as int) =~= manifest.environments@);
        r
    }

    /// The directories of the environments a project declares, in order
    /// (what must be probed before [`Service::load_view`]).
    pub fn environment_dirs(&self, entry: &ProjectEntry, manifest: &ProjectManifest) -> (r: Vec<String>)
        ensures
            r.len() == spec_environment_specs(*self, *manifest).len(),
            forall|i: int| 0 <= i < r.len() ==> (#[trigger] r@[i])@ == join(entry.path@, spec_relative_path(spec_environment_specs(*self, *manifest)[i])),
    {
        let specs = self.environment_specs(manifest);
        let ghost sv = specs_view(specs@);
        let mut r: Vec<String> = Vec::new();
        let mut i: usize = 0;
        while i < specs.len()
            invariant
                sv == specs_view(specs@),
                i <= specs.len(),
                r.len() == i,
                forall|k: int| 0 <= k < i ==> (#[trigger] r@[k])@ == join(entry.path@, spec_relative_path(sv[k])),
            decreases specs.len() - i,
        {
            let rel = specs[i].relative_path();
            r.push(join_path(entry.path.as_str(), rel.as_str()));
            i = i + 1;
        }
        r
    }

    /// Resolve a project's environments from one probe result per declared
    /// environment (see [`probe_env`]).
    pub fn resolve_environments(&self, entry: &ProjectEntry, manifest: &ProjectManifest, backend_kind: BackendKind, probes: &Vec<(EnvStatus, Option<String>)>) -> (r: Vec<EnvInfo>)
        requires
            probes.len() == spec_environment_specs(*self, *manifest).len(),
        ensures
            infos_view(r@) == spec_resolved_envs(spec_environment_specs(*self, *manifest), entry.path@, backend_kind, probes_view(probes@)),
    {
        let specs = self.environment_specs(manifest);
        let ghost sv = specs_view(specs@);
        let ghost expected = spec_resolved_envs(sv, entry.path@, backend_kind, probes_view(probes@));
        let mut r: Vec<EnvInfo> = Vec::new();
        let mut i: usize = 0;
        while i < specs.len()
            invariant
                sv == specs_view(specs@),
                expected == spec_resolved_envs(sv, entry.path@, backend_kind, probes_view(probes@)),
                probes.len() == specs.len(),
                i <= specs.len(),
                infos_view(r@) == expected.take(i as int),
            decreases specs.len() - i,
        {
            let rel = specs[i].relative_path();
            let info = EnvInfo {
                name: specs[i].name.clone(),
                path: join_path(entry.path.as_str(), rel.as_str()),
                python_version: copy_opt(&probes[i].1),
                status: probes[i].0,
                backend: backend_kind,
                package_count: None,
            };
            let ghost prev = r@;
            let ghost iv = env_info_view(info);
            r.push(info);
            assert(infos_view(r@) =~= infos_view(prev).push(iv));
            assert(expected.take(i + 1) =~= expected.take(i as int).push(expected[i as int]));
            assert(iv == expected[i as int]);
            i = i + 1;
        }
        assert(expected.take(specs.len() as int) =~= expected);
        r
    }

    /// Build a resolved view of a project from its manifest and what the
    /// system reports about it: whether `uv` is available, one probe result
    /// per declared environment, the discovered scripts and requirements files.
    pub fn load_view(
        &self,
        entry: &ProjectEntry,
        manifest: ProjectManifest,
        uv_available: bool,
        probes: &Vec<(EnvStatus, Option<String>)>,
        scripts: Vec<String>,
        requirements_files: Vec<String>,
    ) -> (r: ProjectView)
        requires
            probes.len() == spec_environment_specs(*self, manifest).len(),
        ensures
            r.entry@ == entry@,
            r.manifest == manifest,
            infos_view(r.environments@) == spec_resolved_envs(
                spec_environment_specs(*self, manifest),
                entry.path@,
                spec_effective_kind(*self, *entry, manifest, uv_available),
                probes_view(probes@),
            ),
            crate::domain::tasks_view(r.tasks@) == crate::domain::tasks_view(manifest.tasks@),
            r.scripts == scripts,
            r.requirements_files == requirements_files,
    {
        let kind = self.effective_backend_kind(entry, &manifest, uv_available);
        let environments = self.resolve_environments(entry, &manifest, kind, probes);
        let tasks = crate::domain::copy_tasks(&manifest.tasks);
        ProjectView {
            entry: entry.copied(),
            tasks,
            manifest,
            environments,
            scripts,
            requirements_files,
        }
    }
}

} // verus!

verus! {

/// Calls `chrono::Local::now` (the current date and time in the local time
/// zone) and hands it back as its RFC 3339 text (`DateTime::to_rfc3339`).
/// Nothing is stated of the result: it depends on the clock and the zone.
#[verifier::external_body]
fn local_now_rfc3339() -> String {
    chrono::Local::now().to_rfc3339()
}

/// The name a new registry entry gets: the final path component, else
/// `project`.
pub open spec fn spec_entry_name(path: Seq<char>) -> Seq<char> {
    match crate::paths::file_name(path) {
        Some(n) => n,
        None => "project"@,
    }
}

/// A fresh registry entry for a canonical project path, added at `added`.
pub fn entry_for(canonical: &str, added: String) -> (r: ProjectEntry)
    ensures
        r.id@ == crate::registry::spec_project_id(canonical@),
        r.name@ == spec_entry_name(canonical@),
        r.path@ == canonical@,
        r.backend is None,
        r.default_env is None,
        r.added == added,
{
    let name = match crate::paths::file_name_of(canonical) {
        Some(n) => n,
        None => owned("project"),
    };
    ProjectEntry {
        id: crate::registry::project_id(canonical),
        name,
        path: owned(canonical),
        backend: None,
        default_env: None,
        added,
    }
}

/// A fresh registry entry for a canonical project path, stamped with the
/// current local time.
pub fn entry_from_path(canonical: &str) -> (r: ProjectEntry)
    ensures
        r.id@ == crate::registry::spec_project_id(canonical@),
        r.name@ == spec_entry_name(canonical@),
        r.path@ == canonical@,
        r.backend is None,
        r.default_env is None,
{
    entry_for(canonical, local_now_rfc3339())
}

/// The manifest of a newly created project.
pub open spec fn new_manifest_ok(m: ProjectManifest, name: Seq<char>, python: Option<Seq<char>>, backend: Option<BackendKind>, venv: Seq<char>) -> bool {
    &&& opt_view(m.name) == Some(name)
    &&& opt_view(m.python) == python
    &&& m.backend == backend
    &&& specs_view(m.environments@) == seq![EnvSpecView {
        name: "default"@,
        path: Some(venv),
        python,
        requirements: Some("requirements.txt"@),
    }]
    &&& m.tasks@.len() == 0
}

impl Service {
    /// Register (or re-register) the project at canonical path `canonical`
    /// whose manifest is `manifest`, returning the stored entry;
    /// `registered[i]` is the canonical path of the `i`-th registered project.
    /// The caller persists the registry.
    pub fn import_project(&mut self, canonical: &str, manifest: &ProjectManifest, registered: &Vec<String>) -> (r: ProjectEntry)
        requires
            registered.len() == old(self).registry.projects.len(),
        ensures
            r.id@ == crate::registry::spec_project_id(canonical@),
            r.path@ == canonical@,
            r.default_env is None,
            r@.name == (match manifest.name {
                Some(n) => n@,
                None => spec_entry_name(canonical@),
            }),
            r.backend == manifest.backend,
            final(self).config == old(self).config,
            final(self).registry@ == crate::registry::spec_upsert(old(self).registry@, strs(registered@), canonical@, r@),
    {
        let mut entry = entry_from_path(canonical);
        if let Some(name) = &manifest.name {
            entry.name = name.clone();
        }
        if let Some(backend) = manifest.backend {
            entry.backend = Some(backend);
        }
        self.registry.upsert(entry.copied(), registered, canonical);
        entry
    }

    /// Create a brand-new project at canonical path `canonical`: the manifest
    /// to write into it and the registry entry, which is stored. The caller
    /// creates the directory, writes the manifest and persists the registry;
    /// `registered[i]` is the canonical path of the `i`-th registered project.
    pub fn create_project(
        &mut self,
        name: &str,
        canonical: &str,
        python: Option<&str>,
        backend: Option<BackendKind>,
        registered: &Vec<String>,
    ) -> (r: (ProjectManifest, ProjectEntry))
        requires
            registered.len() == old(self).registry.projects.len(),
        ensures
            new_manifest_ok(r.0, name@, opt_str(python), backend, old(self).config.python.default_venv_name@),
            r.1.id@ == crate::registry::spec_project_id(canonical@),
            r.1.name@ == name@,
            r.1.path@ == canonical@,
            r.1.backend == backend,
            r.1@.default_env == Some("default"@),
            final(self).config == old(self).config,
            final(self).registry@ == crate::registry::spec_upsert(old(self).registry@, strs(registered@), canonical@, r.1@),
    {
        let py: Option<String> = match python {
            Some(p) => Some(owned(p)),
            None => None,
        };
        let spec = EnvSpec {
            name: owned("default"),
            path: Some(self.config.python.default_venv_name.clone()),
            python: copy_opt(&py),
            requirements: Some(owned("requirements.txt")),
        };
        let environments = vec![spec];
        let manifest = ProjectManifest {
            name: Some(owned(name)),
            python: py,
            backend,
            environments,
            tasks: Vec::new(),
        };
        assert(specs_view(manifest.environments@) =~= seq![manifest.environments@[0]@]);
        let mut entry = entry_from_path(canonical);
        entry.name = owned(name);
        entry.backend = backend;
        entry.default_env = Some(owned("default"));
        self.registry.upsert(entry.copied(), registered, canonical);
        (manifest, entry)
    }
}

/// The nearest directory at or above `start` that holds a manifest, given
/// `has_manifest[i]` for the `i`-th of `ancestors(start)`.
pub open spec fn spec_project_root(dirs: Seq<Seq<char>>, has_manifest: Seq<bool>, i: int) -> Option<Seq<char>>
    decreases dirs.len() - i,
{
    if i < 0 || i >= dirs.len() || i >= has_manifest.len() {
        None
    } else if has_manifest[i] {
        Some(dirs[i])
    } else {
        spec_project_root(dirs, has_manifest, i + 1)
    }
}

/// Walk up from `start` looking for a directory containing a manifest;
/// `has_manifest[i]` tells whether the `i`-th directory of
/// [`crate::paths::ancestor_dirs`]`(start)` holds one.
pub fn find_project_root(start: &str, has_manifest: &Vec<bool>) -> (r: Option<String>)
    requires
        has_manifest.len() == crate::paths::ancestors(start@).len(),
    ensures
        r matches Some(d) ==> spec_project_root(crate::paths::ancestors(start@), has_manifest@, 0) == Some(d@),
        r is None ==> spec_project_root(crate::paths::ancestors(start@), has_manifest@, 0) is None,
{
    let dirs = crate::paths::ancestor_dirs(start);
    let ghost ds = strs(dirs@);
    let mut i: usize = 0;
    while i < dirs.len()
        invariant
            ds == strs(dirs@),
            ds == crate::paths::ancestors(start@),
            has_manifest.len() == dirs.len(),
            i <= dirs.len(),
            spec_project_root(ds, has_manifest@, 0) == spec_project_root(ds, has_manifest@, i as int),
        decreases dirs.len() - i,
    {
        if has_manifest[i] {
            return Some(dirs[i].clone());
        }
        i = i + 1;
    }
    None
}

} // verus!

verus! {

/// What the file system says about the places a project is looked up at.
#[derive(Debug, Clone)]
pub struct EntryProbe {
    /// The canonical path of each registered project, in registry order.
    pub registered: Vec<String>,
    /// When the selector names an existing path: its canonical form.
    pub selector_path: Option<String>,
    /// The canonical current directory.
    pub cwd: String,
    /// The canonical project root found from the current directory, if any.
    pub root: Option<String>,
}

/// Why no project could be selected.
#[derive(Debug, Clone)]
pub enum ResolveError {
    /// No project is named or located at the selector.
    NotFound(String),
    /// No selector was given and the current directory is in no project.
    NoProjectHere,
}

/// A fresh registry entry for canonical path `p` (any timestamp).
pub open spec fn fresh_entry(e: ProjectEntry, p: Seq<char>) -> bool {
    &&& e.id@ == crate::registry::spec_project_id(p)
    &&& e.name@ == spec_entry_name(p)
    &&& e.path@ == p
    &&& e.backend is None
    &&& e.default_env is None
}

/// The entry for the project at canonical path `p`: the registered one, else
/// a fresh entry.
pub open spec fn located(
    reg: Seq<crate::registry::EntryView>,
    probe: EntryProbe,
    p: Seq<char>,
    r: Result<ProjectEntry, ResolveError>,
) -> bool {
    match crate::registry::index_of_path_from(strs(probe.registered@), p, 0) {
        Some(i) => r matches Ok(e) && e@ == reg[i],
        None => r matches Ok(e) && fresh_entry(e, p),
    }
}

impl Service {
    /// The registered entry at canonical path `p`, else a fresh one.
    fn locate(&self, probe: &EntryProbe, p: &str) -> (r: Result<ProjectEntry, ResolveError>)
        requires
            probe.registered.len() == self.registry.projects.len(),
        ensures
            located(self.registry@, *probe, p@, r),
    {
        match self.registry.find_by_path(p, &probe.registered) {
            Some(e) => Ok(e.copied()),
            None => Ok(entry_from_path(p)),
        }
    }

    /// Select a project: by name (ignoring ASCII case), else by an existing
    /// path (registered or not); without a selector, the project whose root
    /// holds the current directory, else a registered project at the
    /// current directory.
    pub fn resolve_entry(&self, selector: Option<&str>, probe: &EntryProbe) -> (r: Result<ProjectEntry, ResolveError>)
        requires
            probe.registered.len() == self.registry.projects.len(),
        ensures
            match selector {
                Some(s) => match crate::registry::index_of_name_from(self.registry@, s@, 0) {
                    Some(i) => r matches Ok(e) && e@ == self.registry@[i],
                    None => match probe.selector_path {
                        Some(c) => located(self.registry@, *probe, c@, r),
                        None => r matches Err(ResolveError::NotFound(t)) && t@ == s@,
                    },
                },
                None => match probe.root {
                    Some(rt) => located(self.registry@, *probe, rt@, r),
                    None => match crate::registry::index_of_path_from(strs(probe.registered@), probe.cwd@, 0) {
                        Some(i) => r matches Ok(e) && e@ == self.registry@[i],
                        None => r matches Err(ResolveError::NoProjectHere),
                    },
                },
            },
    {
        match selector {
            Some(s) => {
                if let Some(found) = self.registry.find_by_name(s) {
                    return Ok(found.copied());
                }
                match &probe.selector_path {
                    Some(c) => self.locate(probe, c.as_str()),
                    None => Err(ResolveError::NotFound(owned(s))),
                }
            },
            None => {
                match &probe.root {
                    Some(rt) => self.locate(probe, rt.as_str()),
                    None => match self.registry.find_by_path(probe.cwd.as_str(), &probe.registered) {
                        Some(e) => Ok(e.copied()),
                        None => Err(ResolveError::NoProjectHere),
                    },
                }
            },
        }
    }
}

} // verus!

verus! {

/// The backend a project runs with: the project's own choice (its registry
/// entry's, else its manifest's) wins; without one, the configured
/// preference decides (`venv` always gives venv, `uv` gives uv or nothing
/// when it is missing, `auto` gives uv exactly when it is available); a
/// request for uv where it is missing selects nothing.
pub proof fn law_backend_follows_choice_then_config(s: Service, entry: ProjectEntry, m: ProjectManifest, h: Host)
    ensures
        ({
            let chosen: Option<BackendKind> = match entry.backend {
                Some(k) => Some(k),
                None => m.backend,
            };
            let wanted: Option<BackendKind> = match chosen {
                Some(k) => Some(k),
                None => match s.config.backend {
                    crate::config::BackendPreference::Auto => None,
                    crate::config::BackendPreference::Uv => Some(BackendKind::Uv),
                    crate::config::BackendPreference::Venv => Some(BackendKind::Venv),
                },
            };
            spec_backend_kind(s, entry, m, h) == match wanted {
                Some(BackendKind::Venv) => Some(BackendKind::Venv),
                Some(BackendKind::Uv) => if h.uv_available {
                    Some(BackendKind::Uv)
                } else {
                    None
                },
                None => Some(
                    if h.uv_available {
                        BackendKind::Uv
                    } else {
                        BackendKind::Venv
                    },
                ),
            }
        }),
        entry.backend is None && m.backend is None && s.config.backend == crate::config::BackendPreference::Venv
            ==> spec_backend_kind(s, entry, m, h) == Some(BackendKind::Venv),
{
}

/// A task runs with its arguments: for every kind but a shell command line,
/// the planned arguments end with the task's arguments, preceded by the
/// script or module for script and module tasks, which run with the
/// environment's interpreter; an exec task runs its command as the program;
/// a shell task hands the whole command line to the shell as its last
/// argument.
pub proof fn law_task_runs_with_its_arguments(
    kind: TaskKind,
    python: Seq<char>,
    command: Seq<char>,
    args: Seq<Seq<char>>,
    shell: Seq<char>,
)
    ensures
        ({
            let c = task_command(kind, python, command, args, shell);
            &&& kind != TaskKind::Shell ==> c.args.len() >= args.len() && c.args.subrange(
                c.args.len() - args.len(),
                c.args.len() as int,
            ) == args
            &&& (kind == TaskKind::Script || kind == TaskKind::Module) ==> c.program == python
                && c.args.len() > args.len() && c.args[c.args.len() - args.len() - 1] == command
            &&& kind == TaskKind::Script ==> c.args == seq![command] + args
            &&& kind == TaskKind::Exec ==> c.program == command && c.args == args
            &&& kind == TaskKind::Shell ==> c.program == shell && c.args.len() > 0 && c.args.last()
                == command
            &&& c.cwd is None && c.env.len() == 0
        }),
{
    let c = task_command(kind, python, command, args, shell);
    match kind {
        TaskKind::Script => {
            assert(c.args =~= seq![command] + args);
            assert(c.args.subrange(c.args.len() - args.len(), c.args.len() as int) =~= args);
        },
        TaskKind::Module => {
            assert(c.args =~= seq!["-m"@, command] + args);
            assert(c.args.subrange(c.args.len() - args.len(), c.args.len() as int) =~= args);
        },
        TaskKind::Exec => {
            assert(c.args =~= args);
            assert(c.args.subrange(0, c.args.len() as int) =~= args);
        },
        TaskKind::Shell => {
            assert(c.args =~= seq!["-c"@, command]);
        },
    }
}

} // verus!

verus! {

proof fn lemma_dotenv_key(raw: Seq<char>)
    ensures
        dotenv_entry(raw) matches Some(e) ==> crate::text::trim(e.0) == e.0 && e.0.len() > 0
            && !e.0.contains('='),
{
    if let Some(e) = dotenv_entry(raw) {
        let l = crate::text::trim(raw);
        let l2 = if crate::text::starts_with(l, "export "@) {
            l.subrange(7, l.len() as int)
        } else {
            l
        };
        reveal_strlit("=");
        crate::text::lemma_find_from(l2, "="@, 0);
        let i = crate::text::find(l2, "="@)->0;
        let k0 = l2.subrange(0, i);
        assert forall|j: int| 0 <= j < k0.len() implies k0[j] != '=' by {
            assert(!crate::text::matches_at(l2, "="@, j));
            if k0[j] == '=' {
                assert(l2.subrange(j, j + 1) =~= "="@);
            }
        }
        let ab = crate::text::lemma_trim_window(k0);
        crate::text::law_trim_idempotent(k0);
        assert(e.0 == crate::text::trim(k0));
        if e.0.contains('=') {
            let j = choose|j: int| 0 <= j < e.0.len() && e.0[j] == '=';
            assert(e.0[j] == k0[ab.0 + j]);
        }
    }
}

/// Every variable a dotenv text sets has a non-empty key that neither starts
/// nor ends with whitespace and holds no `=`: `DEBUG = true` sets `DEBUG`.
pub proof fn law_dotenv_keys_are_trimmed(ls: Seq<Seq<char>>)
    ensures
        forall|i: int|
            0 <= i < dotenv_pairs(ls).len() ==> {
                let k = #[trigger] dotenv_pairs(ls)[i].0;
                &&& crate::text::trim(k) == k
                &&& k.len() > 0
                &&& !k.contains('=')
            },
    decreases ls.len(),
{
    if ls.len() > 0 {
        law_dotenv_keys_are_trimmed(ls.drop_last());
        lemma_dotenv_key(ls.last());
        let rest = dotenv_pairs(ls.drop_last());
        assert forall|i: int| 0 <= i < dotenv_pairs(ls).len() implies {
            let k = #[trigger] dotenv_pairs(ls)[i].0;
            &&& crate::text::trim(k) == k
            &&& k.len() > 0
            &&& !k.contains('=')
        } by {
            if i < rest.len() {
                assert(dotenv_pairs(ls)[i] == rest[i]);
            }
        }
    }
}

} // verus!
