//! Core domain types shared across the whole application.
//!
//! These types are free of I/O and UI concerns so the service layer, the CLI
//! and the TUI can share them.

use vstd::prelude::*;

use crate::text::{
    join, join_strings, lower_trimmed, owned, strs, to_ascii_lower, trim, eq_lit,
};

verus! {

/// Which tool backs environment and package operations.
#[derive(Debug, Clone, Copy, PartialEq, Eq, Structural)]
pub enum BackendKind {
    /// The `uv` tool (fast, preferred when available).
    Uv,
    /// The standard library `venv` module plus `pip`.
    Venv,
}

/// The backend named by already trimmed, lower-cased input.
pub open spec fn backend_kind_named(t: Seq<char>) -> Option<BackendKind> {
    if t == "uv"@ {
        Some(BackendKind::Uv)
    } else if t == "venv"@ || t == "pip"@ || t == "std"@ || t == "standard"@ {
        Some(BackendKind::Venv)
    } else {
        None
    }
}

/// The stable label of a backend kind.
pub open spec fn backend_kind_label(k: BackendKind) -> Seq<char> {
    match k {
        BackendKind::Uv => "uv"@,
        BackendKind::Venv => "venv"@,
    }
}

impl BackendKind {
    /// A short, stable label for display and serialization.
    pub fn label(self) -> (r: &'static str)
        ensures
            r@ == backend_kind_label(self),
    {
        match self {
            BackendKind::Uv => "uv",
            BackendKind::Venv => "venv",
        }
    }

    /// Parse a backend name from user input (trimmed, case-insensitive).
    pub fn parse(value: &str) -> (r: Option<BackendKind>)
        ensures
            r == backend_kind_named(to_ascii_lower(trim(value@))),
    {
        let t = lower_trimmed(value);
        let n = t.len();
        assert(t@.subrange(0, n as int) == t@);
        if eq_lit(&t, 0, n, "uv") {
            Some(BackendKind::Uv)
        } else if eq_lit(&t, 0, n, "venv") || eq_lit(&t, 0, n, "pip") || eq_lit(&t, 0, n, "std")
            || eq_lit(&t, 0, n, "standard") {
            Some(BackendKind::Venv)
        } else {
            None
        }
    }
}

/// The health of a resolved environment.
#[derive(Debug, Clone, Copy, PartialEq, Eq, Structural)]
pub enum EnvStatus {
    /// The environment exists and its interpreter is runnable.
    Ready,
    /// The environment directory exists but contains no interpreter.
    Empty,
    /// The environment is declared but the directory does not exist.
    Missing,
    /// The interpreter is present but could not be executed.
    Broken,
    /// Status could not be determined.
    Unknown,
}

/// The display label of an environment status.
pub open spec fn env_status_label(s: EnvStatus) -> Seq<char> {
    match s {
        EnvStatus::Ready => "ready"@,
        EnvStatus::Empty => "empty"@,
        EnvStatus::Missing => "missing"@,
        EnvStatus::Broken => "broken"@,
        EnvStatus::Unknown => "unknown"@,
    }
}

impl EnvStatus {
    /// The display label of this status.
    pub fn label(self) -> (r: &'static str)
        ensures
            r@ == env_status_label(self),
    {
        match self {
            EnvStatus::Ready => "ready",
            EnvStatus::Empty => "empty",
            EnvStatus::Missing => "missing",
            EnvStatus::Broken => "broken",
            EnvStatus::Unknown => "unknown",
        }
    }
}

/// The view of an optional string.
pub open spec fn opt_view(o: Option<String>) -> Option<Seq<char>> {
    match o {
        Some(s) => Some(s@),
        None => None,
    }
}

/// An owned copy of an optional string.
pub fn copy_opt(o: &Option<String>) -> (r: Option<String>)
    ensures
        opt_view(r) == opt_view(*o),
{
    match o {
        Some(s) => Some(s.clone()),
        None => None,
    }
}

/// An owned copy of a list of strings.
pub fn copy_strings(v: &Vec<String>) -> (r: Vec<String>)
    ensures
        strs(r@) == strs(v@),
{
    let mut r: Vec<String> = Vec::new();
    let mut i: usize = 0;
    while i < v.len()
        invariant
            i <= v.len(),
            strs(r@) == strs(v@.take(i as int)),
        decreases v.len() - i,
    {
        r.push(v[i].clone());
        assert(strs(v@.take(i + 1)) =~= strs(v@.take(i as int)).push(v@[i as int]@));
        i = i + 1;
    }
    assert(v@.take(v.len() as int) =~= v@);
    r
}

/// A declared environment in a project manifest.
#[derive(Debug, Clone)]
pub struct EnvSpec {
    /// Logical name (e.g. `default`, `test`).
    pub name: String,
    /// Path to the environment, relative to the project root (default `.venv`).
    pub path: Option<String>,
    /// Requested Python version or interpreter path.
    pub python: Option<String>,
    /// Default requirements file used when installing into this environment.
    pub requirements: Option<String>,
}

/// The mathematical model of an [`EnvSpec`].
pub struct EnvSpecView {
    pub name: Seq<char>,
    pub path: Option<Seq<char>>,
    pub python: Option<Seq<char>>,
    pub requirements: Option<Seq<char>>,
}

impl View for EnvSpec {
    type V = EnvSpecView;

    open spec fn view(&self) -> EnvSpecView {
        EnvSpecView {
            name: self.name@,
            path: opt_view(self.path),
            python: opt_view(self.python),
            requirements: opt_view(self.requirements),
        }
    }
}

/// The relative environment directory of a spec, `.venv` by default.
pub open spec fn spec_relative_path(s: EnvSpecView) -> Seq<char> {
    match s.path {
        Some(p) => p,
        None => ".venv"@,
    }
}

impl EnvSpec {
    /// The environment directory relative path, defaulting to `.venv`.
    pub fn relative_path(&self) -> (r: String)
        ensures
            r@ == spec_relative_path(self@),
    {
        match &self.path {
            Some(p) => p.clone(),
            None => owned(".venv"),
        }
    }

    /// An owned copy with the same view.
    pub fn copied(&self) -> (r: EnvSpec)
        ensures
            r@ == self@,
    {
        EnvSpec {
            name: self.name.clone(),
            path: copy_opt(&self.path),
            python: copy_opt(&self.python),
            requirements: copy_opt(&self.requirements),
        }
    }
}

/// How a task should be launched.
#[derive(Debug, Clone, Copy, PartialEq, Eq, Structural)]
pub enum TaskKind {
    /// Run a Python script file with the environment interpreter.
    Script,
    /// Run a Python module (`python -m <module>`).
    Module,
    /// Run an arbitrary shell command line.
    Shell,
    /// Execute a program directly (found on the environment PATH).
    Exec,
}

impl Default for TaskKind {
    fn default() -> (r: TaskKind)
        ensures
            r == TaskKind::Script,
    {
        TaskKind::Script
    }
}

/// A saved, runnable task.
#[derive(Debug, Clone)]
pub struct Task {
    pub name: String,
    pub kind: TaskKind,
    /// Script path, module name, program name, or shell command line.
    pub command: String,
    pub args: Vec<String>,
    /// Working directory relative to the project root.
    pub cwd: Option<String>,
    /// Optional dotenv-style file to load before running.
    pub env_file: Option<String>,
    pub description: Option<String>,
}

/// The suffix that a task preview shows for its arguments.
pub open spec fn preview_args(args: Seq<Seq<char>>) -> Seq<char> {
    if args.len() == 0 {
        Seq::empty()
    } else {
        " "@ + join(args, " "@)
    }
}

/// The one-line preview of a task.
pub open spec fn spec_preview(kind: TaskKind, command: Seq<char>, args: Seq<Seq<char>>) -> Seq<
    char,
> {
    match kind {
        TaskKind::Script => "python "@ + command + preview_args(args),
        TaskKind::Module => "python -m "@ + command + preview_args(args),
        TaskKind::Shell => command,
        TaskKind::Exec => command + preview_args(args),
    }
}

impl Task {
    /// A compact one-line preview of what the task runs.
    pub fn preview(&self) -> (r: String)
        ensures
            r@ == spec_preview(self.kind, self.command@, strs(self.args@)),
    {
        let mut args = String::new();
        if self.args.len() > 0 {
            args.append(" ");
            let joined = join_strings(&self.args, " ");
            args.append(joined.as_str());
        }
        match self.kind {
            TaskKind::Script => {
                let mut r = owned("python ");
                r.append(self.command.as_str());
                r.append(args.as_str());
                r
            },
            TaskKind::Module => {
                let mut r = owned("python -m ");
                r.append(self.command.as_str());
                r.append(args.as_str());
                r
            },
            TaskKind::Shell => self.command.clone(),
            TaskKind::Exec => {
                let mut r = self.command.clone();
                r.append(args.as_str());
                r
            },
        }
    }
}

/// The model of a task.
pub open spec fn task_view(t: Task) -> (Seq<char>, TaskKind, Seq<char>, Seq<Seq<char>>, Option<Seq<char>>, Option<Seq<char>>, Option<Seq<char>>) {
    (t.name@, t.kind, t.command@, strs(t.args@), opt_view(t.cwd), opt_view(t.env_file), opt_view(t.description))
}

/// The models of a list of tasks.
pub open spec fn tasks_view(v: Seq<Task>) -> Seq<(Seq<char>, TaskKind, Seq<char>, Seq<Seq<char>>, Option<Seq<char>>, Option<Seq<char>>, Option<Seq<char>>)> {
    v.map_values(|t: Task| task_view(t))
}

impl Task {
    /// An owned copy with the same model.
    pub fn copied(&self) -> (r: Task)
        ensures
            task_view(r) == task_view(*self),
    {
        Task {
            name: self.name.clone(),
            kind: self.kind,
            command: self.command.clone(),
            args: copy_strings(&self.args),
            cwd: copy_opt(&self.cwd),
            env_file: copy_opt(&self.env_file),
            description: copy_opt(&self.description),
        }
    }
}

/// Owned copies of a list of tasks.
pub fn copy_tasks(v: &Vec<Task>) -> (r: Vec<Task>)
    ensures
        tasks_view(r@) == tasks_view(v@),
{
    let mut r: Vec<Task> = Vec::new();
    let mut i: usize = 0;
    while i < v.len()
        invariant
            i <= v.len(),
            tasks_view(r@) == tasks_view(v@.take(i as int)),
        decreases v.len() - i,
    {
        let ghost prev = r@;
        r.push(v[i].copied());
        assert(tasks_view(r@) =~= tasks_view(prev).push(task_view(v@[i as int])));
        assert(tasks_view(v@.take(i + 1)) =~= tasks_view(v@.take(i as int)).push(task_view(v@[i as int])));
        i = i + 1;
    }
    assert(v@.take(v.len() as int) =~= v@);
    r
}

/// An installed package, as reported by the backend.
#[derive(Debug, Clone, PartialEq, Eq)]
pub struct Package {
    pub name: String,
    pub version: String,
}

/// A resolved, runtime view of an environment (declared or discovered).
#[derive(Debug, Clone)]
pub struct EnvInfo {
    pub name: String,
    pub path: String,
    pub python_version: Option<String>,
    pub status: EnvStatus,
    pub backend: BackendKind,
    pub package_count: Option<usize>,
}

} // verus!

verus! {

/// Every backend kind's label reads back as that kind.
pub proof fn law_backend_label_round_trip(k: BackendKind)
    ensures
        backend_kind_named(to_ascii_lower(trim(backend_kind_label(k)))) == Some(k),
{
    reveal_strlit("uv");
    reveal_strlit("venv");
    let l = backend_kind_label(k);
    assert(!crate::text::is_ws(l[0]));
    assert(!crate::text::is_ws(l[l.len() - 1]));
    assert(crate::text::trim_start(l) == l);
    assert(crate::text::trim_end(l) == l);
    assert(to_ascii_lower(l) =~= l);
}

} // verus!
