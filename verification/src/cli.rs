//! Command-line decisions.
//!
//! Running `molt` with no subcommand launches the interactive TUI; all other
//! subcommands are scriptable counterparts of the same service operations.
//! This module holds the parsed command line and the decisions taken on it;
//! reading arguments, printing and running processes happen in the binary.

use vstd::prelude::*;

use crate::config::{preference_named, BackendPreference};
use crate::domain::{EnvStatus, Package};
use crate::paths::{join, join_path};
use crate::service::{selected_env, ProjectView};
use crate::text::{owned, str_eq, strs, to_ascii_lower, trim};

verus! {

/// Environment management subcommands.
#[derive(Debug, Clone, Copy, PartialEq, Eq, Structural)]
pub enum EnvCommand {
    List,
    Create,
    Rebuild,
    Remove,
}

/// Configuration subcommands.
#[derive(Debug, Clone, Copy, PartialEq, Eq, Structural)]
pub enum ConfigCommand {
    Show,
    Path,
    Init,
}

/// A subcommand.
#[derive(Debug, Clone)]
pub enum Command {
    /// Launch the interactive terminal UI (default when omitted).
    Tui,
    /// List all registered projects.
    List,
    /// Register an existing project directory.
    Import { path: String },
    /// Create a new project (directory + manifest).
    Create { name: String, path: Option<String>, python: Option<String> },
    /// Forget a project (files are left untouched).
    Forget { project: String },
    /// Environment management.
    Env(EnvCommand),
    /// Install packages from a requirements file.
    Install { file: Option<String> },
    /// Add (install) one or more packages.
    Add { packages: Vec<String> },
    /// Remove (uninstall) one or more packages.
    Remove { packages: Vec<String> },
    /// List installed packages in an environment.
    Packages,
    /// Run a saved task or a Python script.
    Run { target: String, args: Vec<String> },
    /// Open an interactive shell with the environment activated.
    Shell,
    /// Diagnose the environment and toolchain.
    Doctor,
    /// Show or locate configuration.
    Config(ConfigCommand),
}

/// The parsed command line.
#[derive(Debug, Clone)]
pub struct Cli {
    /// Select a project by name or path (defaults to the current directory).
    pub project: Option<String>,
    /// Select an environment by name (defaults to the project default).
    pub env: Option<String>,
    /// Override the backend for this invocation.
    pub backend: Option<String>,
    pub command: Option<Command>,
}

/// What an invocation asks for, once validated.
#[derive(Debug, Clone)]
pub struct Invocation {
    pub project: Option<String>,
    pub env: Option<String>,
    /// The backend preference that overrides the configured one, if any.
    pub backend_override: Option<BackendPreference>,
    pub command: Command,
}

/// Why a command line was rejected.
#[derive(Debug, Clone)]
pub enum CliError {
    /// The `--backend` value names no backend preference.
    InvalidBackend(String),
}

/// The invocation a valid command line stands for.
pub open spec fn spec_invocation(cli: Cli, backend_override: Option<BackendPreference>) -> Invocation {
    Invocation {
        project: cli.project,
        env: cli.env,
        backend_override,
        command: match cli.command {
            Some(c) => c,
            None => Command::Tui,
        },
    }
}

/// Validate a parsed command line: the `--backend` value must name a
/// preference, and a missing subcommand means the TUI.
pub fn run(cli: Cli) -> (r: Result<Invocation, CliError>)
    ensures
        match cli.backend {
            Some(b) => match preference_named(to_ascii_lower(trim(b@))) {
                Some(p) => r == Ok::<Invocation, CliError>(spec_invocation(cli, Some(p))),
                None => r matches Err(CliError::InvalidBackend(v)) && v@ == b@,
            },
            None => r == Ok::<Invocation, CliError>(spec_invocation(cli, None)),
        },
{
    let backend_override = match &cli.backend {
        Some(value) => match BackendPreference::parse(value.as_str()) {
            Some(p) => Some(p),
            None => return Err(CliError::InvalidBackend(value.clone())),
        },
        None => None,
    };
    let command = match cli.command {
        Some(c) => c,
        None => Command::Tui,
    };
    Ok(Invocation { project: cli.project, env: cli.env, backend_override, command })
}

/// The environment a command acts on: the one requested, else the project's
/// selected environment, else `default`.
pub open spec fn spec_env_name(view: ProjectView, requested: Option<Seq<char>>) -> Seq<char> {
    match requested {
        Some(n) => n,
        None => match selected_env(view, None) {
            Some(i) => view.environments@[i].name@,
            None => "default"@,
        },
    }
}

/// The environment a command acts on.
pub fn env_name(view: &ProjectView, requested: Option<&str>) -> (r: String)
    ensures
        r@ == spec_env_name(*view, crate::backend::opt_str(requested)),
{
    if let Some(name) = requested {
        return owned(name);
    }
    match view.env(None) {
        Some(e) => e.name.clone(),
        None => owned("default"),
    }
}

/// Where `create` puts a new project: the given path, else `./<name>`.
pub fn create_path(name: &str, path: Option<&str>) -> (r: String)
    ensures
        r@ == match path {
            Some(p) => p@,
            None => join("./"@, name@),
        },
{
    match path {
        Some(p) => owned(p),
        None => join_path("./", name),
    }
}

/// The first task at or after `i` named `name`.
pub open spec fn task_index(tasks: Seq<crate::domain::Task>, name: Seq<char>, i: int) -> Option<int>
    decreases tasks.len() - i,
{
    if i < 0 || i >= tasks.len() {
        None
    } else if tasks[i].name@ == name {
        Some(i)
    } else {
        task_index(tasks, name, i + 1)
    }
}

/// The saved task that `run <target>` runs, if `target` names one
/// (otherwise the target is a script path).
pub fn run_target(view: &ProjectView, target: &str) -> (r: Option<usize>)
    ensures
        r matches Some(i) ==> task_index(view.tasks@, target@, 0) == Some(i as int) && i < view.tasks.len(),
        r is None ==> task_index(view.tasks@, target@, 0) is None,
{
    let mut i: usize = 0;
    while i < view.tasks.len()
        invariant
            i <= view.tasks.len(),
            task_index(view.tasks@, target@, 0) == task_index(view.tasks@, target@, i as int),
        decreases view.tasks.len() - i,
    {
        if str_eq(view.tasks[i].name.as_str(), target) {
            return Some(i);
        }
        i = i + 1;
    }
    None
}

/// The exit code of `forget`: success when a project was removed, else
/// "not found".
pub fn forget_exit_code(removed: bool) -> (r: i32)
    ensures
        r == if removed {
            crate::error::exit::OK
        } else {
            crate::error::exit::NOT_FOUND
        },
{
    if removed {
        crate::error::exit::OK
    } else {
        crate::error::exit::NOT_FOUND
    }
}

/// What to do next while running a sequence of commands.
#[derive(Debug, Clone, Copy, PartialEq, Eq, Structural)]
pub enum SequenceStep {
    /// Run the command at this index.
    Run(usize),
    /// Stop with this exit code.
    Exit(i32),
}

/// The next step of a command sequence of length `total` after `done`
/// commands ran, the last one exiting with `last_code`: stop at the first
/// non-zero exit code, otherwise run the next command, and exit with 0 when
/// all succeeded.
pub open spec fn spec_sequence_next(total: usize, done: usize, last_code: Option<i32>) -> SequenceStep {
    match last_code {
        Some(c) if c != 0 => SequenceStep::Exit(c),
        _ => if done < total {
            SequenceStep::Run(done)
        } else {
            SequenceStep::Exit(crate::error::exit::OK)
        },
    }
}

/// The next step of a command sequence.
pub fn run_sequence_next(total: usize, done: usize, last_code: Option<i32>) -> (r: SequenceStep)
    ensures
        r == spec_sequence_next(total, done, last_code),
{
    if let Some(c) = last_code {
        if c != 0 {
            return SequenceStep::Exit(c);
        }
    }
    if done < total {
        SequenceStep::Run(done)
    } else {
        SequenceStep::Exit(crate::error::exit::OK)
    }
}

/// The exit code a sequence ends with when it is driven step by step from
/// `done` commands run (the last exiting with `last_code`) and the `i`-th
/// command exits with `codes[i]`.
pub open spec fn drive(total: usize, codes: Seq<i32>, done: usize, last_code: Option<i32>) -> i32
    decreases total - done,
{
    match spec_sequence_next(total, done, last_code) {
        SequenceStep::Exit(c) => c,
        SequenceStep::Run(i) => if done < total && i < codes.len() {
            drive(total, codes, (done + 1) as usize, Some(codes[i as int]))
        } else {
            0
        },
    }
}

/// The exit code of a whole sequence whose commands exit with `codes` (only
/// the commands that ran are listed): the first non-zero code, else 0.
pub open spec fn sequence_exit(codes: Seq<i32>) -> i32
    decreases codes.len(),
{
    if codes.len() == 0 {
        0
    } else if codes[0] != 0 {
        codes[0]
    } else {
        sequence_exit(codes.drop_first())
    }
}

/// Driving a sequence step by step from the start runs the commands in
/// order and ends with the exit code of the first that fails, or 0 when all
/// succeed.
pub proof fn law_sequence_stops_at_first_failure(codes: Seq<i32>)
    requires
        codes.len() <= usize::MAX,
    ensures
        drive(codes.len() as usize, codes, 0, None) == sequence_exit(codes),
{
    lemma_drive_from(codes, 0, None);
    assert(codes.skip(0) =~= codes);
}

proof fn lemma_drive_from(codes: Seq<i32>, done: usize, last_code: Option<i32>)
    requires
        codes.len() <= usize::MAX,
        done <= codes.len(),
        last_code is None || last_code == Some(0i32),
    ensures
        drive(codes.len() as usize, codes, done, last_code) == sequence_exit(codes.skip(done as int)),
    decreases codes.len() - done,
{
    let total = codes.len() as usize;
    if done < total {
        let c = codes[done as int];
        assert(codes.skip(done as int).drop_first() =~= codes.skip(done + 1));
        if c == 0 {
            lemma_drive_from(codes, (done + 1) as usize, Some(c));
        } else {
            assert(drive(total, codes, (done + 1) as usize, Some(c)) == c);
        }
    } else {
        assert(codes.skip(done as int).len() == 0);
    }
}

/// The short status word `env list` shows.
pub open spec fn spec_status_symbol(s: EnvStatus) -> Seq<char> {
    match s {
        EnvStatus::Ready => "ok"@,
        EnvStatus::Empty => "empty"@,
        EnvStatus::Missing => "missing"@,
        EnvStatus::Broken => "broken"@,
        EnvStatus::Unknown => "?"@,
    }
}

/// The short status word of an environment status.
pub fn status_symbol(status: EnvStatus) -> (r: &'static str)
    ensures
        r@ == spec_status_symbol(status),
{
    match status {
        EnvStatus::Ready => "ok",
        EnvStatus::Empty => "empty",
        EnvStatus::Missing => "missing",
        EnvStatus::Broken => "broken",
        EnvStatus::Unknown => "?",
    }
}

/// How `packages` prints a package: `name==version`, or the bare name when
/// the version is empty.
pub fn package_line(p: &Package) -> (r: String)
    ensures
        r@ == if p.version@.len() == 0 {
            p.name@
        } else {
            p.name@ + "=="@ + p.version@
        },
{
    let mut r = p.name.clone();
    if crate::text::chars_of(p.version.as_str()).len() > 0 {
        r.append("==");
        r.append(p.version.as_str());
    }
    r
}

} // verus!
