//! Planned process executions and their results.
//!
//! A [`PlannedCommand`] fully describes a process to launch; launching it is
//! left to the caller, which decides how output is presented.

use vstd::prelude::*;

use crate::text::{matches_at, owned, push_char, strs};

verus! {

/// The mathematical model of a [`PlannedCommand`].
#[verifier::ext_equal]
pub struct CommandView {
    pub program: Seq<char>,
    pub args: Seq<Seq<char>>,
    pub cwd: Option<Seq<char>>,
    pub env: Seq<(Seq<char>, Seq<char>)>,
}

/// The views of a list of key/value pairs.
pub open spec fn pairs(v: Seq<(String, String)>) -> Seq<(Seq<char>, Seq<char>)> {
    v.map_values(|p: (String, String)| (p.0@, p.1@))
}

/// A fully specified command to execute.
#[derive(Debug, Clone)]
pub struct PlannedCommand {
    pub program: String,
    pub args: Vec<String>,
    pub cwd: Option<String>,
    /// Extra environment variables to set (added to the inherited environment).
    pub env: Vec<(String, String)>,
}

impl View for PlannedCommand {
    type V = CommandView;

    open spec fn view(&self) -> CommandView {
        CommandView {
            program: self.program@,
            args: strs(self.args@),
            cwd: match self.cwd {
                Some(c) => Some(c@),
                None => None,
            },
            env: pairs(self.env@),
        }
    }
}

/// A command for `program` with no arguments, directory or variables.
pub open spec fn command_of(program: Seq<char>) -> CommandView {
    CommandView { program, args: Seq::empty(), cwd: None, env: Seq::empty() }
}

/// `c` with `args` appended to its arguments.
pub open spec fn with_args(c: CommandView, args: Seq<Seq<char>>) -> CommandView {
    CommandView { args: c.args + args, ..c }
}

/// `c` with working directory `dir`.
pub open spec fn with_cwd(c: CommandView, dir: Seq<char>) -> CommandView {
    CommandView { cwd: Some(dir), ..c }
}

/// `c` with `vars` appended to its environment variables.
pub open spec fn with_env(c: CommandView, vars: Seq<(Seq<char>, Seq<char>)>) -> CommandView {
    CommandView { env: c.env + vars, ..c }
}

/// An argument as `display` shows it: quoted when it holds a space.
pub open spec fn quoted(a: Seq<char>) -> Seq<char> {
    if a.contains(' ') {
        seq!['"'] + a + seq!['"']
    } else {
        a
    }
}

/// The arguments as `display` appends them to the program.
pub open spec fn display_args(args: Seq<Seq<char>>) -> Seq<char>
    decreases args.len(),
{
    if args.len() == 0 {
        Seq::empty()
    } else {
        display_args(args.drop_last()) + seq![' '] + quoted(args.last())
    }
}

/// The shell-like preview of a command.
pub open spec fn spec_display(c: CommandView) -> Seq<char> {
    c.program + display_args(c.args)
}

/// Whether `s` contains a space character.
fn has_space(s: &str) -> (b: bool)
    ensures
        b == s@.contains(' '),
{
    let cs = crate::text::chars_of(s);
    let mut i: usize = 0;
    while i < cs.len()
        invariant
            cs@ == s@,
            i <= cs.len(),
            forall|k: int| 0 <= k < i ==> cs@[k] != ' ',
        decreases cs.len() - i,
    {
        if cs[i] == ' ' {
            return true;
        }
        i = i + 1;
    }
    false
}

impl PlannedCommand {
    /// A command for `program`, with no arguments yet.
    pub fn new(program: String) -> (r: PlannedCommand)
        ensures
            r@ == command_of(program@),
    {
        let r = PlannedCommand { program, args: Vec::new(), cwd: None, env: Vec::new() };
        assert(r@.args =~= Seq::<Seq<char>>::empty());
        assert(r@.env =~= Seq::<(Seq<char>, Seq<char>)>::empty());
        r
    }

    /// Append one argument.
    pub fn arg(self, arg: String) -> (r: PlannedCommand)
        ensures
            r@ == with_args(self@, seq![arg@]),
    {
        let mut s = self;
        let ghost before = s.args@;
        s.args.push(arg);
        assert(strs(s.args@) =~= strs(before) + seq![arg@]);
        s
    }

    /// Append several arguments, in order.
    pub fn args(self, args: Vec<String>) -> (r: PlannedCommand)
        ensures
            r@ == with_args(self@, strs(args@)),
    {
        let mut s = self;
        let ghost before = s.args@;
        let mut i: usize = 0;
        while i < args.len()
            invariant
                i <= args.len(),
                s.program == self.program,
                s.cwd == self.cwd,
                s.env == self.env,
                strs(s.args@) == strs(before) + strs(args@.take(i as int)),
            decreases args.len() - i,
        {
            let ghost prev = s.args@;
            s.args.push(args[i].clone());
            assert(strs(s.args@) =~= strs(prev).push(args@[i as int]@));
            assert(strs(args@.take(i + 1)) =~= strs(args@.take(i as int)).push(args@[i as int]@));
            assert(strs(s.args@) =~= strs(before) + strs(args@.take(i + 1)));
            i = i + 1;
        }
        assert(args@.take(args.len() as int) =~= args@);
        s
    }

    /// Set the working directory.
    pub fn cwd(self, dir: String) -> (r: PlannedCommand)
        ensures
            r@ == with_cwd(self@, dir@),
    {
        let mut s = self;
        s.cwd = Some(dir);
        s
    }

    /// Add one environment variable.
    pub fn env(self, key: String, value: String) -> (r: PlannedCommand)
        ensures
            r@ == with_env(self@, seq![(key@, value@)]),
    {
        let mut s = self;
        let ghost before = s.env@;
        s.env.push((key, value));
        assert(pairs(s.env@) =~= pairs(before) + seq![(key@, value@)]);
        s
    }

    /// Add several environment variables, in order.
    pub fn envs(self, vars: Vec<(String, String)>) -> (r: PlannedCommand)
        ensures
            r@ == with_env(self@, pairs(vars@)),
    {
        let mut s = self;
        let ghost before = s.env@;
        let mut v = vars;
        s.env.append(&mut v);
        assert(pairs(s.env@) =~= pairs(before) + pairs(vars@));
        s
    }

    /// A shell-like preview of the command, for display.
    pub fn display(&self) -> (r: String)
        ensures
            r@ == spec_display(self@),
    {
        let mut out = self.program.clone();
        let mut i: usize = 0;
        while i < self.args.len()
            invariant
                i <= self.args.len(),
                out@ == self.program@ + display_args(strs(self.args@.take(i as int))),
            decreases self.args.len() - i,
        {
            let ghost prev = out@;
            let a = &self.args[i];
            push_char(&mut out, ' ');
            if has_space(a.as_str()) {
                push_char(&mut out, '"');
                out.append(a.as_str());
                push_char(&mut out, '"');
            } else {
                out.append(a.as_str());
            }
            assert(strs(self.args@.take(i + 1)).drop_last() =~= strs(self.args@.take(i as int)));
            assert(out@ =~= prev + seq![' '] + quoted(a@));
            i = i + 1;
        }
        assert(self.args@.take(self.args.len() as int) =~= self.args@);
        out
    }
}

/// Result of a captured command.
#[derive(Debug, Clone)]
pub struct CapturedOutput {
    pub code: i32,
    pub stdout: String,
    pub stderr: String,
}

impl CapturedOutput {
    /// Whether the command exited with code 0.
    pub fn success(&self) -> (b: bool)
        ensures
            b == (self.code == 0),
    {
        self.code == 0
    }
}

/// The lifecycle state of a streamed run.
#[derive(Debug, Clone)]
pub enum RunState {
    Running,
    Done(i32),
    Failed(String),
}

impl RunState {
    /// Whether the run is still in progress.
    pub fn is_running(&self) -> (b: bool)
        ensures
            b == (*self is Running),
    {
        match self {
            RunState::Running => true,
            _ => false,
        }
    }
}

/// Which stream a captured line came from.
#[derive(Debug, Clone, Copy, PartialEq, Eq, Structural)]
pub enum StreamKind {
    Stdout,
    Stderr,
    Meta,
}

/// A single captured output line.
#[derive(Debug, Clone)]
pub struct OutputLine {
    pub text: String,
    pub stream: StreamKind,
}

} // verus!
