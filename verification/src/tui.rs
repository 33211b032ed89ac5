//! The interactive terminal UI's state and decisions.
//!
//! Layout: a left projects pane and a right detail pane with three tabs
//! (Environment / Tasks / Packages). A command palette, modal input and
//! confirmation dialogs, an output console and a help overlay are drawn on
//! top as needed. All key bindings come from the user configuration.
//!
//! This module holds the UI state and the transition it takes on each key
//! press; drawing, the event loop and the work an [`Effect`] asks for happen
//! in the binary.

use vstd::prelude::*;

use crate::keymap::{key_matches, spec_key_matches, KeyCode, KeyConfig, KeyEvent};
use crate::text::{find, find_lit, lower_chars, owned, to_ascii_lower};

verus! {

/// Which pane has the keyboard.
#[derive(Debug, Clone, Copy, PartialEq, Eq, Structural)]
pub enum Focus {
    Projects,
    Detail,
}

/// The tabs of the detail pane.
#[derive(Debug, Clone, Copy, PartialEq, Eq, Structural)]
pub enum DetailTab {
    Environment,
    Tasks,
    Packages,
}

/// The position of a tab in the tab bar.
pub open spec fn tab_index(t: DetailTab) -> nat {
    match t {
        DetailTab::Environment => 0,
        DetailTab::Tasks => 1,
        DetailTab::Packages => 2,
    }
}

/// The tab at a position of the tab bar (positions taken modulo 3).
pub open spec fn tab_at(i: int) -> DetailTab {
    let k = i % 3;
    if k == 0 {
        DetailTab::Environment
    } else if k == 1 {
        DetailTab::Tasks
    } else {
        DetailTab::Packages
    }
}

impl DetailTab {
    /// The position of this tab in the tab bar.
    pub fn index(self) -> (r: usize)
        ensures
            r == tab_index(self),
            tab_at(r as int) == self,
    {
        match self {
            DetailTab::Environment => 0,
            DetailTab::Tasks => 1,
            DetailTab::Packages => 2,
        }
    }

    /// The tab to the right, wrapping around.
    pub fn next(self) -> (r: DetailTab)
        ensures
            r == tab_at(tab_index(self) + 1int),
    {
        match self {
            DetailTab::Environment => DetailTab::Tasks,
            DetailTab::Tasks => DetailTab::Packages,
            DetailTab::Packages => DetailTab::Environment,
        }
    }

    /// The tab to the left, wrapping around.
    pub fn prev(self) -> (r: DetailTab)
        ensures
            r == tab_at(tab_index(self) + 2int),
    {
        match self {
            DetailTab::Environment => DetailTab::Packages,
            DetailTab::Tasks => DetailTab::Environment,
            DetailTab::Packages => DetailTab::Tasks,
        }
    }
}

/// Actions offered by the command palette and bound keys.
#[derive(Debug, Clone, Copy, PartialEq, Eq, Structural)]
pub enum ActionId {
    CreateEnv,
    RebuildEnv,
    RemoveEnv,
    InstallRequirements,
    AddPackage,
    RemovePackage,
    RefreshPackages,
    RunTask,
    RunScript,
    OpenShell,
    ImportProject,
    ForgetProject,
    Refresh,
}

/// A command palette entry.
#[derive(Debug, Clone, Copy)]
pub struct PaletteAction {
    pub id: ActionId,
    pub label: &'static str,
    pub hint: &'static str,
}

/// The palette entries, in the order the palette lists them.
pub open spec fn action_table() -> Seq<(ActionId, Seq<char>, Seq<char>)> {
    seq![
        (ActionId::InstallRequirements, "Install requirements"@, "pip install -r"@),
        (ActionId::RunTask, "Run selected task"@, "tasks tab"@),
        (ActionId::RunScript, "Run selected script"@, "environment tab"@),
        (ActionId::AddPackage, "Add package"@, "install a package"@),
        (ActionId::RemovePackage, "Remove selected package"@, "packages tab"@),
        (ActionId::RefreshPackages, "Refresh packages"@, "reload list"@),
        (ActionId::CreateEnv, "Create environment"@, "venv / uv venv"@),
        (ActionId::RebuildEnv, "Rebuild environment"@, "recreate clean"@),
        (ActionId::RemoveEnv, "Remove environment"@, "delete .venv"@),
        (ActionId::OpenShell, "Open shell"@, "activated subshell"@),
        (ActionId::ImportProject, "Import project"@, "register a directory"@),
        (ActionId::ForgetProject, "Forget project"@, "unregister"@),
        (ActionId::Refresh, "Reload project"@, "re-read manifest"@),
    ]
}

/// A palette entry as plain values.
pub open spec fn action_view(a: PaletteAction) -> (ActionId, Seq<char>, Seq<char>) {
    (a.id, a.label@, a.hint@)
}

/// All palette actions.
pub fn all_actions() -> (r: Vec<PaletteAction>)
    ensures
        r@.map_values(|a: PaletteAction| action_view(a)) == action_table(),
{
    let r = vec![
        PaletteAction { id: ActionId::InstallRequirements, label: "Install requirements", hint: "pip install -r" },
        PaletteAction { id: ActionId::RunTask, label: "Run selected task", hint: "tasks tab" },
        PaletteAction { id: ActionId::RunScript, label: "Run selected script", hint: "environment tab" },
        PaletteAction { id: ActionId::AddPackage, label: "Add package", hint: "install a package" },
        PaletteAction { id: ActionId::RemovePackage, label: "Remove selected package", hint: "packages tab" },
        PaletteAction { id: ActionId::RefreshPackages, label: "Refresh packages", hint: "reload list" },
        PaletteAction { id: ActionId::CreateEnv, label: "Create environment", hint: "venv / uv venv" },
        PaletteAction { id: ActionId::RebuildEnv, label: "Rebuild environment", hint: "recreate clean" },
        PaletteAction { id: ActionId::RemoveEnv, label: "Remove environment", hint: "delete .venv" },
        PaletteAction { id: ActionId::OpenShell, label: "Open shell", hint: "activated subshell" },
        PaletteAction { id: ActionId::ImportProject, label: "Import project", hint: "register a directory" },
        PaletteAction { id: ActionId::ForgetProject, label: "Forget project", hint: "unregister" },
        PaletteAction { id: ActionId::Refresh, label: "Reload project", hint: "re-read manifest" },
    ];
    assert(r@.map_values(|a: PaletteAction| action_view(a)) =~= action_table());
    r
}

} // verus!

verus! {

/// Whether a palette entry is shown for the lower-cased query `q`: every
/// entry for an empty query, else those whose lower-cased label or hint
/// contains it.
pub open spec fn palette_matches(a: PaletteAction, q: Seq<char>) -> bool {
    ||| q.len() == 0
    ||| find(to_ascii_lower(a.label@), q) is Some
    ||| find(to_ascii_lower(a.hint@), q) is Some
}

/// The positions among the first `n` actions whose entries match `q`, in
/// order.
pub open spec fn matching_indices(actions: Seq<PaletteAction>, q: Seq<char>, n: int) -> Seq<usize>
    decreases n,
{
    if n <= 0 {
        Seq::empty()
    } else if palette_matches(actions[n - 1], q) {
        matching_indices(actions, q, n - 1).push((n - 1) as usize)
    } else {
        matching_indices(actions, q, n - 1)
    }
}

/// The selection kept after the list of entries changed to `len` entries:
/// unchanged while it still points at an entry, else the last entry (or 0).
pub open spec fn clamped_selection(selected: usize, len: usize) -> usize {
    if selected >= len {
        if len == 0 {
            0
        } else {
            (len - 1) as usize
        }
    } else {
        selected
    }
}

/// `s` without its last character (`String::pop`, the character dropped).
pub fn pop_char(s: &mut String)
    ensures
        final(s)@ == if old(s)@.len() == 0 {
            old(s)@
        } else {
            old(s)@.drop_last()
        },
{
    let cs = crate::text::chars_of(s.as_str());
    if cs.len() > 0 {
        let t = crate::text::string_of(&cs, 0, cs.len() - 1);
        *s = t;
    }
}

/// The command palette: a query, the actions, the positions of those the
/// query selects, and the highlighted one among them.
#[derive(Debug, Clone)]
pub struct PaletteState {
    pub query: String,
    pub actions: Vec<PaletteAction>,
    pub filtered: Vec<usize>,
    pub selected: usize,
}

impl PaletteState {
    /// Every shown position names an action, and the highlight is on a shown
    /// entry (or 0 when none is shown).
    pub open spec fn wf(&self) -> bool {
        &&& forall|k: int| 0 <= k < self.filtered.len() ==> self.filtered@[k] < self.actions.len()
        &&& (self.filtered.len() == 0 ==> self.selected == 0)
        &&& (self.filtered.len() > 0 ==> self.selected < self.filtered.len())
    }

    /// A palette with an empty query listing every action.
    pub fn new() -> (r: PaletteState)
        ensures
            r.wf(),
            r.query@ == Seq::<char>::empty(),
            r.actions@.map_values(|a: PaletteAction| action_view(a)) == action_table(),
            r.filtered@ == Seq::new(r.actions.len() as nat, |i: int| i as usize),
            r.selected == 0,
    {
        let actions = all_actions();
        let mut filtered: Vec<usize> = Vec::new();
        let mut i: usize = 0;
        while i < actions.len()
            invariant
                i <= actions.len(),
                filtered@ == Seq::new(i as nat, |k: int| k as usize),
            decreases actions.len() - i,
        {
            filtered.push(i);
            assert(filtered@ =~= Seq::new((i + 1) as nat, |k: int| k as usize));
            i = i + 1;
        }
        assert(actions@.map_values(|a: PaletteAction| action_view(a)).len() == 13);
        PaletteState { query: String::new(), actions, filtered, selected: 0 }
    }

    /// Recompute the shown entries from the query and keep the highlight on
    /// a shown entry.
    pub fn refilter(&mut self)
        ensures
            final(self).query == old(self).query,
            final(self).actions == old(self).actions,
            final(self).filtered@ == matching_indices(
                old(self).actions@,
                to_ascii_lower(old(self).query@),
                old(self).actions.len() as int,
            ),
            final(self).selected == clamped_selection(old(self).selected, final(self).filtered.len()),
            final(self).wf(),
            forall|i: int|
                0 <= i < old(self).actions.len() ==> (final(self).filtered@.contains(i as usize) <==> (
                old(self).query@.len() == 0 || find(
                    to_ascii_lower(#[trigger] old(self).actions@[i].label@),
                    to_ascii_lower(old(self).query@),
                ) is Some || find(to_ascii_lower(old(self).actions@[i].hint@), to_ascii_lower(old(self).query@))
                is Some)),
    {
        let q = lower_chars(self.query.as_str());
        let ghost qs = to_ascii_lower(self.query@);
        let mut filtered: Vec<usize> = Vec::new();
        let mut i: usize = 0;
        while i < self.actions.len()
            invariant
                i <= self.actions.len(),
                q@ == qs,
                filtered@ == matching_indices(self.actions@, qs, i as int),
                forall|k: int| 0 <= k < filtered.len() ==> filtered@[k] < i,
            decreases self.actions.len() - i,
        {
            let a = self.actions[i];
            let shown = if q.len() == 0 {
                true
            } else {
                let label = lower_chars(a.label);
                let hint = lower_chars(a.hint);
                assert(label@.subrange(0, label.len() as int) == label@);
                assert(hint@.subrange(0, hint.len() as int) == hint@);
                crate::text::find_exec(&label, label.len(), &q, 0).is_some()
                    || crate::text::find_exec(&hint, hint.len(), &q, 0).is_some()
            };
            if shown {
                filtered.push(i);
            }
            i = i + 1;
        }
        self.filtered = filtered;
        proof {
            assert forall|i: int| 0 <= i < old(self).actions.len() implies (self.filtered@.contains(
                i as usize,
            ) <==> (old(self).query@.len() == 0 || find(
                to_ascii_lower(#[trigger] old(self).actions@[i].label@),
                to_ascii_lower(old(self).query@),
            ) is Some || find(to_ascii_lower(old(self).actions@[i].hint@), to_ascii_lower(old(self).query@))
                is Some)) by {
                law_palette_lists_exactly_the_matches(
                    self.actions@,
                    qs,
                    self.actions.len() as int,
                    i,
                );
            }
        }
        if self.selected >= self.filtered.len() {
            self.selected = if self.filtered.len() == 0 {
                0
            } else {
                self.filtered.len() - 1
            };
        }
    }

    /// The highlighted action, if any entry is shown.
    pub fn current(&self) -> (r: Option<ActionId>)
        requires
            self.wf(),
        ensures
            r == if self.selected < self.filtered.len() {
                Some(self.actions@[self.filtered@[self.selected as int] as int].id)
            } else {
                None::<ActionId>
            },
    {
        if self.selected < self.filtered.len() {
            Some(self.actions[self.filtered[self.selected]].id)
        } else {
            None
        }
    }

    /// Move the highlight down one entry, wrapping around.
    pub fn select_next(&mut self)
        requires
            old(self).wf(),
        ensures
            final(self).wf(),
            final(self).query == old(self).query,
            final(self).actions == old(self).actions,
            final(self).filtered == old(self).filtered,
            final(self).selected == if old(self).filtered.len() == 0 {
                old(self).selected as int
            } else {
                (old(self).selected + 1) % (old(self).filtered.len() as int)
            },
    {
        if self.filtered.len() > 0 {
            self.selected = (self.selected + 1) % self.filtered.len();
        }
    }

    /// Move the highlight up one entry, wrapping around.
    pub fn select_prev(&mut self)
        requires
            old(self).wf(),
        ensures
            final(self).wf(),
            final(self).query == old(self).query,
            final(self).actions == old(self).actions,
            final(self).filtered == old(self).filtered,
            final(self).selected == if old(self).filtered.len() == 0 {
                old(self).selected as int
            } else {
                (old(self).selected + old(self).filtered.len() - 1) % (old(self).filtered.len() as int)
            },
    {
        let n = self.filtered.len();
        let s0 = self.selected;
        if n > 0 {
            self.selected = if s0 == 0 {
                n - 1
            } else {
                s0 - 1
            };
            assert((s0 + n - 1) % (n as int) == self.selected) by {
                if s0 == 0 {
                    assert((n - 1) % (n as int) == n - 1) by (nonlinear_arith)
                        requires n > 0;
                } else {
                    let t = s0 + n - 1;
                    let d = s0 - 1;
                    assert(t % (n as int) == d) by (nonlinear_arith)
                        requires t == n + d, 0 <= d < n;
                }
            }
        }
    }

    /// Type a character into the query and refilter.
    pub fn type_char(&mut self, c: char)
        ensures
            final(self).query@ == old(self).query@.push(c),
            final(self).actions == old(self).actions,
            final(self).filtered@ == matching_indices(
                old(self).actions@,
                to_ascii_lower(old(self).query@.push(c)),
                old(self).actions.len() as int,
            ),
            final(self).selected == clamped_selection(old(self).selected, final(self).filtered.len()),
            final(self).wf(),
    {
        crate::text::push_char(&mut self.query, c);
        self.refilter();
    }

    /// Delete the last query character (if any) and refilter.
    pub fn backspace(&mut self)
        ensures
            final(self).query@ == if old(self).query@.len() == 0 {
                old(self).query@
            } else {
                old(self).query@.drop_last()
            },
            final(self).actions == old(self).actions,
            final(self).filtered@ == matching_indices(
                old(self).actions@,
                to_ascii_lower(final(self).query@),
                old(self).actions.len() as int,
            ),
            final(self).selected == clamped_selection(old(self).selected, final(self).filtered.len()),
            final(self).wf(),
    {
        pop_char(&mut self.query);
        self.refilter();
    }
}

} // verus!

verus! {

/// What the modal input is collecting.
#[derive(Debug, Clone, Copy, PartialEq, Eq, Structural)]
pub enum PendingInput {
    AddPackage,
    ImportProject,
}

/// A modal text input.
#[derive(Debug, Clone)]
pub struct InputState {
    pub title: String,
    pub prompt: String,
    pub buffer: String,
    pub action: PendingInput,
}

/// A destructive action waiting for confirmation, with its subject.
#[derive(Debug, Clone)]
pub enum PendingConfirm {
    RemoveEnv(String),
    RebuildEnv(String),
    RemovePackage(String),
    ForgetProject(String),
}

/// A confirmation dialog.
#[derive(Debug, Clone)]
pub struct ConfirmState {
    pub message: String,
    pub action: PendingConfirm,
}

/// What is drawn over the main screen.
#[derive(Debug, Clone)]
pub enum Overlay {
    Closed,
    Help,
    Palette(PaletteState),
    Input(InputState),
    Confirm(ConfirmState),
    Output,
}

/// Which overlay is shown, without its contents.
#[derive(Debug, Clone, Copy, PartialEq, Eq, Structural)]
pub enum OverlayKind {
    Closed,
    Help,
    Palette,
    Input,
    Confirm,
    Output,
}

/// The kind of an overlay.
pub open spec fn spec_overlay_kind(o: Overlay) -> OverlayKind {
    match o {
        Overlay::Closed => OverlayKind::Closed,
        Overlay::Help => OverlayKind::Help,
        Overlay::Palette(_) => OverlayKind::Palette,
        Overlay::Input(_) => OverlayKind::Input,
        Overlay::Confirm(_) => OverlayKind::Confirm,
        Overlay::Output => OverlayKind::Output,
    }
}

impl Overlay {
    /// The kind of this overlay.
    pub fn kind(&self) -> (r: OverlayKind)
        ensures
            r == spec_overlay_kind(*self),
    {
        match self {
            Overlay::Closed => OverlayKind::Closed,
            Overlay::Help => OverlayKind::Help,
            Overlay::Palette(_) => OverlayKind::Palette,
            Overlay::Input(_) => OverlayKind::Input,
            Overlay::Confirm(_) => OverlayKind::Confirm,
            Overlay::Output => OverlayKind::Output,
        }
    }
}

/// The title and prompt of the input dialog for `action`.
pub open spec fn input_texts(action: PendingInput) -> (Seq<char>, Seq<char>) {
    match action {
        PendingInput::AddPackage => ("Add package"@, "Package specifier (e.g. requests):"@),
        PendingInput::ImportProject => ("Import project"@, "Path to project directory:"@),
    }
}

/// An empty input dialog for `action`.
pub fn input_state(action: PendingInput) -> (r: InputState)
    ensures
        (r.title@, r.prompt@) == input_texts(action),
        r.buffer@ == Seq::<char>::empty(),
        r.action == action,
{
    let (title, prompt) = match action {
        PendingInput::AddPackage => ("Add package", "Package specifier (e.g. requests):"),
        PendingInput::ImportProject => ("Import project", "Path to project directory:"),
    };
    InputState { title: owned(title), prompt: owned(prompt), buffer: String::new(), action }
}

/// The question a confirmation dialog asks; `subject` names what the action
/// acts on (for a project, its name).
pub open spec fn confirm_text(action: PendingConfirm, subject: Seq<char>) -> Seq<char> {
    match action {
        PendingConfirm::RemovePackage(_) => "Remove package '"@ + subject + "'?"@,
        PendingConfirm::RebuildEnv(_) => "Rebuild environment '"@ + subject + "' from scratch?"@,
        PendingConfirm::RemoveEnv(_) => "Delete environment '"@ + subject + "' from disk?"@,
        PendingConfirm::ForgetProject(_) => "Forget project '"@ + subject + "'? (files are kept)"@,
    }
}

/// The question a confirmation dialog asks.
pub fn confirm_message(action: &PendingConfirm, subject: &str) -> (r: String)
    ensures
        r@ == confirm_text(*action, subject@),
{
    let (head, tail) = match action {
        PendingConfirm::RemovePackage(_) => ("Remove package '", "'?"),
        PendingConfirm::RebuildEnv(_) => ("Rebuild environment '", "' from scratch?"),
        PendingConfirm::RemoveEnv(_) => ("Delete environment '", "' from disk?"),
        PendingConfirm::ForgetProject(_) => ("Forget project '", "'? (files are kept)"),
    };
    let mut r = owned(head);
    r.append(subject);
    r.append(tail);
    r
}

/// A list selection moved by `delta`, wrapping within `len` items (none in
/// an empty list); no selection counts as the first item.
pub open spec fn spec_step(selected: Option<usize>, len: usize, delta: i32) -> Option<usize> {
    if len == 0 {
        None
    } else {
        let cur: int = match selected {
            Some(i) => i as int,
            None => 0,
        };
        Some(((cur + delta) % (len as int)) as usize)
    }
}

/// The position a selection starts from when it moves.
pub open spec fn step_origin(selected: Option<usize>) -> int {
    match selected {
        Some(i) => i as int,
        None => 0,
    }
}

/// Move a list selection by `delta`, wrapping within `len` items.
pub fn step(selected: Option<usize>, len: usize, delta: i32) -> (r: Option<usize>)
    requires
        len <= i32::MAX,
        step_origin(selected) <= i32::MAX,
        step_origin(selected) + delta <= i32::MAX,
    ensures
        r == spec_step(selected, len, delta),
        r matches Some(i) ==> i < len,
{
    if len == 0 {
        return None;
    }
    let cur: usize = match selected {
        Some(i) => i,
        None => 0,
    };
    let ghost c: int = cur + delta;
    let ghost l: int = len as int;
    if delta >= 0 {
        let r = (cur + delta as usize) % len;
        Some(r)
    } else {
        let d: usize = (-(delta as i64)) as usize;
        if d <= cur {
            Some((cur - d) % len)
        } else {
            let neg = (d - cur) % len;
            let r = if neg == 0 {
                0
            } else {
                len - neg
            };
            proof {
                let m: int = (d - cur) as int;
                let q: int = m / l;
                vstd::arithmetic::div_mod::lemma_fundamental_div_mod(m, l);
                assert(c == -m);
                if neg == 0 {
                    assert(c == (-q) * l + 0) by (nonlinear_arith)
                        requires m == l * q + 0, c == -m;
                    vstd::arithmetic::div_mod::lemma_fundamental_div_mod_converse(c, l, -q, 0);
                } else {
                    assert(c == (-q - 1) * l + (l - neg)) by (nonlinear_arith)
                        requires m == l * q + neg, c == -m;
                    vstd::arithmetic::div_mod::lemma_fundamental_div_mod_converse(c, l, -q - 1, l - neg);
                }
            }
            Some(r)
        }
    }
}

} // verus!

verus! {

/// The UI's own state: focus, tab, list selections, overlay and console
/// scrolling.
#[derive(Debug, Clone)]
pub struct UiState {
    pub focus: Focus,
    pub tab: DetailTab,
    pub env_index: usize,
    pub project_sel: Option<usize>,
    pub task_sel: Option<usize>,
    pub script_sel: Option<usize>,
    pub package_sel: Option<usize>,
    pub overlay: Overlay,
    pub output_scroll: u16,
    pub auto_scroll: bool,
    pub want_shell: bool,
    pub should_quit: bool,
}

/// What the UI knows of the data it shows when it handles a key.
#[derive(Debug, Clone, Copy)]
pub struct UiContext {
    pub n_projects: usize,
    /// Whether a project view is loaded.
    pub has_view: bool,
    pub n_tasks: usize,
    pub n_scripts: usize,
    pub n_packages: usize,
    /// Whether a command is running in the console.
    pub running: bool,
}

/// Work the UI asks of the program after a key press.
#[derive(Debug, Clone)]
pub enum Effect {
    /// Nothing to do.
    Idle,
    /// Load the view of the newly selected project.
    LoadProject,
    /// Reload the selected project and report it.
    Reload,
    /// The tab changed: refresh the package list if it is stale.
    TabChanged,
    /// Carry out an action that needs the service.
    Action(ActionId),
    /// Stop the command running in the console.
    StopRun,
    /// Use the text entered in a modal input.
    Submit(PendingInput, String),
    /// Carry out a confirmed destructive action.
    Confirmed(PendingConfirm),
}

/// Selections fit the context's counts (as `i32`, the arithmetic the
/// selection moves use), and an open palette is well formed.
pub open spec fn ui_wf(s: UiState, ctx: UiContext) -> bool {
    &&& ctx.n_projects < i32::MAX
    &&& ctx.n_tasks < i32::MAX
    &&& ctx.n_scripts < i32::MAX
    &&& ctx.n_packages < i32::MAX
    &&& step_origin(s.project_sel) < i32::MAX
    &&& step_origin(s.task_sel) < i32::MAX
    &&& step_origin(s.script_sel) < i32::MAX
    &&& step_origin(s.package_sel) < i32::MAX
    &&& (s.overlay matches Overlay::Palette(p) ==> p.wf())
}

impl UiState {
    /// The state the UI starts in.
    pub fn new() -> (r: UiState)
        ensures
            r.focus == Focus::Projects,
            r.tab == DetailTab::Environment,
            r.env_index == 0,
            r.project_sel is None,
            r.task_sel is None,
            r.script_sel is None,
            r.package_sel is None,
            r.overlay is Closed,
            r.output_scroll == 0,
            r.auto_scroll,
            !r.want_shell,
            !r.should_quit,
    {
        UiState {
            focus: Focus::Projects,
            tab: DetailTab::Environment,
            env_index: 0,
            project_sel: None,
            task_sel: None,
            script_sel: None,
            package_sel: None,
            overlay: Overlay::Closed,
            output_scroll: 0,
            auto_scroll: true,
            want_shell: false,
            should_quit: false,
        }
    }
}

/// What a key press on the main screen asks for.
#[derive(Debug, Clone, Copy, PartialEq, Eq, Structural)]
pub enum MainCommand {
    Quit,
    Help,
    Palette,
    Refresh,
    Shell,
    Install,
    Import,
    RunDefault,
    NextTab,
    PrevTab,
    Delete,
    MoveProject(i32),
    FocusDetail,
    FocusProjects,
    MoveDetail(i32),
    Activate,
    Ignore,
}

/// The main-screen command a key stands for: the global bindings in order
/// of precedence, then navigation, which depends on the focused pane.
pub open spec fn spec_main_command(k: KeyConfig, e: KeyEvent, focus: Focus) -> MainCommand {
    if spec_key_matches(e, k.quit@) {
        MainCommand::Quit
    } else if spec_key_matches(e, k.help@) {
        MainCommand::Help
    } else if spec_key_matches(e, k.palette@) || spec_key_matches(e, k.search@) {
        MainCommand::Palette
    } else if spec_key_matches(e, k.refresh@) {
        MainCommand::Refresh
    } else if spec_key_matches(e, k.shell@) {
        MainCommand::Shell
    } else if spec_key_matches(e, k.install@) {
        MainCommand::Install
    } else if spec_key_matches(e, k.new@) {
        MainCommand::Import
    } else if spec_key_matches(e, k.run@) {
        MainCommand::RunDefault
    } else if spec_key_matches(e, k.next_tab@) {
        MainCommand::NextTab
    } else if spec_key_matches(e, k.prev_tab@) {
        MainCommand::PrevTab
    } else if spec_key_matches(e, k.delete@) {
        MainCommand::Delete
    } else {
        match focus {
            Focus::Projects => if spec_key_matches(e, k.down@) {
                MainCommand::MoveProject(1i32)
            } else if spec_key_matches(e, k.up@) {
                MainCommand::MoveProject(-1i32)
            } else if spec_key_matches(e, k.right@) || spec_key_matches(e, k.select@) {
                MainCommand::FocusDetail
            } else {
                MainCommand::Ignore
            },
            Focus::Detail => if spec_key_matches(e, k.left@) || spec_key_matches(e, k.back@) {
                MainCommand::FocusProjects
            } else if spec_key_matches(e, k.down@) {
                MainCommand::MoveDetail(1i32)
            } else if spec_key_matches(e, k.up@) {
                MainCommand::MoveDetail(-1i32)
            } else if spec_key_matches(e, k.right@) {
                MainCommand::NextTab
            } else if spec_key_matches(e, k.select@) {
                MainCommand::Activate
            } else {
                MainCommand::Ignore
            },
        }
    }
}

/// Classify a key press on the main screen.
pub fn main_command(keys: &KeyConfig, key: &KeyEvent, focus: Focus) -> (r: MainCommand)
    ensures
        r == spec_main_command(*keys, *key, focus),
{
    if key_matches(key, keys.quit.as_str()) {
        return MainCommand::Quit;
    }
    if key_matches(key, keys.help.as_str()) {
        return MainCommand::Help;
    }
    if key_matches(key, keys.palette.as_str()) || key_matches(key, keys.search.as_str()) {
        return MainCommand::Palette;
    }
    if key_matches(key, keys.refresh.as_str()) {
        return MainCommand::Refresh;
    }
    if key_matches(key, keys.shell.as_str()) {
        return MainCommand::Shell;
    }
    if key_matches(key, keys.install.as_str()) {
        return MainCommand::Install;
    }
    if key_matches(key, keys.new.as_str()) {
        return MainCommand::Import;
    }
    if key_matches(key, keys.run.as_str()) {
        return MainCommand::RunDefault;
    }
    if key_matches(key, keys.next_tab.as_str()) {
        return MainCommand::NextTab;
    }
    if key_matches(key, keys.prev_tab.as_str()) {
        return MainCommand::PrevTab;
    }
    if key_matches(key, keys.delete.as_str()) {
        return MainCommand::Delete;
    }
    match focus {
        Focus::Projects => {
            if key_matches(key, keys.down.as_str()) {
                MainCommand::MoveProject(1i32)
            } else if key_matches(key, keys.up.as_str()) {
                MainCommand::MoveProject(-1i32)
            } else if key_matches(key, keys.right.as_str()) || key_matches(key, keys.select.as_str()) {
                MainCommand::FocusDetail
            } else {
                MainCommand::Ignore
            }
        },
        Focus::Detail => {
            if key_matches(key, keys.left.as_str()) || key_matches(key, keys.back.as_str()) {
                MainCommand::FocusProjects
            } else if key_matches(key, keys.down.as_str()) {
                MainCommand::MoveDetail(1i32)
            } else if key_matches(key, keys.up.as_str()) {
                MainCommand::MoveDetail(-1i32)
            } else if key_matches(key, keys.right.as_str()) {
                MainCommand::NextTab
            } else if key_matches(key, keys.select.as_str()) {
                MainCommand::Activate
            } else {
                MainCommand::Ignore
            }
        },
    }
}

} // verus!

verus! {

/// `s` showing overlay `o` instead.
pub open spec fn with_overlay(s: UiState, o: Overlay) -> UiState {
    UiState { overlay: o, ..s }
}

/// A palette just opened: empty query, every action listed, the first one
/// highlighted.
pub open spec fn fresh_palette(p: PaletteState) -> bool {
    &&& p.wf()
    &&& p.query@ == Seq::<char>::empty()
    &&& p.actions@.map_values(|a: PaletteAction| action_view(a)) == action_table()
    &&& p.filtered@ == Seq::new(p.actions.len() as nat, |i: int| i as usize)
    &&& p.selected == 0
}

/// An input dialog just opened for `action`.
pub open spec fn fresh_input(i: InputState, action: PendingInput) -> bool {
    &&& (i.title@, i.prompt@) == input_texts(action)
    &&& i.buffer@ == Seq::<char>::empty()
    &&& i.action == action
}

/// `new` shows a fresh input dialog for `action` over `old`.
pub open spec fn opens_input(old: UiState, new: UiState, action: PendingInput) -> bool {
    &&& new == with_overlay(old, new.overlay)
    &&& new.overlay matches Overlay::Input(i) && fresh_input(i, action)
}

/// Running action `id` from `old` gives `new` and asks for `eff`: input
/// dialogs and the shell are the UI's own doing, reloading is a reload, and
/// every other action is left to the program.
pub open spec fn spec_run_action(old: UiState, id: ActionId, new: UiState, eff: Effect) -> bool {
    match id {
        ActionId::AddPackage => opens_input(old, new, PendingInput::AddPackage) && eff is Idle,
        ActionId::ImportProject => opens_input(old, new, PendingInput::ImportProject) && eff is Idle,
        ActionId::OpenShell => new == UiState { want_shell: true, ..old } && eff is Idle,
        ActionId::Refresh => new == old && eff is Reload,
        _ => new == old && eff == Effect::Action(id),
    }
}

/// Run an action chosen by a key or from the palette.
pub fn run_action(state: &mut UiState, id: ActionId) -> (eff: Effect)
    ensures
        spec_run_action(*old(state), id, *final(state), eff),
{
    match id {
        ActionId::AddPackage => {
            state.overlay = Overlay::Input(input_state(PendingInput::AddPackage));
            Effect::Idle
        },
        ActionId::ImportProject => {
            state.overlay = Overlay::Input(input_state(PendingInput::ImportProject));
            Effect::Idle
        },
        ActionId::OpenShell => {
            state.want_shell = true;
            Effect::Idle
        },
        ActionId::Refresh => Effect::Reload,
        _ => Effect::Action(id),
    }
}

/// The action the run key starts on a tab.
pub open spec fn default_action(tab: DetailTab) -> ActionId {
    match tab {
        DetailTab::Tasks => ActionId::RunTask,
        _ => ActionId::RunScript,
    }
}

/// The action the select key starts on a tab.
pub open spec fn activate_action(tab: DetailTab) -> ActionId {
    match tab {
        DetailTab::Environment => ActionId::RunScript,
        DetailTab::Tasks => ActionId::RunTask,
        DetailTab::Packages => ActionId::RemovePackage,
    }
}

/// Applying main-screen command `cmd` to `old` gives `new` and asks for
/// `eff`.
pub open spec fn spec_apply_main(old: UiState, cmd: MainCommand, ctx: UiContext, new: UiState, eff: Effect) -> bool {
    match cmd {
        MainCommand::Quit => new == UiState { should_quit: true, ..old } && eff is Idle,
        MainCommand::Help => new == with_overlay(old, Overlay::Help) && eff is Idle,
        MainCommand::Palette => {
            &&& new == with_overlay(old, new.overlay)
            &&& new.overlay matches Overlay::Palette(p) && fresh_palette(p)
            &&& eff is Idle
        },
        MainCommand::Refresh => new == old && eff is Reload,
        MainCommand::Shell => new == UiState { want_shell: true, ..old } && eff is Idle,
        MainCommand::Install => spec_run_action(old, ActionId::InstallRequirements, new, eff),
        MainCommand::Import => spec_run_action(old, ActionId::ImportProject, new, eff),
        MainCommand::RunDefault => spec_run_action(old, default_action(old.tab), new, eff),
        MainCommand::NextTab => new == UiState { tab: tab_at(tab_index(old.tab) + 1int), ..old } && eff is TabChanged,
        MainCommand::PrevTab => new == UiState { tab: tab_at(tab_index(old.tab) + 2int), ..old } && eff is TabChanged,
        MainCommand::Delete => match old.tab {
            DetailTab::Packages => spec_run_action(old, ActionId::RemovePackage, new, eff),
            DetailTab::Environment => spec_run_action(old, ActionId::RemoveEnv, new, eff),
            DetailTab::Tasks => new == old && eff is Idle,
        },
        MainCommand::MoveProject(d) => if ctx.n_projects == 0 {
            new == old && eff is Idle
        } else {
            new == UiState { project_sel: spec_step(old.project_sel, ctx.n_projects, d), ..old } && eff is LoadProject
        },
        MainCommand::FocusDetail => new == UiState { focus: Focus::Detail, ..old } && eff is Idle,
        MainCommand::FocusProjects => new == UiState { focus: Focus::Projects, ..old } && eff is Idle,
        MainCommand::MoveDetail(d) => eff is Idle && new == match old.tab {
            DetailTab::Environment => if ctx.has_view {
                UiState { script_sel: spec_step(old.script_sel, ctx.n_scripts, d), ..old }
            } else {
                old
            },
            DetailTab::Tasks => if ctx.has_view {
                UiState { task_sel: spec_step(old.task_sel, ctx.n_tasks, d), ..old }
            } else {
                old
            },
            DetailTab::Packages => UiState { package_sel: spec_step(old.package_sel, ctx.n_packages, d), ..old },
        },
        MainCommand::Activate => spec_run_action(old, activate_action(old.tab), new, eff),
        MainCommand::Ignore => new == old && eff is Idle,
    }
}

/// Carry out a main-screen command.
pub fn apply_main_command(state: &mut UiState, cmd: MainCommand, ctx: &UiContext) -> (eff: Effect)
    requires
        ui_wf(*old(state), *ctx),
        cmd matches MainCommand::MoveProject(d) ==> -1 <= d <= 1,
        cmd matches MainCommand::MoveDetail(d) ==> -1 <= d <= 1,
    ensures
        spec_apply_main(*old(state), cmd, *ctx, *final(state), eff),
        ui_wf(*final(state), *ctx),
{
    match cmd {
        MainCommand::Quit => {
            state.should_quit = true;
            Effect::Idle
        },
        MainCommand::Help => {
            state.overlay = Overlay::Help;
            Effect::Idle
        },
        MainCommand::Palette => {
            state.overlay = Overlay::Palette(PaletteState::new());
            Effect::Idle
        },
        MainCommand::Refresh => Effect::Reload,
        MainCommand::Shell => {
            state.want_shell = true;
            Effect::Idle
        },
        MainCommand::Install => run_action(state, ActionId::InstallRequirements),
        MainCommand::Import => run_action(state, ActionId::ImportProject),
        MainCommand::RunDefault => {
            let id = match state.tab {
                DetailTab::Tasks => ActionId::RunTask,
                _ => ActionId::RunScript,
            };
            run_action(state, id)
        },
        MainCommand::NextTab => {
            state.tab = state.tab.next();
            Effect::TabChanged
        },
        MainCommand::PrevTab => {
            state.tab = state.tab.prev();
            Effect::TabChanged
        },
        MainCommand::Delete => match state.tab {
            DetailTab::Packages => run_action(state, ActionId::RemovePackage),
            DetailTab::Environment => run_action(state, ActionId::RemoveEnv),
            DetailTab::Tasks => Effect::Idle,
        },
        MainCommand::MoveProject(d) => {
            if ctx.n_projects == 0 {
                Effect::Idle
            } else {
                state.project_sel = step(state.project_sel, ctx.n_projects, d);
                Effect::LoadProject
            }
        },
        MainCommand::FocusDetail => {
            state.focus = Focus::Detail;
            Effect::Idle
        },
        MainCommand::FocusProjects => {
            state.focus = Focus::Projects;
            Effect::Idle
        },
        MainCommand::MoveDetail(d) => {
            match state.tab {
                DetailTab::Environment => {
                    if ctx.has_view {
                        state.script_sel = step(state.script_sel, ctx.n_scripts, d);
                    }
                },
                DetailTab::Tasks => {
                    if ctx.has_view {
                        state.task_sel = step(state.task_sel, ctx.n_tasks, d);
                    }
                },
                DetailTab::Packages => {
                    state.package_sel = step(state.package_sel, ctx.n_packages, d);
                },
            }
            Effect::Idle
        },
        MainCommand::Activate => {
            let id = match state.tab {
                DetailTab::Environment => ActionId::RunScript,
                DetailTab::Tasks => ActionId::RunTask,
                DetailTab::Packages => ActionId::RemovePackage,
            };
            run_action(state, id)
        },
        MainCommand::Ignore => Effect::Idle,
    }
}

/// Handle a key press on the main screen.
pub fn on_key_main(state: &mut UiState, keys: &KeyConfig, key: &KeyEvent, ctx: &UiContext) -> (eff: Effect)
    requires
        ui_wf(*old(state), *ctx),
    ensures
        spec_apply_main(*old(state), spec_main_command(*keys, *key, old(state).focus), *ctx, *final(state), eff),
        ui_wf(*final(state), *ctx),
{
    let cmd = main_command(keys, key, state.focus);
    apply_main_command(state, cmd, ctx)
}

} // verus!

verus! {

/// A key press in the output console.
pub open spec fn spec_output_key(old: UiState, k: KeyConfig, e: KeyEvent, ctx: UiContext, new: UiState, eff: Effect) -> bool {
    if spec_key_matches(e, k.back@) || spec_key_matches(e, k.quit@) {
        new == with_overlay(old, Overlay::Closed) && eff is Idle
    } else if spec_key_matches(e, k.up@) {
        new == UiState { auto_scroll: false, output_scroll: old.output_scroll.saturating_sub(1), ..old } && eff is Idle
    } else if spec_key_matches(e, k.down@) {
        new == UiState { output_scroll: old.output_scroll.saturating_add(1), ..old } && eff is Idle
    } else if spec_key_matches(e, k.page_up@) {
        new == UiState { auto_scroll: false, output_scroll: old.output_scroll.saturating_sub(10), ..old } && eff is Idle
    } else if spec_key_matches(e, k.page_down@) {
        new == UiState { output_scroll: old.output_scroll.saturating_add(10), ..old } && eff is Idle
    } else if spec_key_matches(e, k.select@) {
        new == UiState { auto_scroll: true, ..old } && eff is Idle
    } else if e.code == KeyCode::Char('x') && ctx.running {
        new == old && eff is StopRun
    } else {
        new == old && eff is Idle
    }
}

/// Handle a key press in the output console: close it, scroll it (scrolling
/// up stops following the output, select resumes it), or stop the process.
pub fn on_key_output(state: &mut UiState, keys: &KeyConfig, key: &KeyEvent, ctx: &UiContext) -> (eff: Effect)
    ensures
        spec_output_key(*old(state), *keys, *key, *ctx, *final(state), eff),
{
    if key_matches(key, keys.back.as_str()) || key_matches(key, keys.quit.as_str()) {
        state.overlay = Overlay::Closed;
    } else if key_matches(key, keys.up.as_str()) {
        state.auto_scroll = false;
        state.output_scroll = state.output_scroll.saturating_sub(1);
    } else if key_matches(key, keys.down.as_str()) {
        state.output_scroll = state.output_scroll.saturating_add(1);
    } else if key_matches(key, keys.page_up.as_str()) {
        state.auto_scroll = false;
        state.output_scroll = state.output_scroll.saturating_sub(10);
    } else if key_matches(key, keys.page_down.as_str()) {
        state.output_scroll = state.output_scroll.saturating_add(10);
    } else if key_matches(key, keys.select.as_str()) {
        state.auto_scroll = true;
    } else if key.code == KeyCode::Char('x') && ctx.running {
        return Effect::StopRun;
    }
    Effect::Idle
}

/// The palette highlight that a key press in the palette gives, or the
/// query it types: `p` becomes `q`.
pub open spec fn palette_edited(p: PaletteState, e: KeyEvent, down: bool, up: bool, q: PaletteState) -> bool {
    if down {
        q == PaletteState {
            selected: if p.filtered.len() == 0 {
                p.selected
            } else {
                ((p.selected + 1) % (p.filtered.len() as int)) as usize
            },
            ..p
        }
    } else if up {
        q == PaletteState {
            selected: if p.filtered.len() == 0 {
                p.selected
            } else {
                ((p.selected + p.filtered.len() - 1) % (p.filtered.len() as int)) as usize
            },
            ..p
        }
    } else {
        let query = match e.code {
            KeyCode::Backspace => if p.query@.len() == 0 {
                p.query@
            } else {
                p.query@.drop_last()
            },
            KeyCode::Char(c) => p.query@.push(c),
            _ => p.query@,
        };
        match e.code {
            KeyCode::Backspace | KeyCode::Char(_) => {
                &&& q.query@ == query
                &&& q.actions == p.actions
                &&& q.filtered@ == matching_indices(p.actions@, to_ascii_lower(query), p.actions.len() as int)
                &&& q.selected == clamped_selection(p.selected, q.filtered.len())
            },
            _ => q == p,
        }
    }
}

/// A key press in the command palette `p` (shown over `old`).
pub open spec fn spec_palette_key(
    old: UiState,
    p: PaletteState,
    k: KeyConfig,
    e: KeyEvent,
    new: UiState,
    eff: Effect,
) -> bool {
    if spec_key_matches(e, k.back@) {
        new == with_overlay(old, Overlay::Closed) && eff is Idle
    } else if spec_key_matches(e, k.select@) {
        if p.selected < p.filtered.len() {
            spec_run_action(
                with_overlay(old, Overlay::Closed),
                p.actions@[p.filtered@[p.selected as int] as int].id,
                new,
                eff,
            )
        } else {
            new == old && eff is Idle
        }
    } else {
        &&& eff is Idle
        &&& new == with_overlay(old, new.overlay)
        &&& new.overlay matches Overlay::Palette(q) && palette_edited(
            p,
            e,
            spec_key_matches(e, k.down@),
            spec_key_matches(e, k.up@),
            q,
        )
    }
}

/// Handle a key press in the command palette: close it, run the highlighted
/// action, move the highlight, or edit the query.
pub fn on_key_palette(state: &mut UiState, keys: &KeyConfig, key: &KeyEvent) -> (eff: Effect)
    requires
        old(state).overlay matches Overlay::Palette(p) && p.wf(),
    ensures
        old(state).overlay matches Overlay::Palette(p) && spec_palette_key(
            *old(state),
            p,
            *keys,
            *key,
            *final(state),
            eff,
        ),
        final(state).overlay matches Overlay::Palette(q) ==> q.wf(),
{
    let mut overlay = Overlay::Closed;
    std::mem::swap(&mut overlay, &mut state.overlay);
    let mut p = match overlay {
        Overlay::Palette(p) => p,
        _ => {
            proof {
                assert(false);
            }
            PaletteState::new()
        },
    };
    if key_matches(key, keys.back.as_str()) {
        return Effect::Idle;
    }
    if key_matches(key, keys.select.as_str()) {
        match p.current() {
            Some(action) => {
                return run_action(state, action);
            },
            None => {
                state.overlay = Overlay::Palette(p);
                return Effect::Idle;
            },
        }
    }
    if key_matches(key, keys.down.as_str()) {
        p.select_next();
    } else if key_matches(key, keys.up.as_str()) {
        p.select_prev();
    } else {
        match key.code {
            KeyCode::Backspace => p.backspace(),
            KeyCode::Char(c) => p.type_char(c),
            _ => {},
        }
    }
    state.overlay = Overlay::Palette(p);
    Effect::Idle
}

} // verus!

verus! {

/// A key press in the input dialog `i` (shown over `old`): escape closes it,
/// enter closes it and submits the trimmed text unless it is empty,
/// backspace and characters edit the text.
pub open spec fn spec_input_key(old: UiState, i: InputState, k: KeyConfig, e: KeyEvent, new: UiState, eff: Effect) -> bool {
    if spec_key_matches(e, k.back@) {
        new == with_overlay(old, Overlay::Closed) && eff is Idle
    } else if e.code == KeyCode::Enter {
        &&& new == with_overlay(old, Overlay::Closed)
        &&& if crate::text::trim(i.buffer@).len() == 0 {
            eff is Idle
        } else {
            eff matches Effect::Submit(a, v) && a == i.action && v@ == crate::text::trim(i.buffer@)
        }
    } else {
        &&& eff is Idle
        &&& new == with_overlay(old, new.overlay)
        &&& new.overlay matches Overlay::Input(j) && j.title == i.title && j.prompt == i.prompt && j.action
            == i.action && j.buffer@ == match e.code {
            KeyCode::Backspace => if i.buffer@.len() == 0 {
                i.buffer@
            } else {
                i.buffer@.drop_last()
            },
            KeyCode::Char(c) => i.buffer@.push(c),
            _ => i.buffer@,
        }
    }
}

/// Handle a key press in the input dialog.
pub fn on_key_input(state: &mut UiState, keys: &KeyConfig, key: &KeyEvent) -> (eff: Effect)
    requires
        old(state).overlay is Input,
    ensures
        old(state).overlay matches Overlay::Input(i) && spec_input_key(*old(state), i, *keys, *key, *final(state), eff),
{
    let mut overlay = Overlay::Closed;
    std::mem::swap(&mut overlay, &mut state.overlay);
    let mut input = match overlay {
        Overlay::Input(i) => i,
        _ => {
            proof {
                assert(false);
            }
            input_state(PendingInput::AddPackage)
        },
    };
    if key_matches(key, keys.back.as_str()) {
        return Effect::Idle;
    }
    if key.code == KeyCode::Enter {
        let cs = crate::text::chars_of(input.buffer.as_str());
        let (a, b) = crate::text::trim_range(&cs, 0, cs.len());
        assert(cs@.subrange(0, cs.len() as int) == cs@);
        if a == b {
            return Effect::Idle;
        }
        let value = crate::text::string_of(&cs, a, b);
        return Effect::Submit(input.action, value);
    }
    match key.code {
        KeyCode::Backspace => pop_char(&mut input.buffer),
        KeyCode::Char(c) => crate::text::push_char(&mut input.buffer, c),
        _ => {},
    }
    state.overlay = Overlay::Input(input);
    Effect::Idle
}

/// A key press in the confirmation dialog `c` (shown over `old`): `y` or
/// enter confirms, escape or `n` cancels, anything else is ignored.
pub open spec fn spec_confirm_key(old: UiState, c: ConfirmState, k: KeyConfig, e: KeyEvent, new: UiState, eff: Effect) -> bool {
    if e.code == KeyCode::Char('y') || e.code == KeyCode::Enter {
        new == with_overlay(old, Overlay::Closed) && eff == Effect::Confirmed(c.action)
    } else if spec_key_matches(e, k.back@) || e.code == KeyCode::Char('n') {
        new == with_overlay(old, Overlay::Closed) && eff is Idle
    } else {
        new == old && eff is Idle
    }
}

/// Handle a key press in the confirmation dialog.
pub fn on_key_confirm(state: &mut UiState, keys: &KeyConfig, key: &KeyEvent) -> (eff: Effect)
    requires
        old(state).overlay is Confirm,
    ensures
        old(state).overlay matches Overlay::Confirm(c) && spec_confirm_key(*old(state), c, *keys, *key, *final(state), eff),
{
    let confirmed = key.code == KeyCode::Char('y') || key.code == KeyCode::Enter;
    let cancelled = key_matches(key, keys.back.as_str()) || key.code == KeyCode::Char('n');
    if confirmed {
        let mut overlay = Overlay::Closed;
        std::mem::swap(&mut overlay, &mut state.overlay);
        match overlay {
            Overlay::Confirm(c) => Effect::Confirmed(c.action),
            _ => {
                proof {
                    assert(false);
                }
                Effect::Idle
            },
        }
    } else {
        if cancelled {
            state.overlay = Overlay::Closed;
        }
        Effect::Idle
    }
}

/// A key press, whatever is shown.
pub open spec fn spec_on_key(old: UiState, k: KeyConfig, e: KeyEvent, ctx: UiContext, new: UiState, eff: Effect) -> bool {
    match old.overlay {
        Overlay::Closed => spec_apply_main(old, spec_main_command(k, e, old.focus), ctx, new, eff),
        Overlay::Help => new == with_overlay(old, Overlay::Closed) && eff is Idle,
        Overlay::Output => spec_output_key(old, k, e, ctx, new, eff),
        Overlay::Palette(p) => spec_palette_key(old, p, k, e, new, eff),
        Overlay::Input(i) => spec_input_key(old, i, k, e, new, eff),
        Overlay::Confirm(c) => spec_confirm_key(old, c, k, e, new, eff),
    }
}

/// Handle a key press: the overlay shown, if any, takes it (any key closes
/// the help), else the main screen.
pub fn on_key(state: &mut UiState, keys: &KeyConfig, key: &KeyEvent, ctx: &UiContext) -> (eff: Effect)
    requires
        ui_wf(*old(state), *ctx),
    ensures
        spec_on_key(*old(state), *keys, *key, *ctx, *final(state), eff),
        ui_wf(*final(state), *ctx),
{
    match state.overlay.kind() {
        OverlayKind::Closed => on_key_main(state, keys, key, ctx),
        OverlayKind::Help => {
            state.overlay = Overlay::Closed;
            Effect::Idle
        },
        OverlayKind::Output => on_key_output(state, keys, key, ctx),
        OverlayKind::Palette => on_key_palette(state, keys, key),
        OverlayKind::Input => on_key_input(state, keys, key),
        OverlayKind::Confirm => on_key_confirm(state, keys, key),
    }
}

} // verus!

verus! {

/// The environment the UI acts on: the one at `env_index`, else the first,
/// else `default` (also when no project is loaded).
pub open spec fn spec_current_env_name(envs: Option<Seq<crate::domain::EnvInfo>>, env_index: usize) -> Seq<char> {
    match envs {
        Some(e) => if env_index < e.len() {
            e[env_index as int].name@
        } else if e.len() > 0 {
            e[0].name@
        } else {
            "default"@
        },
        None => "default"@,
    }
}

/// The environments of a loaded view.
pub open spec fn view_envs(view: Option<&crate::service::ProjectView>) -> Option<Seq<crate::domain::EnvInfo>> {
    match view {
        Some(v) => Some(v.environments@),
        None => None,
    }
}

/// The name of the environment the UI acts on.
pub fn current_env_name(view: Option<&crate::service::ProjectView>, env_index: usize) -> (r: String)
    ensures
        r@ == spec_current_env_name(view_envs(view), env_index),
{
    if let Some(v) = view {
        if env_index < v.environments.len() {
            return v.environments[env_index].name.clone();
        }
        if v.environments.len() > 0 {
            return v.environments[0].name.clone();
        }
    }
    owned("default")
}

/// Whether switching to `tab` must reload the package list: on the
/// packages tab, when the list was not loaded for `env`.
pub fn packages_stale(tab: DetailTab, loaded_for: Option<&str>, env: &str) -> (r: bool)
    ensures
        r == (tab == DetailTab::Packages && match loaded_for {
            Some(l) => l@ != env@,
            None => true,
        }),
{
    match tab {
        DetailTab::Packages => match loaded_for {
            Some(l) => !crate::text::str_eq(l, env),
            None => true,
        },
        _ => false,
    }
}

impl UiState {
    /// After the project list was reloaded with `n` projects: keep the
    /// selection, moved onto the last project if it fell off the end
    /// (the first when nothing was selected); none when the list is empty.
    pub fn clamp_project_selection(&mut self, n: usize)
        ensures
            *final(self) == (UiState {
                project_sel: if n == 0 {
                    None
                } else {
                    Some(
                        match old(self).project_sel {
                            Some(i) => if i < n {
                                i
                            } else {
                                (n - 1) as usize
                            },
                            None => 0,
                        },
                    )
                },
                ..*old(self)
            }),
    {
        if n == 0 {
            self.project_sel = None;
        } else {
            let cur = match self.project_sel {
                Some(i) => i,
                None => 0,
            };
            self.project_sel = Some(
                if cur < n {
                    cur
                } else {
                    n - 1
                },
            );
        }
    }

    /// After a project view was (re)loaded with `n_tasks` tasks and
    /// `n_scripts` scripts: select the first environment, the first task and
    /// the first script when there are any, and no package.
    pub fn project_loaded(&mut self, n_tasks: usize, n_scripts: usize)
        ensures
            *final(self) == (UiState {
                env_index: 0,
                task_sel: if n_tasks > 0 {
                    Some(0usize)
                } else {
                    None
                },
                script_sel: if n_scripts > 0 {
                    Some(0usize)
                } else {
                    None
                },
                package_sel: None,
                ..*old(self)
            }),
    {
        self.env_index = 0;
        self.task_sel = if n_tasks > 0 {
            Some(0)
        } else {
            None
        };
        self.script_sel = if n_scripts > 0 {
            Some(0)
        } else {
            None
        };
        self.package_sel = None;
    }

    /// After the package list was loaded with `n` packages: select the first
    /// one when there is any.
    pub fn packages_loaded(&mut self, n: usize)
        ensures
            *final(self) == (UiState {
                package_sel: if n > 0 {
                    Some(0usize)
                } else {
                    None
                },
                ..*old(self)
            }),
    {
        self.package_sel = if n > 0 {
            Some(0)
        } else {
            None
        };
    }

    /// A command sequence starts: the console scrolls from the top and
    /// follows the output.
    pub fn begin_output(&mut self)
        ensures
            *final(self) == (UiState { output_scroll: 0, auto_scroll: true, ..*old(self) }),
    {
        self.output_scroll = 0;
        self.auto_scroll = true;
    }

    /// Ask before a destructive action when `confirm_destructive` is set
    /// (always before forgetting a project): the dialog opens and `None`
    /// comes back; otherwise the action comes back to be carried out.
    /// `subject` names what it acts on.
    pub fn request_confirmation(&mut self, action: PendingConfirm, subject: &str, confirm_destructive: bool) -> (r: Option<PendingConfirm>)
        ensures
            (confirm_destructive || action is ForgetProject) ==> (r is None && *final(self) == with_overlay(
                *old(self),
                final(self).overlay,
            ) && (final(self).overlay matches Overlay::Confirm(c) && c.action == action && c.message@
                == confirm_text(action, subject@))),
            !(confirm_destructive || action is ForgetProject) ==> (r == Some(action) && *final(self) == *old(self)),
    {
        let ask = confirm_destructive || match action {
            PendingConfirm::ForgetProject(_) => true,
            _ => false,
        };
        if ask {
            let message = confirm_message(&action, subject);
            self.overlay = Overlay::Confirm(ConfirmState { message, action });
            None
        } else {
            Some(action)
        }
    }
}

/// What the run queue does once the console's command has been polled.
#[derive(Debug, Clone, Copy, PartialEq, Eq, Structural)]
pub enum QueueStep {
    /// The command succeeded: start the next queued one, if any.
    Advance,
    /// The command failed: drop the rest of the queue.
    Abort,
    /// Nothing finished (or nothing runs): wait.
    Wait,
}

/// The queue step for the state of the console's command.
pub fn queue_step(state: Option<&crate::runner::RunState>) -> (r: QueueStep)
    ensures
        r == match state {
            Some(crate::runner::RunState::Done(code)) => if code == 0 {
                QueueStep::Advance
            } else {
                QueueStep::Abort
            },
            Some(crate::runner::RunState::Failed(_)) => QueueStep::Abort,
            _ => QueueStep::Wait,
        },
{
    match state {
        Some(crate::runner::RunState::Done(code)) => if *code == 0 {
            QueueStep::Advance
        } else {
            QueueStep::Abort
        },
        Some(crate::runner::RunState::Failed(_)) => QueueStep::Abort,
        _ => QueueStep::Wait,
    }
}

/// The console's scroll offset for `total` lines in a `viewport` of rows:
/// the last page while following the output, else the offset capped to the
/// last page.
pub fn output_scroll(auto_scroll: bool, scroll: u16, total: u16, viewport: u16) -> (r: u16)
    ensures
        r == if auto_scroll {
            total.saturating_sub(viewport)
        } else if scroll > total.saturating_sub(viewport) {
            total.saturating_sub(viewport)
        } else {
            scroll
        },
{
    let max = total.saturating_sub(viewport);
    if auto_scroll {
        max
    } else if scroll > max {
        max
    } else {
        scroll
    }
}

/// The label of the backend a project uses, shown in the header; without a
/// project, the configured preference.
pub fn backend_label(
    service: &crate::service::Service,
    view: Option<&crate::service::ProjectView>,
    uv_available: bool,
) -> (r: &'static str)
    ensures
        r@ == match view {
            Some(v) => crate::domain::backend_kind_label(
                crate::service::spec_effective_kind(*service, v.entry, v.manifest, uv_available),
            ),
            None => match service.config.backend {
                crate::config::BackendPreference::Auto => "auto"@,
                crate::config::BackendPreference::Uv => "uv"@,
                crate::config::BackendPreference::Venv => "venv"@,
            },
        },
{
    match view {
        Some(v) => service.effective_backend_kind(&v.entry, &v.manifest, uv_available).label(),
        None => match service.config.backend {
            crate::config::BackendPreference::Auto => "auto",
            crate::config::BackendPreference::Uv => "uv",
            crate::config::BackendPreference::Venv => "venv",
        },
    }
}

} // verus!

verus! {

/// A screen rectangle in terminal cells.
#[derive(Debug, Clone, Copy, PartialEq, Eq, Structural)]
pub struct Rect {
    pub x: u16,
    pub y: u16,
    pub width: u16,
    pub height: u16,
}

/// The smaller of two sizes.
pub open spec fn min_u16(a: u16, b: u16) -> u16 {
    if a < b {
        a
    } else {
        b
    }
}

/// The rectangle of (at most) `width` x `height` centred in `area`; the
/// offsets round down.
pub open spec fn spec_centered(area: Rect, width: u16, height: u16) -> Rect {
    let w = min_u16(width, area.width);
    let h = min_u16(height, area.height);
    Rect {
        x: (area.x + (area.width - w) / 2) as u16,
        y: (area.y + (area.height - h) / 2) as u16,
        width: w,
        height: h,
    }
}

/// The centred rectangle's corner lies on the screen.
pub open spec fn centered_fits(area: Rect, width: u16, height: u16) -> bool {
    &&& area.x + (area.width - min_u16(width, area.width)) / 2 <= u16::MAX
    &&& area.y + (area.height - min_u16(height, area.height)) / 2 <= u16::MAX
}

/// A centred rectangle of a fixed width and height (clamped to the area).
pub fn centered(area: Rect, width: u16, height: u16) -> (r: Rect)
    requires
        centered_fits(area, width, height),
    ensures
        r == spec_centered(area, width, height),
{
    let width = if width < area.width {
        width
    } else {
        area.width
    };
    let height = if height < area.height {
        height
    } else {
        area.height
    };
    let x = area.x + (area.width - width) / 2;
    let y = area.y + (area.height - height) / 2;
    Rect { x, y, width, height }
}

/// The size a percentage of `len` gives (at least one cell), rounding down.
pub open spec fn pct_size(len: u16, pct: u16) -> u16 {
    let s = len * pct / 100;
    if s < 1 {
        1
    } else {
        s as u16
    }
}

/// A centred rectangle sized as a percentage of the area (at least one
/// cell each way).
pub fn centered_pct(area: Rect, width_pct: u16, height_pct: u16) -> (r: Rect)
    requires
        area.width * width_pct <= u16::MAX,
        area.height * height_pct <= u16::MAX,
        centered_fits(area, pct_size(area.width, width_pct), pct_size(area.height, height_pct)),
    ensures
        r == spec_centered(area, pct_size(area.width, width_pct), pct_size(area.height, height_pct)),
{
    let width = area.width * width_pct / 100;
    let height = area.height * height_pct / 100;
    let w = if width < 1 {
        1
    } else {
        width
    };
    let h = if height < 1 {
        1
    } else {
        height
    };
    centered(area, w, h)
}

/// The area inset by two cells left and right and one cell top and bottom
/// (sizes stop at zero).
pub fn shrink(area: Rect) -> (r: Rect)
    requires
        area.x + 2 <= u16::MAX,
        area.y + 1 <= u16::MAX,
    ensures
        r == (Rect {
            x: (area.x + 2) as u16,
            y: (area.y + 1) as u16,
            width: area.width.saturating_sub(4),
            height: area.height.saturating_sub(2),
        }),
{
    Rect {
        x: area.x + 2,
        y: area.y + 1,
        width: area.width.saturating_sub(4),
        height: area.height.saturating_sub(2),
    }
}

} // verus!

verus! {

/// The rows of the keyboard reference: what each binding does and the key
/// bound to it.
pub open spec fn help_table(k: KeyConfig) -> Seq<(Seq<char>, Seq<char>)> {
    seq![
        ("Navigate"@, k.up@ + " / "@ + k.down@ + " / "@ + k.left@ + " / "@ + k.right@),
        ("Select / focus"@, k.select@),
        ("Command palette"@, k.palette@),
        ("Install requirements"@, k.install@),
        ("Run task/script"@, k.run@),
        ("Switch tab"@, k.next_tab@),
        ("Open shell"@, k.shell@),
        ("Import project"@, k.new@),
        ("Delete (env/package)"@, k.delete@),
        ("Reload project"@, k.refresh@),
        ("Back / cancel"@, k.back@),
        ("Quit"@, k.quit@),
    ]
}

/// A row as plain values.
pub open spec fn help_row_view(r: (&'static str, String)) -> (Seq<char>, Seq<char>) {
    (r.0@, r.1@)
}

/// The rows of the keyboard reference for the configured bindings.
pub fn help_entries(keys: &KeyConfig) -> (r: Vec<(&'static str, String)>)
    ensures
        r@.map_values(|x: (&'static str, String)| help_row_view(x)) == help_table(*keys),
{
    let mut nav = keys.up.clone();
    nav.append(" / ");
    nav.append(keys.down.as_str());
    nav.append(" / ");
    nav.append(keys.left.as_str());
    nav.append(" / ");
    nav.append(keys.right.as_str());
    let r = vec![
        ("Navigate", nav),
        ("Select / focus", keys.select.clone()),
        ("Command palette", keys.palette.clone()),
        ("Install requirements", keys.install.clone()),
        ("Run task/script", keys.run.clone()),
        ("Switch tab", keys.next_tab.clone()),
        ("Open shell", keys.shell.clone()),
        ("Import project", keys.new.clone()),
        ("Delete (env/package)", keys.delete.clone()),
        ("Reload project", keys.refresh.clone()),
        ("Back / cancel", keys.back.clone()),
        ("Quit", keys.quit.clone()),
    ];
    assert(r@.map_values(|x: (&'static str, String)| help_row_view(x)) =~= help_table(*keys));
    r
}

/// The palette's shown entries: whether each is highlighted, its label and
/// its hint.
pub fn palette_rows(p: &PaletteState) -> (r: Vec<(bool, &'static str, &'static str)>)
    requires
        p.wf(),
    ensures
        r.len() == p.filtered.len(),
        forall|k: int|
            0 <= k < r.len() ==> {
                let a = #[trigger] p.actions@[p.filtered@[k] as int];
                &&& r@[k].0 == (k == p.selected)
                &&& r@[k].1@ == a.label@
                &&& r@[k].2@ == a.hint@
            },
{
    let mut r: Vec<(bool, &'static str, &'static str)> = Vec::new();
    let mut k: usize = 0;
    while k < p.filtered.len()
        invariant
            p.wf(),
            k <= p.filtered.len(),
            r.len() == k,
            forall|j: int|
                0 <= j < k ==> {
                    let a = #[trigger] p.actions@[p.filtered@[j] as int];
                    &&& r@[j].0 == (j == p.selected)
                    &&& r@[j].1@ == a.label@
                    &&& r@[j].2@ == a.hint@
                },
        decreases p.filtered.len() - k,
    {
        let a = p.actions[p.filtered[k]];
        r.push((k == p.selected, a.label, a.hint));
        k = k + 1;
    }
    r
}

/// One line of the environments panel.
#[derive(Debug, Clone)]
pub struct EnvRow {
    /// Whether this is the environment the UI acts on.
    pub current: bool,
    pub name: String,
    pub status: &'static str,
    /// The Python version, or `-` when unknown.
    pub version: String,
    pub path: String,
}

/// The environments panel of a loaded view: one row per environment.
pub fn env_rows(environments: &Vec<crate::domain::EnvInfo>, env_index: usize) -> (r: Vec<EnvRow>)
    ensures
        r.len() == environments.len(),
        forall|i: int|
            0 <= i < r.len() ==> {
                let e = #[trigger] environments@[i];
                &&& r@[i].current == (i == env_index)
                &&& r@[i].name@ == e.name@
                &&& r@[i].status@ == crate::domain::env_status_label(e.status)
                &&& r@[i].version@ == match e.python_version {
                    Some(v) => v@,
                    None => "-"@,
                }
                &&& r@[i].path@ == e.path@
            },
{
    let mut r: Vec<EnvRow> = Vec::new();
    let mut i: usize = 0;
    while i < environments.len()
        invariant
            i <= environments.len(),
            r.len() == i,
            forall|j: int|
                0 <= j < i ==> {
                    let e = #[trigger] environments@[j];
                    &&& r@[j].current == (j == env_index)
                    &&& r@[j].name@ == e.name@
                    &&& r@[j].status@ == crate::domain::env_status_label(e.status)
                    &&& r@[j].version@ == match e.python_version {
                        Some(v) => v@,
                        None => "-"@,
                    }
                    &&& r@[j].path@ == e.path@
                },
        decreases environments.len() - i,
    {
        let e = &environments[i];
        let version = match &e.python_version {
            Some(v) => v.clone(),
            None => owned("-"),
        };
        r.push(
            EnvRow {
                current: i == env_index,
                name: e.name.clone(),
                status: e.status.label(),
                version,
                path: e.path.clone(),
            },
        );
        i = i + 1;
    }
    r
}

/// How the console names the state of its command.
pub open spec fn spec_run_state_label(state: Option<crate::runner::RunState>) -> Seq<char> {
    match state {
        Some(crate::runner::RunState::Running) => "running"@,
        Some(crate::runner::RunState::Done(code)) => if code == 0 {
            "done"@
        } else {
            "exit "@ + crate::text::int_text(code as int)
        },
        Some(crate::runner::RunState::Failed(err)) => "failed: "@ + err@,
        None => "idle"@,
    }
}

/// The console's state label.
pub fn run_state_label(state: Option<&crate::runner::RunState>) -> (r: String)
    ensures
        r@ == spec_run_state_label(match state {
            Some(s) => Some(*s),
            None => None,
        }),
{
    match state {
        Some(crate::runner::RunState::Running) => owned("running"),
        Some(crate::runner::RunState::Done(code)) => {
            if *code == 0 {
                owned("done")
            } else {
                let mut r = owned("exit ");
                let t = crate::text::i32_text(*code);
                r.append(t.as_str());
                r
            }
        },
        Some(crate::runner::RunState::Failed(err)) => {
            let mut r = owned("failed: ");
            r.append(err.as_str());
            r
        },
        None => owned("idle"),
    }
}

/// The console's title: the sequence title and the state label in brackets.
pub fn console_title(title: &str, state: Option<&crate::runner::RunState>) -> (r: String)
    ensures
        r@ == title@ + " ["@ + spec_run_state_label(match state {
            Some(s) => Some(*s),
            None => None,
        }) + "]"@,
{
    let mut r = owned(title);
    r.append(" [");
    let l = run_state_label(state);
    r.append(l.as_str());
    r.append("]");
    r
}

} // verus!

verus! {

/// Moving one tab right then one left (or left then right) comes back to
/// the same tab, and three moves right go all the way round.
pub proof fn law_tab_moves_undo(t: DetailTab)
    ensures
        tab_at(tab_index(tab_at(tab_index(t) + 1int)) + 2int) == t,
        tab_at(tab_index(tab_at(tab_index(t) + 2int)) + 1int) == t,
        tab_at(tab_index(tab_at(tab_index(tab_at(tab_index(t) + 1int)) + 1int)) + 1int) == t,
{
}

/// With an empty query the palette lists every action, in order.
pub proof fn law_empty_query_lists_all(actions: Seq<PaletteAction>, n: int)
    requires
        0 <= n <= actions.len(),
        n <= usize::MAX,
    ensures
        matching_indices(actions, Seq::empty(), n) == Seq::new(n as nat, |i: int| i as usize),
    decreases n,
{
    if n > 0 {
        law_empty_query_lists_all(actions, n - 1);
        assert(Seq::new((n - 1) as nat, |i: int| i as usize).push((n - 1) as usize) =~= Seq::new(
            n as nat,
            |i: int| i as usize,
        ));
    }
}

} // verus!

verus! {

proof fn lemma_matching_below(actions: Seq<PaletteAction>, q: Seq<char>, n: int)
    requires
        0 <= n <= usize::MAX,
    ensures
        forall|k: int|
            0 <= k < matching_indices(actions, q, n).len() ==> (#[trigger] matching_indices(actions, q, n)[k]) < n,
    decreases n,
{
    if n > 0 {
        lemma_matching_below(actions, q, n - 1);
        let prev = matching_indices(actions, q, n - 1);
        let m = matching_indices(actions, q, n);
        assert forall|k: int| 0 <= k < m.len() implies (#[trigger] m[k]) < n by {
            if k < prev.len() {
                assert(m[k] == prev[k]);
            }
        }
    }
}

/// The palette lists an action exactly when the lower-cased query is empty
/// or occurs in the action's lower-cased label or in its lower-cased hint:
/// `venv` finds the actions whose hints mention venv.
pub proof fn law_palette_lists_exactly_the_matches(actions: Seq<PaletteAction>, q: Seq<char>, n: int, i: int)
    requires
        0 <= i < n <= actions.len(),
        n <= usize::MAX,
    ensures
        matching_indices(actions, q, n).contains(i as usize) <==> (q.len() == 0 || find(
            to_ascii_lower(actions[i].label@),
            q,
        ) is Some || find(to_ascii_lower(actions[i].hint@), q) is Some),
    decreases n,
{
    let m = matching_indices(actions, q, n);
    let prev = matching_indices(actions, q, n - 1);
    lemma_matching_below(actions, q, n - 1);
    if i == n - 1 {
        if !palette_matches(actions[i], q) {
            assert(m == prev);
            if m.contains(i as usize) {
                let k = choose|k: int| 0 <= k < m.len() && m[k] == i as usize;
                assert(prev[k] < n - 1);
            }
        } else {
            assert(m[m.len() - 1] == i as usize);
        }
    } else {
        law_palette_lists_exactly_the_matches(actions, q, n - 1, i);
        if palette_matches(actions[n - 1], q) {
            assert(m == prev.push((n - 1) as usize));
            if m.contains(i as usize) {
                let k = choose|k: int| 0 <= k < m.len() && m[k] == i as usize;
                if k < prev.len() {
                    assert(prev[k] == i as usize);
                } else {
                    assert(m[k] == (n - 1) as usize);
                }
            }
            if prev.contains(i as usize) {
                let k = choose|k: int| 0 <= k < prev.len() && prev[k] == i as usize;
                assert(m[k] == i as usize);
            }
        } else {
            assert(m == prev);
        }
    }
}

} // verus!
