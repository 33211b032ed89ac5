//! User configuration.
//!
//! Configuration is layered: built-in defaults are overridden by the on-disk
//! `config.toml`, which is in turn overridden by command-line flags. Every
//! setting has a default so a partial file remains valid.

use vstd::prelude::*;

use crate::domain::BackendKind;
use crate::keymap::{default_keys, KeyConfig};
use crate::paths::{join, join_path};
use crate::text::{eq_lit, lower_trimmed, owned, to_ascii_lower, trim};

verus! {

/// Which backend the user prefers. `Auto` picks `uv` when available and falls
/// back to the standard `venv` + `pip`.
#[derive(Debug, Clone, Copy, PartialEq, Eq, Structural)]
pub enum BackendPreference {
    Auto,
    Uv,
    Venv,
}

impl Default for BackendPreference {
    fn default() -> (r: BackendPreference)
        ensures
            r == BackendPreference::Auto,
    {
        BackendPreference::Auto
    }
}

/// The concrete backend a preference forces, if any.
pub open spec fn spec_forced(p: BackendPreference) -> Option<BackendKind> {
    match p {
        BackendPreference::Auto => None,
        BackendPreference::Uv => Some(BackendKind::Uv),
        BackendPreference::Venv => Some(BackendKind::Venv),
    }
}

/// The preference named by already trimmed, lower-cased input.
pub open spec fn preference_named(t: Seq<char>) -> Option<BackendPreference> {
    if t == "auto"@ {
        Some(BackendPreference::Auto)
    } else if t == "uv"@ {
        Some(BackendPreference::Uv)
    } else if t == "venv"@ || t == "pip"@ || t == "std"@ {
        Some(BackendPreference::Venv)
    } else {
        None
    }
}

impl BackendPreference {
    /// The concrete backend requested, if any (`None` means "auto").
    pub fn forced(self) -> (r: Option<BackendKind>)
        ensures
            r == spec_forced(self),
    {
        match self {
            BackendPreference::Auto => None,
            BackendPreference::Uv => Some(BackendKind::Uv),
            BackendPreference::Venv => Some(BackendKind::Venv),
        }
    }

    /// Parse a preference from user input (trimmed, case-insensitive).
    pub fn parse(value: &str) -> (r: Option<BackendPreference>)
        ensures
            r == preference_named(to_ascii_lower(trim(value@))),
    {
        let t = lower_trimmed(value);
        let n = t.len();
        assert(t@.subrange(0, n as int) == t@);
        if eq_lit(&t, 0, n, "auto") {
            Some(BackendPreference::Auto)
        } else if eq_lit(&t, 0, n, "uv") {
            Some(BackendPreference::Uv)
        } else if eq_lit(&t, 0, n, "venv") || eq_lit(&t, 0, n, "pip") || eq_lit(&t, 0, n, "std") {
            Some(BackendPreference::Venv)
        } else {
            None
        }
    }
}

/// How a run should be presented by default.
#[derive(Debug, Clone, Copy, PartialEq, Eq, Structural)]
pub enum RunMode {
    /// Capture output into the in-app console.
    Captured,
    /// Hand the full terminal to the child process.
    Terminal,
}

impl Default for RunMode {
    fn default() -> (r: RunMode)
        ensures
            r == RunMode::Captured,
    {
        RunMode::Captured
    }
}

/// Python-related preferences.
#[derive(Debug, Clone)]
pub struct PythonConfig {
    /// Preferred Python version (e.g. `3.12`) when creating environments.
    pub preferred_version: Option<String>,
    /// Default directory name for in-project environments.
    pub default_venv_name: String,
    /// Optional central directory for environments created outside projects.
    pub central_env_dir: Option<String>,
    /// Extra directories to search for interpreters, in addition to PATH.
    pub search_paths: Vec<String>,
}

impl Default for PythonConfig {
    fn default() -> (r: PythonConfig)
        ensures
            r.preferred_version is None,
            r.default_venv_name@ == ".venv"@,
            r.central_env_dir is None,
            r.search_paths@.len() == 0,
    {
        PythonConfig {
            preferred_version: None,
            default_venv_name: owned(".venv"),
            central_env_dir: None,
            search_paths: Vec::new(),
        }
    }
}

/// Presentation preferences.
#[derive(Debug, Clone)]
pub struct UiConfig {
    /// Name of the active theme.
    pub theme: String,
    /// Use Unicode box-drawing / glyphs (false = ASCII fallback).
    pub unicode: bool,
    /// Enable mouse capture in the TUI.
    pub mouse: bool,
    /// UI refresh tick in milliseconds (also the input poll interval).
    pub tick_rate_ms: u64,
    /// Format string for timestamps.
    pub date_format: String,
    /// Per-token colour overrides applied on top of the theme, by token name:
    /// a map from token to colour text, held as its entries in key order
    /// (see [`overrides_well_formed`]) so that contracts can speak of it.
    pub theme_overrides: Vec<(String, String)>,
}

/// The override entries form a map walked in key order: token names
/// strictly increase, so each token occurs once.
pub open spec fn overrides_well_formed(v: Seq<(String, String)>) -> bool {
    forall|i: int, j: int| 0 <= i < j < v.len() ==> crate::text::str_lt(#[trigger] v[i].0@, #[trigger] v[j].0@)
}

impl Default for UiConfig {
    fn default() -> (r: UiConfig)
        ensures
            r.theme@ == "moss"@,
            r.unicode,
            !r.mouse,
            r.tick_rate_ms == 120,
            r.date_format@ == "%Y-%m-%d %H:%M"@,
            r.theme_overrides@.len() == 0,
            overrides_well_formed(r.theme_overrides@),
    {
        UiConfig {
            theme: owned("moss"),
            theme_overrides: Vec::new(),
            unicode: true,
            mouse: false,
            tick_rate_ms: 120,
            date_format: owned("%Y-%m-%d %H:%M"),
        }
    }
}

/// Behavioural preferences.
#[derive(Debug, Clone)]
pub struct BehaviorConfig {
    /// Require confirmation before destructive actions (remove / rebuild).
    pub confirm_destructive: bool,
    /// Record a local run history.
    pub save_history: bool,
    /// Shell to use for `shell` and shell tasks. Falls back to `$SHELL`.
    pub shell: Option<String>,
    /// Editor for editing longer values. Falls back to `$EDITOR`.
    pub editor: Option<String>,
    /// Default presentation for runs.
    pub default_run_mode: RunMode,
}

impl Default for BehaviorConfig {
    fn default() -> (r: BehaviorConfig)
        ensures
            r.confirm_destructive,
            r.save_history,
            r.shell is None,
            r.editor is None,
            r.default_run_mode == RunMode::Captured,
    {
        BehaviorConfig {
            confirm_destructive: true,
            save_history: true,
            shell: None,
            editor: None,
            default_run_mode: RunMode::Captured,
        }
    }
}

/// The full, merged configuration.
#[derive(Debug, Clone)]
pub struct Config {
    pub backend: BackendPreference,
    pub python: PythonConfig,
    pub ui: UiConfig,
    pub behavior: BehaviorConfig,
    pub keys: KeyConfig,
}

/// `c` holds every built-in default.
pub open spec fn is_default_config(c: Config) -> bool {
    &&& c.backend == BackendPreference::Auto
    &&& c.python.preferred_version is None
    &&& c.python.default_venv_name@ == ".venv"@
    &&& c.python.central_env_dir is None
    &&& c.python.search_paths@.len() == 0
    &&& c.ui.theme@ == "moss"@
    &&& c.ui.unicode
    &&& !c.ui.mouse
    &&& c.ui.tick_rate_ms == 120
    &&& c.ui.date_format@ == "%Y-%m-%d %H:%M"@
    &&& c.ui.theme_overrides@.len() == 0
    &&& c.behavior.confirm_destructive
    &&& c.behavior.save_history
    &&& c.behavior.shell is None
    &&& c.behavior.editor is None
    &&& c.behavior.default_run_mode == RunMode::Captured
    &&& default_keys(c.keys)
}

impl Default for Config {
    fn default() -> (r: Config)
        ensures
            is_default_config(r),
    {
        Config {
            backend: BackendPreference::default(),
            python: PythonConfig::default(),
            ui: UiConfig::default(),
            behavior: BehaviorConfig::default(),
            keys: KeyConfig::default(),
        }
    }
}

/// Where the configuration file lives under a configuration directory.
pub open spec fn spec_config_file(config_dir: Seq<char>) -> Seq<char> {
    join(join(config_dir, "molt"@), "config.toml"@)
}

impl Config {
    /// The configuration file (`<config dir>/molt/config.toml`) under the
    /// user configuration directory `config_dir`.
    pub fn config_file(config_dir: &str) -> (r: String)
        ensures
            r@ == spec_config_file(config_dir@),
    {
        let d = join_path(config_dir, "molt");
        join_path(d.as_str(), "config.toml")
    }
}

} // verus!
