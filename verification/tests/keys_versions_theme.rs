//! Key descriptors, interpreter versions, configuration and themes.

use molt::config::{BackendPreference, Config};
use molt::domain::{BackendKind, EnvStatus};
use molt::keymap::{key_matches, parse_key, KeyCode, KeyConfig, KeyEvent, KeyMods};
use molt::pyfinder::{
    best_match, first_occurrences, is_python_binary_name, sort_newest_first, version_key,
    version_of_output, PythonInterpreter,
};
use molt::theme::{builtin, parse_hex, resolve, status_color, Color};

fn mods(control: bool, alt: bool, shift: bool) -> KeyMods {
    KeyMods { control, alt, shift }
}

fn press(code: KeyCode) -> KeyEvent {
    KeyEvent { code, modifiers: mods(false, false, false) }
}

fn interp(path: &str, version: &str) -> PythonInterpreter {
    PythonInterpreter { path: path.to_string(), version: version.to_string() }
}

#[test]
fn parses_key_descriptors() {
    assert_eq!(parse_key("q"), Some((KeyCode::Char('q'), mods(false, false, false))));
    assert_eq!(parse_key("Enter"), Some((KeyCode::Enter, mods(false, false, false))));
    assert_eq!(parse_key("ctrl+r"), Some((KeyCode::Char('r'), mods(true, false, false))));
    assert_eq!(parse_key("Alt+Shift+x"), Some((KeyCode::Char('x'), mods(false, true, true))));
    assert_eq!(parse_key("f5"), Some((KeyCode::F(5), mods(false, false, false))));
    assert_eq!(parse_key("F12"), Some((KeyCode::F(12), mods(false, false, false))));
    assert_eq!(parse_key("space"), Some((KeyCode::Char(' '), mods(false, false, false))));
    assert_eq!(parse_key("pgdn"), Some((KeyCode::PageDown, mods(false, false, false))));
    assert_eq!(parse_key("  esc "), Some((KeyCode::Esc, mods(false, false, false))));
    assert_eq!(parse_key(""), None);
    assert_eq!(parse_key("nonsense"), None);
    assert_eq!(parse_key("f300"), None);
}

#[test]
fn key_matching_ignores_case_and_shift() {
    let upper_q = KeyEvent { code: KeyCode::Char('Q'), modifiers: mods(false, false, true) };
    assert!(key_matches(&upper_q, "q"));
    let question = KeyEvent { code: KeyCode::Char('?'), modifiers: mods(false, false, true) };
    assert!(key_matches(&question, "?"));
    let ctrl_r = KeyEvent { code: KeyCode::Char('r'), modifiers: mods(true, false, false) };
    assert!(key_matches(&ctrl_r, "ctrl+r"));
    assert!(!key_matches(&ctrl_r, "r"));
    assert!(key_matches(&press(KeyCode::F(5)), "f5"));
    assert!(!key_matches(&press(KeyCode::Tab), "backtab"));
    assert!(!key_matches(&press(KeyCode::Char('x')), "bogus-key"));
}

#[test]
fn default_key_bindings() {
    let keys = KeyConfig::default();
    assert_eq!(keys.quit, "q");
    assert_eq!(keys.palette, "a");
    assert_eq!(keys.refresh, "f5");
    assert!(key_matches(&press(KeyCode::BackTab), &keys.prev_tab));
    assert!(key_matches(&press(KeyCode::PageDown), &keys.page_down));
}

#[test]
fn version_helpers() {
    assert_eq!(version_key("3.12.1"), (3, 12, 1));
    assert_eq!(version_key("3.13"), (3, 13, 0));
    assert_eq!(version_key("3.11.0rc1"), (3, 11, 0));
    assert_eq!(version_key("x"), (0, 0, 0));
    assert!(is_python_binary_name("python3.12"));
    assert!(is_python_binary_name("python"));
    assert!(is_python_binary_name("python3.6m"));
    assert!(!is_python_binary_name("python3-config"));
    assert!(!is_python_binary_name("pip3"));
    assert_eq!(version_of_output(true, "Python 3.12.4\n", "").as_deref(), Some("3.12.4"));
    assert_eq!(version_of_output(true, "  \n", "Python 2.7.18\n").as_deref(), Some("2.7.18"));
    assert_eq!(version_of_output(false, "Python 3.12.4", ""), None);
}

#[test]
fn interpreters_sort_newest_first_and_stably() {
    let found = vec![
        interp("/a", "3.10.2"),
        interp("/b", "3.12.0"),
        interp("/c", "3.10.2"),
        interp("/d", "3.9.18"),
    ];
    let sorted = sort_newest_first(&found);
    let paths: Vec<&str> = sorted.iter().map(|i| i.path.as_str()).collect();
    assert_eq!(paths, vec!["/b", "/a", "/c", "/d"]);
}

#[test]
fn best_match_prefers_requested_prefix() {
    let all = vec![interp("/b", "3.12.0"), interp("/a", "3.10.2")];
    assert_eq!(best_match(Some("3.10"), &all).map(|i| i.path), Some("/a".to_string()));
    assert_eq!(best_match(Some("2.7"), &all).map(|i| i.path), Some("/b".to_string()));
    assert_eq!(best_match(None, &all).map(|i| i.path), Some("/b".to_string()));
    assert!(best_match(None, &Vec::new()).is_none());
}

#[test]
fn duplicates_keep_their_first_occurrence() {
    let resolved = vec!["/x".to_string(), "/y".to_string(), "/x".to_string()];
    assert_eq!(first_occurrences(&resolved), vec![true, true, false]);
}

#[test]
fn backend_preferences_parse_leniently() {
    assert_eq!(BackendPreference::parse(" Auto "), Some(BackendPreference::Auto));
    assert_eq!(BackendPreference::parse("std"), Some(BackendPreference::Venv));
    assert_eq!(BackendPreference::parse("standard"), None);
    assert_eq!(BackendPreference::Uv.forced(), Some(BackendKind::Uv));
    assert_eq!(BackendPreference::Auto.forced(), None);
    assert_eq!(BackendKind::parse("standard"), Some(BackendKind::Venv));
}

#[test]
fn config_file_lives_in_the_molt_directory() {
    assert_eq!(Config::config_file("/home/u/.config"), "/home/u/.config/molt/config.toml");
}

#[test]
fn hex_colours() {
    assert_eq!(parse_hex("#9ED96B"), Some(Color::Rgb(0x9E, 0xD9, 0x6B)));
    assert_eq!(parse_hex("  0a0b0c "), Some(Color::Rgb(10, 11, 12)));
    assert_eq!(parse_hex("##ffffff"), Some(Color::Rgb(255, 255, 255)));
    assert_eq!(parse_hex("#+f+f+f"), None);
    assert_eq!(parse_hex("a\u{20ac}bc"), None);
    assert_eq!(parse_hex("#ab\u{e9}cde"), None);
    assert_eq!(parse_hex("#12345"), None);
    assert_eq!(parse_hex("#12345g"), None);
    assert_eq!(parse_hex("#-1-1-1"), None);
}

#[test]
fn themes_resolve_with_overrides() {
    let moss = builtin("unknown");
    assert_eq!(moss.name, "moss");
    assert_eq!(moss.accent, Color::Rgb(0x9E, 0xD9, 0x6B));
    assert_eq!(builtin("high-contrast").accent, Color::Yellow);
    let overrides = vec![
        ("accent".to_string(), "#010203".to_string()),
        ("nope".to_string(), "#010203".to_string()),
        ("danger".to_string(), "bad".to_string()),
    ];
    let p = resolve("ocean", &overrides);
    assert_eq!(p.name, "ocean");
    assert_eq!(p.accent, Color::Rgb(1, 2, 3));
    assert_eq!(p.danger, Color::Rgb(0xE0, 0x6C, 0x75));
    assert_eq!(status_color(EnvStatus::Broken, &p), p.danger);
    let odd = vec![("accent".to_string(), "a\u{20ac}bc".to_string())];
    let q = resolve("moss", &odd);
    assert_eq!(q.accent, moss.accent);
    assert_eq!(q.fg, moss.fg);
    assert_eq!(resolve("nope", &Vec::new()).name, "moss");
    assert_eq!(status_color(EnvStatus::Ready, &p), p.success);
}

#[test]
fn labels_and_colours_read_back() {
    for kind in [BackendKind::Uv, BackendKind::Venv] {
        assert_eq!(BackendKind::parse(kind.label()), Some(kind));
    }
    for (r, g, b) in [(0u8, 0u8, 0u8), (255, 128, 7), (0x9e, 0xd9, 0x6b)] {
        let text = format!("#{r:02x}{g:02x}{b:02x}");
        assert_eq!(parse_hex(&text), Some(Color::Rgb(r, g, b)));
    }
}

#[test]
fn discovery_probes_each_interpreter_file_once() {
    let names: Vec<String> = ["python3", "pip3", "python3.12", "python", "python3-config"]
        .iter()
        .map(|s| s.to_string())
        .collect();
    let resolved: Vec<String> = ["/usr/bin/python3.12", "/usr/bin/pip3", "/usr/bin/python3.12", "/usr/bin/python2", "/x"]
        .iter()
        .map(|s| s.to_string())
        .collect();
    let probed = molt::pyfinder::probe_candidates(&names, &resolved);
    assert_eq!(probed, vec![true, false, false, true, false]);
    let paths: Vec<String> = ["/a/python3", "/a/pip3", "/a/python3.12", "/b/python", "/a/python3-config"]
        .iter()
        .map(|s| s.to_string())
        .collect();
    let versions = vec![Some("3.12.1".to_string()), None, None, Some("3.13.0".to_string()), None];
    let found = molt::pyfinder::collect_interpreters(&paths, &probed, &versions);
    let listed: Vec<(&str, &str)> = found.iter().map(|i| (i.path.as_str(), i.version.as_str())).collect();
    assert_eq!(listed, vec![("/b/python", "3.13.0"), ("/a/python3", "3.12.1")]);
    let none = molt::pyfinder::collect_interpreters(&paths, &probed, &vec![None; 5]);
    assert!(none.is_empty());
}

#[test]
fn packages_compare_by_value() {
    let a = molt::domain::Package { name: "rich".to_string(), version: "13".to_string() };
    assert_eq!(a.clone(), a);
}
