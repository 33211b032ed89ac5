//! The terminal UI's key handling, palette, dialogs and layout helpers.

use molt::keymap::{KeyCode, KeyConfig, KeyEvent, KeyMods};
use molt::runner::RunState;
use molt::tui::{
    all_actions, centered, centered_pct, console_title, help_entries, on_key, output_scroll,
    palette_rows, queue_step, shrink, step, ActionId, DetailTab, Effect, Focus, Overlay,
    PaletteState, PendingConfirm, PendingInput, QueueStep, Rect, UiContext, UiState,
};

fn key(code: KeyCode) -> KeyEvent {
    KeyEvent { code, modifiers: KeyMods { control: false, alt: false, shift: false } }
}

fn ctx() -> UiContext {
    UiContext { n_projects: 3, has_view: true, n_tasks: 2, n_scripts: 4, n_packages: 0, running: true }
}

fn press(state: &mut UiState, keys: &KeyConfig, code: KeyCode) -> Effect {
    on_key(state, keys, &key(code), &ctx())
}

#[test]
fn quit_and_help() {
    let keys = KeyConfig::default();
    let mut s = UiState::new();
    assert!(matches!(press(&mut s, &keys, KeyCode::Char('?')), Effect::Idle));
    assert!(matches!(s.overlay, Overlay::Help));
    press(&mut s, &keys, KeyCode::Char('z'));
    assert!(matches!(s.overlay, Overlay::Closed));
    press(&mut s, &keys, KeyCode::Char('q'));
    assert!(s.should_quit);
}

#[test]
fn tabs_cycle_and_report_changes() {
    let keys = KeyConfig::default();
    let mut s = UiState::new();
    assert!(matches!(press(&mut s, &keys, KeyCode::Tab), Effect::TabChanged));
    assert_eq!(s.tab, DetailTab::Tasks);
    press(&mut s, &keys, KeyCode::Tab);
    press(&mut s, &keys, KeyCode::Tab);
    assert_eq!(s.tab, DetailTab::Environment);
    press(&mut s, &keys, KeyCode::BackTab);
    assert_eq!(s.tab, DetailTab::Packages);
    assert_eq!(DetailTab::Packages.index(), 2);
    assert_eq!(DetailTab::Environment.prev(), DetailTab::Packages);
}

#[test]
fn project_selection_wraps() {
    let keys = KeyConfig::default();
    let mut s = UiState::new();
    assert!(matches!(press(&mut s, &keys, KeyCode::Down), Effect::LoadProject));
    assert_eq!(s.project_sel, Some(1));
    s.project_sel = Some(0);
    press(&mut s, &keys, KeyCode::Up);
    assert_eq!(s.project_sel, Some(2));
    press(&mut s, &keys, KeyCode::Enter);
    assert_eq!(s.focus, Focus::Detail);
    press(&mut s, &keys, KeyCode::Down);
    assert_eq!(s.script_sel, Some(1));
    press(&mut s, &keys, KeyCode::Esc);
    assert_eq!(s.focus, Focus::Projects);
}

#[test]
fn run_and_delete_depend_on_the_tab() {
    let keys = KeyConfig::default();
    let mut s = UiState::new();
    assert!(matches!(press(&mut s, &keys, KeyCode::Char('r')), Effect::Action(ActionId::RunScript)));
    assert!(matches!(press(&mut s, &keys, KeyCode::Char('d')), Effect::Action(ActionId::RemoveEnv)));
    s.tab = DetailTab::Tasks;
    assert!(matches!(press(&mut s, &keys, KeyCode::Char('r')), Effect::Action(ActionId::RunTask)));
    assert!(matches!(press(&mut s, &keys, KeyCode::Char('d')), Effect::Idle));
    assert!(matches!(press(&mut s, &keys, KeyCode::Char('i')), Effect::Action(ActionId::InstallRequirements)));
    assert!(matches!(press(&mut s, &keys, KeyCode::F(5)), Effect::Reload));
    press(&mut s, &keys, KeyCode::Char('s'));
    assert!(s.want_shell);
}

#[test]
fn palette_filters_and_runs_actions() {
    let keys = KeyConfig::default();
    let mut s = UiState::new();
    press(&mut s, &keys, KeyCode::Char('a'));
    for c in "PACK".chars() {
        press(&mut s, &keys, KeyCode::Char(c));
    }
    match &s.overlay {
        Overlay::Palette(p) => {
            assert_eq!(p.query, "PACK");
            assert_eq!(p.filtered, vec![3, 4, 5]);
            let rows = palette_rows(p);
            assert_eq!(rows[0], (true, "Add package", "install a package"));
        }
        _ => panic!("the palette is open"),
    }
    press(&mut s, &keys, KeyCode::Down);
    assert!(matches!(press(&mut s, &keys, KeyCode::Enter), Effect::Action(ActionId::RemovePackage)));
    assert!(matches!(s.overlay, Overlay::Closed));
}

#[test]
fn palette_query_editing() {
    let mut p = PaletteState::new();
    assert_eq!(p.filtered.len(), all_actions().len());
    p.type_char('z');
    p.type_char('z');
    assert!(p.filtered.is_empty());
    assert_eq!(p.selected, 0);
    assert_eq!(p.current(), None);
    p.backspace();
    p.backspace();
    p.backspace();
    assert_eq!(p.query, "");
    assert_eq!(p.filtered.len(), 13);
    p.select_prev();
    assert_eq!(p.selected, 12);
    assert_eq!(p.current(), Some(ActionId::Refresh));
    p.select_next();
    assert_eq!(p.current(), Some(ActionId::InstallRequirements));
}

#[test]
fn input_dialog_submits_trimmed_text() {
    let keys = KeyConfig::default();
    let mut s = UiState::new();
    press(&mut s, &keys, KeyCode::Char('n'));
    match &s.overlay {
        Overlay::Input(i) => {
            assert_eq!(i.title, "Import project");
            assert_eq!(i.action, PendingInput::ImportProject);
        }
        _ => panic!("input dialog is open"),
    }
    for c in " /p/x".chars() {
        press(&mut s, &keys, KeyCode::Char(c));
    }
    press(&mut s, &keys, KeyCode::Char('y'));
    press(&mut s, &keys, KeyCode::Backspace);
    match press(&mut s, &keys, KeyCode::Enter) {
        Effect::Submit(PendingInput::ImportProject, v) => assert_eq!(v, "/p/x"),
        _ => panic!("the text is submitted"),
    }
    assert!(matches!(s.overlay, Overlay::Closed));
    press(&mut s, &keys, KeyCode::Char('n'));
    press(&mut s, &keys, KeyCode::Char(' '));
    assert!(matches!(press(&mut s, &keys, KeyCode::Enter), Effect::Idle));
}

#[test]
fn confirmation_dialogs() {
    let keys = KeyConfig::default();
    let mut s = UiState::new();
    let direct = s.request_confirmation(PendingConfirm::RemoveEnv("default".to_string()), "default", false);
    assert!(matches!(direct, Some(PendingConfirm::RemoveEnv(_))));
    assert!(matches!(s.overlay, Overlay::Closed));
    let asked = s.request_confirmation(PendingConfirm::RemoveEnv("default".to_string()), "default", true);
    assert!(asked.is_none());
    match &s.overlay {
        Overlay::Confirm(c) => assert_eq!(c.message, "Delete environment 'default' from disk?"),
        _ => panic!("confirmation is open"),
    }
    press(&mut s, &keys, KeyCode::Char('x'));
    assert!(matches!(s.overlay, Overlay::Confirm(_)));
    match press(&mut s, &keys, KeyCode::Char('y')) {
        Effect::Confirmed(PendingConfirm::RemoveEnv(e)) => assert_eq!(e, "default"),
        _ => panic!("confirmed"),
    }
    let forget = s.request_confirmation(PendingConfirm::ForgetProject("id".to_string()), "My App", false);
    assert!(forget.is_none());
    match &s.overlay {
        Overlay::Confirm(c) => assert_eq!(c.message, "Forget project 'My App'? (files are kept)"),
        _ => panic!("forgetting always asks"),
    }
    assert!(matches!(press(&mut s, &keys, KeyCode::Char('n')), Effect::Idle));
    assert!(matches!(s.overlay, Overlay::Closed));
}

#[test]
fn output_console_scrolls_and_stops() {
    let keys = KeyConfig::default();
    let mut s = UiState::new();
    s.overlay = Overlay::Output;
    s.output_scroll = 5;
    press(&mut s, &keys, KeyCode::Up);
    assert_eq!(s.output_scroll, 4);
    assert!(!s.auto_scroll);
    press(&mut s, &keys, KeyCode::PageUp);
    assert_eq!(s.output_scroll, 0);
    press(&mut s, &keys, KeyCode::PageDown);
    assert_eq!(s.output_scroll, 10);
    press(&mut s, &keys, KeyCode::Enter);
    assert!(s.auto_scroll);
    assert!(matches!(press(&mut s, &keys, KeyCode::Char('x')), Effect::StopRun));
    press(&mut s, &keys, KeyCode::Char('q'));
    assert!(matches!(s.overlay, Overlay::Closed));
    assert!(!s.should_quit);
    assert_eq!(output_scroll(true, 0, 100, 20), 80);
    assert_eq!(output_scroll(false, 90, 100, 20), 80);
    assert_eq!(output_scroll(false, 5, 100, 20), 5);
    assert_eq!(output_scroll(true, 3, 10, 20), 0);
}

#[test]
fn list_steps_wrap() {
    assert_eq!(step(None, 0, 1), None);
    assert_eq!(step(None, 3, 1), Some(1));
    assert_eq!(step(Some(2), 3, 1), Some(0));
    assert_eq!(step(Some(0), 3, -1), Some(2));
    assert_eq!(step(Some(7), 3, -1), Some(0));
}

#[test]
fn layout_helpers() {
    let area = Rect { x: 0, y: 0, width: 100, height: 40 };
    assert_eq!(centered(area, 60, 16), Rect { x: 20, y: 12, width: 60, height: 16 });
    assert_eq!(centered(area, 200, 50), area);
    assert_eq!(centered_pct(area, 86, 82), Rect { x: 7, y: 4, width: 86, height: 32 });
    assert_eq!(shrink(Rect { x: 1, y: 1, width: 3, height: 10 }), Rect { x: 3, y: 2, width: 0, height: 8 });
}

#[test]
fn console_labels_and_queue() {
    assert_eq!(console_title("Task: t", Some(&RunState::Done(3))), "Task: t [exit 3]");
    assert_eq!(console_title("x", Some(&RunState::Done(-12))), "x [exit -12]");
    assert_eq!(console_title("x", Some(&RunState::Done(0))), "x [done]");
    assert_eq!(console_title("x", Some(&RunState::Failed("boom".to_string()))), "x [failed: boom]");
    assert_eq!(console_title("x", None), "x [idle]");
    assert_eq!(queue_step(Some(&RunState::Done(0))), QueueStep::Advance);
    assert_eq!(queue_step(Some(&RunState::Done(2))), QueueStep::Abort);
    assert_eq!(queue_step(Some(&RunState::Running)), QueueStep::Wait);
    assert_eq!(queue_step(None), QueueStep::Wait);
    assert!(RunState::Running.is_running());
    assert!(!RunState::Done(0).is_running());
}

#[test]
fn help_lists_the_bindings() {
    let rows = help_entries(&KeyConfig::default());
    assert_eq!(rows.len(), 12);
    assert_eq!(rows[0], ("Navigate", "up / down / left / right".to_string()));
    assert_eq!(rows[11], ("Quit", "q".to_string()));
}
