//! Backend command construction, backend selection and freeze parsing.

use molt::backend::{
    bin_dir, packages_from_output, python_exe, resolve_backend, Backend, BackendError,
    SelectedBackend, UvBackend, VenvBackend,
};
use molt::config::BackendPreference;
use molt::domain::BackendKind;
use molt::runner::CapturedOutput;

#[test]
fn environment_executables_live_in_bin() {
    assert_eq!(bin_dir("/p/.venv"), "/p/.venv/bin");
    assert_eq!(python_exe("/p/.venv"), "/p/.venv/bin/python");
    assert_eq!(python_exe("/p/.venv/"), "/p/.venv/bin/python");
}

#[test]
fn venv_backend_creates_then_upgrades_pip() {
    let b = VenvBackend::new("python3");
    let cmds = match b.create_env("/p/.venv", None) {
        Ok(c) => c,
        Err(_) => panic!("venv creation is always planned"),
    };
    assert_eq!(cmds.len(), 2);
    assert_eq!(cmds[0].display(), "python3 -m venv /p/.venv");
    assert_eq!(cmds[1].display(), "/p/.venv/bin/python -m pip install --upgrade pip");
    let with_version = match b.create_env("/p/.venv", Some("python3.12")) {
        Ok(c) => c,
        Err(_) => panic!("venv creation is always planned"),
    };
    assert_eq!(with_version[0].display(), "python3.12 -m venv /p/.venv");
}

#[test]
fn venv_backend_package_commands() {
    let b = VenvBackend::new("python3");
    let pkgs = vec!["requests".to_string(), "django>=5".to_string()];
    assert_eq!(
        b.install_packages("/e", &pkgs).display(),
        "/e/bin/python -m pip install requests django>=5"
    );
    assert_eq!(
        b.uninstall_packages("/e", &pkgs).display(),
        "/e/bin/python -m pip uninstall -y requests django>=5"
    );
    assert_eq!(b.freeze("/e").display(), "/e/bin/python -m pip freeze");
    assert_eq!(b.kind(), BackendKind::Venv);
}

#[test]
fn uv_backend_commands() {
    let b = UvBackend::new();
    let cmds = match b.create_env("/p/.venv", Some("3.12")) {
        Ok(c) => c,
        Err(_) => panic!("uv creation is always planned"),
    };
    assert_eq!(cmds.len(), 1);
    assert_eq!(cmds[0].display(), "uv venv /p/.venv --python 3.12");
    assert_eq!(
        b.install_requirements("/p/.venv", "/p/requirements.txt").display(),
        "uv pip install --python /p/.venv/bin/python -r /p/requirements.txt"
    );
    assert_eq!(
        b.uninstall_packages("/e", &["rich".to_string()]).display(),
        "uv pip uninstall --python /e/bin/python rich"
    );
    assert_eq!(b.freeze("/e").display(), "uv pip freeze --python /e/bin/python");
    assert_eq!(b.kind(), BackendKind::Uv);
}

#[test]
fn backend_selection_follows_override_then_preference() {
    let r = resolve_backend(BackendPreference::Auto, None, "python3", true);
    assert!(matches!(r, Ok(SelectedBackend::Uv(_))));
    let r = resolve_backend(BackendPreference::Auto, None, "python3", false);
    assert!(matches!(r, Ok(SelectedBackend::Venv(_))));
    let r = resolve_backend(BackendPreference::Uv, Some(BackendKind::Venv), "python3", true);
    assert!(matches!(r, Ok(SelectedBackend::Venv(_))));
    let r = resolve_backend(BackendPreference::Venv, None, "python3", true);
    assert!(matches!(r, Ok(SelectedBackend::Venv(_))));
}

#[test]
fn requesting_missing_uv_is_an_error() {
    let r = resolve_backend(BackendPreference::Uv, None, "python3", false);
    assert!(matches!(r, Err(BackendError::UvUnavailable)));
    let r = resolve_backend(BackendPreference::Auto, Some(BackendKind::Uv), "python3", false);
    assert!(matches!(r, Err(BackendError::UvUnavailable)));
}

#[test]
fn failed_freeze_reports_trimmed_stderr() {
    let out = CapturedOutput { code: 1, stdout: String::new(), stderr: "  boom\n".to_string() };
    match packages_from_output(&out) {
        Err(BackendError::ListFailed(e)) => assert_eq!(e, "boom"),
        _ => panic!("a failed freeze is an error"),
    }
    let ok = CapturedOutput { code: 0, stdout: "a==1\nb==2\n".to_string(), stderr: String::new() };
    match packages_from_output(&ok) {
        Ok(p) => {
            assert_eq!(p.len(), 2);
            assert_eq!(p[1].name, "b");
            assert_eq!(p[1].version, "2");
        }
        Err(_) => panic!("a successful freeze parses"),
    }
}

#[test]
fn freeze_lines_are_trimmed_and_filtered() {
    let p = molt::backend::parse_freeze("  numpy == 1.26 \n\n-e git+x\n#c\r\nflask @ /src/flask\r\n");
    assert_eq!(p.len(), 2);
    assert_eq!(p[0].name, "numpy");
    assert_eq!(p[0].version, "1.26");
    assert_eq!(p[1].name, "flask");
    assert_eq!(p[1].version, "/src/flask");
}
