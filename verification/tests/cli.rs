//! Command-line validation and the decisions the subcommands take.

use molt::cli::{
    create_path, env_name, forget_exit_code, package_line, run, run_sequence_next, run_target,
    status_symbol, Cli, CliError, Command, SequenceStep,
};
use molt::config::{BackendPreference, Config};
use molt::domain::{EnvStatus, Package, Task, TaskKind};
use molt::error::MoltError;
use molt::registry::{ProjectEntry, Registry};
use molt::service::{ProjectManifest, ProjectView, Service};

fn cli(backend: Option<&str>, command: Option<Command>) -> Cli {
    Cli {
        project: Some("p".to_string()),
        env: None,
        backend: backend.map(|b| b.to_string()),
        command,
    }
}

fn view_with_task(name: &str) -> ProjectView {
    let s = Service::load(Config::default(), Registry { projects: Vec::new() });
    let mut m = ProjectManifest::default();
    m.tasks.push(Task {
        name: name.to_string(),
        kind: TaskKind::Script,
        command: "x.py".to_string(),
        args: Vec::new(),
        cwd: None,
        env_file: None,
        description: None,
    });
    let e = ProjectEntry {
        id: "i".to_string(),
        name: "n".to_string(),
        path: "/p".to_string(),
        backend: None,
        default_env: None,
        added: "t".to_string(),
    };
    let probes = vec![(EnvStatus::Ready, Some("3.12".to_string()))];
    s.load_view(&e, m, false, &probes, Vec::new(), Vec::new())
}

#[test]
fn missing_subcommand_means_tui() {
    match run(cli(None, None)) {
        Ok(inv) => {
            assert!(matches!(inv.command, Command::Tui));
            assert_eq!(inv.project.as_deref(), Some("p"));
            assert!(inv.backend_override.is_none());
        }
        Err(_) => panic!("valid command line"),
    }
}

#[test]
fn backend_flag_is_validated() {
    match run(cli(Some(" UV "), Some(Command::List))) {
        Ok(inv) => {
            assert_eq!(inv.backend_override, Some(BackendPreference::Uv));
            assert!(matches!(inv.command, Command::List));
        }
        Err(_) => panic!("uv is a backend"),
    }
    match run(cli(Some("conda"), Some(Command::List))) {
        Err(CliError::InvalidBackend(v)) => assert_eq!(v, "conda"),
        Ok(_) => panic!("conda is not a backend"),
    }
}

#[test]
fn environment_and_paths_for_commands() {
    let v = view_with_task("test");
    assert_eq!(env_name(&v, Some("dev")), "dev");
    assert_eq!(env_name(&v, None), "default");
    assert_eq!(create_path("app", None), "./app");
    assert_eq!(create_path("app", Some("/x/y")), "/x/y");
}

#[test]
fn run_prefers_a_saved_task() {
    let v = view_with_task("test");
    assert_eq!(run_target(&v, "test"), Some(0));
    assert_eq!(run_target(&v, "main.py"), None);
}

#[test]
fn sequences_stop_at_the_first_failure() {
    assert_eq!(run_sequence_next(3, 0, None), SequenceStep::Run(0));
    assert_eq!(run_sequence_next(3, 1, Some(0)), SequenceStep::Run(1));
    assert_eq!(run_sequence_next(3, 2, Some(7)), SequenceStep::Exit(7));
    assert_eq!(run_sequence_next(3, 3, Some(0)), SequenceStep::Exit(0));
    assert_eq!(run_sequence_next(0, 0, None), SequenceStep::Exit(0));
}

#[test]
fn small_outputs() {
    assert_eq!(forget_exit_code(true), 0);
    assert_eq!(forget_exit_code(false), 3);
    assert_eq!(status_symbol(EnvStatus::Ready), "ok");
    assert_eq!(status_symbol(EnvStatus::Unknown), "?");
    let p = Package { name: "rich".to_string(), version: "13.0".to_string() };
    assert_eq!(package_line(&p), "rich==13.0");
    let bare = Package { name: "bare".to_string(), version: String::new() };
    assert_eq!(package_line(&bare), "bare");
}

#[test]
fn domain_errors_map_to_exit_codes_and_messages() {

    let e = MoltError::ProjectNotFound("x".to_string());
    assert_eq!(e.exit_code(), 3);
    assert_eq!(e.message(), "no Molt project found for 'x'");
    assert_eq!(MoltError::NoPython.exit_code(), 4);
    assert_eq!(MoltError::NoPython.message(), "no Python interpreter could be found on this system");
    assert_eq!(MoltError::Config("bad".to_string()).exit_code(), 2);
    assert_eq!(MoltError::Config("bad".to_string()).message(), "configuration error: bad");
    assert_eq!(MoltError::BackendUnavailable("uv".to_string()).message(), "backend 'uv' is not available on this system");
}
