//! Service-level planning: views, environments, commands and project lookup.

use molt::config::Config;
use molt::domain::{BackendKind, EnvSpec, EnvStatus, Task, TaskKind};
use molt::registry::{ProjectEntry, Registry};
use molt::service::{
    discover_requirements, discover_scripts, entry_for, find_project_root, manifest_path,
    probe_env, EntryProbe, Host, ProjectManifest, ProjectView, ResolveError, Service,
    ServiceError,
};

fn entry(id: &str, name: &str, path: &str) -> ProjectEntry {
    ProjectEntry {
        id: id.to_string(),
        name: name.to_string(),
        path: path.to_string(),
        backend: None,
        default_env: None,
        added: "t".to_string(),
    }
}

fn host(uv: bool) -> Host {
    Host {
        uv_available: uv,
        interpreters: Vec::new(),
        path_var: "/usr/bin".to_string(),
        shell_var: Some("/bin/bash".to_string()),
    }
}

fn service() -> Service {
    Service::load(Config::default(), Registry { projects: Vec::new() })
}

fn view(s: &Service, manifest: ProjectManifest) -> ProjectView {
    let n = s.environment_specs(&manifest).len();
    let probes = vec![(EnvStatus::Missing, None); n];
    s.load_view(
        &entry("p1", "proj", "/p"),
        manifest,
        false,
        &probes,
        vec!["main.py".to_string()],
        Vec::new(),
    )
}

#[test]
fn projects_without_environments_get_the_default_one() {
    let s = service();
    let v = view(&s, ProjectManifest::default());
    assert_eq!(v.environments.len(), 1);
    assert_eq!(v.environments[0].name, "default");
    assert_eq!(v.environments[0].path, "/p/.venv");
    assert_eq!(v.environments[0].status, EnvStatus::Missing);
    assert_eq!(v.environments[0].backend, BackendKind::Venv);
}

#[test]
fn declared_environments_resolve_under_the_root() {
    let s = service();
    let mut m = ProjectManifest::default();
    m.environments.push(EnvSpec {
        name: "test".to_string(),
        path: Some("envs/test".to_string()),
        python: None,
        requirements: Some("req-test.txt".to_string()),
    });
    let v = view(&s, m);
    assert_eq!(v.environments.len(), 1);
    assert_eq!(v.environments[0].path, "/p/envs/test");
    assert!(matches!(s.env_path(&v, "default"), Ok(p) if p == "/p/.venv"));
    assert!(matches!(s.env_path(&v, "other"), Err(ServiceError::EnvNotDefined(n)) if n == "other"));
}

#[test]
fn creating_an_environment_plans_venv_then_pip() {
    let s = service();
    let v = view(&s, ProjectManifest::default());
    let cmds = match s.plan_create_env(&v, "default", &host(false)) {
        Ok(c) => c,
        Err(_) => panic!("the default environment can be created"),
    };
    assert_eq!(cmds.len(), 2);
    assert_eq!(cmds[0].display(), "python3 -m venv /p/.venv");
    assert_eq!(cmds[1].display(), "/p/.venv/bin/python -m pip install --upgrade pip");
    assert!(matches!(
        s.plan_create_env(&v, "nope", &host(false)),
        Err(ServiceError::EnvNotDefined(_))
    ));
}

#[test]
fn install_requirements_needs_the_file() {
    let s = service();
    let v = view(&s, ProjectManifest::default());
    match s.plan_install_requirements(&v, "default", None, &host(false), true) {
        Ok(c) => assert_eq!(c.display(), "/p/.venv/bin/python -m pip install -r /p/requirements.txt"),
        Err(_) => panic!("requirements install is planned"),
    }
    match s.plan_install_requirements(&v, "default", Some("/abs/req.txt"), &host(false), false) {
        Err(ServiceError::RequirementsNotFound(p)) => assert_eq!(p, "/abs/req.txt"),
        _ => panic!("a missing file is reported"),
    }
}

#[test]
fn uv_projects_fail_without_uv() {
    let s = service();
    let mut m = ProjectManifest::default();
    m.backend = Some(BackendKind::Uv);
    let v = view(&s, m);
    assert!(matches!(
        s.plan_add_packages(&v, "default", &["rich".to_string()], &host(false)),
        Err(ServiceError::Backend(_))
    ));
    match s.plan_add_packages(&v, "default", &["rich".to_string()], &host(true)) {
        Ok(c) => assert_eq!(c.display(), "uv pip install --python /p/.venv/bin/python rich"),
        Err(_) => panic!("uv is available"),
    }
}

#[test]
fn scripts_run_with_the_environment_activated() {
    let s = service();
    let v = view(&s, ProjectManifest::default());
    let c = match s.plan_script(&v, "main.py", &["--x".to_string()], "default", &host(false)) {
        Ok(c) => c,
        Err(_) => panic!("script run is planned"),
    };
    assert_eq!(c.display(), "/p/.venv/bin/python main.py --x");
    assert_eq!(c.cwd.as_deref(), Some("/p"));
    assert_eq!(
        c.env,
        vec![
            ("VIRTUAL_ENV".to_string(), "/p/.venv".to_string()),
            ("PATH".to_string(), "/p/.venv/bin:/usr/bin".to_string()),
            ("PYTHONNOUSERSITE".to_string(), "1".to_string()),
        ]
    );
}

#[test]
fn tasks_plan_by_kind() {
    let s = service();
    let v = view(&s, ProjectManifest::default());
    let mut task = Task {
        name: "t".to_string(),
        kind: TaskKind::Module,
        command: "pytest".to_string(),
        args: vec!["-q".to_string()],
        cwd: Some("tests".to_string()),
        env_file: Some(".env".to_string()),
        description: None,
    };
    let c = match s.plan_task(&v, &task, "default", &host(false), Some("A=1\n")) {
        Ok(c) => c,
        Err(_) => panic!("task run is planned"),
    };
    assert_eq!(c.display(), "/p/.venv/bin/python -m pytest -q");
    assert_eq!(c.cwd.as_deref(), Some("/p/tests"));
    assert_eq!(c.env.last(), Some(&("A".to_string(), "1".to_string())));
    task.kind = TaskKind::Shell;
    task.command = "echo hi there".to_string();
    match s.plan_task(&v, &task, "default", &host(false), None) {
        Ok(c) => assert_eq!(c.display(), "/bin/bash -c \"echo hi there\""),
        Err(_) => panic!("shell task is planned"),
    }
    assert_eq!(s.env_file_path(&v, &task).as_deref(), Some("/p/.env"));
}

#[test]
fn shells_prefer_the_configured_one() {
    let mut s = service();
    let v = view(&s, ProjectManifest::default());
    match s.plan_shell(&v, "default", &host(false)) {
        Ok(c) => assert_eq!(c.program, "/bin/bash"),
        Err(_) => panic!("shell is planned"),
    }
    s.config.behavior.shell = Some("/bin/zsh".to_string());
    assert_eq!(s.shell(&host(false)), "/bin/zsh");
    let no_shell = Host { shell_var: None, ..host(false) };
    let t = service();
    assert_eq!(t.shell(&no_shell), "/bin/sh");
}

#[test]
fn effective_backend_prefers_entry_then_manifest_then_config() {
    let s = service();
    let mut e = entry("x", "x", "/x");
    let mut m = ProjectManifest::default();
    assert_eq!(s.effective_backend_kind(&e, &m, true), BackendKind::Uv);
    assert_eq!(s.effective_backend_kind(&e, &m, false), BackendKind::Venv);
    m.backend = Some(BackendKind::Uv);
    assert_eq!(s.effective_backend_kind(&e, &m, false), BackendKind::Uv);
    e.backend = Some(BackendKind::Venv);
    assert_eq!(s.effective_backend_kind(&e, &m, true), BackendKind::Venv);
}

#[test]
fn discovery_of_scripts_and_requirements() {
    let scripts = discover_scripts(
        &vec![true, false, false, false, false],
        &vec!["b.py".to_string(), "main.py".to_string(), "README.md".to_string(), "a.py".to_string()],
    );
    assert_eq!(scripts, vec!["a.py".to_string(), "b.py".to_string(), "main.py".to_string()]);
    let reqs = discover_requirements(
        &vec![true, false, false, true],
        &vec!["requirements-test.txt".to_string(), "requirements.txt".to_string(), "x.txt".to_string()],
    );
    assert_eq!(
        reqs,
        vec![
            "requirements.txt".to_string(),
            "requirements/base.txt".to_string(),
            "requirements-test.txt".to_string(),
        ]
    );
}

#[test]
fn environment_probes() {
    assert_eq!(probe_env(false, true, None), (EnvStatus::Missing, None));
    assert_eq!(probe_env(true, false, None), (EnvStatus::Empty, None));
    assert_eq!(probe_env(true, true, Some("3.12".to_string())), (EnvStatus::Ready, Some("3.12".to_string())));
    assert_eq!(probe_env(true, true, None), (EnvStatus::Broken, None));
}

#[test]
fn manifests_and_roots() {
    assert_eq!(manifest_path("/p"), "/p/.molt.toml");
    assert_eq!(find_project_root("/a/b", &vec![false, true, false]).as_deref(), Some("/a"));
    assert_eq!(find_project_root("/a/b", &vec![false, false, false]), None);
    let e = entry_for("/tmp/proj", "now".to_string());
    assert_eq!(e.name, "proj");
    assert_eq!(e.id, "2599eb06");
    assert_eq!(e.added, "now");
}

#[test]
fn importing_and_creating_projects() {
    let mut s = service();
    let mut m = ProjectManifest::default();
    m.name = Some("Nice".to_string());
    let e = s.import_project("/tmp/proj", &m, &Vec::new());
    assert_eq!(e.name, "Nice");
    assert_eq!(s.projects().len(), 1);
    let registered: Vec<String> = s.projects().iter().map(|p| p.path.clone()).collect();
    let again = s.import_project("/tmp/proj", &ProjectManifest::default(), &registered);
    assert_eq!(again.name, "proj");
    assert_eq!(s.projects().len(), 1);
    let registered: Vec<String> = s.projects().iter().map(|p| p.path.clone()).collect();
    let (manifest, created) = s.create_project("app", "/home/user/app", Some("3.12"), None, &registered);
    assert_eq!(created.id, "a16924f3");
    assert_eq!(created.default_env.as_deref(), Some("default"));
    assert_eq!(manifest.environments[0].path.as_deref(), Some(".venv"));
    assert_eq!(manifest.python.as_deref(), Some("3.12"));
    assert_eq!(s.projects().len(), 2);
    assert!(s.remove_project("a16924f3").is_some());
    assert!(s.remove_project("a16924f3").is_none());
    assert_eq!(s.projects().len(), 1);
}

#[test]
fn resolving_a_project_selector() {
    let s = Service::load(
        Config::default(),
        Registry { projects: vec![entry("a", "Alpha", "/a"), entry("b", "Beta", "/b")] },
    );
    let probe = EntryProbe {
        registered: vec!["/a".to_string(), "/b".to_string()],
        selector_path: None,
        cwd: "/b/src".to_string(),
        root: Some("/b".to_string()),
    };
    assert!(matches!(s.resolve_entry(Some("alpha"), &probe), Ok(e) if e.id == "a"));
    assert!(matches!(s.resolve_entry(Some("zzz"), &probe), Err(ResolveError::NotFound(t)) if t == "zzz"));
    assert!(matches!(s.resolve_entry(None, &probe), Ok(e) if e.id == "b"));
    let elsewhere = EntryProbe { selector_path: Some("/tmp/proj".to_string()), ..probe.clone() };
    assert!(matches!(s.resolve_entry(Some("./proj"), &elsewhere), Ok(e) if e.id == "2599eb06"));
    let nowhere = EntryProbe { root: None, cwd: "/c".to_string(), ..probe };
    assert!(matches!(s.resolve_entry(None, &nowhere), Err(ResolveError::NoProjectHere)));
}
