//! Path helpers, project ids and the project registry.

use molt::paths::{ancestor_dirs, file_name_of, join_path, parent_path};
use molt::registry::{project_id, ProjectEntry, Registry};

fn entry(id: &str, name: &str, path: &str) -> ProjectEntry {
    ProjectEntry {
        id: id.to_string(),
        name: name.to_string(),
        path: path.to_string(),
        backend: None,
        default_env: None,
        added: "2024-01-01T00:00:00+00:00".to_string(),
    }
}

#[test]
fn joining_paths_like_std() {
    assert_eq!(join_path("/a", "b"), "/a/b");
    assert_eq!(join_path("/a/", "b"), "/a/b");
    assert_eq!(join_path("/a", "/b"), "/b");
    assert_eq!(join_path("", "b"), "b");
}

#[test]
fn parents_and_file_names_like_std() {
    assert_eq!(parent_path("/a/b").as_deref(), Some("/a"));
    assert_eq!(parent_path("/a").as_deref(), Some("/"));
    assert_eq!(parent_path("/"), None);
    assert_eq!(parent_path("a").as_deref(), Some(""));
    assert_eq!(parent_path("/a/b/").as_deref(), Some("/a"));
    assert_eq!(file_name_of("/a/b.py").as_deref(), Some("b.py"));
    assert_eq!(file_name_of("a/b/").as_deref(), Some("b"));
    assert_eq!(file_name_of("/"), None);
    assert_eq!(file_name_of("/a/.."), None);
    for p in ["/a/b/c", "/a", "x/y", "/a//b", "a/b/"] {
        let std_parent = std::path::Path::new(p).parent().map(|q| q.to_string_lossy().to_string());
        assert_eq!(parent_path(p), std_parent, "parent of {p}");
        let std_name = std::path::Path::new(p).file_name().map(|q| q.to_string_lossy().to_string());
        assert_eq!(file_name_of(p), std_name, "file name of {p}");
    }
}

#[test]
fn ancestors_walk_up_to_the_root() {
    assert_eq!(ancestor_dirs("/a/b"), vec!["/a/b".to_string(), "/a".to_string(), "/".to_string()]);
}

#[test]
fn project_ids_are_short_stable_hashes() {
    assert_eq!(project_id("/tmp/proj"), "2599eb06");
    assert_eq!(project_id("/home/user/app"), "a16924f3");
    assert_eq!(project_id(""), "cbf29ce4");
    assert_eq!(project_id("/tmp/proj"), project_id("/tmp/proj"));
    assert_eq!(project_id("/x").len(), 8);
}

fn canonical_paths(reg: &Registry) -> Vec<String> {
    reg.projects.iter().map(|p| p.path.clone()).collect()
}

#[test]
fn upsert_inserts_then_replaces_by_path() {
    let mut reg = Registry { projects: Vec::new() };
    let c = canonical_paths(&reg);
    reg.upsert(entry("a", "Alpha", "/a"), &c, "/a");
    let c = canonical_paths(&reg);
    reg.upsert(entry("b", "Beta", "/b"), &c, "/b");
    assert_eq!(reg.projects.len(), 2);
    let c = canonical_paths(&reg);
    reg.upsert(entry("a2", "Alpha2", "/a"), &c, "/a");
    assert_eq!(reg.projects.len(), 2);
    assert_eq!(reg.projects[0].name, "Alpha2");
    assert_eq!(reg.projects[0].id, "a2");
    assert!(reg.find_by_id("a").is_none());
    let c = canonical_paths(&reg);
    reg.upsert(entry("a2", "Elsewhere", "/z"), &c, "/z");
    assert_eq!(reg.projects.len(), 3);
    match reg.find_by_path("/z", &canonical_paths(&reg)) {
        Some(e) => assert_eq!(e.name, "Elsewhere"),
        None => panic!("upserted entry is found by path"),
    }
}

#[test]
fn upsert_matches_canonical_forms_not_spelling() {
    let mut reg = Registry { projects: vec![entry("x", "X", "/p/./x")] };
    let canonical = vec!["/p/x".to_string()];
    reg.upsert(entry("x2", "X2", "/p/x"), &canonical, "/p/x");
    assert_eq!(reg.projects.len(), 1);
    assert_eq!(reg.projects[0].name, "X2");
}

#[test]
fn find_by_name_ignores_ascii_case() {
    let reg = Registry { projects: vec![entry("a", "MyApp", "/a"), entry("b", "other", "/b")] };
    match reg.find_by_name("myapp") {
        Some(e) => assert_eq!(e.id, "a"),
        None => panic!("case-insensitive match"),
    }
    assert!(reg.find_by_name("nope").is_none());
}

#[test]
fn find_by_path_compares_canonical_forms() {
    let reg = Registry { projects: vec![entry("a", "A", "/a"), entry("b", "B", "/b/./")] };
    let canonical = vec!["/a".to_string(), "/b".to_string()];
    match reg.find_by_path("/b", &canonical) {
        Some(e) => assert_eq!(e.id, "b"),
        None => panic!("canonical path matches"),
    }
    assert!(reg.find_by_path("/c", &canonical).is_none());
}

#[test]
fn remove_undoes_an_insert() {
    let mut reg = Registry { projects: vec![entry("a", "A", "/a")] };
    let c = canonical_paths(&reg);
    reg.upsert(entry("n", "New", "/n"), &c, "/n");
    let removed = reg.remove("n");
    assert_eq!(removed.map(|e| e.name), Some("New".to_string()));
    assert_eq!(reg.projects.len(), 1);
    assert_eq!(reg.projects[0].id, "a");
    assert!(reg.remove("n").is_none());
    assert!(reg.find_by_id("n").is_none());
}
