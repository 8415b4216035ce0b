use sourcepan::coordinator::{Coordinator, Request};
use sourcepan::watch::{branch_components, is_relevant, PathEvent};

fn p(s: &str) -> Vec<String> {
    s.split('/').filter(|c| !c.is_empty()).map(|c| c.to_string()).collect()
}

#[test]
fn working_tree_changes_are_relevant() {
    assert!(is_relevant(&p("/home/u/repo/src/main.rs"), "main"));
    assert!(is_relevant(&p("/home/u/repo/README"), "main"));
}

#[test]
fn index_and_branch_ref_are_relevant() {
    assert!(is_relevant(&p("/home/u/repo/.git/index"), "main"));
    assert!(is_relevant(&p("/home/u/repo/.git/refs/heads/main"), "main"));
    assert!(is_relevant(&p("/home/u/repo/.git/logs/refs/heads/main"), "main"));
    assert!(is_relevant(&p("/home/u/repo/.git/refs/heads/feature/x"), "feature/x"));
}

#[test]
fn other_metadata_changes_are_dropped() {
    assert!(!is_relevant(&p("/home/u/repo/.git/objects/ab/cdef0123"), "main"));
    assert!(!is_relevant(&p("/home/u/repo/.git/refs/heads/other"), "main"));
    assert!(!is_relevant(&p("/home/u/repo/.git/index.lock"), "main"));
    assert!(!is_relevant(&p("/home/u/repo/.git/refs/heads/x"), "feature/x/y"));
    assert!(!is_relevant(&p("/home/u/repo/.git/objects/ab/cd"), ""));
    assert!(!is_relevant(&p("/home/u/repo/.git/HEAD"), "/"));
    assert!(is_relevant(&p("/home/u/repo/.git/index"), ""));
    assert!(is_relevant(&p("/home/u/repo/file"), ""));
}

#[test]
fn branch_names_split_on_slashes() {
    assert_eq!(branch_components("main"), vec!["main"]);
    assert_eq!(branch_components("feature/x"), vec!["feature", "x"]);
    assert_eq!(branch_components("/a//b/"), vec!["a", "b"]);
    assert!(branch_components("").is_empty());
}

#[test]
fn event_paths() {
    let a = p("/r/a");
    let b = p("/r/b");
    assert_eq!(PathEvent::Write(a.clone()).path(), Some(&a));
    assert_eq!(PathEvent::Rename(a.clone(), b.clone()).path(), Some(&b));
    assert_eq!(PathEvent::Rescan.path(), None);
    assert_eq!(PathEvent::Error(None).path(), None);
    assert_eq!(PathEvent::Error(Some(a.clone())).path(), Some(&a));
    assert_eq!(PathEvent::Chmod(a.clone()).path(), Some(&a));
}

#[test]
fn metadata_object_write_asks_for_nothing() {
    let mut c = Coordinator::new("main".to_string());
    let before = format!("{:?}", c);
    let r = c.on_path_change_event(&PathEvent::Create(p("/home/u/repo/.git/objects/ab/cdef0123")));
    assert_eq!(r, Request::Idle);
    assert_eq!(format!("{:?}", c), before);
    let r = c.on_path_change_event(&PathEvent::Rescan);
    assert_eq!(r, Request::Idle);
    assert_eq!(format!("{:?}", c), before);
}

#[test]
fn index_write_asks_for_a_walk() {
    let mut c = Coordinator::new("main".to_string());
    let r = c.on_path_change_event(&PathEvent::Write(p("/home/u/repo/.git/index")));
    assert_eq!(r, Request::ComputeHistory(1));
    assert!(c.in_flight);
}

#[test]
fn rename_into_working_tree_asks_for_a_walk() {
    let mut c = Coordinator::new("main".to_string());
    let r = c.on_path_change_event(&PathEvent::Rename(
        p("/home/u/repo/.git/tmp_obj"),
        p("/home/u/repo/notes.txt"),
    ));
    assert_eq!(r, Request::ComputeHistory(1));
}
