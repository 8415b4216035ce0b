use sourcepan::changes::{commit_changes, uncommitted_changes};
use sourcepan::model::{change_kind, ChangeKind, DeltaInfo, DeltaStatus, Oid, TreeItem};

fn delta(n: u8, path: &str, status: DeltaStatus) -> DeltaInfo {
    DeltaInfo { id: Oid::from_bytes([n; 20]), path: path.to_string(), status }
}

fn paths(v: &[TreeItem]) -> Vec<String> {
    v.iter().map(|t| t.path.clone()).collect()
}

#[test]
fn untracked_file_shows_as_added_and_unstaged() {
    let (staged, unstaged) = uncommitted_changes(&vec![], &vec![delta(9, "x.txt", DeltaStatus::Untracked)]);
    assert!(staged.is_empty());
    assert_eq!(unstaged.len(), 1);
    assert_eq!(unstaged[0].path, "x.txt");
    assert_eq!(unstaged[0].kind, ChangeKind::Added);
    assert!(!unstaged[0].is_selected);
    assert_eq!(unstaged[0].id, Oid::from_bytes([9; 20]));
}

#[test]
fn unstaged_rows_with_a_staged_content_id_are_left_out() {
    let index = vec![delta(1, "a.rs", DeltaStatus::Modified), delta(2, "b.rs", DeltaStatus::Added)];
    let workdir = vec![
        delta(2, "b.rs", DeltaStatus::Modified),
        delta(3, "c.rs", DeltaStatus::Modified),
        delta(1, "other.rs", DeltaStatus::Modified),
        delta(4, "d.rs", DeltaStatus::Deleted),
    ];
    let (staged, unstaged) = uncommitted_changes(&index, &workdir);
    assert_eq!(paths(&staged), vec!["a.rs", "b.rs"]);
    assert!(staged.iter().all(|t| t.is_selected));
    assert_eq!(paths(&unstaged), vec!["c.rs", "d.rs"]);
    assert!(unstaged.iter().all(|t| !t.is_selected));
    for s in &staged {
        for u in &unstaged {
            assert_ne!(s.id, u.id);
        }
    }
    assert_eq!(unstaged[1].kind, ChangeKind::Deleted);
}

#[test]
fn same_path_with_new_content_stays_unstaged() {
    let index = vec![delta(1, "a.rs", DeltaStatus::Modified)];
    let workdir = vec![delta(5, "a.rs", DeltaStatus::Modified)];
    let (staged, unstaged) = uncommitted_changes(&index, &workdir);
    assert_eq!(paths(&staged), vec!["a.rs"]);
    assert_eq!(paths(&unstaged), vec!["a.rs"]);
}

#[test]
fn commit_rows_are_all_selected() {
    let deltas = vec![
        delta(1, "new.rs", DeltaStatus::Added),
        delta(2, "moved.rs", DeltaStatus::Renamed),
        delta(3, "gone.rs", DeltaStatus::Deleted),
    ];
    let rows = commit_changes(&deltas);
    assert_eq!(paths(&rows), vec!["new.rs", "moved.rs", "gone.rs"]);
    assert!(rows.iter().all(|t| t.is_selected));
    assert_eq!(rows[1].kind, ChangeKind::Renamed);
    assert!(commit_changes(&vec![]).is_empty());
}

#[test]
fn change_lists_are_repeatable() {
    let index = vec![delta(1, "a.rs", DeltaStatus::Modified)];
    let workdir = vec![delta(3, "c.rs", DeltaStatus::Untracked), delta(1, "a.rs", DeltaStatus::Modified)];
    let (s1, u1) = uncommitted_changes(&index, &workdir);
    let (s2, u2) = uncommitted_changes(&index, &workdir);
    assert_eq!(format!("{:?}", s1), format!("{:?}", s2));
    assert_eq!(format!("{:?}", u1), format!("{:?}", u2));
    let c1 = commit_changes(&workdir);
    let c2 = commit_changes(&workdir);
    assert_eq!(format!("{:?}", c1), format!("{:?}", c2));
}

#[test]
fn kinds_follow_the_backend_status() {
    assert_eq!(change_kind(DeltaStatus::Untracked), ChangeKind::Added);
    assert_eq!(change_kind(DeltaStatus::Ignored), ChangeKind::Added);
    assert_eq!(change_kind(DeltaStatus::Typechange), ChangeKind::TypeChanged);
    assert_eq!(change_kind(DeltaStatus::Copied), ChangeKind::Copied);
    assert_eq!(change_kind(DeltaStatus::Unmodified), ChangeKind::Unmodified);
    assert_eq!(change_kind(DeltaStatus::Conflicted), ChangeKind::Modified);
    assert_eq!(change_kind(DeltaStatus::Unreadable), ChangeKind::Modified);
    assert_eq!(ChangeKind::TypeChanged.label(), "Type changed");
    assert_eq!(ChangeKind::Added.label(), "Added");
}
