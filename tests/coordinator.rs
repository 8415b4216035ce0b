use sourcepan::coordinator::{Coordinator, Request, Selection};
use sourcepan::model::{CommitInfo, DeltaInfo, DeltaStatus, Oid};
use sourcepan::watch::PathEvent;

fn oid(n: u8) -> Oid {
    Oid::from_bytes([n; 20])
}

fn row(n: u8) -> CommitInfo {
    CommitInfo {
        id: oid(n),
        summary: format!("commit {}", n),
        short_id: "0000000".to_string(),
        author: "A <a@b>".to_string(),
        commit_date: "1970-01-01 00:00:00 +00:00".to_string(),
        branch_heads: vec![],
    }
}

fn delta(n: u8, path: &str, status: DeltaStatus) -> DeltaInfo {
    DeltaInfo { id: oid(n), path: path.to_string(), status }
}

fn index_event() -> PathEvent {
    PathEvent::Write(vec!["r".to_string(), ".git".to_string(), "index".to_string()])
}

#[test]
fn first_walk_selects_first_row() {
    let mut c = Coordinator::new("main".to_string());
    assert_eq!(c.refresh(), Request::ComputeHistory(1));
    let r = c.on_history_computed(1, vec![CommitInfo::uncommitted_sentinel(), row(3), row(2)]);
    assert_eq!(r, Request::ComputeUncommittedDiff(1));
    assert_eq!(c.diff_ticket, 1);
    assert_eq!(c.selection, Some(Selection::Sentinel));
    assert!(!c.in_flight);
}

#[test]
fn first_walk_without_changes_selects_newest_commit() {
    let mut c = Coordinator::new("main".to_string());
    c.refresh();
    let r = c.on_history_computed(1, vec![row(3), row(2)]);
    assert_eq!(r, Request::ComputeCommitDiff(oid(3)));
    assert_eq!(c.selection, Some(Selection::Commit(oid(3))));
}

#[test]
fn empty_history_selects_nothing() {
    let mut c = Coordinator::new("main".to_string());
    c.refresh();
    assert_eq!(c.on_history_computed(1, vec![]), Request::Idle);
    assert_eq!(c.selection, None);
}

#[test]
fn stale_walk_answer_is_dropped() {
    let mut c = Coordinator::new("main".to_string());
    c.refresh();
    assert_eq!(c.set_branch("dev".to_string()), Request::ComputeHistory(2));
    assert_eq!(c.on_history_computed(1, vec![row(9)]), Request::Idle);
    assert!(c.history.is_empty());
    assert_eq!(c.on_history_computed(2, vec![row(4)]), Request::ComputeCommitDiff(oid(4)));
    assert_eq!(c.history.len(), 1);
    assert_eq!(c.branch, "dev");
}

#[test]
fn answer_without_request_is_dropped() {
    let mut c = Coordinator::new("main".to_string());
    assert_eq!(c.on_history_computed(0, vec![row(1)]), Request::Idle);
    assert!(c.history.is_empty());
}

#[test]
fn changes_during_a_walk_are_absorbed_into_one_more() {
    let mut c = Coordinator::new("main".to_string());
    assert_eq!(c.on_path_change_event(&index_event()), Request::ComputeHistory(1));
    assert_eq!(c.on_path_change_event(&index_event()), Request::Idle);
    assert_eq!(c.on_path_change_event(&index_event()), Request::Idle);
    assert!(c.pending);
    assert_eq!(c.on_history_computed(1, vec![row(1)]), Request::ComputeHistory(2));
    assert!(!c.pending);
    assert_eq!(c.on_history_computed(2, vec![row(1)]), Request::ComputeCommitDiff(oid(1)));
}

#[test]
fn selected_commit_that_remains_keeps_its_diff() {
    let mut c = Coordinator::new("main".to_string());
    c.refresh();
    c.on_history_computed(1, vec![row(3), row(2)]);
    assert_eq!(c.on_item_selected(1), Request::ComputeCommitDiff(oid(2)));
    assert!(c.on_commit_selected(&oid(2), &vec![delta(7, "f.rs", DeltaStatus::Modified)]));
    assert_eq!(c.commit_items.len(), 1);
    assert!(c.commit_items[0].is_selected);
    c.refresh();
    assert_eq!(c.on_history_computed(2, vec![row(4), row(3), row(2)]), Request::Idle);
    assert_eq!(c.selection, Some(Selection::Commit(oid(2))));
    assert_eq!(c.commit_items.len(), 1);
}

#[test]
fn selected_commit_that_vanished_falls_back_to_first_row() {
    let mut c = Coordinator::new("main".to_string());
    c.refresh();
    c.on_history_computed(1, vec![row(3), row(2)]);
    c.on_item_selected(0);
    c.refresh();
    let r = c.on_history_computed(2, vec![CommitInfo::uncommitted_sentinel(), row(5)]);
    assert_eq!(r, Request::ComputeUncommittedDiff(1));
    assert_eq!(c.selection, Some(Selection::Sentinel));
}

#[test]
fn sentinel_selection_is_diffed_again_after_a_walk() {
    let mut c = Coordinator::new("main".to_string());
    c.refresh();
    c.on_history_computed(1, vec![CommitInfo::uncommitted_sentinel(), row(3)]);
    c.refresh();
    assert_eq!(
        c.on_history_computed(2, vec![CommitInfo::uncommitted_sentinel(), row(3)]),
        Request::ComputeUncommittedDiff(2)
    );
    // Every change was committed: the entry is gone, and the uncommitted changes, still
    // selected, are diffed again.
    c.refresh();
    assert_eq!(c.on_history_computed(3, vec![row(6), row(3)]), Request::ComputeUncommittedDiff(3));
    assert_eq!(c.selection, Some(Selection::Sentinel));
    assert!(c.on_uncommitted_changes_selected(3, &vec![], &vec![]));
    assert!(c.staged.is_empty() && c.unstaged.is_empty());
}

#[test]
fn selecting_past_the_end_is_refused() {
    let mut c = Coordinator::new("main".to_string());
    c.refresh();
    c.on_history_computed(1, vec![row(3)]);
    let before = format!("{:?}", c);
    assert_eq!(c.on_item_selected(1), Request::Idle);
    assert_eq!(c.on_item_selected(usize::MAX), Request::Idle);
    assert_eq!(format!("{:?}", c), before);
}

#[test]
fn toggles_name_the_row_path() {
    let mut c = Coordinator::new("main".to_string());
    c.refresh();
    c.on_history_computed(1, vec![CommitInfo::uncommitted_sentinel(), row(3)]);
    assert!(c.on_uncommitted_changes_selected(
        1,
        &vec![delta(1, "staged.rs", DeltaStatus::Modified)],
        &vec![delta(2, "x.txt", DeltaStatus::Untracked), delta(1, "dup.rs", DeltaStatus::Modified)],
    ));
    assert_eq!(c.staged.len(), 1);
    assert_eq!(c.unstaged.len(), 1);
    assert_eq!(c.on_toggle_unstaged(0), Request::Stage("x.txt".to_string()));
    assert_eq!(c.on_toggle_staged(0), Request::Unstage("staged.rs".to_string()));
    assert_eq!(c.on_toggle_unstaged(1), Request::Idle);
    assert_eq!(c.on_toggle_staged(5), Request::Idle);
    assert_eq!(c.on_index_written(), Request::ComputeUncommittedDiff(2));
}

#[test]
fn toggles_outside_uncommitted_view_are_refused() {
    let mut c = Coordinator::new("main".to_string());
    c.refresh();
    c.on_history_computed(1, vec![row(3)]);
    assert_eq!(c.on_toggle_unstaged(0), Request::Idle);
    assert_eq!(c.on_toggle_staged(0), Request::Idle);
    assert_eq!(c.on_index_written(), Request::Idle);
}

#[test]
fn stale_diffs_are_dropped() {
    let mut c = Coordinator::new("main".to_string());
    c.refresh();
    c.on_history_computed(1, vec![row(3), row(2)]);
    assert!(!c.on_uncommitted_changes_selected(0, &vec![], &vec![delta(2, "x", DeltaStatus::Untracked)]));
    assert!(!c.on_commit_selected(&oid(2), &vec![delta(2, "x", DeltaStatus::Added)]));
    assert!(c.commit_items.is_empty());
    assert!(c.on_commit_selected(&oid(3), &vec![delta(2, "x", DeltaStatus::Added)]));
    assert_eq!(c.commit_items.len(), 1);
}

#[test]
fn opening_a_repository_shows_its_first_branch() {
    let mut c = Coordinator::new("main".to_string());
    c.refresh();
    c.on_history_computed(1, vec![row(3)]);
    let r = c.set_repo(&vec!["trunk".to_string(), "dev".to_string()]);
    assert_eq!(r, Request::ComputeHistory(2));
    assert_eq!(c.branch, "trunk");
    assert!(c.history.is_empty());
    assert_eq!(c.selection, None);
    let r = c.set_repo(&vec![]);
    assert_eq!(r, Request::Idle);
    assert_eq!(c.branch, "");
    assert!(!c.in_flight);
    assert_eq!(c.on_history_computed(2, vec![row(1)]), Request::Idle);
}

#[test]
fn getters_show_branch_and_lists() {
    let mut c = Coordinator::new("main".to_string());
    assert_eq!(c.branch(), "main");
    c.refresh();
    c.on_history_computed(1, vec![CommitInfo::uncommitted_sentinel()]);
    c.on_uncommitted_changes_selected(1, &vec![delta(1, "a", DeltaStatus::Added)], &vec![delta(2, "b", DeltaStatus::Untracked)]);
    let (staged, unstaged) = c.deltas();
    assert_eq!(staged[0].path, "a");
    assert_eq!(unstaged[0].path, "b");
}

#[test]
fn stale_uncommitted_diff_is_dropped() {
    let mut c = Coordinator::new("main".to_string());
    c.refresh();
    assert_eq!(c.on_history_computed(1, vec![CommitInfo::uncommitted_sentinel()]), Request::ComputeUncommittedDiff(1));
    assert_eq!(c.on_index_written(), Request::ComputeUncommittedDiff(2));
    // The answer to the first request arrives late: it does not overwrite the second.
    assert!(!c.on_uncommitted_changes_selected(1, &vec![delta(1, "old", DeltaStatus::Added)], &vec![]));
    assert!(c.staged.is_empty());
    assert!(c.on_uncommitted_changes_selected(2, &vec![delta(1, "new", DeltaStatus::Added)], &vec![]));
    assert_eq!(c.staged[0].path, "new");
    assert!(!c.on_uncommitted_changes_selected(1, &vec![], &vec![delta(3, "x", DeltaStatus::Untracked)]));
    assert!(c.unstaged.is_empty());
}

#[test]
fn no_branch_makes_metadata_writes_irrelevant() {
    let mut c = Coordinator::new("main".to_string());
    assert_eq!(c.set_repo(&vec![]), Request::Idle);
    let obj = PathEvent::Create(vec!["r".to_string(), ".git".to_string(), "objects".to_string(), "ab".to_string()]);
    assert_eq!(c.on_path_change_event(&obj), Request::Idle);
    assert_eq!(c.on_path_change_event(&index_event()), Request::ComputeHistory(2));
}
