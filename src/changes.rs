//! The change lists of a selection: a commit against its first parent, or the
//! staged and unstaged changes of the working tree.
use vstd::prelude::*;
use crate::model::{item_of, item_views, tree_item, DeltaInfo, ItemView, TreeItem};

verus! {

/// The rows of a commit's changes: one per delta, in order, each marked selected.
pub open spec fn commit_items_of(deltas: Seq<DeltaInfo>) -> Seq<ItemView> {
    deltas.map_values(|d: DeltaInfo| item_of(d, true))
}

/// The staged rows: one per delta between HEAD and the index, each marked selected.
pub open spec fn staged_of(index_deltas: Seq<DeltaInfo>) -> Seq<ItemView> {
    index_deltas.map_values(|d: DeltaInfo| item_of(d, true))
}

/// Whether some delta of `s` has the content id `id`.
pub open spec fn has_content(s: Seq<DeltaInfo>, id: Seq<u8>) -> bool {
    exists|k: int| 0 <= k < s.len() && s[k].id.bytes@ == id
}

/// The unstaged rows: one per delta between the index and the working tree, in order,
/// unmarked, without those whose content id some staged delta has.
pub open spec fn unstaged_of(index_deltas: Seq<DeltaInfo>, workdir_deltas: Seq<DeltaInfo>) -> Seq<
    ItemView,
>
    decreases workdir_deltas.len(),
{
    if workdir_deltas.len() == 0 {
        seq![]
    } else {
        let rest = unstaged_of(index_deltas, workdir_deltas.drop_last());
        let d = workdir_deltas.last();
        if has_content(index_deltas, d.id.bytes@) {
            rest
        } else {
            rest.push(item_of(d, false))
        }
    }
}

/// The rows for the changes of a commit, given the deltas between its first parent's tree
/// (or the empty tree) and its own.
pub fn commit_changes(deltas: &Vec<DeltaInfo>) -> (r: Vec<TreeItem>)
    ensures
        item_views(r@) == commit_items_of(deltas@),
        forall|k: int| 0 <= k < r@.len() ==> r@[k].is_selected,
{
    let mut r: Vec<TreeItem> = Vec::new();
    let mut i: usize = 0;
    while i < deltas.len()
        invariant
            i <= deltas@.len(),
            item_views(r@) == commit_items_of(deltas@.take(i as int)),
        decreases deltas@.len() - i,
    {
        let ghost old_r = r@;
        let item = tree_item(&deltas[i], true);
        r.push(item);
        assert(item_views(r@) =~= item_views(old_r).push(item@));
        i += 1;
        assert(commit_items_of(deltas@.take(i as int)) =~= commit_items_of(
            deltas@.take(i - 1),
        ).push(item_of(deltas@[i - 1], true)));
    }
    assert(deltas@.take(i as int) =~= deltas@);
    assert forall|k: int| 0 <= k < r@.len() implies r@[k].is_selected by {
        assert(item_views(r@)[k] == r@[k]@);
    }
    r
}

/// Whether some delta of `s` has the content id of `id`.
fn has_content_id(s: &Vec<DeltaInfo>, id: &crate::model::Oid) -> (r: bool)
    ensures
        r == has_content(s@, id.bytes@),
{
    let mut i: usize = 0;
    while i < s.len()
        invariant
            i <= s@.len(),
            forall|k: int| 0 <= k < i ==> s@[k].id.bytes@ != id.bytes@,
        decreases s@.len() - i,
    {
        if s[i].id.same(id) {
            return true;
        }
        i += 1;
    }
    false
}

/// The staged rows (HEAD against the index) and the unstaged rows (the index against
/// the working tree, untracked files included), an unstaged row being left out where a
/// staged row has its content id.
pub fn uncommitted_changes(index_deltas: &Vec<DeltaInfo>, workdir_deltas: &Vec<DeltaInfo>) -> (r: (
    Vec<TreeItem>,
    Vec<TreeItem>,
))
    ensures
        item_views(r.0@) == staged_of(index_deltas@),
        item_views(r.1@) == unstaged_of(index_deltas@, workdir_deltas@),
{
    let mut staged: Vec<TreeItem> = Vec::new();
    let mut i: usize = 0;
    while i < index_deltas.len()
        invariant
            i <= index_deltas@.len(),
            item_views(staged@) == staged_of(index_deltas@.take(i as int)),
        decreases index_deltas@.len() - i,
    {
        let ghost old_s = staged@;
        let item = tree_item(&index_deltas[i], true);
        staged.push(item);
        assert(item_views(staged@) =~= item_views(old_s).push(item@));
        i += 1;
        assert(staged_of(index_deltas@.take(i as int)) =~= staged_of(
            index_deltas@.take(i - 1),
        ).push(item_of(index_deltas@[i - 1], true)));
    }
    assert(index_deltas@.take(i as int) =~= index_deltas@);
    let mut unstaged: Vec<TreeItem> = Vec::new();
    let mut j: usize = 0;
    while j < workdir_deltas.len()
        invariant
            j <= workdir_deltas@.len(),
            item_views(unstaged@) == unstaged_of(index_deltas@, workdir_deltas@.take(j as int)),
        decreases workdir_deltas@.len() - j,
    {
        proof {
            assert(workdir_deltas@.take(j + 1).drop_last() =~= workdir_deltas@.take(j as int));
        }
        let d = &workdir_deltas[j];
        if !has_content_id(index_deltas, &d.id) {
            let ghost old_u = unstaged@;
            let item = tree_item(d, false);
            unstaged.push(item);
            assert(item_views(unstaged@) =~= item_views(old_u).push(item@));
        }
        j += 1;
    }
    assert(workdir_deltas@.take(j as int) =~= workdir_deltas@);
    (staged, unstaged)
}


/// Every unstaged row has a content id that no staged delta has, and is unmarked.
proof fn lemma_unstaged_rows(index_deltas: Seq<DeltaInfo>, workdir_deltas: Seq<DeltaInfo>)
    ensures
        forall|j: int|
            0 <= j < unstaged_of(index_deltas, workdir_deltas).len() ==> {
                let u = #[trigger] unstaged_of(index_deltas, workdir_deltas)[j];
                &&& !has_content(index_deltas, u.id)
                &&& !u.is_selected
            },
    decreases workdir_deltas.len(),
{
    if workdir_deltas.len() > 0 {
        lemma_unstaged_rows(index_deltas, workdir_deltas.drop_last());
    }
}

/// No content id is both among the staged rows and among the unstaged rows.
pub proof fn staged_and_unstaged_are_disjoint(
    index_deltas: Seq<DeltaInfo>,
    workdir_deltas: Seq<DeltaInfo>,
)
    ensures
        forall|i: int, j: int|
            0 <= i < staged_of(index_deltas).len() && 0 <= j < unstaged_of(
                index_deltas,
                workdir_deltas,
            ).len() ==> #[trigger] staged_of(index_deltas)[i].id != #[trigger] unstaged_of(
                index_deltas,
                workdir_deltas,
            )[j].id,
{
    lemma_unstaged_rows(index_deltas, workdir_deltas);
    assert forall|i: int, j: int|
        0 <= i < staged_of(index_deltas).len() && 0 <= j < unstaged_of(
            index_deltas,
            workdir_deltas,
        ).len() implies #[trigger] staged_of(index_deltas)[i].id != #[trigger] unstaged_of(
        index_deltas,
        workdir_deltas,
    )[j].id by {
        assert(staged_of(index_deltas)[i].id == index_deltas[i].id.bytes@);
    }
}

/// Every row of a commit's changes is marked selected.
pub proof fn commit_rows_are_selected(deltas: Seq<DeltaInfo>)
    ensures
        forall|k: int|
            0 <= k < commit_items_of(deltas).len() ==> #[trigger] commit_items_of(
                deltas,
            )[k].is_selected,
{
}

/// The change lists depend on the deltas alone: computed twice from the same deltas,
/// they hold the same rows in the same order.
pub proof fn change_lists_are_repeatable(
    index_deltas: Seq<DeltaInfo>,
    workdir_deltas: Seq<DeltaInfo>,
    commit_deltas: Seq<DeltaInfo>,
    index_again: Seq<DeltaInfo>,
    workdir_again: Seq<DeltaInfo>,
    commit_again: Seq<DeltaInfo>,
)
    requires
        index_again == index_deltas,
        workdir_again == workdir_deltas,
        commit_again == commit_deltas,
    ensures
        staged_of(index_again) == staged_of(index_deltas),
        unstaged_of(index_again, workdir_again) == unstaged_of(index_deltas, workdir_deltas),
        commit_items_of(commit_again) == commit_items_of(commit_deltas),
{
}

} // verus!
