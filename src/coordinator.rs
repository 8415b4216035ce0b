//! The reconciliation state machine. It owns the current branch, history, selection
//! and change lists; each user action or watcher event goes in, and out comes the one
//! piece of repository work that the host must do next. The host does that work and
//! hands the result back, so all recomputation is serialised through this type.
use vstd::prelude::*;
use crate::changes::{
    commit_changes, commit_items_of, staged_and_unstaged_are_disjoint, staged_of,
    uncommitted_changes, unstaged_of,
};
use crate::model::{item_views, CommitInfo, DeltaInfo, Oid, TreeItem};
use crate::model::texts;
use crate::watch::{event_path_of, is_relevant, relevant, PathEvent};

verus! {

/// What is shown below the history.
#[derive(Clone, Copy, Debug, PartialEq, Eq)]
pub enum Selection {
    /// The uncommitted changes: staged and unstaged lists.
    Sentinel,
    /// The changes of one commit.
    Commit(Oid),
}

/// The repository work that the host must do next.
#[derive(Clone, Debug, PartialEq, Eq)]
pub enum Request {
    /// Nothing.
    Idle,
    /// Walk the history of the current branch and hand it back with this ticket.
    ComputeHistory(u64),
    /// Diff HEAD against the index and the index against the working tree, and hand the
    /// deltas back with this ticket.
    ComputeUncommittedDiff(u64),
    /// Diff this commit against its first parent.
    ComputeCommitDiff(Oid),
    /// Add this path's working-tree content to the index, and write the index.
    Stage(String),
    /// Reset this path in the index to HEAD, and write the index.
    Unstage(String),
}

/// The state of the view model.
#[derive(Debug)]
pub struct Coordinator {
    pub branch: String,
    pub history: Vec<CommitInfo>,
    /// None until a row has been selected.
    pub selection: Option<Selection>,
    pub staged: Vec<TreeItem>,
    pub unstaged: Vec<TreeItem>,
    pub commit_items: Vec<TreeItem>,
    /// The ticket of the latest history request; results with another ticket are stale.
    pub ticket: u64,
    /// The ticket of the latest request for the uncommitted changes; answers with
    /// another ticket are stale.
    pub diff_ticket: u64,
    /// A history request is out and not yet answered.
    pub in_flight: bool,
    /// A change arrived while a history request was out; one more walk is owed.
    pub pending: bool,
}

impl Coordinator {
    /// Another walk is owed only while one is out.
    pub open spec fn wf(&self) -> bool {
        self.pending ==> self.in_flight
    }

    /// Whether the change lists are all empty.
    pub open spec fn lists_cleared(&self) -> bool {
        &&& self.staged@.len() == 0
        &&& self.unstaged@.len() == 0
        &&& self.commit_items@.len() == 0
    }

    /// A walk is asked for, or, with one already out, owed.
    pub open spec fn history_requested(old: Coordinator, new: Coordinator, r: Request) -> bool {
        if old.in_flight {
            &&& new == (Coordinator { pending: true, ..old })
            &&& r == Request::Idle
        } else {
            &&& new == (Coordinator {
                ticket: old.ticket.wrapping_add(1),
                in_flight: true,
                pending: false,
                ..old
            })
            &&& r == Request::ComputeHistory(new.ticket)
        }
    }

    /// Row `index` of the history is selected: the sentinel shows the uncommitted changes,
    /// any other row its commit's changes; a row past the end changes nothing.
    pub open spec fn row_selected(old: Coordinator, new: Coordinator, index: int, r: Request) -> bool {
        if index < 0 || index >= old.history@.len() {
            new == old && r == Request::Idle
        } else {
            &&& new.branch == old.branch
            &&& new.history == old.history
            &&& new.ticket == old.ticket
            &&& new.in_flight == old.in_flight
            &&& new.pending == old.pending
            &&& new.lists_cleared()
            &&& if old.history@[index].is_sentinel_spec() {
                &&& new.selection == Some(Selection::Sentinel)
                &&& new.diff_ticket == old.diff_ticket.wrapping_add(1)
                &&& r == Request::ComputeUncommittedDiff(new.diff_ticket)
            } else {
                &&& new.diff_ticket == old.diff_ticket
                &&& new.selection == Some(Selection::Commit(old.history@[index].id))
                &&& r == Request::ComputeCommitDiff(old.history@[index].id)
            }
        }
    }

    /// The first row is selected, or, with an empty history, nothing.
    pub open spec fn first_row_selected(old: Coordinator, new: Coordinator, r: Request) -> bool {
        if old.history@.len() == 0 {
            &&& new.branch == old.branch
            &&& new.history == old.history
            &&& new.ticket == old.ticket
            &&& new.in_flight == old.in_flight
            &&& new.pending == old.pending
            &&& new.diff_ticket == old.diff_ticket
            &&& new.lists_cleared()
            &&& new.selection == None::<Selection>
            &&& r == Request::Idle
        } else {
            Self::row_selected(old, new, 0, r)
        }
    }

    /// Whether some row of `h` is the commit `id`.
    pub open spec fn shows_commit(h: Seq<CommitInfo>, id: Oid) -> bool {
        exists|k: int| 0 <= k < h.len() && h[k].id == id && !h[k].is_sentinel_spec()
    }

    /// A state with no history, no selection and no changes, for `branch`.
    pub fn new(branch: String) -> (r: Coordinator)
        ensures
            r.branch == branch,
            r.history@.len() == 0,
            r.selection == None::<Selection>,
            r.lists_cleared(),
            r.ticket == 0,
            r.diff_ticket == 0,
            !r.in_flight,
            !r.pending,
            r.wf(),
    {
        Coordinator {
            branch,
            history: Vec::new(),
            selection: None,
            staged: Vec::new(),
            unstaged: Vec::new(),
            commit_items: Vec::new(),
            ticket: 0,
            diff_ticket: 0,
            in_flight: false,
            pending: false,
        }
    }

    /// The branch whose history is shown.
    pub fn branch(&self) -> (r: &String)
        ensures
            r == self.branch,
    {
        &self.branch
    }

    /// The staged and unstaged rows of the uncommitted changes.
    pub fn deltas(&self) -> (r: (&Vec<TreeItem>, &Vec<TreeItem>))
        ensures
            r.0 == self.staged,
            r.1 == self.unstaged,
    {
        (&self.staged, &self.unstaged)
    }

    /// Asks for a walk of the current branch; while one is out, the new ask is absorbed
    /// into one more walk after it.
    pub fn refresh(&mut self) -> (r: Request)
        requires
            old(self).wf(),
        ensures
            Self::history_requested(*old(self), *final(self), r),
            final(self).wf(),
    {
        if self.in_flight {
            self.pending = true;
            Request::Idle
        } else {
            self.ticket = self.ticket.wrapping_add(1);
            self.in_flight = true;
            self.pending = false;
            Request::ComputeHistory(self.ticket)
        }
    }

    fn clear_lists(&mut self)
        ensures
            final(self).lists_cleared(),
            final(self).branch == old(self).branch,
            final(self).history == old(self).history,
            final(self).selection == old(self).selection,
            final(self).ticket == old(self).ticket,
            final(self).diff_ticket == old(self).diff_ticket,
            final(self).in_flight == old(self).in_flight,
            final(self).pending == old(self).pending,
    {
        self.staged = Vec::new();
        self.unstaged = Vec::new();
        self.commit_items = Vec::new();
    }

    /// Shows another branch: everything derived is dropped and a fresh walk is asked for;
    /// a walk still out for the former branch is stale from here on.
    pub fn set_branch(&mut self, branch: String) -> (r: Request)
        requires
            old(self).wf(),
        ensures
            final(self).branch == branch,
            final(self).history@.len() == 0,
            final(self).selection == None::<Selection>,
            final(self).lists_cleared(),
            final(self).ticket == old(self).ticket.wrapping_add(1),
            final(self).diff_ticket == old(self).diff_ticket,
            final(self).in_flight,
            !final(self).pending,
            r == Request::ComputeHistory(final(self).ticket),
            final(self).wf(),
    {
        self.branch = branch;
        self.history = Vec::new();
        self.selection = None;
        self.clear_lists();
        self.ticket = self.ticket.wrapping_add(1);
        self.in_flight = true;
        self.pending = false;
        Request::ComputeHistory(self.ticket)
    }

    /// Opens another repository, given its local branches in the order it lists them: the
    /// first is shown. Without any branch, nothing is shown and nothing asked for.
    pub fn set_repo(&mut self, branches: &Vec<String>) -> (r: Request)
        requires
            old(self).wf(),
        ensures
            final(self).history@.len() == 0,
            final(self).selection == None::<Selection>,
            final(self).lists_cleared(),
            final(self).ticket == old(self).ticket.wrapping_add(1),
            final(self).diff_ticket == old(self).diff_ticket,
            final(self).wf(),
            branches@.len() > 0 ==> {
                &&& final(self).branch@ == branches@[0]@
                &&& final(self).in_flight
                &&& r == Request::ComputeHistory(final(self).ticket)
            },
            branches@.len() == 0 ==> {
                &&& final(self).branch@.len() == 0
                &&& !final(self).in_flight
                &&& !final(self).pending
                &&& r == Request::Idle
            },
    {
        if branches.len() > 0 {
            let first = String::from_str(branches[0].as_str());
            self.set_branch(first)
        } else {
            self.branch = String::new();
            self.history = Vec::new();
            self.selection = None;
            self.clear_lists();
            self.ticket = self.ticket.wrapping_add(1);
            self.in_flight = false;
            self.pending = false;
            Request::Idle
        }
    }

    fn contains_commit(h: &Vec<CommitInfo>, id: &Oid) -> (r: bool)
        ensures
            r == Self::shows_commit(h@, *id),
    {
        let mut k: usize = 0;
        while k < h.len()
            invariant
                k <= h@.len(),
                forall|t: int| 0 <= t < k ==> !(#[trigger] h@[t].id == *id && !h@[t].is_sentinel_spec()),
            decreases h@.len() - k,
        {
            if h[k].id.same(id) && !h[k].is_sentinel() {
                return true;
            }
            k += 1;
        }
        false
    }

    /// Selects row `index` of the history; a row past the end is refused and changes nothing.
    pub fn on_item_selected(&mut self, index: usize) -> (r: Request)
        requires
            old(self).wf(),
        ensures
            Self::row_selected(*old(self), *final(self), index as int, r),
            final(self).wf(),
    {
        if index >= self.history.len() {
            return Request::Idle;
        }
        let sentinel = self.history[index].is_sentinel();
        let id = self.history[index].id;
        self.clear_lists();
        if sentinel {
            self.selection = Some(Selection::Sentinel);
            self.diff_ticket = self.diff_ticket.wrapping_add(1);
            Request::ComputeUncommittedDiff(self.diff_ticket)
        } else {
            self.selection = Some(Selection::Commit(id));
            Request::ComputeCommitDiff(id)
        }
    }

    fn select_first_row(&mut self) -> (r: Request)
        requires
            old(self).wf(),
        ensures
            Self::first_row_selected(*old(self), *final(self), r),
            final(self).wf(),
    {
        if self.history.len() == 0 {
            self.selection = None;
            self.clear_lists();
            Request::Idle
        } else {
            self.on_item_selected(0)
        }
    }

    /// Takes the answer to a walk. An answer to any but the latest request is stale and
    /// dropped. When another walk is owed, it is asked for at once. Otherwise the
    /// selection is carried over: with none, the first row is selected; the uncommitted
    /// changes, when selected, are diffed again; a commit's changes stand while the
    /// history still has the commit, and where it is gone the first row is selected.
    pub fn on_history_computed(&mut self, ticket: u64, history: Vec<CommitInfo>) -> (r: Request)
        requires
            old(self).wf(),
        ensures
            final(self).wf(),
            ({
                let o = *old(self);
                let base = Coordinator { history: history, in_flight: false, ..o };
                if !o.in_flight || ticket != o.ticket {
                    *final(self) == o && r == Request::Idle
                } else if o.pending {
                    &&& *final(self) == (Coordinator {
                        ticket: o.ticket.wrapping_add(1),
                        in_flight: true,
                        pending: false,
                        ..base
                    })
                    &&& r == Request::ComputeHistory(final(self).ticket)
                } else {
                    match o.selection {
                        None => Self::first_row_selected(base, *final(self), r),
                        Some(Selection::Sentinel) => {
                            &&& *final(self) == (Coordinator {
                                diff_ticket: o.diff_ticket.wrapping_add(1),
                                ..base
                            })
                            &&& r == Request::ComputeUncommittedDiff(final(self).diff_ticket)
                        },
                        Some(Selection::Commit(id)) => if Self::shows_commit(history@, id) {
                            *final(self) == base && r == Request::Idle
                        } else {
                            Self::first_row_selected(base, *final(self), r)
                        },
                    }
                }
            }),
    {
        if !self.in_flight || ticket != self.ticket {
            return Request::Idle;
        }
        self.history = history;
        self.in_flight = false;
        if self.pending {
            self.ticket = self.ticket.wrapping_add(1);
            self.in_flight = true;
            self.pending = false;
            return Request::ComputeHistory(self.ticket);
        }
        match self.selection {
            None => self.select_first_row(),
            Some(Selection::Sentinel) => {
                self.diff_ticket = self.diff_ticket.wrapping_add(1);
                Request::ComputeUncommittedDiff(self.diff_ticket)
            },
            Some(Selection::Commit(id)) => {
                if Self::contains_commit(&self.history, &id) {
                    Request::Idle
                } else {
                    self.select_first_row()
                }
            },
        }
    }

    /// Takes the deltas of HEAD against the index and of the index against the working
    /// tree, answering the latest request for them while the uncommitted changes are
    /// selected; any other answer is stale and dropped. No content id is then both staged
    /// and unstaged.
    pub fn on_uncommitted_changes_selected(
        &mut self,
        ticket: u64,
        index_deltas: &Vec<DeltaInfo>,
        workdir_deltas: &Vec<DeltaInfo>,
    ) -> (applied: bool)
        requires
            old(self).wf(),
        ensures
            final(self).wf(),
            applied == (old(self).selection == Some(Selection::Sentinel) && ticket
                == old(self).diff_ticket),
            !applied ==> *final(self) == *old(self),
            applied ==> {
                &&& item_views(final(self).staged@) == staged_of(index_deltas@)
                &&& item_views(final(self).unstaged@) == unstaged_of(index_deltas@, workdir_deltas@)
                &&& forall|i: int, j: int|
                    0 <= i < final(self).staged@.len() && 0 <= j < final(self).unstaged@.len()
                        ==> #[trigger] final(self).staged@[i].id
                        != #[trigger] final(self).unstaged@[j].id
                &&& final(self).commit_items@.len() == 0
                &&& final(self).diff_ticket == old(self).diff_ticket
                &&& final(self).branch == old(self).branch
                &&& final(self).history == old(self).history
                &&& final(self).selection == old(self).selection
                &&& final(self).ticket == old(self).ticket
                &&& final(self).in_flight == old(self).in_flight
                &&& final(self).pending == old(self).pending
            },
    {
        match self.selection {
            Some(Selection::Sentinel) => {
                if ticket != self.diff_ticket {
                    return false;
                }
                let (staged, unstaged) = uncommitted_changes(index_deltas, workdir_deltas);
                proof {
                    staged_and_unstaged_are_disjoint(index_deltas@, workdir_deltas@);
                    assert forall|i: int, j: int|
                        0 <= i < staged@.len() && 0 <= j < unstaged@.len() implies #[trigger] staged@[i].id
                        != #[trigger] unstaged@[j].id by {
                        assert(item_views(staged@)[i] == staged@[i]@);
                        assert(item_views(unstaged@)[j] == unstaged@[j]@);
                        assert(staged_of(index_deltas@)[i].id != unstaged_of(
                            index_deltas@,
                            workdir_deltas@,
                        )[j].id);
                    }
                }
                self.staged = staged;
                self.unstaged = unstaged;
                self.commit_items = Vec::new();
                true
            },
            _ => false,
        }
    }

    /// Takes the deltas of commit `id` against its first parent, while that commit is
    /// selected; otherwise they are stale and dropped.
    pub fn on_commit_selected(&mut self, id: &Oid, deltas: &Vec<DeltaInfo>) -> (applied: bool)
        requires
            old(self).wf(),
        ensures
            final(self).wf(),
            applied == (old(self).selection == Some(Selection::Commit(*id))),
            !applied ==> *final(self) == *old(self),
            applied ==> {
                &&& item_views(final(self).commit_items@) == commit_items_of(deltas@)
                &&& forall|k: int|
                    0 <= k < final(self).commit_items@.len()
                        ==> #[trigger] final(self).commit_items@[k].is_selected
                &&& final(self).diff_ticket == old(self).diff_ticket
                &&& final(self).staged@.len() == 0
                &&& final(self).unstaged@.len() == 0
                &&& final(self).branch == old(self).branch
                &&& final(self).history == old(self).history
                &&& final(self).selection == old(self).selection
                &&& final(self).ticket == old(self).ticket
                &&& final(self).in_flight == old(self).in_flight
                &&& final(self).pending == old(self).pending
            },
    {
        match self.selection {
            Some(Selection::Commit(shown)) => {
                if shown.same(id) {
                    self.commit_items = commit_changes(deltas);
                    self.staged = Vec::new();
                    self.unstaged = Vec::new();
                    true
                } else {
                    false
                }
            },
            _ => false,
        }
    }

    /// The toggle of unstaged row `index`: stage its path. Refused (nothing asked) unless
    /// the uncommitted changes are shown and the row exists in the current list.
    pub fn on_toggle_unstaged(&self, index: usize) -> (r: Request)
        ensures
            (self.selection == Some(Selection::Sentinel) && index < self.unstaged@.len()) ==> (
            match r {
                Request::Stage(p) => p@ == self.unstaged@[index as int].path@,
                _ => false,
            }),
            !(self.selection == Some(Selection::Sentinel) && index < self.unstaged@.len()) ==> r
                == Request::Idle,
    {
        match self.selection {
            Some(Selection::Sentinel) => {
                if index < self.unstaged.len() {
                    Request::Stage(String::from_str(self.unstaged[index].path.as_str()))
                } else {
                    Request::Idle
                }
            },
            _ => Request::Idle,
        }
    }

    /// The toggle of staged row `index`: unstage its path. Refused (nothing asked) unless
    /// the uncommitted changes are shown and the row exists in the current list.
    pub fn on_toggle_staged(&self, index: usize) -> (r: Request)
        ensures
            (self.selection == Some(Selection::Sentinel) && index < self.staged@.len()) ==> (
            match r {
                Request::Unstage(p) => p@ == self.staged@[index as int].path@,
                _ => false,
            }),
            !(self.selection == Some(Selection::Sentinel) && index < self.staged@.len()) ==> r
                == Request::Idle,
    {
        match self.selection {
            Some(Selection::Sentinel) => {
                if index < self.staged.len() {
                    Request::Unstage(String::from_str(self.staged[index].path.as_str()))
                } else {
                    Request::Idle
                }
            },
            _ => Request::Idle,
        }
    }

    /// After the index was written by a stage or unstage: the uncommitted changes are
    /// diffed again while they are shown.
    pub fn on_index_written(&mut self) -> (r: Request)
        requires
            old(self).wf(),
        ensures
            final(self).wf(),
            old(self).selection == Some(Selection::Sentinel) ==> {
                &&& *final(self) == (Coordinator {
                    diff_ticket: old(self).diff_ticket.wrapping_add(1),
                    ..*old(self)
                })
                &&& r == Request::ComputeUncommittedDiff(final(self).diff_ticket)
            },
            old(self).selection != Some(Selection::Sentinel) ==> {
                *final(self) == *old(self) && r == Request::Idle
            },
    {
        match self.selection {
            Some(Selection::Sentinel) => {
                self.diff_ticket = self.diff_ticket.wrapping_add(1);
                Request::ComputeUncommittedDiff(self.diff_ticket)
            },
            _ => Request::Idle,
        }
    }

    /// A watcher event: a change at a relevant path asks for a walk (absorbed while one is
    /// out); a rescan, or a change inside the metadata directory at neither the index nor
    /// the current branch's ref, is dropped.
    pub fn on_path_change_event(&mut self, event: &PathEvent) -> (r: Request)
        requires
            old(self).wf(),
        ensures
            final(self).wf(),
            match event_path_of(*event) {
                Some(p) => if relevant(p, old(self).branch@) {
                    Self::history_requested(*old(self), *final(self), r)
                } else {
                    *final(self) == *old(self) && r == Request::Idle
                },
                None => *final(self) == *old(self) && r == Request::Idle,
            },
    {
        match event.path() {
            Some(p) => {
                if is_relevant(p, self.branch.as_str()) {
                    self.refresh()
                } else {
                    Request::Idle
                }
            },
            None => Request::Idle,
        }
    }
}

} // verus!
