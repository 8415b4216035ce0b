//! The records that the engine hands to the view layer.
use vstd::prelude::*;
use crate::text::append_hex;

verus! {

/// The width in bytes of an object id.
pub const OID_LEN: usize = 20;

/// A content-addressed object id (commit or blob), as its raw bytes.
#[derive(Clone, Copy, Debug, PartialEq, Eq)]
pub struct Oid {
    pub bytes: [u8; 20],
}

/// The id made of zero bytes only.
pub open spec fn zero_oid() -> Seq<u8> {
    Seq::new(20, |i: int| 0u8)
}

impl Oid {
    /// The all-zero id, which no stored object has.
    pub fn zero() -> (r: Oid)
        ensures
            r.bytes@ == zero_oid(),
    {
        let r = Oid { bytes: [0u8; 20] };
        assert(r.bytes@ =~= zero_oid());
        r
    }

    /// The id with these bytes.
    pub fn from_bytes(bytes: [u8; 20]) -> (r: Oid)
        ensures
            r.bytes == bytes,
    {
        Oid { bytes }
    }

    /// Whether both ids hold the same bytes.
    pub fn same(&self, other: &Oid) -> (r: bool)
        ensures
            r == (self.bytes@ == other.bytes@),
            r == (*self == *other),
    {
        let mut i: usize = 0;
        while i < OID_LEN
            invariant
                i <= OID_LEN,
                self.bytes@.len() == OID_LEN,
                other.bytes@.len() == OID_LEN,
                forall|k: int| 0 <= k < i ==> self.bytes@[k] == other.bytes@[k],
            decreases OID_LEN - i,
        {
            if self.bytes[i] != other.bytes[i] {
                return false;
            }
            i += 1;
        }
        assert(self.bytes@ =~= other.bytes@);
        assert(self.bytes =~= other.bytes);
        true
    }

    /// Whether every byte is zero.
    pub fn is_zero(&self) -> (r: bool)
        ensures
            r == (self.bytes@ == zero_oid()),
    {
        let z = Oid::zero();
        self.same(&z)
    }

    /// The forty lower-case hexadecimal digits of the id.
    pub fn hex(&self) -> (r: String)
        ensures
            r@ == crate::text::hex_of(self.bytes@),
    {
        let mut r = String::new();
        append_hex(&mut r, self.bytes.as_slice());
        assert(r@ =~= crate::text::hex_of(self.bytes@));
        r
    }
}


/// The summary text that marks the uncommitted-changes entry.
pub const UNCOMMITTED_STR: &'static str = "<b>Uncommitted changes</b>";

/// The text that stands in the id, author and date columns of the uncommitted-changes entry.
pub const SENTINEL_FIELD: &'static str = "*";

/// One row of the commit history.
#[derive(Clone, Debug)]
pub struct CommitInfo {
    pub id: Oid,
    /// The first line of the message, at most eighty characters.
    pub summary: String,
    /// The first seven hexadecimal digits of the id.
    pub short_id: String,
    /// The author as `name <email>`.
    pub author: String,
    /// The commit time, in the commit's own UTC offset.
    pub commit_date: String,
    /// The names of the local branches whose tip is this commit.
    pub branch_heads: Vec<String>,
}

/// What a history row shows, as mathematical values.
pub struct CommitView {
    pub id: Seq<u8>,
    pub summary: Seq<char>,
    pub short_id: Seq<char>,
    pub author: Seq<char>,
    pub commit_date: Seq<char>,
    pub branch_heads: Seq<Seq<char>>,
}

/// The characters of each string, in order.
pub open spec fn texts(v: Seq<String>) -> Seq<Seq<char>> {
    v.map_values(|t: String| t@)
}

impl View for CommitInfo {
    type V = CommitView;

    open spec fn view(&self) -> CommitView {
        CommitView {
            id: self.id.bytes@,
            summary: self.summary@,
            short_id: self.short_id@,
            author: self.author@,
            commit_date: self.commit_date@,
            branch_heads: texts(self.branch_heads@),
        }
    }
}

/// The view of the uncommitted-changes entry.
pub open spec fn sentinel_view() -> CommitView {
    CommitView {
        id: zero_oid(),
        summary: UNCOMMITTED_STR@,
        short_id: SENTINEL_FIELD@,
        author: SENTINEL_FIELD@,
        commit_date: SENTINEL_FIELD@,
        branch_heads: seq![],
    }
}

/// `[name] ` for each branch head, in order.
pub open spec fn heads_prefix(heads: Seq<String>) -> Seq<char>
    decreases heads.len(),
{
    if heads.len() == 0 {
        seq![]
    } else {
        heads_prefix(heads.drop_last()) + seq!['['] + heads.last()@ + seq![']', ' ']
    }
}

impl CommitInfo {
    /// Whether this is the uncommitted-changes entry: the zero id and the marker text.
    pub open spec fn is_sentinel_spec(&self) -> bool {
        self.id.bytes@ == zero_oid() && self.summary@ == UNCOMMITTED_STR@
    }

    /// The summary as displayed: the branch heads in brackets, then the summary.
    pub open spec fn display_summary(&self) -> Seq<char> {
        heads_prefix(self.branch_heads@) + self.summary@
    }

    /// The entry that stands for the uncommitted changes.
    pub fn uncommitted_sentinel() -> (r: CommitInfo)
        ensures
            r.is_sentinel_spec(),
            r@ == sentinel_view(),
    {
        let r = CommitInfo {
            id: Oid::zero(),
            summary: String::from_str(UNCOMMITTED_STR),
            short_id: String::from_str(SENTINEL_FIELD),
            author: String::from_str(SENTINEL_FIELD),
            commit_date: String::from_str(SENTINEL_FIELD),
            branch_heads: Vec::new(),
        };
        assert(r@.branch_heads =~= seq![]);
        r
    }

    /// Whether this is the uncommitted-changes entry.
    pub fn is_sentinel(&self) -> (r: bool)
        ensures
            r == self.is_sentinel_spec(),
    {
        let marker = String::from_str(UNCOMMITTED_STR);
        self.id.is_zero() && self.summary == marker
    }

    /// The summary with each branch head in brackets before it.
    pub fn summary(&self) -> (r: String)
        ensures
            r@ == self.display_summary(),
    {
        let mut r = String::new();
        let mut i: usize = 0;
        while i < self.branch_heads.len()
            invariant
                i <= self.branch_heads@.len(),
                r@ == heads_prefix(self.branch_heads@.take(i as int)),
            decreases self.branch_heads@.len() - i,
        {
            r.append("[");
            r.append(self.branch_heads[i].as_str());
            r.append("] ");
            proof {
                reveal_strlit("[");
                reveal_strlit("] ");
                let t = self.branch_heads@.take(i + 1);
                assert(t.drop_last() =~= self.branch_heads@.take(i as int));
            }
            i += 1;
            assert(r@ =~= heads_prefix(self.branch_heads@.take(i as int)));
        }
        assert(self.branch_heads@.take(i as int) =~= self.branch_heads@);
        r.append(self.summary.as_str());
        r
    }
}


/// A local branch and the commit at its tip.
#[derive(Clone, Debug)]
pub struct BranchTip {
    pub name: String,
    pub id: Oid,
}

/// How a file differs between the two sides of a diff, as the repository backend reports it.
#[derive(Clone, Copy, Debug, PartialEq, Eq)]
pub enum DeltaStatus {
    Unmodified,
    Added,
    Deleted,
    Modified,
    Renamed,
    Copied,
    Ignored,
    Untracked,
    Typechange,
    Unreadable,
    Conflicted,
}

/// The kind of change that a record shows.
#[derive(Clone, Copy, Debug, PartialEq, Eq)]
pub enum ChangeKind {
    Added,
    Modified,
    Deleted,
    Renamed,
    Copied,
    TypeChanged,
    Unmodified,
}

/// The kind shown for a backend status: a file new to the working tree (untracked or
/// ignored) is an addition; an unreadable or conflicted file is a modification.
pub open spec fn kind_of(d: DeltaStatus) -> ChangeKind {
    match d {
        DeltaStatus::Unmodified => ChangeKind::Unmodified,
        DeltaStatus::Added => ChangeKind::Added,
        DeltaStatus::Deleted => ChangeKind::Deleted,
        DeltaStatus::Modified => ChangeKind::Modified,
        DeltaStatus::Renamed => ChangeKind::Renamed,
        DeltaStatus::Copied => ChangeKind::Copied,
        DeltaStatus::Ignored => ChangeKind::Added,
        DeltaStatus::Untracked => ChangeKind::Added,
        DeltaStatus::Typechange => ChangeKind::TypeChanged,
        DeltaStatus::Unreadable => ChangeKind::Modified,
        DeltaStatus::Conflicted => ChangeKind::Modified,
    }
}

/// The kind shown for a backend status.
pub fn change_kind(d: DeltaStatus) -> (r: ChangeKind)
    ensures
        r == kind_of(d),
{
    match d {
        DeltaStatus::Unmodified => ChangeKind::Unmodified,
        DeltaStatus::Added => ChangeKind::Added,
        DeltaStatus::Deleted => ChangeKind::Deleted,
        DeltaStatus::Modified => ChangeKind::Modified,
        DeltaStatus::Renamed => ChangeKind::Renamed,
        DeltaStatus::Copied => ChangeKind::Copied,
        DeltaStatus::Ignored => ChangeKind::Added,
        DeltaStatus::Untracked => ChangeKind::Added,
        DeltaStatus::Typechange => ChangeKind::TypeChanged,
        DeltaStatus::Unreadable => ChangeKind::Modified,
        DeltaStatus::Conflicted => ChangeKind::Modified,
    }
}

/// The word shown in the status column for each kind.
pub open spec fn kind_label(k: ChangeKind) -> Seq<char> {
    match k {
        ChangeKind::Added => "Added"@,
        ChangeKind::Modified => "Modified"@,
        ChangeKind::Deleted => "Deleted"@,
        ChangeKind::Renamed => "Renamed"@,
        ChangeKind::Copied => "Copied"@,
        ChangeKind::TypeChanged => "Type changed"@,
        ChangeKind::Unmodified => "Unmodified"@,
    }
}

impl ChangeKind {
    /// The word shown in the status column.
    pub fn label(&self) -> (r: &'static str)
        ensures
            r@ == kind_label(*self),
    {
        let r = match self {
            ChangeKind::Added => "Added",
            ChangeKind::Modified => "Modified",
            ChangeKind::Deleted => "Deleted",
            ChangeKind::Renamed => "Renamed",
            ChangeKind::Copied => "Copied",
            ChangeKind::TypeChanged => "Type changed",
            ChangeKind::Unmodified => "Unmodified",
        };
        r
    }
}

/// One file delta as the backend reports it: the new side's content id and path.
#[derive(Clone, Debug)]
pub struct DeltaInfo {
    pub id: Oid,
    pub path: String,
    pub status: DeltaStatus,
}

/// One file's row in a change list.
#[derive(Clone, Debug)]
pub struct TreeItem {
    /// The content id of the new (resulting) blob.
    pub id: Oid,
    /// The path relative to the repository root.
    pub path: String,
    pub kind: ChangeKind,
    /// Set on rows that are already staged, and on every row of a commit's changes.
    pub is_selected: bool,
}

/// What a change row shows, as mathematical values.
pub struct ItemView {
    pub id: Seq<u8>,
    pub path: Seq<char>,
    pub kind: ChangeKind,
    pub is_selected: bool,
}

impl View for TreeItem {
    type V = ItemView;

    open spec fn view(&self) -> ItemView {
        ItemView { id: self.id.bytes@, path: self.path@, kind: self.kind, is_selected: self.is_selected }
    }
}

/// The row for a delta, with the given selection flag.
pub open spec fn item_of(d: DeltaInfo, selected: bool) -> ItemView {
    ItemView { id: d.id.bytes@, path: d.path@, kind: kind_of(d.status), is_selected: selected }
}

/// The views of the rows of `v`.
pub open spec fn item_views(v: Seq<TreeItem>) -> Seq<ItemView> {
    v.map_values(|t: TreeItem| t@)
}

/// The row for a delta.
pub fn tree_item(d: &DeltaInfo, selected: bool) -> (r: TreeItem)
    ensures
        r@ == item_of(*d, selected),
{
    TreeItem {
        id: d.id,
        path: String::from_str(d.path.as_str()),
        kind: change_kind(d.status),
        is_selected: selected,
    }
}

/// Status bits of one path, numbered as in libgit2's `git_status_t`.
#[derive(Clone, Copy, Debug, PartialEq, Eq)]
pub struct FileStatus {
    pub bits: u32,
}

pub const INDEX_NEW: u32 = 1;
pub const INDEX_MODIFIED: u32 = 2;
pub const INDEX_DELETED: u32 = 4;
pub const INDEX_RENAMED: u32 = 8;
pub const INDEX_TYPECHANGE: u32 = 16;
pub const WT_NEW: u32 = 128;
pub const WT_MODIFIED: u32 = 256;
pub const WT_DELETED: u32 = 512;
pub const WT_TYPECHANGE: u32 = 1024;
pub const WT_RENAMED: u32 = 2048;
pub const WT_UNREADABLE: u32 = 4096;
pub const IGNORED: u32 = 16384;
pub const CONFLICTED: u32 = 32768;

/// Whether any of the bits of `mask` is set in `bits`.
pub open spec fn has_bit(bits: u32, mask: u32) -> bool {
    bits & mask != 0
}

impl FileStatus {
    pub open spec fn ignored(&self) -> bool {
        has_bit(self.bits, IGNORED)
    }

    pub open spec fn in_index(&self) -> bool {
        has_bit(self.bits, INDEX_NEW) || has_bit(self.bits, INDEX_MODIFIED) || has_bit(
            self.bits,
            INDEX_DELETED,
        ) || has_bit(self.bits, INDEX_RENAMED) || has_bit(self.bits, INDEX_TYPECHANGE)
    }

    /// Whether the path is ignored.
    pub fn is_ignored(&self) -> (r: bool)
        ensures
            r == self.ignored(),
    {
        self.bits & IGNORED != 0
    }

    /// Whether the path has a change staged in the index.
    pub fn is_in_index(&self) -> (r: bool)
        ensures
            r == self.in_index(),
    {
        self.bits & INDEX_NEW != 0 || self.bits & INDEX_MODIFIED != 0 || self.bits & INDEX_DELETED
            != 0 || self.bits & INDEX_RENAMED != 0 || self.bits & INDEX_TYPECHANGE != 0
    }
}

} // verus!
