//! History assembly: one row per walked commit, newest first, with branch-tip
//! annotations and the uncommitted-changes entry in front when it applies.
use vstd::prelude::*;
use chrono::TimeZone;
use crate::model::{
    sentinel_view, texts, zero_oid, BranchTip, CommitInfo, CommitView, FileStatus, Oid,
    UNCOMMITTED_STR,
};
use crate::text::{hex_of, lemma_hex_of_len};

verus! {

/// The summary shown for a commit whose message has none.
pub const NO_SUMMARY: &'static str = "<No summary found>";

/// The author name shown when the commit names none.
pub const UNKNOWN_NAME: &'static str = "Unknown";

/// The author e-mail shown when the commit names none.
pub const UNKNOWN_EMAIL: &'static str = "unknown";

/// The date shown for a commit time that cannot be represented.
pub const UNKNOWN_DATE: &'static str = "<unknown>";

/// The most characters of a summary that a row shows.
pub const SUMMARY_MAX: usize = 80;

/// The number of hexadecimal digits in a short id.
pub const SHORT_ID_LEN: usize = 7;

/// The minutes in a day: a UTC offset lies strictly within one day either way.
pub const MINUTES_PER_DAY: i32 = 1440;

/// One commit as the repository walk hands it over.
#[derive(Clone, Debug)]
pub struct CommitData {
    pub id: Oid,
    /// The first paragraph of the message on one line, if it has one.
    pub summary: Option<String>,
    pub author_name: Option<String>,
    pub author_email: Option<String>,
    /// Seconds since the Unix epoch.
    pub seconds: i64,
    /// The committer's offset from UTC, in minutes.
    pub offset_minutes: i32,
}

/// The text that chrono gives to the instant `seconds` after the epoch, shown at
/// `offset_seconds` east of UTC, or none where chrono cannot represent that instant.
pub uninterp spec fn date_text(seconds: int, offset_seconds: int) -> Option<Seq<char>>;

/// Relies on chrono: `FixedOffset::east_opt` builds the offset (none beyond a day),
/// `TimeZone::timestamp_opt` the instant (none outside chrono's range), and `DateTime`'s
/// `Display` the text, such as `2018-05-01 10:00:00 +02:00`, from these two values alone.
#[verifier::external_body]
fn format_timestamp(seconds: i64, offset_seconds: i32) -> (r: Option<String>)
    requires
        -86400 < offset_seconds < 86400,
    ensures
        match r {
            Some(t) => date_text(seconds as int, offset_seconds as int) == Some(t@),
            None => date_text(seconds as int, offset_seconds as int) == None::<Seq<char>>,
        },
{
    match chrono::FixedOffset::east_opt(offset_seconds) {
        Some(offset) => match offset.timestamp_opt(seconds, 0) {
            chrono::LocalResult::Single(dt) => Some(dt.to_string()),
            _ => None,
        },
        None => None,
    }
}

/// The text of a commit time in its own offset, or the placeholder.
pub open spec fn date_of(seconds: int, offset_minutes: int) -> Seq<char> {
    if -1440 < offset_minutes < 1440 {
        match date_text(seconds, offset_minutes * 60) {
            Some(t) => t,
            None => UNKNOWN_DATE@,
        }
    } else {
        UNKNOWN_DATE@
    }
}

pub open spec fn text_or(t: Option<String>, default: Seq<char>) -> Seq<char> {
    match t {
        Some(s) => s@,
        None => default,
    }
}

/// The first `n` characters of `s`, or all of them if it is shorter.
pub open spec fn prefix_of(s: Seq<char>, n: int) -> Seq<char> {
    if s.len() <= n {
        s
    } else {
        s.take(n)
    }
}

impl CommitData {
    pub open spec fn full_summary(&self) -> Seq<char> {
        text_or(self.summary, NO_SUMMARY@)
    }

    pub open spec fn author_text(&self) -> Seq<char> {
        text_or(self.author_name, UNKNOWN_NAME@) + " <"@ + text_or(self.author_email, UNKNOWN_EMAIL@)
            + ">"@
    }

    /// The forty hexadecimal digits of the id.
    pub fn id_str(&self) -> (r: String)
        ensures
            r@ == hex_of(self.id.bytes@),
    {
        self.id.hex()
    }

    /// The first seven hexadecimal digits of the id.
    pub fn short_id_str(&self) -> (r: String)
        ensures
            r@ == hex_of(self.id.bytes@).take(7),
    {
        let full = self.id.hex();
        proof {
            lemma_hex_of_len(self.id.bytes@);
        }
        String::from_str(full.as_str().substring_char(0, SHORT_ID_LEN))
    }

    /// The summary, or a placeholder where the message has none.
    pub fn full_summary_str(&self) -> (r: &str)
        ensures
            r@ == self.full_summary(),
    {
        match &self.summary {
            Some(s) => s.as_str(),
            None => NO_SUMMARY,
        }
    }

    /// The summary cut to eighty characters.
    pub fn summary_str(&self) -> (r: String)
        ensures
            r@ == prefix_of(self.full_summary(), 80),
    {
        let full = self.full_summary_str();
        let n = full.unicode_len();
        if n <= SUMMARY_MAX {
            String::from_str(full)
        } else {
            String::from_str(full.substring_char(0, SUMMARY_MAX))
        }
    }

    /// The author as `name <email>`, with placeholders for what the commit lacks.
    pub fn author_str(&self) -> (r: String)
        ensures
            r@ == self.author_text(),
    {
        let mut r = String::new();
        match &self.author_name {
            Some(n) => r.append(n.as_str()),
            None => r.append(UNKNOWN_NAME),
        }
        r.append(" <");
        match &self.author_email {
            Some(e) => r.append(e.as_str()),
            None => r.append(UNKNOWN_EMAIL),
        }
        r.append(">");
        r
    }

    /// The commit time in the commit's own UTC offset.
    pub fn date(&self) -> (r: String)
        ensures
            r@ == date_of(self.seconds as int, self.offset_minutes as int),
    {
        if -MINUTES_PER_DAY < self.offset_minutes && self.offset_minutes < MINUTES_PER_DAY {
            match format_timestamp(self.seconds, self.offset_minutes * 60) {
                Some(t) => t,
                None => String::from_str(UNKNOWN_DATE),
            }
        } else {
            String::from_str(UNKNOWN_DATE)
        }
    }
}


/// The overview of a commit shown beside its changes.
pub open spec fn overview_of(c: CommitData) -> Seq<char> {
    "Commit: "@ + hex_of(c.id.bytes@) + "\n"@ + "Author: "@ + c.author_text() + "\n"@ + "Date: "@
        + date_of(c.seconds as int, c.offset_minutes as int) + "\n"@ + "\n"@
}

/// The overview of a commit: its full id, its author and its date, one per line.
pub fn overview_text(c: &CommitData) -> (r: String)
    ensures
        r@ == overview_of(*c),
{
    let mut r = String::new();
    r.append("Commit: ");
    r.append(c.id_str().as_str());
    r.append("\n");
    r.append("Author: ");
    r.append(c.author_str().as_str());
    r.append("\n");
    r.append("Date: ");
    r.append(c.date().as_str());
    r.append("\n");
    r.append("\n");
    r
}

/// The names of the tips in `tips` that sit on the commit `id`, in the order of `tips`.
pub open spec fn heads_at(id: Seq<u8>, tips: Seq<BranchTip>) -> Seq<Seq<char>>
    decreases tips.len(),
{
    if tips.len() == 0 {
        seq![]
    } else {
        let rest = heads_at(id, tips.drop_last());
        if tips.last().id.bytes@ == id {
            rest.push(tips.last().name@)
        } else {
            rest
        }
    }
}

/// The row that shows commit `c`, annotated from `tips`.
pub open spec fn record_view(c: CommitData, tips: Seq<BranchTip>) -> CommitView {
    CommitView {
        id: c.id.bytes@,
        summary: prefix_of(c.full_summary(), 80),
        short_id: hex_of(c.id.bytes@).take(7),
        author: c.author_text(),
        commit_date: date_of(c.seconds as int, c.offset_minutes as int),
        branch_heads: heads_at(c.id.bytes@, tips),
    }
}

/// Whether some commit of `s` has the id `id`.
pub open spec fn has_id(s: Seq<CommitData>, id: Seq<u8>) -> bool {
    exists|k: int| 0 <= k < s.len() && s[k].id.bytes@ == id
}

/// The walked commits without repeats: each id at its first place in the walk.
pub open spec fn first_occurrences(walk: Seq<CommitData>) -> Seq<CommitData>
    decreases walk.len(),
{
    if walk.len() == 0 {
        seq![]
    } else {
        let rest = first_occurrences(walk.drop_last());
        if has_id(rest, walk.last().id.bytes@) {
            rest
        } else {
            rest.push(walk.last())
        }
    }
}

/// Whether some status entry is not ignored, that is, the tree or the index differs from HEAD.
pub open spec fn has_uncommitted(statuses: Seq<FileStatus>) -> bool {
    exists|k: int| 0 <= k < statuses.len() && !statuses[k].ignored()
}

/// The rows of the history: the uncommitted-changes entry when there are such changes,
/// then one row per distinct walked commit, in walk order.
pub open spec fn history_of(
    walk: Seq<CommitData>,
    tips: Seq<BranchTip>,
    statuses: Seq<FileStatus>,
) -> Seq<CommitView> {
    let rows = first_occurrences(walk).map_values(|c: CommitData| record_view(c, tips));
    if has_uncommitted(statuses) {
        seq![sentinel_view()] + rows
    } else {
        rows
    }
}

/// The views of the rows of `v`.
pub open spec fn views(v: Seq<CommitInfo>) -> Seq<CommitView> {
    v.map_values(|c: CommitInfo| c@)
}

/// The names of the tips that sit on `id`.
pub fn branch_heads_at(id: &Oid, tips: &Vec<BranchTip>) -> (r: Vec<String>)
    ensures
        texts(r@) == heads_at(id.bytes@, tips@),
{
    let mut r: Vec<String> = Vec::new();
    let mut i: usize = 0;
    while i < tips.len()
        invariant
            i <= tips@.len(),
            texts(r@) == heads_at(id.bytes@, tips@.take(i as int)),
        decreases tips@.len() - i,
    {
        proof {
            assert(tips@.take(i + 1).drop_last() =~= tips@.take(i as int));
        }
        if tips[i].id.same(id) {
            let name = String::from_str(tips[i].name.as_str());
            r.push(name);
            assert(texts(r@) =~= heads_at(id.bytes@, tips@.take(i as int)).push(tips@[i as int].name@));
        }
        i += 1;
    }
    assert(tips@.take(i as int) =~= tips@);
    r
}

/// The row for one walked commit.
pub fn commit_info(c: &CommitData, tips: &Vec<BranchTip>) -> (r: CommitInfo)
    ensures
        r@ == record_view(*c, tips@),
{
    CommitInfo {
        id: c.id,
        summary: c.summary_str(),
        short_id: c.short_id_str(),
        author: c.author_str(),
        commit_date: c.date(),
        branch_heads: branch_heads_at(&c.id, tips),
    }
}

/// Whether some status entry is not ignored.
pub fn has_uncommitted_changes(statuses: &Vec<FileStatus>) -> (r: bool)
    ensures
        r == has_uncommitted(statuses@),
{
    let mut i: usize = 0;
    while i < statuses.len()
        invariant
            i <= statuses@.len(),
            forall|k: int| 0 <= k < i ==> statuses@[k].ignored(),
        decreases statuses@.len() - i,
    {
        if !statuses[i].is_ignored() {
            return true;
        }
        i += 1;
    }
    false
}

/// Whether one of the ids in `seen` equals `id`.
fn seen_before(seen: &Vec<Oid>, id: &Oid) -> (r: bool)
    ensures
        r == exists|k: int| 0 <= k < seen@.len() && seen@[k].bytes@ == id.bytes@,
{
    let mut i: usize = 0;
    while i < seen.len()
        invariant
            i <= seen@.len(),
            forall|k: int| 0 <= k < i ==> seen@[k].bytes@ != id.bytes@,
        decreases seen@.len() - i,
    {
        if seen[i].same(id) {
            return true;
        }
        i += 1;
    }
    false
}

/// Builds the history from the walked commits (newest first, as the walk ordered them),
/// the local branch tips and the status entries of the working tree and index.
pub fn compute_history(
    walk: &Vec<CommitData>,
    tips: &Vec<BranchTip>,
    statuses: &Vec<FileStatus>,
) -> (r: Vec<CommitInfo>)
    ensures
        views(r@) == history_of(walk@, tips@, statuses@),
{
    let mut r: Vec<CommitInfo> = Vec::new();
    let dirty = has_uncommitted_changes(statuses);
    if dirty {
        r.push(CommitInfo::uncommitted_sentinel());
    }
    let ghost head: Seq<CommitView> = if dirty {
        seq![sentinel_view()]
    } else {
        seq![]
    };
    assert(views(r@) =~= head);
    let mut seen: Vec<Oid> = Vec::new();
    let mut i: usize = 0;
    while i < walk.len()
        invariant
            i <= walk@.len(),
            seen@.len() == first_occurrences(walk@.take(i as int)).len(),
            forall|k: int|
                0 <= k < seen@.len() ==> seen@[k].bytes@ == first_occurrences(
                    walk@.take(i as int),
                )[k].id.bytes@,
            views(r@) == head + first_occurrences(walk@.take(i as int)).map_values(
                |c: CommitData| record_view(c, tips@),
            ),
        decreases walk@.len() - i,
    {
        let ghost prev = first_occurrences(walk@.take(i as int));
        proof {
            assert(walk@.take(i + 1).drop_last() =~= walk@.take(i as int));
            assert(walk@.take(i + 1).last() == walk@[i as int]);
        }
        let c = &walk[i];
        let dup = seen_before(&seen, &c.id);
        proof {
            if dup {
                let k = choose|k: int| 0 <= k < seen@.len() && seen@[k].bytes@ == c.id.bytes@;
                assert(prev[k].id.bytes@ == c.id.bytes@);
            } else {
                assert forall|k: int| 0 <= k < prev.len() implies prev[k].id.bytes@
                    != c.id.bytes@ by {
                    assert(seen@[k].bytes@ == prev[k].id.bytes@);
                }
            }
        }
        if !dup {
            seen.push(c.id);
            let ghost old_r = r@;
            let info = commit_info(c, tips);
            r.push(info);
            proof {
                assert(views(r@) =~= views(old_r).push(info@));
                let next = prev.push(*c);
                assert(next.map_values(|d: CommitData| record_view(d, tips@)) =~= prev.map_values(
                    |d: CommitData| record_view(d, tips@),
                ).push(record_view(*c, tips@)));
                assert(views(r@) =~= head + next.map_values(|d: CommitData| record_view(d, tips@)));
            }
        }
        i += 1;
    }
    assert(walk@.take(i as int) =~= walk@);
    r
}


/// Without repeats, every walked id kept once, and nothing that the walk lacks.
proof fn lemma_first_occurrences(walk: Seq<CommitData>)
    ensures
        forall|i: int, j: int|
            0 <= i < j < first_occurrences(walk).len() ==> first_occurrences(walk)[i].id.bytes@
                != first_occurrences(walk)[j].id.bytes@,
        forall|k: int| 0 <= k < walk.len() ==> has_id(first_occurrences(walk), walk[k].id.bytes@),
        forall|j: int|
            0 <= j < first_occurrences(walk).len() ==> has_id(
                walk,
                first_occurrences(walk)[j].id.bytes@,
            ),
    decreases walk.len(),
{
    if walk.len() > 0 {
        let init = walk.drop_last();
        let rest = first_occurrences(init);
        lemma_first_occurrences(init);
        let fo = first_occurrences(walk);
        assert forall|k: int| 0 <= k < walk.len() implies has_id(fo, walk[k].id.bytes@) by {
            if k < walk.len() - 1 {
                assert(init[k] == walk[k]);
                let m = choose|m: int| 0 <= m < rest.len() && rest[m].id.bytes@ == init[k].id.bytes@;
                assert(fo[m] == rest[m]);
            } else if !has_id(rest, walk.last().id.bytes@) {
                assert(fo[rest.len() as int] == walk.last());
            }
        }
        assert forall|j: int| 0 <= j < fo.len() implies has_id(walk, fo[j].id.bytes@) by {
            if j < rest.len() {
                assert(fo[j] == rest[j]);
                let m = choose|m: int| 0 <= m < init.len() && init[m].id.bytes@ == rest[j].id.bytes@;
                assert(walk[m] == init[m]);
            } else {
                assert(fo[j] == walk[walk.len() - 1]);
            }
        }
    }
}

/// Each walked commit appears exactly once among the commit rows of the history, whatever
/// number of seeds reached it, and every commit row comes from the walk.
pub proof fn history_lists_each_commit_once(
    walk: Seq<CommitData>,
    tips: Seq<BranchTip>,
    statuses: Seq<FileStatus>,
)
    ensures
        ({
            let h = history_of(walk, tips, statuses);
            let first = if has_uncommitted(statuses) {
                1int
            } else {
                0int
            };
            &&& first <= h.len()
            &&& forall|i: int, j: int|
                first <= i < j < h.len() ==> #[trigger] h[i].id != #[trigger] h[j].id
            &&& forall|k: int|
                0 <= k < walk.len() ==> exists|j: int|
                    first <= j < h.len() && h[j].id == #[trigger] walk[k].id.bytes@
            &&& forall|j: int|
                first <= j < h.len() ==> exists|k: int|
                    0 <= k < walk.len() && walk[k].id.bytes@ == #[trigger] h[j].id
        }),
{
    let h = history_of(walk, tips, statuses);
    let fo = first_occurrences(walk);
    let rows = fo.map_values(|c: CommitData| record_view(c, tips));
    let first = if has_uncommitted(statuses) {
        1int
    } else {
        0int
    };
    lemma_first_occurrences(walk);
    assert forall|j: int| first <= j < h.len() implies h[j] == rows[j - first] by {}
    assert forall|k: int| 0 <= k < walk.len() implies exists|j: int|
        first <= j < h.len() && h[j].id == #[trigger] walk[k].id.bytes@ by {
        let m = choose|m: int| 0 <= m < fo.len() && fo[m].id.bytes@ == walk[k].id.bytes@;
        assert(h[m + first] == rows[m]);
    }
}

/// The uncommitted-changes entry is in the history exactly when some status entry is not
/// ignored; with no such entry left, the next history has none.
pub proof fn sentinel_present_iff_uncommitted(
    walk: Seq<CommitData>,
    tips: Seq<BranchTip>,
    statuses: Seq<FileStatus>,
)
    ensures
        (exists|j: int|
            0 <= j < history_of(walk, tips, statuses).len() && history_of(walk, tips, statuses)[j]
                == sentinel_view()) <==> has_uncommitted(statuses),
{
    let h = history_of(walk, tips, statuses);
    if has_uncommitted(statuses) {
        assert(h[0] == sentinel_view());
    } else {
        reveal_strlit("*");
        let fo = first_occurrences(walk);
        assert forall|j: int| 0 <= j < h.len() implies h[j] != sentinel_view() by {
            lemma_hex_of_len(fo[j].id.bytes@);
            assert(h[j] == record_view(fo[j], tips));
            assert(h[j].short_id.len() == 7);
        }
    }
}


/// Whether a row shows the uncommitted-changes entry: the zero id and the marker text.
pub open spec fn is_sentinel_view(v: CommitView) -> bool {
    v.id == zero_oid() && v.summary == UNCOMMITTED_STR@
}

/// With no walked commit on the zero id (which no stored object has), no id appears twice
/// anywhere in the history, the first row is the uncommitted-changes entry exactly when
/// some status entry is not ignored, and no other row is that entry; so once every
/// uncommitted change is gone, the next history has no such entry at all.
pub proof fn history_rows_are_distinct(
    walk: Seq<CommitData>,
    tips: Seq<BranchTip>,
    statuses: Seq<FileStatus>,
)
    requires
        forall|k: int| 0 <= k < walk.len() ==> #[trigger] walk[k].id.bytes@ != zero_oid(),
    ensures
        ({
            let h = history_of(walk, tips, statuses);
            &&& forall|i: int, j: int|
                0 <= i < j < h.len() ==> #[trigger] h[i].id != #[trigger] h[j].id
            &&& (h.len() > 0 && is_sentinel_view(h[0])) <==> has_uncommitted(statuses)
            &&& forall|i: int| 1 <= i < h.len() ==> !is_sentinel_view(#[trigger] h[i])
            &&& !has_uncommitted(statuses) ==> forall|i: int|
                0 <= i < h.len() ==> !is_sentinel_view(#[trigger] h[i])
        }),
{
    let h = history_of(walk, tips, statuses);
    let first = if has_uncommitted(statuses) {
        1int
    } else {
        0int
    };
    history_lists_each_commit_once(walk, tips, statuses);
    assert forall|j: int| first <= j < h.len() implies h[j].id != zero_oid() by {
        let k = choose|k: int| 0 <= k < walk.len() && walk[k].id.bytes@ == #[trigger] h[j].id;
    }
    assert forall|i: int, j: int| 0 <= i < j < h.len() implies #[trigger] h[i].id
        != #[trigger] h[j].id by {
        if i < first {
            assert(h[i] == sentinel_view());
            assert(h[j].id != zero_oid());
        }
    }
    if has_uncommitted(statuses) {
        assert(h[0] == sentinel_view());
    }
}

} // verus!
