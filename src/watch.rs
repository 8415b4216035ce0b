//! File-system change events: which path an event names, and whether a change at that
//! path can alter the history or the working-tree changes.
use vstd::prelude::*;
use crate::model::texts;
use crate::text::push_char;

verus! {

/// The debounce window of the watcher, in seconds: events for one path within it collapse
/// into the latest.
pub const DEBOUNCE_SECS: u64 = 2;

/// The name of the repository's metadata directory.
pub const METADATA_DIR: &'static str = ".git";

/// The name of the index file.
pub const INDEX_FILE: &'static str = "index";

/// A debounced change notification; each path is given as its components.
#[derive(Clone, Debug)]
pub enum PathEvent {
    NoticeWrite(Vec<String>),
    NoticeRemove(Vec<String>),
    Create(Vec<String>),
    Write(Vec<String>),
    Chmod(Vec<String>),
    Remove(Vec<String>),
    /// A rename, from the first path to the second.
    Rename(Vec<String>, Vec<String>),
    /// The watcher lost events and asks for a rescan; it names no path.
    Rescan,
    /// The watcher failed, perhaps on a path.
    Error(Option<Vec<String>>),
}

/// The one path an event stands for: the destination of a rename, none for a rescan.
pub open spec fn event_path_of(e: PathEvent) -> Option<Seq<Seq<char>>> {
    match e {
        PathEvent::NoticeWrite(p) => Some(texts(p@)),
        PathEvent::NoticeRemove(p) => Some(texts(p@)),
        PathEvent::Create(p) => Some(texts(p@)),
        PathEvent::Write(p) => Some(texts(p@)),
        PathEvent::Chmod(p) => Some(texts(p@)),
        PathEvent::Remove(p) => Some(texts(p@)),
        PathEvent::Rename(_, p) => Some(texts(p@)),
        PathEvent::Rescan => None,
        PathEvent::Error(p) => match p {
            Some(q) => Some(texts(q@)),
            None => None,
        },
    }
}

impl PathEvent {
    /// The path that the event names, if any.
    pub fn path(&self) -> (r: Option<&Vec<String>>)
        ensures
            match r {
                Some(p) => event_path_of(*self) == Some(texts(p@)),
                None => event_path_of(*self) == None::<Seq<Seq<char>>>,
            },
    {
        match self {
            PathEvent::NoticeWrite(p) => Some(p),
            PathEvent::NoticeRemove(p) => Some(p),
            PathEvent::Create(p) => Some(p),
            PathEvent::Write(p) => Some(p),
            PathEvent::Chmod(p) => Some(p),
            PathEvent::Remove(p) => Some(p),
            PathEvent::Rename(_, p) => Some(p),
            PathEvent::Rescan => None,
            PathEvent::Error(p) => match p {
                Some(q) => Some(q),
                None => None,
            },
        }
    }
}

/// The non-empty `/`-separated components read so far, and the one being read.
pub open spec fn split_state(s: Seq<char>) -> (Seq<Seq<char>>, Seq<char>)
    decreases s.len(),
{
    if s.len() == 0 {
        (seq![], seq![])
    } else {
        let (done, cur) = split_state(s.drop_last());
        if s.last() == '/' {
            if cur.len() > 0 {
                (done.push(cur), seq![])
            } else {
                (done, seq![])
            }
        } else {
            (done, cur.push(s.last()))
        }
    }
}

/// The non-empty `/`-separated components of `s`, as a path reads a branch name.
pub open spec fn components_of(s: Seq<char>) -> Seq<Seq<char>> {
    let (done, cur) = split_state(s);
    if cur.len() > 0 {
        done.push(cur)
    } else {
        done
    }
}

/// The components of a branch name.
pub fn branch_components(name: &str) -> (r: Vec<String>)
    ensures
        texts(r@) == components_of(name@),
{
    let n = name.unicode_len();
    let mut done: Vec<String> = Vec::new();
    let mut cur = String::new();
    let mut i: usize = 0;
    while i < n
        invariant
            i <= n,
            n == name@.len(),
            (texts(done@), cur@) == split_state(name@.take(i as int)),
        decreases n - i,
    {
        let c = name.get_char(i);
        proof {
            assert(name@.take(i + 1).drop_last() =~= name@.take(i as int));
        }
        if c == '/' {
            if cur.unicode_len() > 0 {
                let ghost old_done = done@;
                done.push(cur);
                assert(texts(done@) =~= texts(old_done).push(cur@));
            }
            cur = String::new();
        } else {
            push_char(&mut cur, c);
        }
        i += 1;
    }
    assert(name@.take(n as int) =~= name@);
    if cur.unicode_len() > 0 {
        let ghost old_done = done@;
        done.push(cur);
        assert(texts(done@) =~= texts(old_done).push(cur@));
    }
    done
}

/// Whether the last components of `path` are `suffix`, as `Path::ends_with` compares.
pub open spec fn ends_with_components(path: Seq<Seq<char>>, suffix: Seq<Seq<char>>) -> bool {
    suffix.len() <= path.len() && forall|k: int|
        0 <= k < suffix.len() ==> path[path.len() - suffix.len() + k] == #[trigger] suffix[k]
}

/// Whether some component of `path` is the metadata directory.
pub open spec fn in_metadata(path: Seq<Seq<char>>) -> bool {
    exists|k: int| 0 <= k < path.len() && path[k] == METADATA_DIR@
}

/// A change matters when its path ends in the index file or in the current branch's name
/// (a name without components, as when no branch is shown, names no path), or lies
/// outside the metadata directory altogether.
pub open spec fn relevant(path: Seq<Seq<char>>, branch: Seq<char>) -> bool {
    ||| ends_with_components(path, seq![INDEX_FILE@])
    ||| (components_of(branch).len() > 0 && ends_with_components(path, components_of(branch)))
    ||| !in_metadata(path)
}

fn path_ends_with(path: &Vec<String>, suffix: &Vec<String>) -> (r: bool)
    ensures
        r == ends_with_components(texts(path@), texts(suffix@)),
{
    let n = path.len();
    let m = suffix.len();
    if m > n {
        return false;
    }
    let mut k: usize = 0;
    while k < m
        invariant
            k <= m <= n,
            n == path@.len(),
            m == suffix@.len(),
            forall|t: int| 0 <= t < k ==> path@[n - m + t]@ == #[trigger] suffix@[t]@,
        decreases m - k,
    {
        if path[n - m + k] != suffix[k] {
            assert(texts(path@)[n - m + k as int] != texts(suffix@)[k as int]);
            return false;
        }
        k += 1;
    }
    assert forall|t: int| 0 <= t < m implies texts(path@)[n - m + t] == #[trigger] texts(
        suffix@,
    )[t] by {
        assert(path@[n - m + t]@ == suffix@[t]@);
    }
    true
}

fn path_in_metadata(path: &Vec<String>) -> (r: bool)
    ensures
        r == in_metadata(texts(path@)),
{
    let dir = String::from_str(METADATA_DIR);
    let mut k: usize = 0;
    while k < path.len()
        invariant
            k <= path@.len(),
            dir@ == METADATA_DIR@,
            forall|t: int| 0 <= t < k ==> #[trigger] path@[t]@ != METADATA_DIR@,
        decreases path@.len() - k,
    {
        if path[k] == dir {
            assert(texts(path@)[k as int] == METADATA_DIR@);
            return true;
        }
        k += 1;
    }
    assert forall|t: int| 0 <= t < path@.len() implies texts(path@)[t] != METADATA_DIR@ by {
        assert(path@[t]@ != METADATA_DIR@);
    }
    false
}

/// Whether a change at `path` matters while `branch` is shown.
pub fn is_relevant(path: &Vec<String>, branch: &str) -> (r: bool)
    ensures
        r == relevant(texts(path@), branch@),
{
    let index = vec![String::from_str(INDEX_FILE)];
    assert(texts(index@) =~= seq![INDEX_FILE@]);
    if path_ends_with(path, &index) {
        return true;
    }
    let branch_parts = branch_components(branch);
    if branch_parts.len() > 0 && path_ends_with(path, &branch_parts) {
        return true;
    }
    !path_in_metadata(path)
}

} // verus!
