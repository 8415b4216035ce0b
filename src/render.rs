//! Display form of file diffs: hunk headers and lines, decoded and escaped, and the
//! action that a hunk offers for a selection of its lines.
use vstd::prelude::*;
use vstd::utf8::{decode_utf8, valid_utf8};
use crate::text::{append_decimal, decimal, ends_with, ends_with_chars, trim, trim_end, trim_end_of, trim_of};

verus! {

/// The text that stands for the end-of-file marker line.
pub const NO_NL_STR: &'static str = "No newline at end of file";

/// The text shown for content that is not valid UTF-8.
pub const UNKNOWN_TEXT: &'static str = "<unknown>";

/// Relies on `std::str::from_utf8`: succeeds exactly on well-formed UTF-8, and then holds
/// the characters that the bytes encode.
#[verifier::external_body]
fn decode(b: &[u8]) -> (r: Option<&str>)
    ensures
        r is Some <==> valid_utf8(b@),
        r matches Some(s) ==> s@ == decode_utf8(b@),
{
    match std::str::from_utf8(b) {
        Ok(s) => Some(s),
        Err(_) => None,
    }
}

/// The origin character as displayed: the end-of-file markers (`=`, `>`, `<`) become `\`.
pub open spec fn origin_shown(origin: char) -> char {
    if origin == '=' || origin == '>' || origin == '<' {
        '\\'
    } else {
        origin
    }
}

/// The origin character as displayed.
pub fn origin_human(origin: char) -> (r: char)
    ensures
        r == origin_shown(origin),
{
    if origin == '=' || origin == '>' || origin == '<' {
        '\\'
    } else {
        origin
    }
}

/// The text of a line's content: decoded, without trailing white space, and the marker
/// text alone for a line that ends with it; none where the bytes are not UTF-8.
pub open spec fn content_of(bytes: Seq<u8>) -> Option<Seq<char>> {
    if valid_utf8(bytes) {
        let t = trim_end(decode_utf8(bytes));
        if ends_with(t, NO_NL_STR@) {
            Some(NO_NL_STR@)
        } else {
            Some(t)
        }
    } else {
        None
    }
}

/// The text of a line's content, or none where it is not UTF-8.
pub fn content_str(content: &[u8]) -> (r: Option<String>)
    ensures
        match r {
            Some(t) => content_of(content@) == Some(t@),
            None => content_of(content@) == None::<Seq<char>>,
        },
{
    match decode(content) {
        Some(s) => {
            let t = trim_end_of(s);
            if ends_with_chars(t.as_str(), NO_NL_STR) {
                Some(String::from_str(NO_NL_STR))
            } else {
                Some(t)
            }
        },
        None => None,
    }
}

/// The text shown for a line's content, with the placeholder for undecodable bytes.
pub open spec fn line_text(bytes: Seq<u8>) -> Seq<char> {
    match content_of(bytes) {
        Some(t) => t,
        None => UNKNOWN_TEXT@,
    }
}

/// The text shown for a hunk header: decoded and trimmed at both ends, or the placeholder.
pub open spec fn header_text(bytes: Seq<u8>) -> Seq<char> {
    if valid_utf8(bytes) {
        trim(decode_utf8(bytes))
    } else {
        UNKNOWN_TEXT@
    }
}

/// A line number as shown: decimal, or empty where the side has no such line.
pub open spec fn number_text(n: Option<u32>) -> Seq<char> {
    match n {
        Some(v) => decimal(v as nat),
        None => seq![],
    }
}

/// How a line is shaded.
#[derive(Clone, Copy, Debug, PartialEq, Eq)]
pub enum LineTone {
    Added,
    Removed,
    Context,
}

/// Additions (`+`, and `<` for the marker of the new side) and removals (`-`, and `>` for
/// the old side); the rest is context.
pub open spec fn tone_of(origin: char) -> LineTone {
    if origin == '+' || origin == '<' {
        LineTone::Added
    } else if origin == '-' || origin == '>' {
        LineTone::Removed
    } else {
        LineTone::Context
    }
}

/// One line of a hunk as the backend reports it.
#[derive(Clone, Debug)]
pub struct LineData {
    pub origin: char,
    pub old_lineno: Option<u32>,
    pub new_lineno: Option<u32>,
    pub content: Vec<u8>,
}

/// One hunk as the backend reports it.
#[derive(Clone, Debug)]
pub struct HunkData {
    pub header: Vec<u8>,
    pub lines: Vec<LineData>,
}

/// One line of a hunk, ready to show.
#[derive(Clone, Debug)]
pub struct DiffLine {
    pub origin: char,
    pub old_lineno: String,
    pub new_lineno: String,
    pub text: String,
    pub tone: LineTone,
}

/// One hunk, ready to show.
#[derive(Clone, Debug)]
pub struct DiffHunk {
    pub header: String,
    pub lines: Vec<DiffLine>,
}

/// One file's diff, ready to show; a binary or rename-only file has no hunks.
#[derive(Clone, Debug)]
pub struct FileDiff {
    pub path: String,
    pub hunks: Vec<DiffHunk>,
}

/// Whether `r` shows the line `d`.
pub open spec fn shows_line(r: DiffLine, d: LineData) -> bool {
    &&& r.origin == origin_shown(d.origin)
    &&& r.old_lineno@ == number_text(d.old_lineno)
    &&& r.new_lineno@ == number_text(d.new_lineno)
    &&& r.text@ == line_text(d.content@)
    &&& r.tone == tone_of(d.origin)
}

/// Whether `r` shows the hunk `h`, line for line.
pub open spec fn shows_hunk(r: DiffHunk, h: HunkData) -> bool {
    &&& r.header@ == header_text(h.header@)
    &&& r.lines@.len() == h.lines@.len()
    &&& forall|m: int| 0 <= m < h.lines@.len() ==> shows_line(#[trigger] r.lines@[m], h.lines@[m])
}

fn number_string(n: Option<u32>) -> (r: String)
    ensures
        r@ == number_text(n),
{
    let mut r = String::new();
    match n {
        Some(v) => append_decimal(&mut r, v),
        None => {},
    }
    r
}

/// The display form of one line.
pub fn render_line(d: &LineData) -> (r: DiffLine)
    ensures
        shows_line(r, *d),
{
    let text = match content_str(d.content.as_slice()) {
        Some(t) => t,
        None => String::from_str(UNKNOWN_TEXT),
    };
    let tone = if d.origin == '+' || d.origin == '<' {
        LineTone::Added
    } else if d.origin == '-' || d.origin == '>' {
        LineTone::Removed
    } else {
        LineTone::Context
    };
    DiffLine {
        origin: origin_human(d.origin),
        old_lineno: number_string(d.old_lineno),
        new_lineno: number_string(d.new_lineno),
        text,
        tone,
    }
}

/// The display form of a hunk header.
pub fn header_str(header: &[u8]) -> (r: String)
    ensures
        r@ == header_text(header@),
{
    match decode(header) {
        Some(s) => trim_of(s),
        None => String::from_str(UNKNOWN_TEXT),
    }
}

/// The display form of one hunk.
pub fn render_hunk(h: &HunkData) -> (r: DiffHunk)
    ensures
        shows_hunk(r, *h),
{
    let mut lines: Vec<DiffLine> = Vec::new();
    let mut i: usize = 0;
    while i < h.lines.len()
        invariant
            i <= h.lines@.len(),
            lines@.len() == i,
            forall|m: int| 0 <= m < i ==> shows_line(#[trigger] lines@[m], h.lines@[m]),
        decreases h.lines@.len() - i,
    {
        lines.push(render_line(&h.lines[i]));
        i += 1;
    }
    DiffHunk { header: header_str(h.header.as_slice()), lines }
}

/// The display form of one file's diff, computed when the view asks for that file.
pub fn render_file(path: &str, hunks: &Vec<HunkData>) -> (r: FileDiff)
    ensures
        r.path@ == path@,
        r.hunks@.len() == hunks@.len(),
        forall|k: int| 0 <= k < hunks@.len() ==> shows_hunk(#[trigger] r.hunks@[k], hunks@[k]),
{
    let mut out: Vec<DiffHunk> = Vec::new();
    let mut i: usize = 0;
    while i < hunks.len()
        invariant
            i <= hunks@.len(),
            out@.len() == i,
            forall|k: int| 0 <= k < i ==> shows_hunk(#[trigger] out@[k], hunks@[k]),
        decreases hunks@.len() - i,
    {
        out.push(render_hunk(&hunks[i]));
        i += 1;
    }
    FileDiff { path: String::from_str(path), hunks: out }
}


/// Where a diff comes from, which decides what its hunks offer.
#[derive(Clone, Copy, Debug, PartialEq, Eq)]
pub enum DiffContext {
    Committed,
    Staged,
    Working,
}

/// What a hunk's button offers for the current line selection.
#[derive(Clone, Copy, Debug, PartialEq, Eq)]
pub enum ChunkAction {
    RevertSelectedLines,
    UnstageSelectedLines,
    StageSelectedLines,
    RevertAllLines,
    UnstageAllLines,
    StageAllLines,
    IncontiguousSelection,
}

/// Whether each selected row follows the one before it.
pub open spec fn contiguous(rows: Seq<usize>) -> bool {
    forall|k: int| 0 <= k < rows.len() - 1 ==> #[trigger] rows[k + 1] == rows[k] + 1
}

/// With no row selected, the whole hunk; with a contiguous run, those rows; otherwise
/// nothing can be offered. Committed hunks revert, staged ones unstage, working ones stage.
pub open spec fn action_for(context: DiffContext, rows: Seq<usize>) -> ChunkAction {
    if rows.len() == 0 {
        match context {
            DiffContext::Committed => ChunkAction::RevertAllLines,
            DiffContext::Staged => ChunkAction::UnstageAllLines,
            DiffContext::Working => ChunkAction::StageAllLines,
        }
    } else if contiguous(rows) {
        match context {
            DiffContext::Committed => ChunkAction::RevertSelectedLines,
            DiffContext::Staged => ChunkAction::UnstageSelectedLines,
            DiffContext::Working => ChunkAction::StageSelectedLines,
        }
    } else {
        ChunkAction::IncontiguousSelection
    }
}

fn is_contiguous(rows: &Vec<usize>) -> (r: bool)
    ensures
        r == contiguous(rows@),
{
    let mut k: usize = 1;
    while k < rows.len()
        invariant
            1 <= k,
            rows@.len() == 0 || k <= rows@.len(),
            forall|t: int| 0 <= t < k - 1 && t < rows@.len() - 1 ==> #[trigger] rows@[t + 1] == rows@[t] + 1,
        decreases rows@.len() - k,
    {
        if rows[k - 1] >= usize::MAX || rows[k] != rows[k - 1] + 1 {
            assert(rows@[(k - 1) as int + 1] != rows@[k - 1] + 1);
            return false;
        }
        k += 1;
    }
    true
}

/// The action for the selected rows of a hunk.
pub fn handle_on_selected_lines(context: DiffContext, rows: &Vec<usize>) -> (r: ChunkAction)
    ensures
        r == action_for(context, rows@),
{
    let has_selection = rows.len() > 0;
    let is_contiguous = is_contiguous(rows);
    if has_selection && is_contiguous {
        match context {
            DiffContext::Committed => ChunkAction::RevertSelectedLines,
            DiffContext::Staged => ChunkAction::UnstageSelectedLines,
            DiffContext::Working => ChunkAction::StageSelectedLines,
        }
    } else if !has_selection {
        match context {
            DiffContext::Committed => ChunkAction::RevertAllLines,
            DiffContext::Staged => ChunkAction::UnstageAllLines,
            DiffContext::Working => ChunkAction::StageAllLines,
        }
    } else {
        ChunkAction::IncontiguousSelection
    }
}

/// The button text for each action.
pub open spec fn action_label(a: ChunkAction) -> Seq<char> {
    match a {
        ChunkAction::RevertSelectedLines => "Revert Selected Lines"@,
        ChunkAction::UnstageSelectedLines => "Unstage Selected Lines"@,
        ChunkAction::StageSelectedLines => "Stage Selected Lines"@,
        ChunkAction::RevertAllLines => "Revert All Lines"@,
        ChunkAction::UnstageAllLines => "Unstage All Lines"@,
        ChunkAction::StageAllLines => "Stage All Lines"@,
        ChunkAction::IncontiguousSelection => "Incontiguous selection"@,
    }
}

impl ChunkAction {
    /// The button text.
    pub fn label(&self) -> (r: &'static str)
        ensures
            r@ == action_label(*self),
    {
        match self {
            ChunkAction::RevertSelectedLines => "Revert Selected Lines",
            ChunkAction::UnstageSelectedLines => "Unstage Selected Lines",
            ChunkAction::StageSelectedLines => "Stage Selected Lines",
            ChunkAction::RevertAllLines => "Revert All Lines",
            ChunkAction::UnstageAllLines => "Unstage All Lines",
            ChunkAction::StageAllLines => "Stage All Lines",
            ChunkAction::IncontiguousSelection => "Incontiguous selection",
        }
    }

    /// Whether the button can be pressed: every action but the refusal of a broken selection.
    pub fn is_enabled(&self) -> (r: bool)
        ensures
            r == (*self != ChunkAction::IncontiguousSelection),
    {
        match self {
            ChunkAction::IncontiguousSelection => false,
            _ => true,
        }
    }
}

} // verus!
