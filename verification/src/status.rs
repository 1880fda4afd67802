//! The status-report parser: data model, per-field decoding, and error
//! policy for the machine-readable report printed by `git status` with the
//! long format, branch-tracking header lines, and ignored-file reporting.
//!
//! The parser is a pure text-to-structure transform. It splits the captured
//! text into physical lines, classifies each line by its first character (the
//! record marker), and routes it to one of five record decoders: branch-info
//! headers, ordinary change entries, rename/copy entries, unmerged entries,
//! and untracked/ignored paths. Any structural violation aborts the whole
//! parse with a [`MalformedLine`] carrying the offending line.
//!
//! The whole decoding is specified by the `spec_` functions over sequences of
//! characters; every executable function is proved to agree with them.

use vstd::prelude::*;
use vstd::string::StrSliceExecFns;

use crate::scan::after_tok;
use crate::scan::all_digits;
use crate::scan::digits_val;
use crate::scan::parse_uint;
use crate::scan::scan_line_break;
use crate::scan::scan_token;
use crate::scan::spec_lines;
use crate::scan::spec_lines_from;
use crate::scan::str_eq;
use crate::scan::string_views;
use crate::scan::tok_end;

verus! {

// ---------------------------------------------------------------------------
// The mathematical model

/// The mathematical content of one merge stage of an unmerged entry.
pub ghost struct StageView {
    pub object_id: Seq<char>,
    pub mode: Seq<char>,
}

/// The mathematical content of an [`Entry`].
pub ghost struct EntryView {
    pub format: char,
    pub index_status: char,
    pub worktree_status: char,
    pub is_submodule: bool,
    pub sub_commit_changed: bool,
    pub sub_tracked_changes: bool,
    pub sub_untracked_changes: bool,
    pub mode_head: Seq<char>,
    pub mode_index: Seq<char>,
    pub mode_worktree: Seq<char>,
    pub object_id_head: Seq<char>,
    pub object_id_index: Seq<char>,
    pub path: Seq<char>,
    pub rename_or_copy_marker: char,
    pub similarity_score: u8,
    pub original_path: Seq<char>,
    pub stage1: StageView,
    pub stage2: StageView,
    pub stage3: StageView,
}

/// The mathematical content of a [`Status`].
pub ghost struct StatusView {
    pub branch_oid: Seq<char>,
    pub branch_head: Seq<char>,
    pub upstream_name: Seq<char>,
    pub upstream_behind: u32,
    pub upstream_ahead: u32,
    pub changed: Seq<EntryView>,
    pub renamed: Seq<EntryView>,
    pub unmerged: Seq<EntryView>,
    pub untracked: Seq<Seq<char>>,
    pub ignored: Seq<Seq<char>>,
}

/// The mathematical content of a [`MalformedLine`] error.
pub ghost struct MalformedLineView {
    pub raw_line: Seq<char>,
    pub reason: Seq<char>,
}

/// An empty merge stage.
pub open spec fn spec_stage_default() -> StageView {
    StageView { object_id: Seq::<char>::empty(), mode: Seq::<char>::empty() }
}

/// An entry with every field at its defined default: NUL status characters,
/// cleared flags, and empty strings.
pub open spec fn spec_entry_default() -> EntryView {
    EntryView {
        format: '\u{0}',
        index_status: '\u{0}',
        worktree_status: '\u{0}',
        is_submodule: false,
        sub_commit_changed: false,
        sub_tracked_changes: false,
        sub_untracked_changes: false,
        mode_head: Seq::<char>::empty(),
        mode_index: Seq::<char>::empty(),
        mode_worktree: Seq::<char>::empty(),
        object_id_head: Seq::<char>::empty(),
        object_id_index: Seq::<char>::empty(),
        path: Seq::<char>::empty(),
        rename_or_copy_marker: '\u{0}',
        similarity_score: 0,
        original_path: Seq::<char>::empty(),
        stage1: spec_stage_default(),
        stage2: spec_stage_default(),
        stage3: spec_stage_default(),
    }
}

/// The all-defaults empty report.
pub open spec fn spec_status_default() -> StatusView {
    StatusView {
        branch_oid: Seq::<char>::empty(),
        branch_head: Seq::<char>::empty(),
        upstream_name: Seq::<char>::empty(),
        upstream_behind: 0,
        upstream_ahead: 0,
        changed: Seq::<EntryView>::empty(),
        renamed: Seq::<EntryView>::empty(),
        unmerged: Seq::<EntryView>::empty(),
        untracked: Seq::<Seq<char>>::empty(),
        ignored: Seq::<Seq<char>>::empty(),
    }
}

// ---------------------------------------------------------------------------
// The record decoders, as functions over sequences of characters.
//
// The entry markers `1`, `2` and `u` share a fixed-width prefix: the marker,
// a space, the two status characters, a space, the four submodule-flag
// characters, and a space. Six-character mode fields follow, each ended by a
// space; then whitespace-delimited object ids; the path fields close the
// line. A fixed-width field that is cut short, or not followed by its
// separating space, makes the line malformed.

/// Decode an ordinary changed entry, marker `1`. The caller has checked the
/// marker and its separating space.
pub open spec fn spec_decode_ordinary(line: Seq<char>) -> Result<EntryView, Seq<char>> {
    let n = line.len() as int;
    if n < 5 || line[4] != ' ' {
        Err("bad entry format"@)
    } else if n < 10 || line[9] != ' ' {
        Err("bad entry format"@)
    } else if n < 17 || line[16] != ' ' {
        Err("bad entry format"@)
    } else if n < 24 || line[23] != ' ' {
        Err("bad entry format"@)
    } else if n < 31 || line[30] != ' ' {
        Err("bad entry format"@)
    } else {
        let oh_end = tok_end(line, 31);
        let p = after_tok(line, 31);
        let oi_end = tok_end(line, p);
        let q = after_tok(line, p);
        Ok(EntryView {
            format: '1',
            index_status: line[2],
            worktree_status: line[3],
            is_submodule: line[5] == 'S',
            sub_commit_changed: line[6] == 'C',
            sub_tracked_changes: line[7] == 'M',
            sub_untracked_changes: line[8] == 'U',
            mode_head: line.subrange(10, 16),
            mode_index: line.subrange(17, 23),
            mode_worktree: line.subrange(24, 30),
            object_id_head: line.subrange(31, oh_end),
            object_id_index: line.subrange(p, oi_end),
            path: line.subrange(q, n),
            ..spec_entry_default()
        })
    }
}

/// Decode a rename/copy entry, marker `2`: as an ordinary entry through the
/// two object ids, then the rename/copy marker character directly followed by
/// the decimal similarity score, the target path ended by whitespace, and the
/// original path as the verbatim remainder.
pub open spec fn spec_decode_rename(line: Seq<char>) -> Result<EntryView, Seq<char>> {
    let n = line.len() as int;
    if n < 5 || line[4] != ' ' {
        Err("bad entry format"@)
    } else if n < 10 || line[9] != ' ' {
        Err("bad entry format"@)
    } else if n < 17 || line[16] != ' ' {
        Err("bad entry format"@)
    } else if n < 24 || line[23] != ' ' {
        Err("bad entry format"@)
    } else if n < 31 || line[30] != ' ' {
        Err("bad entry format"@)
    } else {
        let oh_end = tok_end(line, 31);
        let p = after_tok(line, 31);
        let oi_end = tok_end(line, p);
        let q = after_tok(line, p);
        if q >= n {
            Err("bad entry format"@)
        } else {
            let sc_end = tok_end(line, q + 1);
            let sc = line.subrange(q + 1, sc_end);
            if sc.len() == 0 || !all_digits(sc) || digits_val(sc) > 255 {
                Err("bad entry format"@)
            } else {
                let p2 = after_tok(line, q + 1);
                let tp_end = tok_end(line, p2);
                let p3 = after_tok(line, p2);
                Ok(EntryView {
                    format: '2',
                    index_status: line[2],
                    worktree_status: line[3],
                    is_submodule: line[5] == 'S',
                    sub_commit_changed: line[6] == 'C',
                    sub_tracked_changes: line[7] == 'M',
                    sub_untracked_changes: line[8] == 'U',
                    mode_head: line.subrange(10, 16),
                    mode_index: line.subrange(17, 23),
                    mode_worktree: line.subrange(24, 30),
                    object_id_head: line.subrange(31, oh_end),
                    object_id_index: line.subrange(p, oi_end),
                    rename_or_copy_marker: line[q],
                    similarity_score: digits_val(sc) as u8,
                    path: line.subrange(p2, tp_end),
                    original_path: line.subrange(p3, n),
                    ..spec_entry_default()
                })
            }
        }
    }
}

/// Decode an unmerged entry, marker `u`: as an ordinary entry through the
/// submodule flags, then the three stage modes and the worktree mode, the
/// three stage object ids, and the path as the verbatim remainder. No single
/// HEAD/index mode or object id applies: those fields keep their defaults.
pub open spec fn spec_decode_unmerged(line: Seq<char>) -> Result<EntryView, Seq<char>> {
    let n = line.len() as int;
    if n < 5 || line[4] != ' ' {
        Err("bad entry format"@)
    } else if n < 10 || line[9] != ' ' {
        Err("bad entry format"@)
    } else if n < 17 || line[16] != ' ' {
        Err("bad entry format"@)
    } else if n < 24 || line[23] != ' ' {
        Err("bad entry format"@)
    } else if n < 31 || line[30] != ' ' {
        Err("bad entry format"@)
    } else if n < 38 || line[37] != ' ' {
        Err("bad entry format"@)
    } else {
        let h1_end = tok_end(line, 38);
        let p1 = after_tok(line, 38);
        let h2_end = tok_end(line, p1);
        let p2 = after_tok(line, p1);
        let h3_end = tok_end(line, p2);
        let p3 = after_tok(line, p2);
        Ok(EntryView {
            format: 'u',
            index_status: line[2],
            worktree_status: line[3],
            is_submodule: line[5] == 'S',
            sub_commit_changed: line[6] == 'C',
            sub_tracked_changes: line[7] == 'M',
            sub_untracked_changes: line[8] == 'U',
            mode_worktree: line.subrange(31, 37),
            stage1: StageView { object_id: line.subrange(38, h1_end), mode: line.subrange(10, 16) },
            stage2: StageView { object_id: line.subrange(p1, h2_end), mode: line.subrange(17, 23) },
            stage3: StageView { object_id: line.subrange(p2, h3_end), mode: line.subrange(24, 30) },
            path: line.subrange(p3, n),
            ..spec_entry_default()
        })
    }
}

/// Decode one entry line by its record marker.
pub open spec fn spec_decode_entry(line: Seq<char>) -> Result<EntryView, Seq<char>> {
    if line.len() < 2 {
        Err("bad entry format"@)
    } else if line[0] == '1' {
        if line[1] != ' ' {
            Err("bad entry format"@)
        } else {
            spec_decode_ordinary(line)
        }
    } else if line[0] == '2' {
        if line[1] != ' ' {
            Err("bad entry format"@)
        } else {
            spec_decode_rename(line)
        }
    } else if line[0] == 'u' {
        if line[1] != ' ' {
            Err("bad entry format"@)
        } else {
            spec_decode_unmerged(line)
        }
    } else if line[0] == '?' || line[0] == '!' {
        if line[1] != ' ' {
            Err("bad entry format"@)
        } else {
            Ok(EntryView {
                format: line[0],
                path: line.subrange(2, line.len() as int),
                ..spec_entry_default()
            })
        }
    } else {
        Err("unknown entry format identifier (should be one of: 1 2 u ? !)"@)
    }
}

/// Decode the ahead/behind counts of a `branch.ab` header: from position `p`
/// the remaining text must be exactly `+<uint> -<uint>`, the `+` number the
/// ahead count and the `-` number the behind count.
pub open spec fn spec_decode_ab(sv: StatusView, line: Seq<char>, p: int) -> Result<
    StatusView,
    Seq<char>,
> {
    let n = line.len() as int;
    if p >= n || line[p] != '+' {
        Err("bad status format"@)
    } else {
        let a_end = tok_end(line, p + 1);
        let ahead = line.subrange(p + 1, a_end);
        if ahead.len() == 0 || !all_digits(ahead) || digits_val(ahead) > u32::MAX {
            Err("bad status format"@)
        } else if a_end >= n || line[a_end] != ' ' {
            Err("bad status format"@)
        } else if a_end + 1 >= n || line[a_end + 1] != '-' {
            Err("bad status format"@)
        } else {
            let b_end = tok_end(line, a_end + 2);
            let behind = line.subrange(a_end + 2, b_end);
            if b_end != n || behind.len() == 0 || !all_digits(behind) || digits_val(behind)
                > u32::MAX {
                Err("bad status format"@)
            } else {
                Ok(StatusView {
                    upstream_ahead: digits_val(ahead) as u32,
                    upstream_behind: digits_val(behind) as u32,
                    ..sv
                })
            }
        }
    }
}

/// Decode a `#` header line: the token after the marker names the sub-kind,
/// and the fields it sets take the following whitespace-delimited token.
pub open spec fn spec_decode_header(sv: StatusView, line: Seq<char>) -> Result<
    StatusView,
    Seq<char>,
> {
    let n = line.len() as int;
    if n < 2 || line[1] != ' ' {
        Err("bad status format"@)
    } else {
        let info = line.subrange(2, tok_end(line, 2));
        let p = after_tok(line, 2);
        if info == "branch.oid"@ {
            Ok(StatusView { branch_oid: line.subrange(p, tok_end(line, p)), ..sv })
        } else if info == "branch.head"@ {
            Ok(StatusView { branch_head: line.subrange(p, tok_end(line, p)), ..sv })
        } else if info == "branch.upstream"@ {
            Ok(StatusView { upstream_name: line.subrange(p, tok_end(line, p)), ..sv })
        } else if info == "branch.ab"@ {
            spec_decode_ab(sv, line, p)
        } else {
            Err("unknown branch info"@)
        }
    }
}

/// The record markers the report parser recognises.
pub open spec fn known_marker(c: char) -> bool {
    c == '#' || c == '1' || c == '2' || c == 'u' || c == '?' || c == '!'
}

/// Apply one physical line to the report built so far: an empty line is
/// skipped, otherwise the first character picks the record decoder, and an
/// unrecognised marker makes the line malformed.
pub open spec fn spec_apply_line(sv: StatusView, line: Seq<char>) -> Result<
    StatusView,
    Seq<char>,
> {
    if line.len() == 0 {
        Ok(sv)
    } else if line[0] == '#' {
        spec_decode_header(sv, line)
    } else if line[0] == '1' {
        match spec_decode_entry(line) {
            Ok(e) => Ok(StatusView { changed: sv.changed.push(e), ..sv }),
            Err(r) => Err(r),
        }
    } else if line[0] == '2' {
        match spec_decode_entry(line) {
            Ok(e) => Ok(StatusView { renamed: sv.renamed.push(e), ..sv }),
            Err(r) => Err(r),
        }
    } else if line[0] == 'u' {
        match spec_decode_entry(line) {
            Ok(e) => Ok(StatusView { unmerged: sv.unmerged.push(e), ..sv }),
            Err(r) => Err(r),
        }
    } else if line[0] == '?' {
        if line.len() < 2 || line[1] != ' ' {
            Err("bad status format"@)
        } else {
            Ok(StatusView {
                untracked: sv.untracked.push(line.subrange(2, line.len() as int)),
                ..sv
            })
        }
    } else if line[0] == '!' {
        if line.len() < 2 || line[1] != ' ' {
            Err("bad status format"@)
        } else {
            Ok(StatusView { ignored: sv.ignored.push(line.subrange(2, line.len() as int)), ..sv })
        }
    } else {
        Err("unknown line prefix"@)
    }
}

/// Fold the lines of a report, starting from the accumulator `sv`. The first
/// malformed line aborts the whole parse and is carried in the error.
pub open spec fn spec_parse_from(sv: StatusView, lines: Seq<Seq<char>>) -> Result<
    StatusView,
    MalformedLineView,
>
    decreases lines.len(),
{
    if lines.len() == 0 {
        Ok(sv)
    } else {
        match spec_apply_line(sv, lines[0]) {
            Ok(sv2) => spec_parse_from(sv2, lines.drop_first()),
            Err(reason) => Err(MalformedLineView { raw_line: lines[0], reason }),
        }
    }
}

/// What parsing a whole captured status text yields: the report built from
/// all its lines, or the first malformed line.
pub open spec fn spec_parse(text: Seq<char>) -> Result<StatusView, MalformedLineView> {
    spec_parse_from(spec_status_default(), spec_lines(text))
}

// ---------------------------------------------------------------------------
// The data types

/// One merge stage of an unmerged entry: an object id and a six-character
/// octal file mode.
#[derive(Clone, Debug, Default, PartialEq, Eq, Hash)]
pub struct Stage {
    pub object_id: String,
    pub mode: String,
}

impl View for Stage {
    type V = StageView;

    closed spec fn view(&self) -> StageView {
        StageView { object_id: self.object_id@, mode: self.mode@ }
    }
}

/// A single entry from a status report.
///
/// The record kind is given by [`format`](Self::format); the fields that the
/// kind leaves unused keep their defaults: NUL characters, cleared flags,
/// empty strings.
#[derive(Clone, Debug, Default, PartialEq, Eq, Hash)]
pub struct Entry {
    /// Leading format identifier: the record marker of the decoded line.
    pub format: char,
    index_status: char,
    worktree_status: char,
    is_submodule: bool,
    sub_commit_changed: bool,
    sub_tracked_changes: bool,
    sub_untracked_changes: bool,
    mode_head: String,
    mode_index: String,
    mode_worktree: String,
    object_id_head: String,
    object_id_index: String,
    path: String,
    rename_or_copy_marker: char,
    similarity_score: u8,
    original_path: String,
    /// First merge stage (only unmerged entries).
    pub stage1: Stage,
    /// Second merge stage (only unmerged entries).
    pub stage2: Stage,
    /// Third merge stage (only unmerged entries).
    pub stage3: Stage,
}

impl View for Entry {
    type V = EntryView;

    closed spec fn view(&self) -> EntryView {
        EntryView {
            format: self.format,
            index_status: self.index_status,
            worktree_status: self.worktree_status,
            is_submodule: self.is_submodule,
            sub_commit_changed: self.sub_commit_changed,
            sub_tracked_changes: self.sub_tracked_changes,
            sub_untracked_changes: self.sub_untracked_changes,
            mode_head: self.mode_head@,
            mode_index: self.mode_index@,
            mode_worktree: self.mode_worktree@,
            object_id_head: self.object_id_head@,
            object_id_index: self.object_id_index@,
            path: self.path@,
            rename_or_copy_marker: self.rename_or_copy_marker,
            similarity_score: self.similarity_score,
            original_path: self.original_path@,
            stage1: self.stage1@,
            stage2: self.stage2@,
            stage3: self.stage3@,
        }
    }
}

/// The sequence of views of a list of entries.
pub open spec fn entry_views(l: Seq<Entry>) -> Seq<EntryView> {
    l.map_values(|e: Entry| e@)
}

/// Git status data: the parsed result of one status invocation.
#[derive(Clone, Debug, Default, PartialEq, Eq, Hash)]
pub struct Status {
    branch_oid: String,
    branch_head: String,
    upstream_name: String,
    upstream_behind: u32,
    upstream_ahead: u32,
    /// Ordinary changed entries, in report order.
    pub changed: Vec<Entry>,
    /// Renamed/copied entries, in report order.
    pub renamed: Vec<Entry>,
    /// Unmerged entries, in report order.
    pub unmerged: Vec<Entry>,
    /// Untracked paths, in report order.
    pub untracked: Vec<String>,
    /// Ignored paths, in report order.
    pub ignored: Vec<String>,
}

impl View for Status {
    type V = StatusView;

    closed spec fn view(&self) -> StatusView {
        StatusView {
            branch_oid: self.branch_oid@,
            branch_head: self.branch_head@,
            upstream_name: self.upstream_name@,
            upstream_behind: self.upstream_behind,
            upstream_ahead: self.upstream_ahead,
            changed: entry_views(self.changed@),
            renamed: entry_views(self.renamed@),
            unmerged: entry_views(self.unmerged@),
            untracked: string_views(self.untracked@),
            ignored: string_views(self.ignored@),
        }
    }
}

/// The parse error: a structurally invalid report line, carried verbatim,
/// with the reason it was rejected.
#[derive(Clone, Debug, PartialEq, Eq)]
pub struct MalformedLine {
    /// The offending line, verbatim.
    pub raw_line: String,
    /// Why the line was rejected.
    pub reason: String,
}

impl View for MalformedLine {
    type V = MalformedLineView;

    closed spec fn view(&self) -> MalformedLineView {
        MalformedLineView { raw_line: self.raw_line@, reason: self.reason@ }
    }
}

// ---------------------------------------------------------------------------
// Accessors

impl StatusView {
    /// The upstream branch name, when one is configured: the upstream name
    /// field is empty exactly when no upstream was reported.
    pub open spec fn spec_upstream_branch(self) -> Option<Seq<char>> {
        if self.upstream_name.len() > 0 {
            Some(self.upstream_name)
        } else {
            None
        }
    }

    /// The behind count, present exactly when an upstream is configured.
    pub open spec fn spec_upstream_behind(self) -> Option<u32> {
        if self.upstream_name.len() > 0 {
            Some(self.upstream_behind)
        } else {
            None
        }
    }

    /// The ahead count, present exactly when an upstream is configured.
    pub open spec fn spec_upstream_ahead(self) -> Option<u32> {
        if self.upstream_name.len() > 0 {
            Some(self.upstream_ahead)
        } else {
            None
        }
    }
}

impl Status {
    /// Return an empty status: every field at its default.
    pub fn new() -> (r: Status)
        ensures
            r@ == spec_status_default(),
    {
        let r = Status {
            branch_oid: String::new(),
            branch_head: String::new(),
            upstream_name: String::new(),
            upstream_behind: 0,
            upstream_ahead: 0,
            changed: Vec::new(),
            renamed: Vec::new(),
            unmerged: Vec::new(),
            untracked: Vec::new(),
            ignored: Vec::new(),
        };
        proof {
            assert(r@.changed =~= Seq::<EntryView>::empty());
            assert(r@.renamed =~= Seq::<EntryView>::empty());
            assert(r@.unmerged =~= Seq::<EntryView>::empty());
            assert(r@.untracked =~= Seq::<Seq<char>>::empty());
            assert(r@.ignored =~= Seq::<Seq<char>>::empty());
        }
        r
    }

    /// Object id (oid) of the current commit; empty if unborn.
    pub fn branch_oid(&self) -> (r: &str)
        ensures
            r@ == self@.branch_oid,
    {
        self.branch_oid.as_str()
    }

    /// Head of the current branch (or a detached-HEAD marker).
    pub fn branch_head(&self) -> (r: &str)
        ensures
            r@ == self@.branch_head,
    {
        self.branch_head.as_str()
    }

    /// Upstream branch, if set.
    pub fn upstream_branch(&self) -> (r: Option<&str>)
        ensures
            match r {
                Some(s) => self@.spec_upstream_branch() == Some(s@),
                None => self@.spec_upstream_branch() is None,
            },
    {
        if !self.upstream_name.as_str().is_empty() {
            Some(self.upstream_name.as_str())
        } else {
            None
        }
    }

    /// Number of commits the upstream is behind, if an upstream is set.
    pub fn upstream_behind(&self) -> (r: Option<u32>)
        ensures
            r == self@.spec_upstream_behind(),
    {
        if !self.upstream_name.as_str().is_empty() {
            Some(self.upstream_behind)
        } else {
            None
        }
    }

    /// Number of commits the upstream is ahead, if an upstream is set.
    pub fn upstream_ahead(&self) -> (r: Option<u32>)
        ensures
            r == self@.spec_upstream_ahead(),
    {
        if !self.upstream_name.as_str().is_empty() {
            Some(self.upstream_ahead)
        } else {
            None
        }
    }
}

impl Entry {
    /// Return an empty entry: every field at its default.
    pub fn new() -> (r: Entry)
        ensures
            r@ == spec_entry_default(),
    {
        Entry {
            format: '\u{0}',
            index_status: '\u{0}',
            worktree_status: '\u{0}',
            is_submodule: false,
            sub_commit_changed: false,
            sub_tracked_changes: false,
            sub_untracked_changes: false,
            mode_head: String::new(),
            mode_index: String::new(),
            mode_worktree: String::new(),
            object_id_head: String::new(),
            object_id_index: String::new(),
            path: String::new(),
            rename_or_copy_marker: '\u{0}',
            similarity_score: 0,
            original_path: String::new(),
            stage1: Stage { object_id: String::new(), mode: String::new() },
            stage2: Stage { object_id: String::new(), mode: String::new() },
            stage3: Stage { object_id: String::new(), mode: String::new() },
        }
    }

    /// Returns true if it's a changed entry.
    pub fn is_changed(&self) -> (r: bool)
        ensures
            r == (self@.format == '1'),
    {
        self.format == '1'
    }

    /// Returns true if it's a renamed entry.
    pub fn is_renamed(&self) -> (r: bool)
        ensures
            r == (self@.format == '2' && self@.rename_or_copy_marker == 'R'),
    {
        self.format == '2' && self.rename_or_copy_marker == 'R'
    }

    /// Returns true if it's a copied entry.
    pub fn is_copied(&self) -> (r: bool)
        ensures
            r == (self@.format == '2' && self@.rename_or_copy_marker == 'C'),
    {
        self.format == '2' && self.rename_or_copy_marker == 'C'
    }

    /// Returns true if it's an unmerged entry.
    pub fn is_unmerged(&self) -> (r: bool)
        ensures
            r == (self@.format == 'u'),
    {
        self.format == 'u'
    }

    /// Returns true if it's an untracked entry.
    pub fn is_untracked(&self) -> (r: bool)
        ensures
            r == (self@.format == '?'),
    {
        self.format == '?'
    }

    /// Returns true if it's an ignored entry.
    pub fn is_ignored(&self) -> (r: bool)
        ensures
            r == (self@.format == '!'),
    {
        self.format == '!'
    }

    /// Return the modified state of the index and work tree, respectively.
    ///
    /// * `.` : unmodified
    /// * `M` : modified
    /// * `A` : added
    /// * `D` : deleted
    /// * `R` : renamed
    /// * `C` : copied
    /// * `U` : updated but unmerged
    pub fn modified_state(&self) -> (r: (char, char))
        ensures
            r.0 == self@.index_status,
            r.1 == self@.worktree_status,
    {
        (self.index_status, self.worktree_status)
    }

    /// Return true if the entry is a submodule.
    pub fn is_submodule(&self) -> (r: bool)
        ensures
            r == self@.is_submodule,
    {
        self.is_submodule
    }

    /// Return true if the submodule commit changed.
    pub fn sub_commit_changed(&self) -> (r: bool)
        ensures
            r == self@.sub_commit_changed,
    {
        self.sub_commit_changed
    }

    /// Return true if the submodule has tracked changes.
    pub fn sub_tracked_changes(&self) -> (r: bool)
        ensures
            r == self@.sub_tracked_changes,
    {
        self.sub_tracked_changes
    }

    /// Return true if the submodule has untracked changes.
    pub fn sub_untracked_changes(&self) -> (r: bool)
        ensures
            r == self@.sub_untracked_changes,
    {
        self.sub_untracked_changes
    }

    /// Six-character octal file mode in HEAD.
    pub fn file_mode_head(&self) -> (r: &str)
        ensures
            r@ == self@.mode_head,
    {
        self.mode_head.as_str()
    }

    /// Six-character octal file mode in the index.
    pub fn file_mode_index(&self) -> (r: &str)
        ensures
            r@ == self@.mode_index,
    {
        self.mode_index.as_str()
    }

    /// Six-character octal file mode in the worktree.
    pub fn file_mode_worktree(&self) -> (r: &str)
        ensures
            r@ == self@.mode_worktree,
    {
        self.mode_worktree.as_str()
    }

    /// Object name (oid) in HEAD.
    pub fn object_name_head(&self) -> (r: &str)
        ensures
            r@ == self@.object_id_head,
    {
        self.object_id_head.as_str()
    }

    /// Object name (oid) in the index.
    pub fn object_name_index(&self) -> (r: &str)
        ensures
            r@ == self@.object_id_index,
    {
        self.object_id_index.as_str()
    }

    /// Pathname. In a renamed/copied entry, this is the target path.
    pub fn pathname(&self) -> (r: &str)
        ensures
            r@ == self@.path,
    {
        self.path.as_str()
    }

    /// Return the score denoting the percentage of similarity between the
    /// source and target of the move or copy.
    ///
    /// If the entry is not renamed/copied this value should be ignored.
    pub fn score(&self) -> (r: u8)
        ensures
            r == self@.similarity_score,
    {
        self.similarity_score
    }

    /// The pathname in the commit at HEAD or in the index.
    ///
    /// If the entry is not renamed/copied this value should be ignored.
    pub fn orig_path(&self) -> (r: &str)
        ensures
            r@ == self@.original_path,
    {
        self.original_path.as_str()
    }
}

// ---------------------------------------------------------------------------
// The executable decoders

/// Build the error value for a rejected line.
fn malformed(line: &str, reason: &str) -> (m: MalformedLine)
    ensures
        m@ == (MalformedLineView { raw_line: line@, reason: reason@ }),
{
    MalformedLine { raw_line: line.to_owned(), reason: reason.to_owned() }
}

/// Decode an ordinary changed entry line, marker `1`.
fn decode_ordinary(line: &str, n: usize) -> (r: Result<Entry, MalformedLine>)
    requires
        n == line@.len(),
    ensures
        match r {
            Ok(e) => spec_decode_ordinary(line@) == Ok::<EntryView, Seq<char>>(e@),
            Err(m) => m@.raw_line == line@ && spec_decode_ordinary(line@) == Err::<
                EntryView,
                Seq<char>,
            >(m@.reason),
        },
{
    if n < 5 || line.get_char(4) != ' ' {
        return Err(malformed(line, "bad entry format"));
    }
    if n < 10 || line.get_char(9) != ' ' {
        return Err(malformed(line, "bad entry format"));
    }
    if n < 17 || line.get_char(16) != ' ' {
        return Err(malformed(line, "bad entry format"));
    }
    if n < 24 || line.get_char(23) != ' ' {
        return Err(malformed(line, "bad entry format"));
    }
    if n < 31 || line.get_char(30) != ' ' {
        return Err(malformed(line, "bad entry format"));
    }
    let oh_end = scan_token(line, n, 31);
    let p = if oh_end < n {
        oh_end + 1
    } else {
        n
    };
    let oi_end = scan_token(line, n, p);
    let q = if oi_end < n {
        oi_end + 1
    } else {
        n
    };
    let mut e = Entry::new();
    e.format = '1';
    e.index_status = line.get_char(2);
    e.worktree_status = line.get_char(3);
    e.is_submodule = line.get_char(5) == 'S';
    e.sub_commit_changed = line.get_char(6) == 'C';
    e.sub_tracked_changes = line.get_char(7) == 'M';
    e.sub_untracked_changes = line.get_char(8) == 'U';
    e.mode_head = line.substring_char(10, 16).to_owned();
    e.mode_index = line.substring_char(17, 23).to_owned();
    e.mode_worktree = line.substring_char(24, 30).to_owned();
    e.object_id_head = line.substring_char(31, oh_end).to_owned();
    e.object_id_index = line.substring_char(p, oi_end).to_owned();
    e.path = line.substring_char(q, n).to_owned();
    proof {
        assert(spec_decode_ordinary(line@) == Ok::<EntryView, Seq<char>>(e@));
    }
    Ok(e)
}

/// Decode a rename/copy entry line, marker `2`.
fn decode_rename(line: &str, n: usize) -> (r: Result<Entry, MalformedLine>)
    requires
        n == line@.len(),
    ensures
        match r {
            Ok(e) => spec_decode_rename(line@) == Ok::<EntryView, Seq<char>>(e@),
            Err(m) => m@.raw_line == line@ && spec_decode_rename(line@) == Err::<
                EntryView,
                Seq<char>,
            >(m@.reason),
        },
{
    if n < 5 || line.get_char(4) != ' ' {
        return Err(malformed(line, "bad entry format"));
    }
    if n < 10 || line.get_char(9) != ' ' {
        return Err(malformed(line, "bad entry format"));
    }
    if n < 17 || line.get_char(16) != ' ' {
        return Err(malformed(line, "bad entry format"));
    }
    if n < 24 || line.get_char(23) != ' ' {
        return Err(malformed(line, "bad entry format"));
    }
    if n < 31 || line.get_char(30) != ' ' {
        return Err(malformed(line, "bad entry format"));
    }
    let oh_end = scan_token(line, n, 31);
    let p = if oh_end < n {
        oh_end + 1
    } else {
        n
    };
    let oi_end = scan_token(line, n, p);
    let q = if oi_end < n {
        oi_end + 1
    } else {
        n
    };
    if q >= n {
        return Err(malformed(line, "bad entry format"));
    }
    let sc_end = scan_token(line, n, q + 1);
    let score = match parse_uint(line, n, q + 1, sc_end) {
        Some(v) => v,
        None => {
            return Err(malformed(line, "bad entry format"));
        },
    };
    if score > 255 {
        return Err(malformed(line, "bad entry format"));
    }
    let p2 = if sc_end < n {
        sc_end + 1
    } else {
        n
    };
    let tp_end = scan_token(line, n, p2);
    let p3 = if tp_end < n {
        tp_end + 1
    } else {
        n
    };
    let mut e = Entry::new();
    e.format = '2';
    e.index_status = line.get_char(2);
    e.worktree_status = line.get_char(3);
    e.is_submodule = line.get_char(5) == 'S';
    e.sub_commit_changed = line.get_char(6) == 'C';
    e.sub_tracked_changes = line.get_char(7) == 'M';
    e.sub_untracked_changes = line.get_char(8) == 'U';
    e.mode_head = line.substring_char(10, 16).to_owned();
    e.mode_index = line.substring_char(17, 23).to_owned();
    e.mode_worktree = line.substring_char(24, 30).to_owned();
    e.object_id_head = line.substring_char(31, oh_end).to_owned();
    e.object_id_index = line.substring_char(p, oi_end).to_owned();
    e.rename_or_copy_marker = line.get_char(q);
    e.similarity_score = score as u8;
    e.path = line.substring_char(p2, tp_end).to_owned();
    e.original_path = line.substring_char(p3, n).to_owned();
    proof {
        assert(spec_decode_rename(line@) == Ok::<EntryView, Seq<char>>(e@));
    }
    Ok(e)
}

/// Decode an unmerged entry line, marker `u`.
fn decode_unmerged(line: &str, n: usize) -> (r: Result<Entry, MalformedLine>)
    requires
        n == line@.len(),
    ensures
        match r {
            Ok(e) => spec_decode_unmerged(line@) == Ok::<EntryView, Seq<char>>(e@),
            Err(m) => m@.raw_line == line@ && spec_decode_unmerged(line@) == Err::<
                EntryView,
                Seq<char>,
            >(m@.reason),
        },
{
    if n < 5 || line.get_char(4) != ' ' {
        return Err(malformed(line, "bad entry format"));
    }
    if n < 10 || line.get_char(9) != ' ' {
        return Err(malformed(line, "bad entry format"));
    }
    if n < 17 || line.get_char(16) != ' ' {
        return Err(malformed(line, "bad entry format"));
    }
    if n < 24 || line.get_char(23) != ' ' {
        return Err(malformed(line, "bad entry format"));
    }
    if n < 31 || line.get_char(30) != ' ' {
        return Err(malformed(line, "bad entry format"));
    }
    if n < 38 || line.get_char(37) != ' ' {
        return Err(malformed(line, "bad entry format"));
    }
    let h1_end = scan_token(line, n, 38);
    let p1 = if h1_end < n {
        h1_end + 1
    } else {
        n
    };
    let h2_end = scan_token(line, n, p1);
    let p2 = if h2_end < n {
        h2_end + 1
    } else {
        n
    };
    let h3_end = scan_token(line, n, p2);
    let p3 = if h3_end < n {
        h3_end + 1
    } else {
        n
    };
    let mut e = Entry::new();
    e.format = 'u';
    e.index_status = line.get_char(2);
    e.worktree_status = line.get_char(3);
    e.is_submodule = line.get_char(5) == 'S';
    e.sub_commit_changed = line.get_char(6) == 'C';
    e.sub_tracked_changes = line.get_char(7) == 'M';
    e.sub_untracked_changes = line.get_char(8) == 'U';
    e.mode_worktree = line.substring_char(31, 37).to_owned();
    e.stage1 = Stage {
        object_id: line.substring_char(38, h1_end).to_owned(),
        mode: line.substring_char(10, 16).to_owned(),
    };
    e.stage2 = Stage {
        object_id: line.substring_char(p1, h2_end).to_owned(),
        mode: line.substring_char(17, 23).to_owned(),
    };
    e.stage3 = Stage {
        object_id: line.substring_char(p2, h3_end).to_owned(),
        mode: line.substring_char(24, 30).to_owned(),
    };
    e.path = line.substring_char(p3, n).to_owned();
    proof {
        assert(spec_decode_unmerged(line@) == Ok::<EntryView, Seq<char>>(e@));
    }
    Ok(e)
}

impl Entry {
    /// Parse one entry line as printed in a status report. The first
    /// character must be one of the record markers `1`, `2`, `u`, `?`, `!`,
    /// followed by one space; the rest of the line follows the record shape
    /// the marker selects.
    pub fn parse(line: &str) -> (r: Result<Entry, MalformedLine>)
        ensures
            match r {
                Ok(e) => spec_decode_entry(line@) == Ok::<EntryView, Seq<char>>(e@),
                Err(m) => m@.raw_line == line@ && spec_decode_entry(line@) == Err::<
                    EntryView,
                    Seq<char>,
                >(m@.reason),
            },
    {
        let n = line.unicode_len();
        if n < 2 {
            return Err(malformed(line, "bad entry format"));
        }
        let c0 = line.get_char(0);
        if c0 == '1' {
            if line.get_char(1) != ' ' {
                return Err(malformed(line, "bad entry format"));
            }
            decode_ordinary(line, n)
        } else if c0 == '2' {
            if line.get_char(1) != ' ' {
                return Err(malformed(line, "bad entry format"));
            }
            decode_rename(line, n)
        } else if c0 == 'u' {
            if line.get_char(1) != ' ' {
                return Err(malformed(line, "bad entry format"));
            }
            decode_unmerged(line, n)
        } else if c0 == '?' || c0 == '!' {
            if line.get_char(1) != ' ' {
                return Err(malformed(line, "bad entry format"));
            }
            let mut e = Entry::new();
            e.format = c0;
            e.path = line.substring_char(2, n).to_owned();
            Ok(e)
        } else {
            Err(malformed(line, "unknown entry format identifier (should be one of: 1 2 u ? !)"))
        }
    }
}

/// Decode the ahead/behind counts of a `branch.ab` header line, from
/// position `p` on.
fn decode_ab(st: Status, line: &str, n: usize, p: usize) -> (r: Result<Status, MalformedLine>)
    requires
        n == line@.len(),
        p <= n,
    ensures
        match r {
            Ok(s2) => spec_decode_ab(st@, line@, p as int) == Ok::<StatusView, Seq<char>>(s2@),
            Err(m) => m@.raw_line == line@ && spec_decode_ab(st@, line@, p as int) == Err::<
                StatusView,
                Seq<char>,
            >(m@.reason),
        },
{
    if p >= n || line.get_char(p) != '+' {
        return Err(malformed(line, "bad status format"));
    }
    let a_end = scan_token(line, n, p + 1);
    let ahead = match parse_uint(line, n, p + 1, a_end) {
        Some(v) => v,
        None => {
            return Err(malformed(line, "bad status format"));
        },
    };
    if a_end >= n || line.get_char(a_end) != ' ' {
        return Err(malformed(line, "bad status format"));
    }
    if a_end + 1 >= n || line.get_char(a_end + 1) != '-' {
        return Err(malformed(line, "bad status format"));
    }
    let b_end = scan_token(line, n, a_end + 2);
    let behind = match parse_uint(line, n, a_end + 2, b_end) {
        Some(v) => v,
        None => {
            return Err(malformed(line, "bad status format"));
        },
    };
    if b_end != n {
        return Err(malformed(line, "bad status format"));
    }
    let mut st = st;
    st.upstream_ahead = ahead;
    st.upstream_behind = behind;
    Ok(st)
}

/// Decode a `#` header line into the branch and upstream fields.
fn decode_header(st: Status, line: &str, n: usize) -> (r: Result<Status, MalformedLine>)
    requires
        n == line@.len(),
    ensures
        match r {
            Ok(s2) => spec_decode_header(st@, line@) == Ok::<StatusView, Seq<char>>(s2@),
            Err(m) => m@.raw_line == line@ && spec_decode_header(st@, line@) == Err::<
                StatusView,
                Seq<char>,
            >(m@.reason),
        },
{
    if n < 2 || line.get_char(1) != ' ' {
        return Err(malformed(line, "bad status format"));
    }
    let ie = scan_token(line, n, 2);
    let p = if ie < n {
        ie + 1
    } else {
        n
    };
    let info = line.substring_char(2, ie);
    if str_eq(info, "branch.oid") {
        let ve = scan_token(line, n, p);
        let mut st = st;
        st.branch_oid = line.substring_char(p, ve).to_owned();
        Ok(st)
    } else if str_eq(info, "branch.head") {
        let ve = scan_token(line, n, p);
        let mut st = st;
        st.branch_head = line.substring_char(p, ve).to_owned();
        Ok(st)
    } else if str_eq(info, "branch.upstream") {
        let ve = scan_token(line, n, p);
        let mut st = st;
        st.upstream_name = line.substring_char(p, ve).to_owned();
        Ok(st)
    } else if str_eq(info, "branch.ab") {
        decode_ab(st, line, n, p)
    } else {
        Err(malformed(line, "unknown branch info"))
    }
}

/// Apply one physical line of the report to the status built so far.
fn apply_line(st: Status, line: &str) -> (r: Result<Status, MalformedLine>)
    ensures
        match r {
            Ok(s2) => spec_apply_line(st@, line@) == Ok::<StatusView, Seq<char>>(s2@),
            Err(m) => m@.raw_line == line@ && spec_apply_line(st@, line@) == Err::<
                StatusView,
                Seq<char>,
            >(m@.reason),
        },
{
    let n = line.unicode_len();
    if n == 0 {
        return Ok(st);
    }
    let c0 = line.get_char(0);
    if c0 == '#' {
        decode_header(st, line, n)
    } else if c0 == '1' {
        match Entry::parse(line) {
            Ok(e) => {
                let mut st = st;
                let ghost prev = st@.changed;
                st.changed.push(e);
                proof {
                    assert(st@.changed =~= prev.push(e@));
                }
                Ok(st)
            },
            Err(m) => Err(m),
        }
    } else if c0 == '2' {
        match Entry::parse(line) {
            Ok(e) => {
                let mut st = st;
                let ghost prev = st@.renamed;
                st.renamed.push(e);
                proof {
                    assert(st@.renamed =~= prev.push(e@));
                }
                Ok(st)
            },
            Err(m) => Err(m),
        }
    } else if c0 == 'u' {
        match Entry::parse(line) {
            Ok(e) => {
                let mut st = st;
                let ghost prev = st@.unmerged;
                st.unmerged.push(e);
                proof {
                    assert(st@.unmerged =~= prev.push(e@));
                }
                Ok(st)
            },
            Err(m) => Err(m),
        }
    } else if c0 == '?' {
        if n < 2 || line.get_char(1) != ' ' {
            return Err(malformed(line, "bad status format"));
        }
        let mut st = st;
        let ghost prev = st@.untracked;
        st.untracked.push(line.substring_char(2, n).to_owned());
        proof {
            assert(st@.untracked =~= prev.push(line@.subrange(2, n as int)));
        }
        Ok(st)
    } else if c0 == '!' {
        if n < 2 || line.get_char(1) != ' ' {
            return Err(malformed(line, "bad status format"));
        }
        let mut st = st;
        let ghost prev = st@.ignored;
        st.ignored.push(line.substring_char(2, n).to_owned());
        proof {
            assert(st@.ignored =~= prev.push(line@.subrange(2, n as int)));
        }
        Ok(st)
    } else {
        Err(malformed(line, "unknown line prefix"))
    }
}

/// Folding the lines one step: parsing a non-empty sequence of lines first
/// applies the head line, then folds the rest.
proof fn lemma_parse_from_cons(sv: StatusView, l: Seq<char>, rest: Seq<Seq<char>>)
    ensures
        spec_parse_from(sv, seq![l] + rest) == (match spec_apply_line(sv, l) {
            Ok(sv2) => spec_parse_from(sv2, rest),
            Err(reason) => Err::<StatusView, MalformedLineView>(
                (MalformedLineView { raw_line: l, reason }),
            ),
        }),
{
    let lines = seq![l] + rest;
    assert(lines.len() == 1 + rest.len());
    assert(lines[0] == l);
    assert(lines.drop_first() =~= rest);
}

impl Status {
    /// Parse the captured output text of a status invocation.
    ///
    /// The text is split into physical lines; empty lines (and the trailing
    /// empty piece a final newline would leave) are skipped; each remaining
    /// line is decoded by its record marker and accumulated into the report.
    /// The first structural violation aborts the whole parse: the result is
    /// then the [`MalformedLine`] error carrying that line, and any partial
    /// report is discarded.
    pub fn parse(text: &str) -> (r: Result<Status, MalformedLine>)
        ensures
            match r {
                Ok(st) => spec_parse(text@) == Ok::<StatusView, MalformedLineView>(st@),
                Err(m) => spec_parse(text@) == Err::<StatusView, MalformedLineView>(m@),
            },
    {
        let n = text.unicode_len();
        let mut st = Status::new();
        let mut pos: usize = 0;
        while pos < n
            invariant
                n == text@.len(),
                pos <= n,
                spec_parse(text@) == spec_parse_from(st@, spec_lines_from(text@, pos as int)),
            decreases n - pos,
        {
            let j = scan_line_break(text, n, pos);
            let line_end = if j < n && j > pos && text.get_char(j - 1) == '\r' {
                j - 1
            } else {
                j
            };
            let line = text.substring_char(pos, line_end);
            let newpos = if j < n {
                j + 1
            } else {
                n
            };
            proof {
                assert(spec_lines_from(text@, pos as int) =~= seq![line@] + spec_lines_from(
                    text@,
                    newpos as int,
                ));
                lemma_parse_from_cons(st@, line@, spec_lines_from(text@, newpos as int));
            }
            st = match apply_line(st, line) {
                Ok(s) => s,
                Err(m) => {
                    return Err(m);
                },
            };
            pos = newpos;
        }
        proof {
            assert(spec_lines_from(text@, pos as int) =~= Seq::<Seq<char>>::empty());
        }
        Ok(st)
    }
}

// ---------------------------------------------------------------------------
// Laws

/// Parsing is deterministic: the outcome is a function of the input text
/// alone, so equal texts decode to equal reports (or to equal errors).
pub proof fn lemma_parse_deterministic(t1: Seq<char>, t2: Seq<char>)
    requires
        t1 == t2,
    ensures
        spec_parse(t1) == spec_parse(t2),
{
}

/// The upstream behind and ahead counts are present exactly when an upstream
/// branch name is present.
pub proof fn lemma_upstream_counts_present_iff_name(v: StatusView)
    ensures
        v.spec_upstream_behind() is Some <==> v.spec_upstream_branch() is Some,
        v.spec_upstream_ahead() is Some <==> v.spec_upstream_branch() is Some,
{
}

/// Empty input text parses to the all-defaults empty report.
pub proof fn lemma_parse_empty(t: Seq<char>)
    requires
        t.len() == 0,
    ensures
        spec_parse(t) == Ok::<StatusView, MalformedLineView>(spec_status_default()),
{
    assert(spec_lines_from(t, 0) =~= Seq::<Seq<char>>::empty());
}

proof fn lemma_parse_from_fails_on_unknown_marker(
    sv: StatusView,
    lines: Seq<Seq<char>>,
    i: int,
)
    requires
        0 <= i < lines.len(),
        lines[i].len() > 0,
        !known_marker(lines[i][0]),
    ensures
        spec_parse_from(sv, lines) is Err,
    decreases lines.len(),
{
    match spec_apply_line(sv, lines[0]) {
        Ok(sv2) => {
            assert(i != 0);
            lemma_parse_from_fails_on_unknown_marker(sv2, lines.drop_first(), i - 1);
        },
        Err(_) => {},
    }
}

/// A line that begins with an unrecognised record marker makes the whole
/// parse fail: the result is an error, never a silently dropped line.
pub proof fn lemma_unknown_marker_fails(t: Seq<char>, i: int)
    requires
        0 <= i < spec_lines(t).len(),
        spec_lines(t)[i].len() > 0,
        !known_marker(spec_lines(t)[i][0]),
    ensures
        spec_parse(t) is Err,
{
    lemma_parse_from_fails_on_unknown_marker(spec_status_default(), spec_lines(t), i);
}

} // verus!
