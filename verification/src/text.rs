use vstd::prelude::*;

use crate::cells::{pad_cell, padded, truncate_cell, truncated};
use crate::layout::WorkspaceTableLayout;
use crate::chars::{char_count, push_char};
use crate::diff::{DiffLineKind, DiffMarks};
use crate::model::{CommitSubviewMode, DiffPresentation, RepoSubview};
use crate::routing::same_subview;

verus! {

/// The character of a decimal digit.
pub open spec fn digit_char(d: int) -> char {
    if d == 0 {
        '0'
    } else if d == 1 {
        '1'
    } else if d == 2 {
        '2'
    } else if d == 3 {
        '3'
    } else if d == 4 {
        '4'
    } else if d == 5 {
        '5'
    } else if d == 6 {
        '6'
    } else if d == 7 {
        '7'
    } else if d == 8 {
        '8'
    } else {
        '9'
    }
}

/// A natural number written in decimal, without leading zeros.
pub open spec fn decimal(n: nat) -> Seq<char>
    decreases n,
{
    if n < 10 {
        seq![digit_char(n as int)]
    } else {
        decimal(n / 10).push(digit_char((n % 10) as int))
    }
}

fn digit(d: u64) -> (c: char)
    requires
        d < 10,
    ensures
        c == digit_char(d as int),
{
    if d == 0 {
        '0'
    } else if d == 1 {
        '1'
    } else if d == 2 {
        '2'
    } else if d == 3 {
        '3'
    } else if d == 4 {
        '4'
    } else if d == 5 {
        '5'
    } else if d == 6 {
        '6'
    } else if d == 7 {
        '7'
    } else if d == 8 {
        '8'
    } else {
        '9'
    }
}

/// Appends a number in decimal.
pub fn push_decimal(s: &mut String, n: u64)
    ensures
        final(s)@ == old(s)@ + decimal(n as nat),
    decreases n,
{
    if n >= 10 {
        push_decimal(s, n / 10);
    }
    push_char(s, digit(n % 10));
    proof {
        if n >= 10 {
            assert(old(s)@ + decimal((n / 10) as nat) + seq![digit_char((n % 10) as int)] =~= old(s)@
                + decimal(n as nat));
        } else {
            assert(old(s)@ + seq![digit_char(n as int)] =~= old(s)@ + decimal(n as nat));
        }
    }
}

/// Whether a filter summary line is shown: while the filter has text or the focus.
pub open spec fn filter_summary_shown(query: Seq<char>, focused: bool) -> bool {
    query.len() > 0 || focused
}

/// The summary line of a list filter: its query (with a cursor while focused) and how many
/// of the items match.
pub open spec fn filter_summary_text(query: Seq<char>, focused: bool, visible: nat, total: nat) -> Seq<char> {
    let q = if query.len() == 0 {
        "_"@
    } else if focused {
        query + "_"@
    } else {
        query
    };
    "Filter /"@ + q + "  Matches: "@ + decimal(visible) + "/"@ + decimal(total) + if focused {
        "  (focused)"@
    } else {
        ""@
    }
}

/// The summary line of a list filter, when one is shown (see `filter_summary_text`).
pub fn repo_filter_summary_line(
    filter_query: &str,
    filter_focused: bool,
    visible_count: usize,
    total_count: usize,
) -> (res: Option<String>)
    ensures
        res is Some <==> filter_summary_shown(filter_query@, filter_focused),
        res matches Some(line) ==> line@ == filter_summary_text(
            filter_query@,
            filter_focused,
            visible_count as nat,
            total_count as nat,
        ),
{
    let empty = char_count(filter_query) == 0;
    if empty && !filter_focused {
        return None;
    }
    let mut line = String::from_str("Filter /");
    if empty {
        line.append("_");
    } else {
        line.append(filter_query);
        if filter_focused {
            line.append("_");
        }
    }
    line.append("  Matches: ");
    push_decimal(&mut line, visible_count as u64);
    line.append("/");
    push_decimal(&mut line, total_count as u64);
    if filter_focused {
        line.append("  (focused)");
    }
    proof {
        reveal_strlit("");
        assert(line@ =~= filter_summary_text(
            filter_query@,
            filter_focused,
            visible_count as nat,
            total_count as nat,
        ));
    }
    Some(line)
}

/// How the commit list is drawn.
#[derive(Clone, Copy, Debug, PartialEq, Eq)]
pub enum CommitHistoryMode {
    Linear,
    Graph { reverse: bool },
}

/// The context line under the commit list: the keys of the commit view, and the filter
/// summary when one is shown. The graph view, and a history of another ref, also offer the
/// key back to the current branch.
pub open spec fn commit_context_text(
    graph_or_ref: bool,
    query: Seq<char>,
    focused: bool,
    visible: nat,
    total: nat,
) -> Seq<char> {
    let keys = if graph_or_ref {
        "Context: Enter files. Ctrl+O copy hash. a amend attrs. y copy menu. o browser. 3 current branch. Ctrl+L log menu. 0 main. / filter. w worktrees."@
    } else {
        "Context: Enter files. Ctrl+O copy hash. a amend attrs. y copy menu. o browser. Ctrl+L log menu. 0 main. / filter. w worktrees."@
    };
    if filter_summary_shown(query, focused) {
        keys + "  "@ + filter_summary_text(query, focused, visible, total)
    } else {
        keys
    }
}

/// The context line under the commit list (see `commit_context_text`).
pub fn repo_commit_context_line(
    commit_history_mode: CommitHistoryMode,
    commit_history_ref: Option<&str>,
    filter_query: &str,
    filter_focused: bool,
    visible_count: usize,
    total_count: usize,
) -> (res: String)
    ensures
        res@ == commit_context_text(
            commit_history_mode is Graph || commit_history_ref is Some,
            filter_query@,
            filter_focused,
            visible_count as nat,
            total_count as nat,
        ),
{
    let graph = match commit_history_mode {
        CommitHistoryMode::Graph { .. } => true,
        CommitHistoryMode::Linear => false,
    };
    let mut line = if graph || commit_history_ref.is_some() {
        String::from_str(
            "Context: Enter files. Ctrl+O copy hash. a amend attrs. y copy menu. o browser. 3 current branch. Ctrl+L log menu. 0 main. / filter. w worktrees.",
        )
    } else {
        String::from_str(
            "Context: Enter files. Ctrl+O copy hash. a amend attrs. y copy menu. o browser. Ctrl+L log menu. 0 main. / filter. w worktrees.",
        )
    };
    match repo_filter_summary_line(filter_query, filter_focused, visible_count, total_count) {
        Some(rendered) => {
            line.append("  ");
            line.append(rendered.as_str());
        },
        None => {},
    }
    line
}

/// A branch or a commit that a comparison starts or ends at.
#[derive(Clone, Debug, PartialEq, Eq)]
pub enum ComparisonTarget {
    Branch(String),
    Commit(String),
}

/// The name of a comparison end.
pub open spec fn target_text(t: ComparisonTarget) -> Seq<char> {
    match t {
        ComparisonTarget::Branch(name) => name@,
        ComparisonTarget::Commit(name) => name@,
    }
}

/// The name of a comparison end.
pub fn comparison_target_label(target: &ComparisonTarget) -> (res: String)
    ensures
        res@ == target_text(*target),
{
    match target {
        ComparisonTarget::Branch(name) => name.clone(),
        ComparisonTarget::Commit(name) => name.clone(),
    }
}

/// The comparison line of a subview: what has been marked in it, or how to start.
pub open spec fn comparison_text(
    subview: RepoSubview,
    base: Option<ComparisonTarget>,
    target: Option<ComparisonTarget>,
    source: Option<RepoSubview>,
) -> Seq<char> {
    if source != Some(subview) {
        "Compare: press v to mark a base."@
    } else {
        match (base, target) {
            (Some(b), Some(t)) => "Compare: "@ + target_text(b) + " -> "@ + target_text(t) + " (press x to clear)."@,
            (Some(b), None) => "Compare base: "@ + target_text(b) + " (press v on another item, x clears)."@,
            _ => "Compare: press v to mark a base."@,
        }
    }
}

/// The comparison line of a subview (see `comparison_text`).
pub fn comparison_status_line(
    subview: RepoSubview,
    comparison_base: Option<&ComparisonTarget>,
    comparison_target: Option<&ComparisonTarget>,
    comparison_source: Option<RepoSubview>,
) -> (res: String)
    ensures
        res@ == comparison_text(
            subview,
            match comparison_base {
                Some(b) => Some(*b),
                None => None,
            },
            match comparison_target {
                Some(t) => Some(*t),
                None => None,
            },
            comparison_source,
        ),
{
    let same = match comparison_source {
        Some(source) => same_subview(source, subview),
        None => false,
    };
    if !same {
        return String::from_str("Compare: press v to mark a base.");
    }
    match (comparison_base, comparison_target) {
        (Some(base), Some(target)) => {
            let mut s = String::from_str("Compare: ");
            s.append(comparison_target_label(base).as_str());
            s.append(" -> ");
            s.append(comparison_target_label(target).as_str());
            s.append(" (press x to clear).");
            s
        },
        (Some(base), None) => {
            let mut s = String::from_str("Compare base: ");
            s.append(comparison_target_label(base).as_str());
            s.append(" (press v on another item, x clears).");
            s
        },
        _ => String::from_str("Compare: press v to mark a base."),
    }
}

/// Where the last long-running git operation stands.
#[derive(Clone, Debug, PartialEq, Eq)]
pub enum OperationProgress {
    Idle,
    Running { summary: String },
    Failed { summary: String },
}

/// The progress line of the status pane.
pub open spec fn progress_text(p: OperationProgress) -> Seq<char> {
    match p {
        OperationProgress::Idle => "idle"@,
        OperationProgress::Running { summary } => "running: "@ + summary@,
        OperationProgress::Failed { summary } => "failed: "@ + summary@,
    }
}

/// The progress line of the status pane (see `progress_text`).
pub fn operation_progress_label(progress: &OperationProgress) -> (res: String)
    ensures
        res@ == progress_text(*progress),
{
    match progress {
        OperationProgress::Idle => String::from_str("idle"),
        OperationProgress::Running { summary } => {
            let mut s = String::from_str("running: ");
            s.append(summary.as_str());
            s
        },
        OperationProgress::Failed { summary } => {
            let mut s = String::from_str("failed: ");
            s.append(summary.as_str());
            s
        },
    }
}

/// Where the discovery of workspace repositories stands.
#[derive(Clone, Debug, PartialEq, Eq)]
pub enum ScanStatus {
    Idle,
    Scanning,
    Complete { scanned_repos: usize },
    Failed { message: String },
}

/// The scan state in the workspace status line; a failure message is cut to 18 columns.
pub open spec fn scan_text(s: ScanStatus) -> Seq<char> {
    match s {
        ScanStatus::Idle => "idle"@,
        ScanStatus::Scanning => "scanning"@,
        ScanStatus::Complete { scanned_repos } => "ready:"@ + decimal(scanned_repos as nat),
        ScanStatus::Failed { message } => "failed:"@ + truncated(message@, 18),
    }
}

/// The scan state in the workspace status line (see `scan_text`).
pub fn workspace_scan_label(scan_status: &ScanStatus) -> (res: String)
    ensures
        res@ == scan_text(*scan_status),
{
    match scan_status {
        ScanStatus::Idle => String::from_str("idle"),
        ScanStatus::Scanning => String::from_str("scanning"),
        ScanStatus::Complete { scanned_repos } => {
            let mut s = String::from_str("ready:");
            push_decimal(&mut s, *scanned_repos as u64);
            s
        },
        ScanStatus::Failed { message } => {
            let mut s = String::from_str("failed:");
            s.append(truncate_cell(message.as_str(), 18).as_str());
            s
        },
    }
}

/// What the workspace table shows of one repository.
#[derive(Clone, Debug, PartialEq, Eq)]
pub struct RepoSummary {
    pub display_name: String,
    pub display_path: String,
    pub branch: Option<String>,
    pub dirty: bool,
    pub conflicted: bool,
    pub staged_count: usize,
    pub unstaged_count: usize,
    pub untracked_count: usize,
    pub ahead_count: usize,
    pub behind_count: usize,
    /// Seconds since the epoch of the last fetch.
    pub last_fetch_at: Option<u64>,
    /// Seconds since the epoch of the last refresh.
    pub last_refresh_at: Option<u64>,
    pub last_error: Option<String>,
    pub remote_name: Option<String>,
    pub tracking_branch: Option<String>,
}

/// The change counts of a repository: `S U ?` counts, or in the compact table
/// `staged/unstaged/untracked +ahead/-behind`; errors and conflicts win over counts.
pub open spec fn dirty_text(s: RepoSummary, compact: bool) -> Seq<char> {
    if s.last_error is Some {
        "error"@
    } else if s.conflicted {
        "conflict"@
    } else if !s.dirty {
        if compact {
            "clean +0/-0"@
        } else {
            "clean"@
        }
    } else if compact {
        decimal(s.staged_count as nat) + "/"@ + decimal(s.unstaged_count as nat) + "/"@ + decimal(
            s.untracked_count as nat,
        ) + " +"@ + decimal(s.ahead_count as nat) + "/-"@ + decimal(s.behind_count as nat)
    } else {
        decimal(s.staged_count as nat) + "S "@ + decimal(s.unstaged_count as nat) + "U "@ + decimal(
            s.untracked_count as nat,
        ) + "?"@
    }
}

/// The change counts of a repository (see `dirty_text`).
pub fn workspace_dirty_cell(summary: &RepoSummary, compact: bool) -> (res: String)
    ensures
        res@ == dirty_text(*summary, compact),
{
    if summary.last_error.is_some() {
        return String::from_str("error");
    }
    if summary.conflicted {
        return String::from_str("conflict");
    }
    if !summary.dirty {
        return if compact {
            String::from_str("clean +0/-0")
        } else {
            String::from_str("clean")
        };
    }
    let mut s = String::new();
    if compact {
        push_decimal(&mut s, summary.staged_count as u64);
        s.append("/");
        push_decimal(&mut s, summary.unstaged_count as u64);
        s.append("/");
        push_decimal(&mut s, summary.untracked_count as u64);
        s.append(" +");
        push_decimal(&mut s, summary.ahead_count as u64);
        s.append("/-");
        push_decimal(&mut s, summary.behind_count as u64);
    } else {
        push_decimal(&mut s, summary.staged_count as u64);
        s.append("S ");
        push_decimal(&mut s, summary.unstaged_count as u64);
        s.append("U ");
        push_decimal(&mut s, summary.untracked_count as u64);
        s.append("?");
    }
    proof {
        assert(Seq::<char>::empty() + decimal(summary.staged_count as nat) =~= decimal(
            summary.staged_count as nat,
        ));
    }
    s
}

/// Seconds from the last fetch to the last refresh (the refresh defaults to the fetch,
/// and a refresh before the fetch counts as none).
pub open spec fn fetch_seconds(fetch: u64, refresh: Option<u64>) -> nat {
    let r = match refresh {
        Some(r) => r,
        None => fetch,
    };
    if r >= fetch {
        (r - fetch) as nat
    } else {
        0
    }
}

/// How long ago a repository was fetched, in the largest whole unit of `s`, `m`, `h`, `d`;
/// `never` if it never was.
pub open spec fn fetch_age_text(fetch: Option<u64>, refresh: Option<u64>) -> Seq<char> {
    match fetch {
        None => "never"@,
        Some(f) => {
            let secs = fetch_seconds(f, refresh);
            if secs < 60 {
                decimal(secs) + "s"@
            } else if secs < 3600 {
                decimal(secs / 60) + "m"@
            } else if secs < 86400 {
                decimal(secs / 3600) + "h"@
            } else {
                decimal(secs / 86400) + "d"@
            }
        },
    }
}

/// How long ago a repository was fetched (see `fetch_age_text`).
pub fn workspace_fetch_age(summary: &RepoSummary) -> (res: String)
    ensures
        res@ == fetch_age_text(summary.last_fetch_at, summary.last_refresh_at),
{
    match summary.last_fetch_at {
        None => String::from_str("never"),
        Some(fetch) => {
            let refresh = match summary.last_refresh_at {
                Some(r) => r,
                None => fetch,
            };
            let seconds = refresh.saturating_sub(fetch);
            let mut s = String::new();
            if seconds < 60 {
                push_decimal(&mut s, seconds);
                s.append("s");
            } else if seconds < 3600 {
                push_decimal(&mut s, seconds / 60);
                s.append("m");
            } else if seconds < 86400 {
                push_decimal(&mut s, seconds / 3600);
                s.append("h");
            } else {
                push_decimal(&mut s, seconds / 86400);
                s.append("d");
            }
            proof {
                let n = if seconds < 60 {
                    seconds
                } else if seconds < 3600 {
                    seconds / 60
                } else if seconds < 86400 {
                    seconds / 3600
                } else {
                    seconds / 86400
                };
                assert(Seq::<char>::empty() + decimal(n as nat) =~= decimal(n as nat));
            }
            s
        },
    }
}

/// The cells of one row of the workspace table, each cut and padded to its column.
#[derive(Clone, Debug, PartialEq, Eq)]
pub struct WorkspaceRowCells {
    /// `"> "` on the selected row, else two spaces.
    pub prefix: String,
    pub name: String,
    pub branch: String,
    pub dirty: String,
    /// Present in the wide layout only.
    pub sync: Option<String>,
    pub fetch: String,
}

/// The sync cell of a repository: commits ahead and behind its upstream.
pub open spec fn sync_text(s: Option<RepoSummary>) -> Seq<char> {
    match s {
        Some(s) => "+"@ + decimal(s.ahead_count as nat) + "/-"@ + decimal(s.behind_count as nat),
        None => "-"@,
    }
}

/// The row that the workspace table shows for a repository, by its id and its summary
/// if one has arrived; a repository without one shows `pending` cells.
pub open spec fn row_cells_spec(
    repo_id: Seq<char>,
    summary: Option<RepoSummary>,
    is_selected: bool,
    l: WorkspaceTableLayout,
) -> (Seq<char>, Seq<char>, Seq<char>, Seq<char>, Option<Seq<char>>, Seq<char>) {
    let name = match summary {
        Some(s) => s.display_name@,
        None => repo_id,
    };
    let branch = match summary {
        Some(s) => match s.branch {
            Some(b) => b@,
            None => "detached"@,
        },
        None => "detached"@,
    };
    let dirty = match summary {
        Some(s) => dirty_text(s, l.sync_width is None),
        None => "pending"@,
    };
    let fetch = match summary {
        Some(s) => fetch_age_text(s.last_fetch_at, s.last_refresh_at),
        None => "pending"@,
    };
    let name_width: nat = if l.name_width >= 2 {
        (l.name_width - 2) as nat
    } else {
        0
    };
    (
        if is_selected {
            "> "@
        } else {
            "  "@
        },
        padded(name, name_width),
        padded(branch, l.branch_width as nat),
        padded(dirty, l.dirty_width as nat),
        match l.sync_width {
            Some(w) => Some(padded(sync_text(summary), w as nat)),
            None => None,
        },
        padded(fetch, l.fetch_width as nat),
    )
}

/// The row that the workspace table shows for a repository (see `row_cells_spec`).
pub fn workspace_repo_cells(
    repo_id: &str,
    summary: Option<&RepoSummary>,
    is_selected: bool,
    layout: WorkspaceTableLayout,
) -> (res: WorkspaceRowCells)
    ensures
        ({
            let spec_summary = match summary {
                Some(s) => Some(*s),
                None => None,
            };
            let (p, n, b, d, y, f) = row_cells_spec(repo_id@, spec_summary, is_selected, layout);
            &&& res.prefix@ == p
            &&& res.name@ == n
            &&& res.branch@ == b
            &&& res.dirty@ == d
            &&& (match res.sync {
                Some(c) => y == Some(c@),
                None => y is None,
            })
            &&& res.fetch@ == f
        }),
{
    let prefix = if is_selected {
        String::from_str("> ")
    } else {
        String::from_str("  ")
    };
    let name = match summary {
        Some(s) => pad_cell(s.display_name.as_str(), layout.name_width.saturating_sub(2)),
        None => pad_cell(repo_id, layout.name_width.saturating_sub(2)),
    };
    let branch = match summary {
        Some(s) => match &s.branch {
            Some(b) => pad_cell(b.as_str(), layout.branch_width),
            None => pad_cell("detached", layout.branch_width),
        },
        None => pad_cell("detached", layout.branch_width),
    };
    let dirty_text = match summary {
        Some(s) => workspace_dirty_cell(s, layout.sync_width.is_none()),
        None => String::from_str("pending"),
    };
    let dirty = pad_cell(dirty_text.as_str(), layout.dirty_width);
    let sync = match layout.sync_width {
        Some(w) => {
            let mut cell = String::new();
            match summary {
                Some(s) => {
                    cell.append("+");
                    push_decimal(&mut cell, s.ahead_count as u64);
                    cell.append("/-");
                    push_decimal(&mut cell, s.behind_count as u64);
                },
                None => cell.append("-"),
            }
            proof {
                reveal_strlit("");
                let spec_summary = match summary {
                    Some(s) => Some(*s),
                    None => None,
                };
                assert(cell@ =~= sync_text(spec_summary));
            }
            Some(pad_cell(cell.as_str(), w))
        },
        None => None,
    };
    let fetch_text = match summary {
        Some(s) => workspace_fetch_age(s),
        None => String::from_str("pending"),
    };
    let fetch = pad_cell(fetch_text.as_str(), layout.fetch_width);
    WorkspaceRowCells { prefix, name, branch, dirty, sync, fetch }
}

/// How a rendered line is coloured: plain text, a heading, a success note, a diff line
/// coloured by its kind, or a list row.
#[derive(Clone, Copy, Debug, PartialEq, Eq)]
pub enum LineTone {
    Plain,
    Heading,
    Success,
    Diff(DiffLineKind),
    /// A line of the status diff with the selection marks that apply to it.
    MarkedDiff(DiffLineKind, DiffMarks),
    /// The message line of the commit box: its `Message: ` label in the accent colour.
    MessageInput,
    /// Secondary text in the muted colour.
    Muted,
    /// A warning, in bold danger colour.
    Alert,
    /// Text in the danger colour.
    Danger,
    /// Text in the accent colour.
    Accent,
    /// A list row in the foreground colour.
    Row,
    /// The selected list row, in bold.
    SelectedRow,
    /// The selected list row of the focused pane, in bold and reversed.
    FocusedRow,
    /// The row of the checked-out branch, in bold success colour.
    HeadRow,
    /// The selected row of the checked-out branch.
    SelectedHeadRow,
    /// The selected row of the checked-out branch in the focused pane, also reversed.
    FocusedHeadRow,
}

/// One line of a pane, with its tone.
#[derive(Clone, Debug, PartialEq, Eq)]
pub struct StyledLine {
    pub text: String,
    pub tone: LineTone,
}

/// A line as text and tone.
pub open spec fn line_view(l: StyledLine) -> (Seq<char>, LineTone) {
    (l.text@, l.tone)
}

/// Lines as texts and tones.
pub open spec fn lines_view(v: Seq<StyledLine>) -> Seq<(Seq<char>, LineTone)> {
    v.map_values(|l: StyledLine| line_view(l))
}

/// Appends a line.
pub fn push_line(v: &mut Vec<StyledLine>, text: String, tone: LineTone)
    ensures
        lines_view(final(v)@) == lines_view(old(v)@).push((text@, tone)),
{
    let ghost t = text@;
    v.push(StyledLine { text, tone });
    proof {
        assert(lines_view(v@) =~= lines_view(old(v)@).push((t, tone)));
    }
}

/// At most `n` of the lines: the first `n` when there are more.
pub open spec fn truncated_lines<T>(s: Seq<T>, n: nat) -> Seq<T> {
    if s.len() > n {
        s.take(n as int)
    } else {
        s
    }
}

/// Keeps at most `n` lines, the first ones.
pub fn truncate_lines(v: &mut Vec<StyledLine>, n: usize)
    ensures
        lines_view(final(v)@) == truncated_lines(lines_view(old(v)@), n as nat),
{
    if v.len() > n {
        v.truncate(n);
        proof {
            assert(lines_view(v@) =~= lines_view(old(v)@).take(n as int));
        }
    }
}

/// The tone of the change-count cell: errors and conflicts alert, changes warn, a clean
/// repository is a success, a pending one is muted.
pub open spec fn dirty_tone(s: Option<RepoSummary>) -> LineTone {
    match s {
        Some(s) => if s.last_error is Some || s.conflicted {
            LineTone::Alert
        } else if s.dirty {
            LineTone::Danger
        } else {
            LineTone::Success
        },
        None => LineTone::Muted,
    }
}

/// The tone of the change-count cell (see `dirty_tone`).
pub fn workspace_dirty_style(summary: Option<&RepoSummary>) -> (t: LineTone)
    ensures
        t == dirty_tone(
            match summary {
                Some(s) => Some(*s),
                None => None,
            },
        ),
{
    match summary {
        Some(s) => if s.last_error.is_some() || s.conflicted {
            LineTone::Alert
        } else if s.dirty {
            LineTone::Danger
        } else {
            LineTone::Success
        },
        None => LineTone::Muted,
    }
}

/// The tone of the sync cell: behind alerts, ahead stands out, in sync is a success.
pub open spec fn sync_tone(s: Option<RepoSummary>) -> LineTone {
    match s {
        Some(s) => if s.behind_count > 0 {
            LineTone::Alert
        } else if s.ahead_count > 0 {
            LineTone::Accent
        } else {
            LineTone::Success
        },
        None => LineTone::Muted,
    }
}

/// The tone of the sync cell (see `sync_tone`).
pub fn workspace_sync_style(summary: Option<&RepoSummary>) -> (t: LineTone)
    ensures
        t == sync_tone(
            match summary {
                Some(s) => Some(*s),
                None => None,
            },
        ),
{
    match summary {
        Some(s) => if s.behind_count > 0 {
            LineTone::Alert
        } else if s.ahead_count > 0 {
            LineTone::Accent
        } else {
            LineTone::Success
        },
        None => LineTone::Muted,
    }
}

/// The tone of the fetch cell: a never-fetched repository warns.
pub open spec fn fetch_tone(s: Option<RepoSummary>) -> LineTone {
    match s {
        Some(s) => if s.last_fetch_at is None {
            LineTone::Danger
        } else {
            LineTone::Muted
        },
        None => LineTone::Muted,
    }
}

/// The tone of the fetch cell (see `fetch_tone`).
pub fn workspace_fetch_style(summary: Option<&RepoSummary>) -> (t: LineTone)
    ensures
        t == fetch_tone(
            match summary {
                Some(s) => Some(*s),
                None => None,
            },
        ),
{
    match summary {
        Some(s) => if s.last_fetch_at.is_none() {
            LineTone::Danger
        } else {
            LineTone::Muted
        },
        None => LineTone::Muted,
    }
}

} // verus!
