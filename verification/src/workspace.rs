use vstd::prelude::*;

use crate::cells::{pad_cell, padded, truncate_cell, truncated};
use crate::labels::{watcher_health_label, watcher_health_text, WatcherHealth};
use crate::layout::WorkspaceTableLayout;
use crate::text::{
    decimal, fetch_seconds, lines_view, push_decimal, push_line, scan_text, workspace_scan_label,
    LineTone, RepoSummary, ScanStatus, StyledLine,
};

verus! {

/// The header cells of the workspace table, each padded to its column; the compact layout
/// uses shorter names and has no sync column.
pub open spec fn header_cells(l: WorkspaceTableLayout) -> Seq<Seq<char>> {
    match l.sync_width {
        Some(w) => seq![
            padded("REPO"@, l.name_width as nat),
            padded("BRANCH"@, l.branch_width as nat),
            padded("DIRTY"@, l.dirty_width as nat),
            padded("SYNC"@, w as nat),
            padded("FETCH"@, l.fetch_width as nat),
        ],
        None => seq![
            padded("REPO"@, l.name_width as nat),
            padded("BR"@, l.branch_width as nat),
            padded("STATE"@, l.dirty_width as nat),
            padded("AGE"@, l.fetch_width as nat),
        ],
    }
}

/// The header cells of the workspace table (see `header_cells`).
pub fn workspace_table_header(layout: WorkspaceTableLayout) -> (res: Vec<String>)
    ensures
        res@.map_values(|s: String| s@) == header_cells(layout),
{
    let res = match layout.sync_width {
        Some(w) => vec![
            pad_cell("REPO", layout.name_width),
            pad_cell("BRANCH", layout.branch_width),
            pad_cell("DIRTY", layout.dirty_width),
            pad_cell("SYNC", w),
            pad_cell("FETCH", layout.fetch_width),
        ],
        None => vec![
            pad_cell("REPO", layout.name_width),
            pad_cell("BR", layout.branch_width),
            pad_cell("STATE", layout.dirty_width),
            pad_cell("AGE", layout.fetch_width),
        ],
    };
    proof {
        assert(res@.map_values(|s: String| s@) =~= header_cells(layout));
    }
    res
}

/// How many of the discovered repositories need attention: those without a summary yet
/// and those whose last refresh failed.
pub open spec fn issue_count(summaries: Seq<Option<RepoSummary>>) -> nat
    decreases summaries.len(),
{
    if summaries.len() == 0 {
        0
    } else {
        issue_count(summaries.drop_last()) + match summaries.last() {
            Some(s) => if s.last_error is Some {
                1nat
            } else {
                0nat
            },
            None => 1nat,
        }
    }
}

/// How many repositories need attention (see `issue_count`); `summaries` holds the summary
/// of each discovered repository, when it has arrived.
pub fn workspace_repo_issue_count(summaries: &Vec<Option<RepoSummary>>) -> (n: usize)
    ensures
        n == issue_count(summaries@),
{
    let mut n: usize = 0;
    let mut i: usize = 0;
    while i < summaries.len()
        invariant
            i <= summaries.len(),
            n == issue_count(summaries@.take(i as int)),
            n <= i,
        decreases summaries.len() - i,
    {
        proof {
            assert(summaries@.take(i + 1).drop_last() =~= summaries@.take(i as int));
        }
        let counts = match &summaries[i] {
            Some(s) => s.last_error.is_some(),
            None => true,
        };
        if counts {
            n = n + 1;
        }
        i = i + 1;
    }
    proof {
        assert(summaries@.take(summaries.len() as int) =~= summaries@);
    }
    n
}

/// What the workspace status line reads of the workspace.
#[derive(Clone, Debug, PartialEq, Eq)]
pub struct WorkspaceStatus {
    pub discovered_count: usize,
    pub filter_label: String,
    pub sort_label: String,
    pub search_query: String,
    pub search_focused: bool,
    pub watcher_health: WatcherHealth,
    pub scan_status: ScanStatus,
}

/// The tone of the watcher segment: a degraded watcher is an alert.
pub open spec fn watch_tone(h: WatcherHealth) -> LineTone {
    match h {
        WatcherHealth::Degraded => LineTone::Alert,
        WatcherHealth::Healthy => LineTone::Success,
        WatcherHealth::Unknown => LineTone::Muted,
    }
}

/// The segments of the workspace status line, separated by two spaces: the visible and
/// discovered counts, the filter, sort and search (cut to 18 columns, starred while
/// focused), the watcher, the issue count and the scan state.
pub open spec fn status_segments(w: WorkspaceStatus, visible: nat, issues: nat) -> Seq<(Seq<char>, LineTone)> {
    let sep = ("  "@, LineTone::Plain);
    seq![
        ("repos="@ + decimal(visible) + "/"@ + decimal(w.discovered_count as nat), LineTone::Heading),
        sep,
        ("filter="@ + w.filter_label@, LineTone::Row),
        sep,
        ("sort="@ + w.sort_label@, LineTone::Row),
        sep,
        (
            "search="@ + (if w.search_query@.len() == 0 {
                "-"@
            } else {
                truncated(w.search_query@, 18)
            }) + if w.search_focused {
                "*"@
            } else {
                ""@
            },
            LineTone::Row,
        ),
        sep,
        ("watch="@ + watcher_health_text(w.watcher_health), watch_tone(w.watcher_health)),
        sep,
        (
            "issues="@ + decimal(issues),
            if issues == 0 {
                LineTone::Muted
            } else {
                LineTone::Alert
            },
        ),
        sep,
        ("scan="@ + scan_text(w.scan_status), LineTone::Muted),
    ]
}

/// The segments of the workspace status line (see `status_segments`).
pub fn workspace_status_line(w: &WorkspaceStatus, visible_count: usize, issues: usize) -> (res: Vec<StyledLine>)
    ensures
        lines_view(res@) == status_segments(*w, visible_count as nat, issues as nat),
{
    let mut res: Vec<StyledLine> = Vec::new();
    let mut repos = String::from_str("repos=");
    push_decimal(&mut repos, visible_count as u64);
    repos.append("/");
    push_decimal(&mut repos, w.discovered_count as u64);
    push_line(&mut res, repos, LineTone::Heading);
    push_line(&mut res, String::from_str("  "), LineTone::Plain);
    let mut filter = String::from_str("filter=");
    filter.append(w.filter_label.as_str());
    push_line(&mut res, filter, LineTone::Row);
    push_line(&mut res, String::from_str("  "), LineTone::Plain);
    let mut sort = String::from_str("sort=");
    sort.append(w.sort_label.as_str());
    push_line(&mut res, sort, LineTone::Row);
    push_line(&mut res, String::from_str("  "), LineTone::Plain);
    let mut search = String::from_str("search=");
    if w.search_query.unicode_len() == 0 {
        search.append("-");
    } else {
        search.append(truncate_cell(w.search_query.as_str(), 18).as_str());
    }
    if w.search_focused {
        search.append("*");
    }
    push_line(&mut res, search, LineTone::Row);
    push_line(&mut res, String::from_str("  "), LineTone::Plain);
    let mut watch = String::from_str("watch=");
    watch.append(watcher_health_label(w.watcher_health));
    let tone = match w.watcher_health {
        WatcherHealth::Degraded => LineTone::Alert,
        WatcherHealth::Healthy => LineTone::Success,
        WatcherHealth::Unknown => LineTone::Muted,
    };
    push_line(&mut res, watch, tone);
    push_line(&mut res, String::from_str("  "), LineTone::Plain);
    let mut issue_text = String::from_str("issues=");
    push_decimal(&mut issue_text, issues as u64);
    push_line(
        &mut res,
        issue_text,
        if issues == 0 {
            LineTone::Muted
        } else {
            LineTone::Alert
        },
    );
    push_line(&mut res, String::from_str("  "), LineTone::Plain);
    let mut scan = String::from_str("scan=");
    scan.append(workspace_scan_label(&w.scan_status).as_str());
    push_line(&mut res, scan, LineTone::Muted);
    proof {
        reveal_strlit("");
        assert(lines_view(res@) =~~= status_segments(*w, visible_count as nat, issues as nat));
    }
    res
}

/// A text, or `-` when it is empty.
pub open spec fn or_dash(t: Seq<char>) -> Seq<char> {
    if t.len() == 0 {
        "-"@
    } else {
        t
    }
}

/// The remote that a repository tracks: its tracking branch, else its remote, else `-`.
pub open spec fn remote_text(s: RepoSummary) -> Seq<char> {
    match s.tracking_branch {
        Some(t) => t@,
        None => match s.remote_name {
            Some(r) => r@,
            None => "-"@,
        },
    }
}

/// A boolean as Rust prints it.
pub open spec fn bool_text(b: bool) -> Seq<char> {
    if b {
        "true"@
    } else {
        "false"@
    }
}

/// The preview of a repository: path, branch, attention score and watcher freshness, change
/// counts, remote and sync counts, seconds since the last fetch, and the last error.
pub open spec fn preview_rows(s: RepoSummary, attention: nat, freshness: Seq<char>) -> Seq<Seq<char>> {
    let rows = seq![
        "Path: "@ + s.display_path@,
        "Branch: "@ + match s.branch {
            Some(b) => b@,
            None => "detached"@,
        },
        "Attention: "@ + decimal(attention) + "  Watcher: "@ + freshness,
        "Changes: staged="@ + decimal(s.staged_count as nat) + " unstaged="@ + decimal(s.unstaged_count as nat)
            + " untracked="@ + decimal(s.untracked_count as nat),
        "Remote: "@ + remote_text(s) + " ahead="@ + decimal(s.ahead_count as nat) + " behind="@ + decimal(
            s.behind_count as nat,
        ) + " conflicted="@ + bool_text(s.conflicted),
        "Fetch age: "@ + match s.last_fetch_at {
            Some(f) => decimal(fetch_seconds(f, s.last_refresh_at)) + "s"@,
            None => "never"@,
        },
    ];
    match s.last_error {
        Some(e) => rows.push("Last error: "@ + e@),
        None => rows,
    }
}

/// The preview of a repository (see `preview_rows`); `attention` is its attention score
/// and `freshness` names how fresh its watcher events are.
#[verifier::rlimit(50)]
pub fn workspace_preview_lines(summary: &RepoSummary, attention: usize, freshness: &str) -> (res: Vec<String>)
    ensures
        res@.map_values(|t: String| t@) == preview_rows(*summary, attention as nat, freshness@),
{
    let s = summary;
    let mut path = String::from_str("Path: ");
    path.append(s.display_path.as_str());
    let mut branch = String::from_str("Branch: ");
    match &s.branch {
        Some(b) => branch.append(b.as_str()),
        None => branch.append("detached"),
    }
    let mut attention_line = String::from_str("Attention: ");
    push_decimal(&mut attention_line, attention as u64);
    attention_line.append("  Watcher: ");
    attention_line.append(freshness);
    let mut changes = String::from_str("Changes: staged=");
    push_decimal(&mut changes, s.staged_count as u64);
    changes.append(" unstaged=");
    push_decimal(&mut changes, s.unstaged_count as u64);
    changes.append(" untracked=");
    push_decimal(&mut changes, s.untracked_count as u64);
    let mut remote = String::from_str("Remote: ");
    match &s.tracking_branch {
        Some(t) => remote.append(t.as_str()),
        None => match &s.remote_name {
            Some(r) => remote.append(r.as_str()),
            None => remote.append("-"),
        },
    }
    remote.append(" ahead=");
    push_decimal(&mut remote, s.ahead_count as u64);
    remote.append(" behind=");
    push_decimal(&mut remote, s.behind_count as u64);
    remote.append(" conflicted=");
    if s.conflicted {
        remote.append("true");
    } else {
        remote.append("false");
    }
    let mut fetch = String::from_str("Fetch age: ");
    match s.last_fetch_at {
        Some(f) => {
            let refresh = match s.last_refresh_at {
                Some(r) => r,
                None => f,
            };
            push_decimal(&mut fetch, refresh.saturating_sub(f));
            fetch.append("s");
        },
        None => fetch.append("never"),
    }
    let mut res = vec![path, branch, attention_line, changes, remote, fetch];
    match &s.last_error {
        Some(e) => {
            let mut error = String::from_str("Last error: ");
            error.append(e.as_str());
            res.push(error);
        },
        None => {},
    }
    proof {
        let rows = preview_rows(*summary, attention as nat, freshness@);
        assert(res@[0]@ == rows[0]);
        assert(res@[1]@ == rows[1]);
        assert(res@[2]@ == rows[2]);
        assert(res@[3]@ == rows[3]);
        assert(res@[4]@ == rows[4]);
        assert(res@[5]@ == rows[5]);
        assert(res@.map_values(|t: String| t@) =~= preview_rows(*summary, attention as nat, freshness@));
    }
    res
}

/// The preview of a repository whose summary has not arrived.
pub open spec fn pending_preview_rows(repo_id: Seq<char>, scan: ScanStatus) -> Seq<Seq<char>> {
    seq![
        "Preview"@,
        "Repo: "@ + repo_id,
        "State: waiting for repository summary"@,
        "Scan: "@ + scan_text(scan),
        "Refresh this workspace with r if the row stays pending."@,
    ]
}

/// The preview of a repository whose summary has not arrived (see `pending_preview_rows`).
pub fn workspace_pending_preview_lines(repo_id: &str, scan: &ScanStatus) -> (res: Vec<String>)
    ensures
        res@.map_values(|t: String| t@) == pending_preview_rows(repo_id@, *scan),
{
    let mut repo = String::from_str("Repo: ");
    repo.append(repo_id);
    let mut scan_line = String::from_str("Scan: ");
    scan_line.append(workspace_scan_label(scan).as_str());
    let res = vec![
        String::from_str("Preview"),
        repo,
        String::from_str("State: waiting for repository summary"),
        scan_line,
        String::from_str("Refresh this workspace with r if the row stays pending."),
    ];
    proof {
        assert(res@.map_values(|t: String| t@) =~= pending_preview_rows(repo_id@, *scan));
    }
    res
}

/// The workspace list without visible rows: a running first scan, a failed scan, no
/// repositories at all, or none that the triage settings keep.
pub open spec fn empty_list_rows(scan: ScanStatus, discovered: nat, filter_label: Seq<char>, query: Seq<char>) -> Seq<
    Seq<char>,
> {
    match scan {
        ScanStatus::Scanning if discovered == 0 => seq![
            "Scanning workspace for repositories..."@,
            "The table will populate as soon as the scan completes."@,
        ],
        ScanStatus::Failed { message } => seq![
            "Workspace scan failed."@,
            "Reason: "@ + message@,
            "Press r to retry the scan."@,
        ],
        _ => if discovered == 0 {
            seq![
                "No repositories were found under the current workspace root."@,
                "Press r to rescan after changing the workspace contents."@,
            ]
        } else {
            seq![
                "No repositories match the current workspace triage settings."@,
                "Filter="@ + filter_label + "  Search="@ + or_dash(query),
                "Press f to change filters, / to edit search, or Esc to clear search."@,
            ]
        },
    }
}

/// The workspace list without visible rows (see `empty_list_rows`).
pub fn workspace_empty_list_lines(scan: &ScanStatus, discovered: usize, filter_label: &str, search_query: &str) -> (res:
    Vec<String>)
    ensures
        res@.map_values(|t: String| t@) == empty_list_rows(*scan, discovered as nat, filter_label@, search_query@),
{
    let res = match scan {
        ScanStatus::Scanning if discovered == 0 => vec![
            String::from_str("Scanning workspace for repositories..."),
            String::from_str("The table will populate as soon as the scan completes."),
        ],
        ScanStatus::Failed { message } => {
            let mut reason = String::from_str("Reason: ");
            reason.append(message.as_str());
            vec![String::from_str("Workspace scan failed."), reason, String::from_str("Press r to retry the scan.")]
        },
        _ => if discovered == 0 {
            vec![
                String::from_str("No repositories were found under the current workspace root."),
                String::from_str("Press r to rescan after changing the workspace contents."),
            ]
        } else {
            let mut settings = String::from_str("Filter=");
            settings.append(filter_label);
            settings.append("  Search=");
            if search_query.unicode_len() == 0 {
                settings.append("-");
            } else {
                settings.append(search_query);
            }
            vec![
                String::from_str("No repositories match the current workspace triage settings."),
                settings,
                String::from_str("Press f to change filters, / to edit search, or Esc to clear search."),
            ]
        },
    };
    proof {
        assert(res@.map_values(|t: String| t@) =~= empty_list_rows(
            *scan,
            discovered as nat,
            filter_label@,
            search_query@,
        ));
    }
    res
}

/// The preview without a visible repository: a running first scan, a failed scan, or the
/// triage settings that hide every repository.
pub open spec fn empty_preview_rows(
    scan: ScanStatus,
    discovered: nat,
    filter_label: Seq<char>,
    sort_label: Seq<char>,
    query: Seq<char>,
) -> Seq<Seq<char>> {
    match scan {
        ScanStatus::Scanning if discovered == 0 => seq![
            "Preview"@,
            "Workspace scan in progress."@,
            "A repository preview will appear when the first summary arrives."@,
        ],
        ScanStatus::Failed { message } => seq![
            "Preview"@,
            "Workspace scan failed."@,
            "Reason: "@ + message@,
            "Press r to retry."@,
        ],
        _ => seq![
            "Preview"@,
            "No repositories are currently visible."@,
            "Filter: "@ + filter_label + "  Sort: "@ + sort_label,
            "Search: "@ + or_dash(query),
        ],
    }
}

/// The preview without a visible repository (see `empty_preview_rows`).
pub fn workspace_empty_preview_lines(
    scan: &ScanStatus,
    discovered: usize,
    filter_label: &str,
    sort_label: &str,
    search_query: &str,
) -> (res: Vec<String>)
    ensures
        res@.map_values(|t: String| t@) == empty_preview_rows(
            *scan,
            discovered as nat,
            filter_label@,
            sort_label@,
            search_query@,
        ),
{
    let res = match scan {
        ScanStatus::Scanning if discovered == 0 => vec![
            String::from_str("Preview"),
            String::from_str("Workspace scan in progress."),
            String::from_str("A repository preview will appear when the first summary arrives."),
        ],
        ScanStatus::Failed { message } => {
            let mut reason = String::from_str("Reason: ");
            reason.append(message.as_str());
            vec![
                String::from_str("Preview"),
                String::from_str("Workspace scan failed."),
                reason,
                String::from_str("Press r to retry."),
            ]
        },
        _ => {
            let mut settings = String::from_str("Filter: ");
            settings.append(filter_label);
            settings.append("  Sort: ");
            settings.append(sort_label);
            let mut search = String::from_str("Search: ");
            if search_query.unicode_len() == 0 {
                search.append("-");
            } else {
                search.append(search_query);
            }
            vec![
                String::from_str("Preview"),
                String::from_str("No repositories are currently visible."),
                settings,
                search,
            ]
        },
    };
    proof {
        assert(res@.map_values(|t: String| t@) =~= empty_preview_rows(
            *scan,
            discovered as nat,
            filter_label@,
            sort_label@,
            search_query@,
        ));
    }
    res
}

} // verus!
