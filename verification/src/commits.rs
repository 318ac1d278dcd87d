use vstd::prelude::*;

use crate::diff::{
    first_pos, lemma_first_pos, position_of, repo_diff_lines, selected_hunk_readable, status_diff_rows, DiffLine,
    DiffModel,
};
use crate::labels::{
    file_status_kind_label, file_status_text, history_operation_state_line, merge_state_text,
    FileStatusKind, MergeState,
};
use crate::model::{CommitSubviewMode, RepoSubview};
use crate::text::{
    commit_context_text, comparison_status_line, comparison_text, decimal, filter_summary_shown,
    filter_summary_text, lines_view, push_decimal, push_line, repo_commit_context_line,
    repo_filter_summary_line, truncate_lines, truncated_lines, CommitHistoryMode, ComparisonTarget,
    LineTone, StyledLine,
};

verus! {

/// A file that a commit changed.
#[derive(Clone, Debug, PartialEq, Eq)]
pub struct ChangedFile {
    pub kind: FileStatusKind,
    pub path: String,
}

/// A commit of the history, with its changed files and its patch.
#[derive(Clone, Debug, PartialEq, Eq)]
pub struct CommitItem {
    pub short_oid: String,
    pub summary: String,
    pub changed_files: Vec<ChangedFile>,
    pub diff_lines: Vec<DiffLine>,
}

/// The commit marked for a later cherry-pick.
#[derive(Clone, Debug, PartialEq, Eq)]
pub struct CopiedCommit {
    pub short_oid: String,
    pub summary: String,
}

/// What the commits subview reads of repository mode.
#[derive(Clone, Debug, PartialEq, Eq)]
pub struct CommitPane {
    pub history_mode: CommitHistoryMode,
    pub history_ref: Option<String>,
    pub filter_query: String,
    pub filter_focused: bool,
    pub selected_index: Option<usize>,
    pub subview_mode: CommitSubviewMode,
    pub comparison_base: Option<ComparisonTarget>,
    pub comparison_target: Option<ComparisonTarget>,
    pub comparison_source: Option<RepoSubview>,
    pub copied_commit: Option<CopiedCommit>,
}

/// The loaded history of a repository.
#[derive(Clone, Debug, PartialEq, Eq)]
pub struct CommitHistory {
    pub commits: Vec<CommitItem>,
    /// The graph row of each commit, by index.
    pub graph_lines: Vec<String>,
    pub merge_state: MergeState,
}

/// What the commits subview shows: its lines, or the file list of a commit.
#[derive(Clone, Debug, PartialEq, Eq)]
pub enum CommitPaneLines {
    Lines(Vec<StyledLine>),
    Files { commit_index: usize },
}

/// The heading of the subview.
pub open spec fn history_title(graph: bool) -> Seq<char> {
    if graph {
        "Commit graph"@
    } else {
        "Commit history"@
    }
}

/// The selected commit: the selection when the filter keeps it, else the first kept one.
pub open spec fn selected_commit(pane: CommitPane, visible: Seq<usize>) -> usize {
    match pane.selected_index {
        Some(i) => if visible.contains(i) {
            i
        } else {
            visible[0]
        },
        None => visible[0],
    }
}

/// The plain text of a commit: its short id and summary.
pub open spec fn commit_row(c: CommitItem) -> Seq<char> {
    c.short_oid@ + " "@ + c.summary@
}

/// The row of the commit at index `i` in the history window: marked when selected, the
/// graph row in graph mode when there is one.
pub open spec fn window_row(h: CommitHistory, graph: bool, selected: usize, i: usize) -> (Seq<char>, LineTone) {
    let prefix = if i == selected {
        ">"@
    } else {
        " "@
    };
    let row = if graph && i < h.graph_lines.len() {
        h.graph_lines@[i as int]@
    } else {
        commit_row(h.commits@[i as int])
    };
    (prefix + " "@ + row, LineTone::Plain)
}

/// A changed file after a prefix: its status letter and path.
pub open spec fn file_row(prefix: Seq<char>, f: ChangedFile) -> (Seq<char>, LineTone) {
    (prefix + file_status_text(f.kind) + " "@ + f.path@, LineTone::Plain)
}

/// The changed files of the selected commit: the first six, and how many more there are.
pub open spec fn file_rows(files: Seq<ChangedFile>) -> Seq<(Seq<char>, LineTone)> {
    if files.len() == 0 {
        seq![("Files: (no changed files reported)"@, LineTone::Plain)]
    } else {
        let more: nat = if files.len() - 1 < 5 {
            (files.len() - 1) as nat
        } else {
            5
        };
        seq![file_row("Files: "@, files[0])] + Seq::new(more, |i: int| file_row("       "@, files[i + 1]))
            + if files.len() > 6 {
            seq![("       … "@ + decimal((files.len() - 6) as nat) + " more file(s)"@, LineTone::Plain)]
        } else {
            Seq::empty()
        }
    }
}

/// The lines of the commits subview above its history window.
pub open spec fn commit_head_rows(
    pane: CommitPane,
    h: CommitHistory,
    visible: Seq<usize>,
) -> Seq<(Seq<char>, LineTone)> {
    let sel = selected_commit(pane, visible);
    let pos = first_pos(visible, sel);
    let c = h.commits@[sel as int];
    let graph = pane.history_mode is Graph;
    seq![
        (
            "Selected "@ + decimal((pos + 1) as nat) + "/"@ + decimal(visible.len()) + "  "@ + c.short_oid@
                + "  "@ + c.summary@,
            LineTone::Heading,
        ),
        (
            comparison_text(
                RepoSubview::Commits,
                pane.comparison_base,
                pane.comparison_target,
                pane.comparison_source,
            ),
            LineTone::Plain,
        ),
        (merge_state_text(h.merge_state), LineTone::Plain),
        match pane.copied_commit {
            Some(cc) => (
                "Copied for cherry-pick: "@ + cc.short_oid@ + " "@ + cc.summary@ + "  V paste  Ctrl+R clear"@,
                LineTone::Success,
            ),
            None => (""@, LineTone::Plain),
        },
        (
            commit_context_text(
                graph || pane.history_ref is Some,
                pane.filter_query@,
                pane.filter_focused,
                visible.len(),
                h.commits.len() as nat,
            ),
            LineTone::Plain,
        ),
        ("Actions: Enter files  Space checkout  n branch  T tag  b bisect  i rebase"@, LineTone::Plain),
        ("         A amend  f fixup menu  F fixup  g apply-fixups  s squash  d drop"@, LineTone::Plain),
        (
            "         Ctrl+K/Ctrl+J move  r reword  R reword editor  y copy menu  C copy  V paste copied  t revert  S soft  M mixed  H hard  m menu"@,
            LineTone::Plain,
        ),
        ("History:"@, LineTone::Plain),
    ]
}

/// The history window: the selected commit, the one before it and the one after it (three
/// kept commits from the one before the selection, fewer at the end of the list).
pub open spec fn window_rows(pane: CommitPane, h: CommitHistory, visible: Seq<usize>) -> Seq<(Seq<char>, LineTone)> {
    let sel = selected_commit(pane, visible);
    let pos = first_pos(visible, sel);
    let start = if pos >= 1 {
        pos - 1
    } else {
        0
    };
    let end = if start + 3 < visible.len() {
        start + 3
    } else {
        visible.len() as int
    };
    Seq::new(
        (end - start) as nat,
        |i: int| window_row(h, pane.history_mode is Graph, sel, visible[start + i]),
    )
}

/// The lines of the commits subview with the selected commit's files and patch, before
/// they are cut to the viewport: the patch fills what the viewport leaves, at least one line.
pub open spec fn commit_body_rows(
    pane: CommitPane,
    h: CommitHistory,
    visible: Seq<usize>,
    viewport: nat,
) -> Seq<(Seq<char>, LineTone)> {
    let c = h.commits@[selected_commit(pane, visible) as int];
    let body = commit_head_rows(pane, h, visible) + window_rows(pane, h, visible) + file_rows(
        c.changed_files@,
    ) + seq![("Preview:"@, LineTone::Plain)];
    if c.diff_lines.len() == 0 {
        body.push(("No patch preview available for this commit."@, LineTone::Plain))
    } else {
        let remaining: nat = if viewport > body.len() + 1 {
            (viewport - body.len()) as nat
        } else {
            1
        };
        let shown: nat = if remaining < c.diff_lines.len() {
            remaining
        } else {
            c.diff_lines.len() as nat
        };
        body + Seq::new(
            shown,
            |i: int| (c.diff_lines@[i].content@, LineTone::Diff(c.diff_lines@[i].kind)),
        )
    }
}

/// The lines of the commits subview: a loading note without a history, the filter and a
/// note when the filter keeps no commit, else the body cut to the viewport (at least one
/// line).
pub open spec fn commit_lines_spec(
    pane: CommitPane,
    history: Option<CommitHistory>,
    visible: Seq<usize>,
    viewport: nat,
) -> Seq<(Seq<char>, LineTone)> {
    let graph = pane.history_mode is Graph;
    match history {
        None => seq![
            (history_title(graph), LineTone::Heading),
            ("Repository detail is still loading."@, LineTone::Plain),
        ],
        Some(h) => if visible.len() == 0 {
            seq![
                (history_title(graph), LineTone::Heading),
                (
                    if filter_summary_shown(pane.filter_query@, pane.filter_focused) {
                        filter_summary_text(pane.filter_query@, pane.filter_focused, 0, h.commits.len() as nat)
                    } else {
                        ""@
                    },
                    LineTone::Plain,
                ),
                (
                    if h.commits.len() == 0 {
                        "No commits available for this repository."@
                    } else {
                        "No commits match /"@ + pane.filter_query@ + "."@
                    },
                    LineTone::Plain,
                ),
            ]
        } else {
            truncated_lines(
                commit_body_rows(pane, h, visible, viewport),
                if viewport >= 1 {
                    viewport
                } else {
                    1
                },
            )
        },
    }
}

/// The filter keeps the indices of commits, in list order without repeats.
pub open spec fn valid_visible(visible: Seq<usize>, count: nat) -> bool {
    &&& forall|a: int| 0 <= a < visible.len() ==> visible[a] < count
    &&& forall|a: int, b: int| 0 <= a < b < visible.len() ==> visible[a] < visible[b]
}

fn push_window(
    lines: &mut Vec<StyledLine>,
    pane: &CommitPane,
    h: &CommitHistory,
    visible: &Vec<usize>,
    selected: usize,
    start: usize,
    end: usize,
)
    requires
        start <= end <= visible.len(),
        valid_visible(visible@, h.commits.len() as nat),
        selected == selected_commit(*pane, visible@),
        visible.len() > 0,
        start == (if first_pos(visible@, selected) >= 1 {
            first_pos(visible@, selected) - 1
        } else {
            0
        }),
        end == (if start + 3 < visible.len() {
            start + 3
        } else {
            visible.len() as int
        }),
    ensures
        lines_view(final(lines)@) == lines_view(old(lines)@) + window_rows(*pane, *h, visible@),
{
    let graph = match pane.history_mode {
        CommitHistoryMode::Graph { .. } => true,
        CommitHistoryMode::Linear => false,
    };
    let ghost base = lines_view(lines@);
    let ghost f = |i: int| window_row(*h, pane.history_mode is Graph, selected, visible@[start + i]);
    let mut k = start;
    proof {
        assert(base + Seq::new(0, f) =~= base);
    }
    while k < end
        invariant
            start <= k <= end,
            end <= visible.len(),
            valid_visible(visible@, h.commits.len() as nat),
            graph == pane.history_mode is Graph,
            f == (|i: int| window_row(*h, pane.history_mode is Graph, selected, visible@[start + i])),
            lines_view(lines@) == base + Seq::new((k - start) as nat, f),
        decreases end - k,
    {
        let index = visible[k];
        let c = &h.commits[index];
        let mut text = if index == selected {
            String::from_str(">")
        } else {
            String::from_str(" ")
        };
        text.append(" ");
        if graph && index < h.graph_lines.len() {
            text.append(h.graph_lines[index].as_str());
        } else {
            text.append(c.short_oid.as_str());
            text.append(" ");
            text.append(c.summary.as_str());
        }
        proof {
            assert(visible@[start + (k - start)] == index);
            assert(text@ == window_row(*h, pane.history_mode is Graph, selected, index).0);
            assert((text@, LineTone::Plain) == f(k - start));
        }
        push_line(lines, text, LineTone::Plain);
        proof {
            assert(base + Seq::new((k + 1 - start) as nat, f) =~= (base + Seq::new((k - start) as nat, f)).push(
                f(k - start),
            ));
        }
        k = k + 1;
    }
}

fn file_row_text(prefix: &str, f: &ChangedFile) -> (res: String)
    ensures
        (res@, LineTone::Plain) == file_row(prefix@, *f),
{
    let mut s = String::from_str(prefix);
    s.append(file_status_kind_label(f.kind));
    s.append(" ");
    s.append(f.path.as_str());
    s
}

fn push_files(lines: &mut Vec<StyledLine>, files: &Vec<ChangedFile>)
    ensures
        lines_view(final(lines)@) == lines_view(old(lines)@) + file_rows(files@),
{
    let ghost base = lines_view(lines@);
    if files.len() == 0 {
        push_line(lines, String::from_str("Files: (no changed files reported)"), LineTone::Plain);
        proof {
            assert(lines_view(lines@) =~= base + file_rows(files@));
        }
        return;
    }
    push_line(lines, file_row_text("Files: ", &files[0]), LineTone::Plain);
    let more: usize = if files.len() - 1 < 5 {
        files.len() - 1
    } else {
        5
    };
    let ghost f = |i: int| file_row("       "@, files@[i + 1]);
    let mut k: usize = 0;
    proof {
        assert(base + seq![file_row("Files: "@, files@[0])] + Seq::new(0, f) =~= lines_view(lines@));
    }
    while k < more
        invariant
            k <= more,
            more < files.len(),
            f == (|i: int| file_row("       "@, files@[i + 1])),
            lines_view(lines@) == base + seq![file_row("Files: "@, files@[0])] + Seq::new(k as nat, f),
        decreases more - k,
    {
        push_line(lines, file_row_text("       ", &files[k + 1]), LineTone::Plain);
        proof {
            assert(base + seq![file_row("Files: "@, files@[0])] + Seq::new((k + 1) as nat, f) =~= (base
                + seq![file_row("Files: "@, files@[0])] + Seq::new(k as nat, f)).push(f(k as int)));
        }
        k = k + 1;
    }
    let ghost before_more = lines_view(lines@);
    if files.len() > 6 {
        let mut text = String::from_str("       … ");
        push_decimal(&mut text, (files.len() - 6) as u64);
        text.append(" more file(s)");
        push_line(lines, text, LineTone::Plain);
    }
    proof {
        assert(lines_view(lines@) =~= base + file_rows(files@));
    }
}

fn push_preview(lines: &mut Vec<StyledLine>, diff: &Vec<DiffLine>, viewport_lines: usize)
    ensures
        ({
            let body = lines_view(old(lines)@);
            lines_view(final(lines)@) == if diff.len() == 0 {
                body.push(("No patch preview available for this commit."@, LineTone::Plain))
            } else {
                let remaining: nat = if viewport_lines > body.len() + 1 {
                    (viewport_lines - body.len()) as nat
                } else {
                    1
                };
                let shown: nat = if remaining < diff.len() {
                    remaining
                } else {
                    diff.len() as nat
                };
                body + Seq::new(shown, |i: int| (diff@[i].content@, LineTone::Diff(diff@[i].kind)))
            }
        }),
{
    if diff.len() == 0 {
        push_line(lines, String::from_str("No patch preview available for this commit."), LineTone::Plain);
        return;
    }
    let ghost base = lines_view(lines@);
    let remaining: usize = if viewport_lines > 1 && viewport_lines - 1 > lines.len() {
        viewport_lines - lines.len()
    } else {
        1
    };
    let shown: usize = if remaining < diff.len() {
        remaining
    } else {
        diff.len()
    };
    let ghost f = |i: int| (diff@[i].content@, LineTone::Diff(diff@[i].kind));
    let mut k: usize = 0;
    proof {
        assert(base + Seq::new(0, f) =~= base);
    }
    while k < shown
        invariant
            k <= shown,
            shown <= diff.len(),
            f == (|i: int| (diff@[i].content@, LineTone::Diff(diff@[i].kind))),
            lines_view(lines@) == base + Seq::new(k as nat, f),
        decreases shown - k,
    {
        push_line(lines, diff[k].content.clone(), LineTone::Diff(diff[k].kind));
        proof {
            assert(base + Seq::new((k + 1) as nat, f) =~= (base + Seq::new(k as nat, f)).push(f(k as int)));
        }
        k = k + 1;
    }
}

#[verifier::rlimit(50)]
fn commit_head_lines(
    pane: &CommitPane,
    h: &CommitHistory,
    visible: &Vec<usize>,
    selected: usize,
    pos: usize,
) -> (lines: Vec<StyledLine>)
    requires
        visible.len() > 0,
        valid_visible(visible@, h.commits.len() as nat),
        selected == selected_commit(*pane, visible@),
        pos == first_pos(visible@, selected),
        pos < visible.len(),
    ensures
        lines_view(lines@) == commit_head_rows(*pane, *h, visible@),
{
    let mut lines: Vec<StyledLine> = Vec::new();
    let c = &h.commits[selected];
    let mut heading = String::from_str("Selected ");
    push_decimal(&mut heading, (pos + 1) as u64);
    heading.append("/");
    push_decimal(&mut heading, visible.len() as u64);
    heading.append("  ");
    heading.append(c.short_oid.as_str());
    heading.append("  ");
    heading.append(c.summary.as_str());
    push_line(&mut lines, heading, LineTone::Heading);
    push_line(
        &mut lines,
        comparison_status_line(
            RepoSubview::Commits,
            pane.comparison_base.as_ref(),
            pane.comparison_target.as_ref(),
            pane.comparison_source,
        ),
        LineTone::Plain,
    );
    push_line(&mut lines, history_operation_state_line(h.merge_state), LineTone::Plain);
    match &pane.copied_commit {
        Some(cc) => {
            let mut t = String::from_str("Copied for cherry-pick: ");
            t.append(cc.short_oid.as_str());
            t.append(" ");
            t.append(cc.summary.as_str());
            t.append("  V paste  Ctrl+R clear");
            push_line(&mut lines, t, LineTone::Success);
        },
        None => push_line(&mut lines, String::new(), LineTone::Plain),
    }
    let history_ref = match &pane.history_ref {
        Some(r) => Some(r.as_str()),
        None => None,
    };
    push_line(
        &mut lines,
        repo_commit_context_line(
            pane.history_mode,
            history_ref,
            pane.filter_query.as_str(),
            pane.filter_focused,
            visible.len(),
            h.commits.len(),
        ),
        LineTone::Plain,
    );
    push_line(
        &mut lines,
        String::from_str("Actions: Enter files  Space checkout  n branch  T tag  b bisect  i rebase"),
        LineTone::Plain,
    );
    push_line(
        &mut lines,
        String::from_str("         A amend  f fixup menu  F fixup  g apply-fixups  s squash  d drop"),
        LineTone::Plain,
    );
    push_line(
        &mut lines,
        String::from_str(
            "         Ctrl+K/Ctrl+J move  r reword  R reword editor  y copy menu  C copy  V paste copied  t revert  S soft  M mixed  H hard  m menu",
        ),
        LineTone::Plain,
    );
    push_line(&mut lines, String::from_str("History:"), LineTone::Plain);
    proof {
        reveal_strlit("");
        assert(lines_view(lines@) =~~= commit_head_rows(*pane, *h, visible@));
    }
    lines
}

/// The lines of the commits subview (see `commit_lines_spec`), or, in the files mode with a
/// commit selected, the index of the commit whose files are shown. `visible` holds the
/// indices of the commits that the filter keeps.
#[verifier::rlimit(50)]
pub fn repo_commit_lines(
    pane: &CommitPane,
    history: Option<&CommitHistory>,
    visible: &Vec<usize>,
    viewport_lines: usize,
) -> (res: CommitPaneLines)
    requires
        history matches Some(h) ==> valid_visible(visible@, h.commits.len() as nat),
    ensures
        ({
            let spec_history = match history {
                Some(h) => Some(*h),
                None => None,
            };
            match res {
                CommitPaneLines::Files { commit_index } => {
                    &&& history is Some
                    &&& visible.len() > 0
                    &&& pane.subview_mode == CommitSubviewMode::Files
                    &&& commit_index == selected_commit(*pane, visible@)
                },
                CommitPaneLines::Lines(lines) => {
                    &&& !(history is Some && visible.len() > 0 && pane.subview_mode
                        == CommitSubviewMode::Files)
                    &&& lines_view(lines@) == commit_lines_spec(
                        *pane,
                        spec_history,
                        visible@,
                        viewport_lines as nat,
                    )
                },
            }
        }),
{
    let graph = match pane.history_mode {
        CommitHistoryMode::Graph { .. } => true,
        CommitHistoryMode::Linear => false,
    };
    let mut lines: Vec<StyledLine> = Vec::new();
    let title = if graph {
        String::from_str("Commit graph")
    } else {
        String::from_str("Commit history")
    };
    let h = match history {
        Some(h) => h,
        None => {
            push_line(&mut lines, title, LineTone::Heading);
            push_line(&mut lines, String::from_str("Repository detail is still loading."), LineTone::Plain);
            proof {
                assert(lines_view(lines@) =~~= commit_lines_spec(*pane, None, visible@, viewport_lines as nat));
            }
            return CommitPaneLines::Lines(lines);
        },
    };
    if visible.len() == 0 {
        push_line(&mut lines, title, LineTone::Heading);
        let summary = match repo_filter_summary_line(
            pane.filter_query.as_str(),
            pane.filter_focused,
            0,
            h.commits.len(),
        ) {
            Some(line) => line,
            None => String::new(),
        };
        push_line(&mut lines, summary, LineTone::Plain);
        let note = if h.commits.len() == 0 {
            String::from_str("No commits available for this repository.")
        } else {
            let mut t = String::from_str("No commits match /");
            t.append(pane.filter_query.as_str());
            t.append(".");
            t
        };
        push_line(&mut lines, note, LineTone::Plain);
        proof {
            reveal_strlit("");
            assert(lines_view(lines@) =~~= commit_lines_spec(*pane, Some(*h), visible@, viewport_lines as nat));
        }
        return CommitPaneLines::Lines(lines);
    }
    let selected: usize = match pane.selected_index {
        Some(i) => match position_of(visible, i) {
            Some(_) => i,
            None => visible[0],
        },
        None => visible[0],
    };
    proof {
        if let Some(i) = pane.selected_index {
            lemma_first_pos(visible@, i);
        }
        lemma_first_pos(visible@, selected);
        assert(visible@.contains(visible@[0]));
    }
    let pos = match position_of(visible, selected) {
        Some(p) => p,
        None => 0,
    };
    match pane.subview_mode {
        CommitSubviewMode::Files => {
            return CommitPaneLines::Files { commit_index: selected };
        },
        CommitSubviewMode::History => {},
    }
    let mut lines = commit_head_lines(pane, h, visible, selected, pos);
    let c = &h.commits[selected];
    let start: usize = if pos >= 1 {
        pos - 1
    } else {
        0
    };
    let end: usize = if visible.len() - start > 3 {
        start + 3
    } else {
        visible.len()
    };
    push_window(&mut lines, pane, h, visible, selected, start, end);
    push_files(&mut lines, &c.changed_files);
    push_line(&mut lines, String::from_str("Preview:"), LineTone::Plain);
    push_preview(&mut lines, &c.diff_lines, viewport_lines);
    proof {
        assert(lines_view(lines@) =~= commit_body_rows(*pane, *h, visible@, viewport_lines as nat));
    }
    let limit = if viewport_lines >= 1 {
        viewport_lines
    } else {
        1
    };
    truncate_lines(&mut lines, limit);
    CommitPaneLines::Lines(lines)
}

/// What the file list of a commit reads of repository mode: its own filter and selection.
#[derive(Clone, Debug, PartialEq, Eq)]
pub struct CommitFilesPane {
    pub filter_query: String,
    pub filter_focused: bool,
    pub selected_index: Option<usize>,
}

/// The selected file: the selection when the filter keeps it, else the first kept one.
pub open spec fn selected_file(files: CommitFilesPane, visible: Seq<usize>) -> usize {
    match files.selected_index {
        Some(i) => if visible.contains(i) {
            i
        } else {
            visible[0]
        },
        None => visible[0],
    }
}

/// The lines of the file list above its rows.
pub open spec fn file_list_head(
    pane: CommitPane,
    files: CommitFilesPane,
    c: CommitItem,
    visible: Seq<usize>,
) -> Seq<(Seq<char>, LineTone)> {
    seq![
        ("Commit files  "@ + c.short_oid@ + "  "@ + c.summary@, LineTone::Heading),
        (
            comparison_text(
                RepoSubview::Commits,
                pane.comparison_base,
                pane.comparison_target,
                pane.comparison_source,
            ),
            LineTone::Plain,
        ),
    ] + if filter_summary_shown(files.filter_query@, files.filter_focused) {
        seq![
            (
                filter_summary_text(
                    files.filter_query@,
                    files.filter_focused,
                    visible.len(),
                    c.changed_files.len() as nat,
                ),
                LineTone::Plain,
            ),
        ]
    } else {
        Seq::empty()
    } + seq![
        ("Context: Enter file diff. Left/backspace history. Space checkout file."@, LineTone::Plain),
        ("Actions: e editor. y copy path. o open. Ctrl+T difftool. 0 main. / filter. w worktrees."@, LineTone::Plain),
        (""@, LineTone::Plain),
    ]
}

/// The file list of a commit: its heading and keys, then the kept files with the selected
/// one marked (or a note when the filter keeps none), cut to the viewport (at least one line).
pub open spec fn file_list_spec(
    pane: CommitPane,
    files: CommitFilesPane,
    c: CommitItem,
    visible: Seq<usize>,
    viewport: nat,
) -> Seq<(Seq<char>, LineTone)> {
    let head = file_list_head(pane, files, c, visible);
    let limit: nat = if viewport >= 1 {
        viewport
    } else {
        1
    };
    if visible.len() == 0 {
        truncated_lines(
            head.push(
                (
                    if c.changed_files.len() == 0 {
                        "No changed files were reported for this commit."@
                    } else {
                        "No changed files match /"@ + files.filter_query@ + "."@
                    },
                    LineTone::Plain,
                ),
            ),
            limit,
        )
    } else {
        let sel = selected_file(files, visible);
        truncated_lines(
            head + Seq::new(
                visible.len(),
                |i: int|
                    file_row(
                        (if visible[i] == sel {
                            ">"@
                        } else {
                            " "@
                        }) + " "@,
                        c.changed_files@[visible[i] as int],
                    ),
            ),
            limit,
        )
    }
}

/// The file list of the selected commit (see `file_list_spec`); `visible` holds the indices
/// of the files that the filter keeps.
#[verifier::rlimit(50)]
pub fn repo_commit_file_list_lines(
    pane: &CommitPane,
    files: &CommitFilesPane,
    selected_commit: &CommitItem,
    visible: &Vec<usize>,
    viewport_lines: usize,
) -> (lines: Vec<StyledLine>)
    requires
        valid_visible(visible@, selected_commit.changed_files.len() as nat),
    ensures
        lines_view(lines@) == file_list_spec(*pane, *files, *selected_commit, visible@, viewport_lines as nat),
{
    let c = selected_commit;
    let mut lines: Vec<StyledLine> = Vec::new();
    let mut heading = String::from_str("Commit files  ");
    heading.append(c.short_oid.as_str());
    heading.append("  ");
    heading.append(c.summary.as_str());
    push_line(&mut lines, heading, LineTone::Heading);
    push_line(
        &mut lines,
        comparison_status_line(
            RepoSubview::Commits,
            pane.comparison_base.as_ref(),
            pane.comparison_target.as_ref(),
            pane.comparison_source,
        ),
        LineTone::Plain,
    );
    let ghost two = lines_view(lines@);
    match repo_filter_summary_line(
        files.filter_query.as_str(),
        files.filter_focused,
        visible.len(),
        c.changed_files.len(),
    ) {
        Some(line) => push_line(&mut lines, line, LineTone::Plain),
        None => {},
    }
    push_line(
        &mut lines,
        String::from_str("Context: Enter file diff. Left/backspace history. Space checkout file."),
        LineTone::Plain,
    );
    push_line(
        &mut lines,
        String::from_str("Actions: e editor. y copy path. o open. Ctrl+T difftool. 0 main. / filter. w worktrees."),
        LineTone::Plain,
    );
    push_line(&mut lines, String::new(), LineTone::Plain);
    proof {
        reveal_strlit("");
        assert(lines_view(lines@) =~~= file_list_head(*pane, *files, *c, visible@));
    }
    let limit = if viewport_lines >= 1 {
        viewport_lines
    } else {
        1
    };
    if visible.len() == 0 {
        let note = if c.changed_files.len() == 0 {
            String::from_str("No changed files were reported for this commit.")
        } else {
            let mut t = String::from_str("No changed files match /");
            t.append(files.filter_query.as_str());
            t.append(".");
            t
        };
        push_line(&mut lines, note, LineTone::Plain);
        truncate_lines(&mut lines, limit);
        return lines;
    }
    let selected: usize = match files.selected_index {
        Some(i) => match position_of(visible, i) {
            Some(_) => i,
            None => visible[0],
        },
        None => visible[0],
    };
    proof {
        if let Some(i) = files.selected_index {
            lemma_first_pos(visible@, i);
        }
    }
    let ghost head = lines_view(lines@);
    let ghost f = |i: int|
        file_row(
            (if visible@[i] == selected {
                ">"@
            } else {
                " "@
            }) + " "@,
            c.changed_files@[visible@[i] as int],
        );
    let mut k: usize = 0;
    proof {
        assert(head + Seq::new(0, f) =~= head);
    }
    while k < visible.len()
        invariant
            k <= visible.len(),
            valid_visible(visible@, c.changed_files.len() as nat),
            f == (|i: int|
                file_row(
                    (if visible@[i] == selected {
                        ">"@
                    } else {
                        " "@
                    }) + " "@,
                    c.changed_files@[visible@[i] as int],
                )),
            lines_view(lines@) == head + Seq::new(k as nat, f),
        decreases visible.len() - k,
    {
        let index = visible[k];
        let mut prefix = if index == selected {
            String::from_str(">")
        } else {
            String::from_str(" ")
        };
        prefix.append(" ");
        let text = file_row_text(prefix.as_str(), &c.changed_files[index]);
        push_line(&mut lines, text, LineTone::Plain);
        proof {
            assert(head + Seq::new((k + 1) as nat, f) =~= (head + Seq::new(k as nat, f)).push(f(k as int)));
        }
        k = k + 1;
    }
    truncate_lines(&mut lines, limit);
    lines
}

/// The file whose diff the commit-file diff shows: the selection when the filter keeps it,
/// else the first kept file, else the first file.
pub open spec fn diff_file_index(files: CommitFilesPane, visible: Seq<usize>) -> usize {
    match files.selected_index {
        Some(i) if visible.contains(i) => i,
        _ => if visible.len() > 0 {
            visible[0]
        } else {
            0
        },
    }
}

/// The diff of a file of a commit: its heading, comparison line, file and keys, then the
/// status diff in what the viewport leaves (at least one line), all cut to the viewport.
pub open spec fn file_diff_spec(
    pane: CommitPane,
    files: CommitFilesPane,
    c: CommitItem,
    visible: Seq<usize>,
    diff: Option<DiffModel>,
    cursor: Option<usize>,
    anchor: Option<usize>,
    merge_clean: bool,
    scroll: nat,
    viewport: nat,
) -> Seq<(Seq<char>, LineTone)> {
    let index = diff_file_index(files, visible);
    let head = seq![
        ("Commit file diff  "@ + c.short_oid@ + "  "@ + c.summary@, LineTone::Heading),
        (
            comparison_text(
                RepoSubview::Commits,
                pane.comparison_base,
                pane.comparison_target,
                pane.comparison_source,
            ),
            LineTone::Plain,
        ),
        (
            "File: "@ + if index < c.changed_files.len() {
                c.changed_files@[index as int].path@
            } else {
                "No file selected"@
            },
            LineTone::Plain,
        ),
        ("Context: Enter files. Space checkout file. e open editor."@, LineTone::Plain),
        ("Inspect: j/k hunks. J/K changed lines. v anchor."@, LineTone::Plain),
        (""@, LineTone::Plain),
    ];
    let remaining: nat = if viewport > 7 {
        (viewport - 6) as nat
    } else {
        1
    };
    truncated_lines(
        head + status_diff_rows(diff, cursor, anchor, merge_clean, scroll, remaining),
        if viewport >= 1 {
            viewport
        } else {
            1
        },
    )
}

/// The diff of the selected file of a commit (see `file_diff_spec`); `visible` holds the
/// indices of the files that the filter keeps, and `diff`, `cursor`, `anchor` and
/// `merge_clean` are what the status diff reads.
#[verifier::rlimit(50)]
pub fn repo_commit_file_diff_lines(
    pane: &CommitPane,
    files: &CommitFilesPane,
    selected_commit: &CommitItem,
    visible: &Vec<usize>,
    diff: Option<&DiffModel>,
    cursor: Option<usize>,
    anchor: Option<usize>,
    merge_clean: bool,
    scroll: usize,
    viewport_lines: usize,
) -> (lines: Vec<StyledLine>)
    requires
        diff matches Some(d) ==> selected_hunk_readable(*d) && d.selected_hunk != Some(usize::MAX),
    ensures
        lines_view(lines@) == file_diff_spec(
            *pane,
            *files,
            *selected_commit,
            visible@,
            match diff {
                Some(d) => Some(*d),
                None => None,
            },
            cursor,
            anchor,
            merge_clean,
            scroll as nat,
            viewport_lines as nat,
        ),
{
    let c = selected_commit;
    let index: usize = match files.selected_index {
        Some(i) => match position_of(visible, i) {
            Some(_) => i,
            None => if visible.len() > 0 {
                visible[0]
            } else {
                0
            },
        },
        None => if visible.len() > 0 {
            visible[0]
        } else {
            0
        },
    };
    proof {
        if let Some(i) = files.selected_index {
            lemma_first_pos(visible@, i);
        }
    }
    let mut lines: Vec<StyledLine> = Vec::new();
    let mut heading = String::from_str("Commit file diff  ");
    heading.append(c.short_oid.as_str());
    heading.append("  ");
    heading.append(c.summary.as_str());
    push_line(&mut lines, heading, LineTone::Heading);
    push_line(
        &mut lines,
        comparison_status_line(
            RepoSubview::Commits,
            pane.comparison_base.as_ref(),
            pane.comparison_target.as_ref(),
            pane.comparison_source,
        ),
        LineTone::Plain,
    );
    let mut file = String::from_str("File: ");
    if index < c.changed_files.len() {
        file.append(c.changed_files[index].path.as_str());
    } else {
        file.append("No file selected");
    }
    push_line(&mut lines, file, LineTone::Plain);
    push_line(&mut lines, String::from_str("Context: Enter files. Space checkout file. e open editor."), LineTone::Plain);
    push_line(&mut lines, String::from_str("Inspect: j/k hunks. J/K changed lines. v anchor."), LineTone::Plain);
    push_line(&mut lines, String::new(), LineTone::Plain);
    proof {
        reveal_strlit("");
    }
    let remaining: usize = if viewport_lines > 7 {
        viewport_lines - 6
    } else {
        1
    };
    let ghost head = lines_view(lines@);
    let body = repo_diff_lines(diff, cursor, anchor, merge_clean, scroll, remaining);
    let mut k: usize = 0;
    while k < body.len()
        invariant
            k <= body.len(),
            lines_view(lines@) == head + lines_view(body@).take(k as int),
        decreases body.len() - k,
    {
        push_line(&mut lines, body[k].text.clone(), body[k].tone);
        proof {
            assert(lines_view(body@).take(k + 1) =~= lines_view(body@).take(k as int).push(
                lines_view(body@)[k as int],
            ));
        }
        k = k + 1;
    }
    proof {
        assert(lines_view(body@).take(body.len() as int) =~= lines_view(body@));
        let spec_diff = match diff {
            Some(d) => Some(*d),
            None => None,
        };
        assert(lines_view(lines@) =~~= head + status_diff_rows(
            spec_diff,
            cursor,
            anchor,
            merge_clean,
            scroll as nat,
            remaining as nat,
        ));
        assert(head =~~= seq![
            ("Commit file diff  "@ + c.short_oid@ + "  "@ + c.summary@, LineTone::Heading),
            (
                comparison_text(
                    RepoSubview::Commits,
                    pane.comparison_base,
                    pane.comparison_target,
                    pane.comparison_source,
                ),
                LineTone::Plain,
            ),
            (
                "File: "@ + if index < c.changed_files.len() {
                    c.changed_files@[index as int].path@
                } else {
                    "No file selected"@
                },
                LineTone::Plain,
            ),
            ("Context: Enter files. Space checkout file. e open editor."@, LineTone::Plain),
            ("Inspect: j/k hunks. J/K changed lines. v anchor."@, LineTone::Plain),
            (""@, LineTone::Plain),
        ]);
    }
    let limit = if viewport_lines >= 1 {
        viewport_lines
    } else {
        1
    };
    truncate_lines(&mut lines, limit);
    lines
}

} // verus!
