use super_lazygit_tui::cells::{fork_remote_suggested_name, pad_cell, stash_message_label, truncate_cell};
use super_lazygit_tui::commits::{
    repo_commit_file_list_lines, repo_commit_lines, ChangedFile, CommitFilesPane, CommitHistory,
    CommitItem, CommitPane, CommitPaneLines, CopiedCommit,
};
use super_lazygit_tui::diff::{
    diff_action_help_line, position_of, repo_diff_lines, selected_diff_line_label, selected_diff_range_label,
    selected_hunk_label, DiffHunk, DiffLine, DiffLineKind, DiffModel,
};
use super_lazygit_tui::labels::{FileStatusKind, MergeState};
use super_lazygit_tui::layout::workspace_table_layout;
use super_lazygit_tui::lists::{sort_by_name, visible_branch_indices, visible_indices, BranchSortMode};
use super_lazygit_tui::model::{CommitSubviewMode, DiffPresentation, RepoSubview};
use super_lazygit_tui::text::{
    comparison_status_line, operation_progress_label, push_decimal, repo_commit_context_line,
    repo_filter_summary_line, workspace_dirty_cell, workspace_fetch_age, workspace_repo_cells,
    workspace_scan_label, CommitHistoryMode, ComparisonTarget, LineTone, OperationProgress,
    RepoSummary, ScanStatus, StyledLine,
};

fn sample_diff() -> DiffModel {
    let line = |kind, content: &str| DiffLine { kind, content: content.to_string() };
    DiffModel {
        selected_path: Some("src/ui/lib.rs".to_string()),
        presentation: DiffPresentation::Unstaged,
        lines: vec![
            line(DiffLineKind::Meta, "diff --git a/src/ui/lib.rs b/src/ui/lib.rs"),
            line(DiffLineKind::Meta, "index 1111111..2222222 100644"),
            line(DiffLineKind::HunkHeader, "@@ -1 +1 @@"),
            line(DiffLineKind::Removal, "-old line"),
            line(DiffLineKind::Addition, "+new line"),
        ],
        hunks: vec![DiffHunk { start_line_index: 2, end_line_index: 5 }],
        selected_hunk: Some(0),
        hunk_count: 1,
    }
}

fn names(list: &[&str]) -> Vec<String> {
    list.iter().map(|n| n.to_string()).collect()
}

#[test]
fn visible_branch_indices_follow_selected_sort_mode() {
    let branches = names(&["main", "feature"]);
    let matches = vec![true, true];
    assert_eq!(visible_branch_indices(&branches, &matches, true, BranchSortMode::Natural), vec![0, 1]);
    assert_eq!(visible_branch_indices(&branches, &matches, true, BranchSortMode::Name), vec![1, 0]);
}

#[test]
fn visible_remote_branch_indices_follow_selected_sort_mode() {
    let branches = names(&["origin/main", "origin/feature"]);
    let matches = vec![true, true];
    assert_eq!(visible_branch_indices(&branches, &matches, true, BranchSortMode::Natural), vec![0, 1]);
    assert_eq!(visible_branch_indices(&branches, &matches, true, BranchSortMode::Name), vec![1, 0]);
}

#[test]
fn filter_keeps_matches_and_name_sort_breaks_ties_by_index() {
    let matches = vec![true, false, true, true];
    assert_eq!(visible_indices(&matches, false), vec![0, 2, 3]);
    assert_eq!(visible_indices(&matches, true), vec![0, 1, 2, 3]);
    let list = names(&["beta", "alpha", "beta", "Beta", "alp"]);
    assert_eq!(sort_by_name(&vec![0, 1, 2, 3, 4], &list), vec![3, 4, 1, 0, 2]);
    assert_eq!(sort_by_name(&vec![2, 0], &list), vec![0, 2]);
    assert_eq!(sort_by_name(&vec![4, 2, 0, 3, 1], &list), vec![3, 4, 1, 0, 2]);
}

#[test]
fn diff_action_help_line_tracks_stage_unstage_and_read_only_modes() {
    let mut diff = sample_diff();
    let line = diff_action_help_line(None, None, &diff, true);
    assert!(line.contains("Enter/Space stage hunk"));
    assert!(line.contains("Mode: working tree staging"));

    assert!(diff_action_help_line(None, None, &diff, false).contains("Mode: merge resolution"));

    diff.presentation = DiffPresentation::Staged;
    let staged = diff_action_help_line(None, None, &diff, false);
    assert!(staged.contains("Enter/Space unstage hunk"));
    assert!(staged.contains("Mode: staged changes"));

    diff.presentation = DiffPresentation::Comparison;
    let read_only = diff_action_help_line(None, None, &diff, true);
    assert!(read_only.contains("Read-only diff"));
    assert!(read_only.contains("Mode: comparison"));
}

#[test]
fn diff_labels_count_selectable_lines() {
    let diff = sample_diff();
    assert_eq!(selected_hunk_label(&diff), "1/1");
    assert_eq!(selected_diff_line_label(None, &diff), "0/2");
    assert_eq!(selected_diff_line_label(Some(4), &diff), "2/2");
    assert_eq!(selected_diff_line_label(Some(2), &diff), "0/2");
    assert_eq!(selected_diff_range_label(None, None, &diff), "0 line(s)");
    assert_eq!(selected_diff_range_label(Some(4), None, &diff), "1 line(s)");
    assert_eq!(selected_diff_range_label(Some(4), Some(3), &diff), "2 line(s)");
    assert_eq!(selected_diff_range_label(Some(3), Some(4), &diff), "2 line(s)");
    let mut none = sample_diff();
    none.selected_hunk = None;
    assert_eq!(selected_hunk_label(&none), "0/0");
    assert_eq!(selected_diff_line_label(Some(4), &none), "0/0");
    assert_eq!(position_of(&vec![5, 7, 5], 5), Some(0));
    assert_eq!(position_of(&vec![5, 7], 9), None);
}

#[test]
fn decimal_and_filter_summary_lines() {
    let mut text = String::from("n=");
    push_decimal(&mut text, 0);
    text.push(',');
    push_decimal(&mut text, 1200);
    assert_eq!(text, "n=0,1200");

    assert_eq!(repo_filter_summary_line("", false, 3, 5), None);
    assert_eq!(repo_filter_summary_line("", true, 3, 5), Some("Filter /_  Matches: 3/5  (focused)".to_string()));
    assert_eq!(repo_filter_summary_line("ma", true, 1, 2), Some("Filter /ma_  Matches: 1/2  (focused)".to_string()));
    assert_eq!(repo_filter_summary_line("ma", false, 1, 2), Some("Filter /ma  Matches: 1/2".to_string()));
}

#[test]
fn render_commit_history_explicit_ref_surfaces_current_branch_shortcut() {
    let with_ref = repo_commit_context_line(CommitHistoryMode::Linear, Some("feature"), "", false, 2, 2);
    assert!(with_ref.contains("3 current branch"));
    let plain = repo_commit_context_line(CommitHistoryMode::Linear, None, "add", false, 1, 2);
    assert!(!plain.contains("3 current branch"));
    assert!(plain.ends_with("  Filter /add  Matches: 1/2"));
    let graph = repo_commit_context_line(CommitHistoryMode::Graph { reverse: false }, None, "", false, 2, 2);
    assert!(graph.contains("3 current branch"));
}

#[test]
fn comparison_and_progress_labels() {
    let base = ComparisonTarget::Branch("main".to_string());
    let target = ComparisonTarget::Commit("abc1234".to_string());
    assert_eq!(
        comparison_status_line(RepoSubview::Branches, Some(&base), Some(&target), Some(RepoSubview::Branches)),
        "Compare: main -> abc1234 (press x to clear)."
    );
    assert_eq!(
        comparison_status_line(RepoSubview::Branches, Some(&base), None, Some(RepoSubview::Branches)),
        "Compare base: main (press v on another item, x clears)."
    );
    assert_eq!(
        comparison_status_line(RepoSubview::Commits, Some(&base), Some(&target), Some(RepoSubview::Branches)),
        "Compare: press v to mark a base."
    );
    assert_eq!(operation_progress_label(&OperationProgress::Idle), "idle");
    assert_eq!(
        operation_progress_label(&OperationProgress::Failed { summary: "push".to_string() }),
        "failed: push"
    );
    assert_eq!(workspace_scan_label(&ScanStatus::Complete { scanned_repos: 12 }), "ready:12");
    assert_eq!(
        workspace_scan_label(&ScanStatus::Failed { message: "permission denied while scanning".to_string() }),
        "failed:permission deni..."
    );
}

fn summary() -> RepoSummary {
    RepoSummary {
        display_name: "repo-1".to_string(),
        display_path: "/tmp/repo-1".to_string(),
        branch: Some("main".to_string()),
        dirty: true,
        conflicted: false,
        staged_count: 1,
        unstaged_count: 2,
        untracked_count: 3,
        ahead_count: 4,
        behind_count: 1,
        last_fetch_at: Some(60),
        last_refresh_at: Some(180),
        last_error: None,
        remote_name: Some("origin".to_string()),
        tracking_branch: None,
    }
}

#[test]
fn render_workspace_shell_shows_status_and_help() {
    let s = summary();
    assert_eq!(workspace_dirty_cell(&s, true), "1/2/3 +4/-1");
    assert_eq!(workspace_dirty_cell(&s, false), "1S 2U 3?");
    assert_eq!(workspace_fetch_age(&s), "2m");
}

#[test]
fn workspace_cells_cover_errors_ages_and_pending_rows() {
    let mut s = summary();
    s.last_error = Some("boom".to_string());
    assert_eq!(workspace_dirty_cell(&s, true), "error");
    s.last_error = None;
    s.dirty = false;
    assert_eq!(workspace_dirty_cell(&s, true), "clean +0/-0");
    assert_eq!(workspace_dirty_cell(&s, false), "clean");
    s.last_refresh_at = Some(60 + 7200);
    assert_eq!(workspace_fetch_age(&s), "2h");
    s.last_refresh_at = Some(30);
    assert_eq!(workspace_fetch_age(&s), "0s");
    s.last_refresh_at = None;
    assert_eq!(workspace_fetch_age(&s), "0s");
    s.last_refresh_at = Some(60 + 3 * 86_400);
    assert_eq!(workspace_fetch_age(&s), "3d");
    s.last_fetch_at = None;
    assert_eq!(workspace_fetch_age(&s), "never");

    let layout = workspace_table_layout(120);
    let cells = workspace_repo_cells("repo-9", None, true, layout);
    assert_eq!(cells.prefix, "> ");
    assert!(cells.name.starts_with("repo-9"));
    assert!(cells.branch.starts_with("detached"));
    assert!(cells.dirty.starts_with("pending"));
    assert!(cells.fetch.starts_with("pending"));
    let row = workspace_repo_cells("repo-1", Some(&summary()), false, layout);
    assert_eq!(row.prefix, "  ");
    assert_eq!(row.name.chars().count(), layout.name_width - 2);
    match (row.sync, layout.sync_width) {
        (Some(cell), Some(width)) => {
            assert!(cell.starts_with("+4/-1"));
            assert_eq!(cell.chars().count(), width);
        }
        (None, None) => assert!(row.dirty.starts_with("1S 2U 3?")),
        _ => panic!("sync cell follows the layout"),
    }
}

#[test]
fn cells_pad_truncate_and_suggest_names() {
    assert_eq!(pad_cell("abc", 5), "abc  ");
    assert_eq!(pad_cell("abcdefgh", 5), "ab...");
    assert_eq!(truncate_cell("abcdef", 2), "..");
    assert_eq!(fork_remote_suggested_name("origin"), "upstream");
    assert_eq!(fork_remote_suggested_name("team"), "team-fork");
    assert_eq!(stash_message_label("stash@{0}: On main: wip"), "wip");
}

fn commit(oid: &str, summary: &str, files: usize, diff: usize) -> CommitItem {
    CommitItem {
        short_oid: oid.to_string(),
        summary: summary.to_string(),
        changed_files: (0..files)
            .map(|i| ChangedFile { kind: FileStatusKind::Modified, path: format!("src/f{i}.rs") })
            .collect(),
        diff_lines: (0..diff)
            .map(|i| DiffLine { kind: DiffLineKind::Addition, content: format!("+line {i}") })
            .collect(),
    }
}

fn pane() -> CommitPane {
    CommitPane {
        history_mode: CommitHistoryMode::Linear,
        history_ref: None,
        filter_query: String::new(),
        filter_focused: false,
        selected_index: Some(1),
        subview_mode: CommitSubviewMode::History,
        comparison_base: None,
        comparison_target: None,
        comparison_source: None,
        copied_commit: None,
    }
}

fn texts(lines: &[StyledLine]) -> Vec<String> {
    lines.iter().map(|line| line.text.clone()).collect()
}

#[test]
fn render_repo_shell_shows_commit_history_preview() {
    let history = CommitHistory {
        commits: vec![commit("1111111", "first", 1, 0), commit("2222222", "second", 8, 3), commit("3333333", "third", 0, 0)],
        graph_lines: Vec::new(),
        merge_state: MergeState::Clean,
    };
    let result = repo_commit_lines(&pane(), Some(&history), &vec![0, 1, 2], 40);
    let lines = match result {
        CommitPaneLines::Lines(lines) => lines,
        CommitPaneLines::Files { .. } => panic!("history mode shows lines"),
    };
    let text = texts(&lines);
    assert_eq!(text[0], "Selected 2/3  2222222  second");
    assert_eq!(lines[0].tone, LineTone::Heading);
    assert_eq!(text[2], "State: idle");
    assert_eq!(text[8], "History:");
    assert_eq!(text[9], "  1111111 first");
    assert_eq!(text[10], "> 2222222 second");
    assert_eq!(text[11], "  3333333 third");
    assert_eq!(text[12], "Files: M src/f0.rs");
    assert_eq!(text[17], "       M src/f5.rs");
    assert_eq!(text[18], "       … 2 more file(s)");
    assert_eq!(text[19], "Preview:");
    assert_eq!(text[20], "+line 0");
    assert_eq!(lines[20].tone, LineTone::Diff(DiffLineKind::Addition));
    assert_eq!(lines.len(), 23);

    let short = match repo_commit_lines(&pane(), Some(&history), &vec![0, 1, 2], 5) {
        CommitPaneLines::Lines(lines) => lines,
        CommitPaneLines::Files { .. } => panic!("history mode shows lines"),
    };
    assert_eq!(short.len(), 5);
}

#[test]
fn render_repo_shell_shows_commit_history_operation_state() {
    let history = CommitHistory {
        commits: vec![commit("1111111", "first", 0, 0)],
        graph_lines: vec!["* 1111111 first (graph)".to_string()],
        merge_state: MergeState::RebaseInProgress,
    };
    let mut graph_pane = pane();
    graph_pane.history_mode = CommitHistoryMode::Graph { reverse: false };
    graph_pane.copied_commit = Some(CopiedCommit { short_oid: "9999999".to_string(), summary: "other".to_string() });
    let lines = match repo_commit_lines(&graph_pane, Some(&history), &vec![0], 30) {
        CommitPaneLines::Lines(lines) => lines,
        CommitPaneLines::Files { .. } => panic!("history mode shows lines"),
    };
    let text = texts(&lines);
    assert_eq!(text[0], "Selected 1/1  1111111  first");
    assert_eq!(text[2], "State: rebase in progress");
    assert_eq!(text[3], "Copied for cherry-pick: 9999999 other  V paste  Ctrl+R clear");
    assert_eq!(lines[3].tone, LineTone::Success);
    assert_eq!(text[9], "> * 1111111 first (graph)");
    assert_eq!(text[10], "Files: (no changed files reported)");
    assert_eq!(text[12], "No patch preview available for this commit.");
}

#[test]
fn commit_pane_edge_states() {
    let loading = match repo_commit_lines(&pane(), None, &Vec::new(), 10) {
        CommitPaneLines::Lines(lines) => texts(&lines),
        CommitPaneLines::Files { .. } => panic!("no history"),
    };
    assert_eq!(loading, vec!["Commit history".to_string(), "Repository detail is still loading.".to_string()]);

    let history = CommitHistory { commits: vec![commit("1111111", "first", 0, 0)], graph_lines: Vec::new(), merge_state: MergeState::Clean };
    let mut filtered = pane();
    filtered.filter_query = "zzz".to_string();
    let empty = match repo_commit_lines(&filtered, Some(&history), &Vec::new(), 10) {
        CommitPaneLines::Lines(lines) => texts(&lines),
        CommitPaneLines::Files { .. } => panic!("nothing kept"),
    };
    assert_eq!(empty[1], "Filter /zzz  Matches: 0/1");
    assert_eq!(empty[2], "No commits match /zzz.");

    let mut files = pane();
    files.subview_mode = CommitSubviewMode::Files;
    files.selected_index = Some(7);
    assert_eq!(repo_commit_lines(&files, Some(&history), &vec![0], 10), CommitPaneLines::Files { commit_index: 0 });
}

#[test]
fn render_repo_shell_shows_commit_file_view_actions() {
    let c = commit("2222222", "second", 3, 0);
    let files_pane = CommitFilesPane { filter_query: String::new(), filter_focused: false, selected_index: Some(2) };
    let lines = repo_commit_file_list_lines(&pane(), &files_pane, &c, &vec![0, 1, 2], 20);
    let text = texts(&lines);
    assert_eq!(text[0], "Commit files  2222222  second");
    assert_eq!(text[2], "Context: Enter file diff. Left/backspace history. Space checkout file.");
    assert_eq!(text[4], "");
    assert_eq!(text[5], "  M src/f0.rs");
    assert_eq!(text[7], "> M src/f2.rs");

    let filtering = CommitFilesPane { filter_query: "x".to_string(), filter_focused: true, selected_index: None };
    let none = texts(&repo_commit_file_list_lines(&pane(), &filtering, &c, &Vec::new(), 20));
    assert_eq!(none[2], "Filter /x_  Matches: 0/3  (focused)");
    assert_eq!(none[6], "No changed files match /x.");
}

#[test]
fn repo_mode_status_detail_scrolls_diff_and_preserves_orientation() {
    let diff = sample_diff();
    let lines = repo_diff_lines(Some(&diff), Some(4), Some(3), true, 0, 40);
    let text = texts(&lines);
    assert_eq!(text[0], "Path: src/ui/lib.rs (unstaged)");
    assert_eq!(text[1], "Hunks: 1  Selected: 1/1  Changed lines: 2/2  Showing 1-5");
    assert!(text[2].ends_with("Range: 2 line(s)"));
    assert_eq!(lines.len(), 8);
    assert_eq!(text[7], "+new line");

    let scrolled = repo_diff_lines(Some(&diff), None, None, true, 10, 5);
    let text = texts(&scrolled);
    assert_eq!(text[1], "Hunks: 1  Selected: 1/1  Changed lines: 0/2  Showing 4-5");
    assert_eq!(scrolled.len(), 5);
    assert_eq!(text[3], "-old line");

    let loading = texts(&repo_diff_lines(None, None, None, true, 0, 10));
    assert_eq!(loading, vec!["Status diff".to_string(), "Repository detail is still loading.".to_string()]);
    let mut empty = sample_diff();
    empty.lines.clear();
    empty.selected_path = None;
    let none = texts(&repo_diff_lines(Some(&empty), None, None, true, 0, 10));
    assert_eq!(none, vec!["Path: working tree".to_string(), "No diff available for the current selection.".to_string()]);
}
