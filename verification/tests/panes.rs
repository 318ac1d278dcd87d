use super_lazygit_tui::labels::{FileStatusKind, MenuOperation};
use super_lazygit_tui::lists::BranchSortMode;
use super_lazygit_tui::menus::{
    branch_menu_lines, branch_sort_menu_lines, commit_log_menu_lines, diff_menu_target_label,
    filter_menu_lines, filter_menu_subject, menu_lines,
};
use super_lazygit_tui::model::{CommitBoxMode, CommitSubviewMode, RepoSubview};
use super_lazygit_tui::panes::{
    branch_row_label, pick_selected, repo_branch_lines, repo_reflog_lines, repo_remote_branch_lines,
    repo_remote_lines, repo_submodule_lines, repo_tag_lines, repo_worktree_lines, tag_row_label,
    BranchItem, ReflogItem, RemoteBranchItem, RemoteItem, SubmoduleItem, TagItem, WorktreeItem,
};
use super_lazygit_tui::status::{
    commit_box_lines, repo_staged_lines, repo_unstaged_lines, CommitBoxDetail, StatusEntry,
    StatusEntryKind, StatusFile, StatusListState,
};
use super_lazygit_tui::text::{ComparisonTarget, LineTone, OperationProgress, StyledLine};

fn texts(lines: &[StyledLine]) -> Vec<String> {
    lines.iter().map(|line| line.text.clone()).collect()
}

fn s(t: &str) -> String {
    t.to_string()
}

fn branches() -> Vec<BranchItem> {
    vec![
        BranchItem { name: s("main"), is_head: true, upstream: Some(s("origin/main")) },
        BranchItem { name: s("feature"), is_head: false, upstream: None },
    ]
}

#[test]
fn render_repo_shell_shows_branch_management_details() {
    let list = branches();
    let lines = repo_branch_lines(Some(&list), None, &vec![0, 1], "", false, None, None, None, true);
    let text = texts(&lines);
    assert_eq!(text[0], "Branches");
    assert_eq!(text[1], "Selected: main");
    assert_eq!(text[2], "Upstream: origin/main");
    assert_eq!(text[3], "Compare: press v to mark a base.");
    assert_eq!(text[8], "");
    assert_eq!(text[9], "* main                 upstream=origin/main");
    assert_eq!(lines[9].tone, LineTone::FocusedHeadRow);
    assert_eq!(text[10], "  feature              upstream=-");
    assert_eq!(lines[10].tone, LineTone::Row);
}

#[test]
fn render_repo_shell_shows_branch_filter_summary_when_focused() {
    let list = branches();
    let lines = repo_branch_lines(Some(&list), Some(1), &vec![1], "fea", true, None, None, None, false);
    let text = texts(&lines);
    assert_eq!(text[1], "Selected: feature");
    assert_eq!(text[3], "Filter /fea_  Matches: 1/2  (focused)");
    assert_eq!(lines[10].tone, LineTone::SelectedRow);

    let base = ComparisonTarget::Branch(s("main"));
    let compare = repo_branch_lines(
        Some(&list),
        None,
        &vec![0, 1],
        "",
        false,
        Some(&base),
        None,
        Some(RepoSubview::Branches),
        false,
    );
    assert_eq!(texts(&compare)[3], "Compare base: main (press v on another item, x clears).");

    let empty = texts(&repo_branch_lines(Some(&list), None, &Vec::new(), "zz", false, None, None, None, false));
    assert_eq!(empty, vec![s("Branches"), s("Filter /zz  Matches: 0/2"), s("No branches match /zz.")]);
    let loading = texts(&repo_branch_lines(None, None, &Vec::new(), "", false, None, None, None, false));
    assert_eq!(loading, vec![s("Branches"), s("Repository detail is still loading.")]);
    assert_eq!(branch_row_label(&list[1]), "  feature              upstream=-");
}

#[test]
fn render_repo_shell_shows_remote_details() {
    let remotes = vec![
        RemoteItem { name: s("origin"), fetch_url: s("git@example:o.git"), push_url: s("git@example:o.git"), branch_count: 2 },
        RemoteItem { name: s("upstream"), fetch_url: s("https://u"), push_url: s("https://u"), branch_count: 0 },
    ];
    let text = texts(&repo_remote_lines(Some(&remotes), Some(1), &vec![0, 1], "", false, false));
    assert_eq!(text[1], "Selected: upstream");
    assert_eq!(text[4], "Branches: 0");
    assert_eq!(text[8], "origin  [2 branches]");
    assert_eq!(text[9], "upstream  [0 branches]");
}

#[test]
fn render_repo_shell_shows_remote_branch_details() {
    let list = vec![
        RemoteBranchItem { name: s("origin/main"), remote_name: s("origin"), branch_name: s("main") },
        RemoteBranchItem { name: s("origin/feature"), remote_name: s("origin"), branch_name: s("feature") },
    ];
    let lines = repo_remote_branch_lines(Some(&list), None, &vec![1, 0], "", false, true);
    let text = texts(&lines);
    assert_eq!(text[1], "Selected: origin/feature");
    assert_eq!(text[3], "Local branch: feature");
    assert_eq!(text[9], "  origin/feature               remote=origin local=feature");
    assert_eq!(lines[9].tone, LineTone::FocusedRow);
}

#[test]
fn render_repo_shell_shows_tag_details() {
    let tags = vec![
        TagItem { name: s("v1.0.0"), target_short_oid: s("abc1234"), annotated: true, summary: s("release") },
        TagItem { name: s("snapshot"), target_short_oid: s("def5678"), annotated: false, summary: s("wip") },
    ];
    let text = texts(&repo_tag_lines(Some(&tags), None, &vec![0, 1], "", false, false));
    assert_eq!(text[1], "Selected: v1.0.0");
    assert_eq!(text[3], "Type: annotated");
    assert_eq!(text[4], "Summary: release");
    assert_eq!(text[8], "  v1.0.0                   abc1234  annotated");
    assert_eq!(tag_row_label(&tags[1]), "  snapshot                 def5678  lightweight");
}

#[test]
fn render_repo_shell_shows_reflog_details() {
    let entries = vec![
        ReflogItem { selector: s("HEAD@{0}"), short_oid: s("abc1234"), summary: s("commit: add"), description: s("HEAD@{0}: commit: add") },
        ReflogItem { selector: s("HEAD@{1}"), short_oid: String::new(), summary: s("checkout"), description: s("HEAD@{1}: checkout") },
    ];
    let text = texts(&repo_reflog_lines(Some(&entries), Some(1), &vec![0, 1], "", false, false));
    assert_eq!(text[1], "Selected 2/2");
    assert_eq!(text[2], "HEAD@{1}  checkout");
    assert_eq!(text[3], "HEAD@{1}: checkout");
    assert_eq!(text[9], "HEAD@{0}: commit: add");
    let first = texts(&repo_reflog_lines(Some(&entries), None, &vec![0, 1], "", false, false));
    assert_eq!(first[2], "HEAD@{0}  abc1234 commit: add");
    let empty = texts(&repo_reflog_lines(Some(&Vec::new()), None, &Vec::new(), "", false, false));
    assert_eq!(empty[2], "No reflog entries are available.");
}

#[test]
fn render_repo_shell_shows_worktree_details() {
    let list = vec![
        WorktreeItem { path: s("/tmp/repo"), branch: Some(s("main")) },
        WorktreeItem { path: s("/tmp/repo-detached"), branch: None },
    ];
    let text = texts(&repo_worktree_lines(Some(&list), Some(1), &vec![0, 1], "", false, false));
    assert_eq!(text[1], "Selected: /tmp/repo-detached");
    assert_eq!(text[2], "Branch: (detached)");
    assert_eq!(text[6], "/tmp/repo  [main]");
    assert_eq!(text[7], "/tmp/repo-detached  [(detached)]");
}

#[test]
fn render_repo_shell_shows_worktree_filter_empty_state() {
    let list = vec![WorktreeItem { path: s("/tmp/repo"), branch: Some(s("main")) }];
    let text = texts(&repo_worktree_lines(Some(&list), None, &Vec::new(), "zzz", true, false));
    assert_eq!(text, vec![s("Worktrees"), s("Filter /zzz_  Matches: 0/1  (focused)"), s("No worktrees match /zzz.")]);
}

#[test]
fn render_repo_shell_shows_submodule_details() {
    let list = vec![SubmoduleItem {
        name: s("child-module"),
        path: s("vendor/child-module"),
        url: s("../child-module.git"),
        branch: Some(s("main")),
        short_oid: Some(s("abc1234")),
        initialized: true,
        dirty: true,
        conflicted: false,
    }];
    let text = texts(&repo_submodule_lines(Some(&list), None, &vec![0], "", false, true));
    assert_eq!(text[1], "Selected: vendor/child-module");
    assert_eq!(text[2], "Name: child-module");
    assert_eq!(text[3], "State: dirty  Branch: main  HEAD: abc1234");
    assert_eq!(text[4], "URL: ../child-module.git");
    assert_eq!(text[8], "vendor/child-module  [main]  abc1234  dirty");
    assert_eq!(pick_selected(Some(5), &vec![3, 4]), 3);
    assert_eq!(pick_selected(Some(4), &vec![3, 4]), 4);
}

#[test]
fn render_menu_modal_shows_filter_diff_bisect_merge_rebase_and_patch_entries() {
    let subject = filter_menu_subject(RepoSubview::Commits, CommitSubviewMode::Files);
    assert_eq!(subject, "commit-file list");
    assert_eq!(filter_menu_lines(Some("  "), subject), vec![s("Focus commit-file list filter")]);
    assert_eq!(
        filter_menu_lines(Some("lib"), "branch list"),
        vec![s("Edit branch list filter (/lib)"), s("Clear branch list filter")]
    );
    assert!(filter_menu_lines(None, "branch list").is_empty());
    assert_eq!(commit_log_menu_lines(true).len(), 3);
    assert!(commit_log_menu_lines(false).is_empty());
    assert_eq!(
        branch_menu_lines(MenuOperation::BranchResetOptions, Some("feature")),
        vec![s("Soft reset to feature"), s("Mixed reset to feature"), s("Hard reset to feature")]
    );
    assert_eq!(branch_sort_menu_lines(BranchSortMode::Name), vec![s("Natural order"), s("Sort by branch name (current)")]);
    assert_eq!(diff_menu_target_label(&ComparisonTarget::Commit(s("0123456789abcdef"))), "commit 01234567");
    assert_eq!(diff_menu_target_label(&ComparisonTarget::Branch(s("main"))), "branch 'main'");
}

#[test]
fn menu_modal_routes_navigation_and_submit_keep_index_stash_prompt() {
    let lines = menu_lines(MenuOperation::StashOptions, &Vec::new(), 1);
    let text = texts(&lines);
    assert_eq!(text[0], "  Stash tracked changes");
    assert_eq!(text[1], "> Stash tracked changes and keep staged changes");
    assert_eq!(lines[1].tone, LineTone::Heading);
    assert_eq!(lines.len(), 5);
    let dynamic = menu_lines(MenuOperation::RecentRepos, &vec![s("alpha  /tmp/alpha")], 0);
    assert_eq!(texts(&dynamic), vec![s("> alpha  /tmp/alpha")]);
}

fn list_state(selected: Option<usize>) -> StatusListState {
    StatusListState { selected_index: selected, tree_enabled: true, filter_mode_label: s("all"), filter_query: String::new() }
}

#[test]
fn repo_status_section_lines_render_tree_metadata_and_nested_entries() {
    let entries = vec![
        StatusEntry { depth: 0, kind: None, label: s("src"), entry_kind: StatusEntryKind::Directory { collapsed: false } },
        StatusEntry { depth: 1, kind: Some(FileStatusKind::Modified), label: s("lib.rs"), entry_kind: StatusEntryKind::File },
    ];
    let state = list_state(Some(1));
    let text = texts(&repo_unstaged_lines(Some(&state), &entries, true, &OperationProgress::Idle));
    assert_eq!(text[0], "j/k move  Space stage file  Enter open diff  a stage all  ` tree  / filter");
    assert_eq!(text[1], "Files: 2  Tree: on  Status: all  Filter: /");
    assert_eq!(text[2], "    ▾ src/");
    assert_eq!(text[3], "> M   lib.rs");
    assert_eq!(text[4], "Progress: idle");
    let staged = texts(&repo_staged_lines(Some(&state), &Vec::new(), false));
    assert_eq!(staged, vec![s("Move focus here to prep staged work."), s("Tree: on  Status: all  Filter: /"), s("No staged changes.")]);
}

fn commit_box_detail(input: &str, staged: bool) -> CommitBoxDetail {
    CommitBoxDetail {
        file_tree: vec![
            StatusFile { path: s("a"), kind: FileStatusKind::Modified, staged_kind: if staged { Some(FileStatusKind::Modified) } else { None }, unstaged_kind: None },
            StatusFile { path: s("b"), kind: FileStatusKind::Untracked, staged_kind: None, unstaged_kind: Some(FileStatusKind::Untracked) },
        ],
        commit_count: 3,
        commit_input: s(input),
    }
}

#[test]
fn commit_box_lines_show_message_cursor() {
    let text = texts(&commit_box_lines(Some(&commit_box_detail("feat", true)), CommitBoxMode::Commit));
    assert_eq!(text[1], "Staged files: 1  Existing commits: 3");
    assert_eq!(text[2], "Message: feat_");
    assert_eq!(text[3], "Ready: create a commit from 1 staged file(s).");
    let empty = texts(&commit_box_lines(Some(&commit_box_detail("", true)), CommitBoxMode::Commit));
    assert_eq!(empty[2], "Message: _");
    assert_eq!(empty[3], "Validation: enter a commit message before confirming.");
    let nothing = texts(&commit_box_lines(Some(&commit_box_detail("feat", false)), CommitBoxMode::CommitNoVerify));
    assert_eq!(nothing[3], "Validation: stage at least one file before committing.");
    let amend = texts(&commit_box_lines(Some(&commit_box_detail(" ", false)), CommitBoxMode::Amend));
    assert_eq!(amend[0], "Type a replacement HEAD message, or leave it blank to reuse it.");
    assert_eq!(amend[3], "Ready: amend HEAD and keep the current commit message.");
}
