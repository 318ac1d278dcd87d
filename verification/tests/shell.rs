use super_lazygit_tui::copy::ConfirmableOperation;
use super_lazygit_tui::diff::{repo_compare_lines, DiffHunk, DiffLine, DiffLineKind, DiffModel};
use super_lazygit_tui::help::{default_status_text, help_text, repo_help_text, status_detail_focus_help, HelpContext, RepoHelpState};
use super_lazygit_tui::labels::{MenuOperation, RebaseKind, WatcherHealth};
use super_lazygit_tui::layout::workspace_table_layout;
use super_lazygit_tui::menus::{
    bisect_menu_lines, command_log_menu_lines, diff_menu_lines, merge_rebase_menu_lines, patch_menu_lines,
    recent_repo_menu_lines, BisectState, DiffMenuState, LogEntry, RecentRepo,
};
use super_lazygit_tui::model::{AppMode, CommitBoxMode, DiffPresentation, InputPromptOperation, PaneId, RepoSubview, StashSubviewMode};
use super_lazygit_tui::rebase::{repo_rebase_lines, RebaseState};
use super_lazygit_tui::shell::{
    detail_title, fullscreen_repo_pane, modal_lines, repo_header_line, repo_screen_status_line, repo_subview_tabs,
    status_bar_size, status_text, workspace_root_label, ModalBody,
};
use super_lazygit_tui::text::{ComparisonTarget, LineTone, RepoSummary, ScanStatus, StyledLine};
use super_lazygit_tui::theme::parse_hex_color;
use super_lazygit_tui::workspace::{
    workspace_empty_list_lines, workspace_empty_preview_lines, workspace_pending_preview_lines, workspace_preview_lines,
    workspace_repo_issue_count, workspace_status_line, workspace_table_header, WorkspaceStatus,
};

fn s(t: &str) -> String {
    t.to_string()
}

fn texts(lines: &[StyledLine]) -> Vec<String> {
    lines.iter().map(|line| line.text.clone()).collect()
}

fn repo_state(subview: RepoSubview) -> RepoHelpState {
    RepoHelpState {
        active_subview: subview,
        stash_subview_mode: StashSubviewMode::List,
        commit_box: None,
        focused_filter_query: None,
        detail_loaded: true,
        diff_presentation: DiffPresentation::Unstaged,
        merge_clean: true,
    }
}

fn context(mode: AppMode, pane: PaneId, repo: Option<RepoHelpState>) -> HelpContext {
    HelpContext {
        mode,
        focused_pane: pane,
        modal_open: false,
        prompt_pending: false,
        workspace_search_focused: false,
        visible_repo_count: 2,
        sort_label: s("attention"),
        filter_label: s("all"),
        repo,
    }
}

#[test]
fn status_detail_focus_help_tracks_main_panel_submode_copy() {
    let mut state = repo_state(RepoSubview::Status);
    assert!(status_detail_focus_help(&state).contains("Enter/Space stages the current hunk and L stages"));
    state.merge_clean = false;
    assert!(status_detail_focus_help(&state).contains("for merge resolution"));
    state.diff_presentation = DiffPresentation::Staged;
    assert!(status_detail_focus_help(&state).contains("unstages the current hunk"));
    state.diff_presentation = DiffPresentation::Comparison;
    assert!(status_detail_focus_help(&state).contains("read-only"));
    assert!(status_detail_focus_help(&state).contains("{/} change diff context"));
    state.detail_loaded = false;
    assert_eq!(status_detail_focus_help(&state), "Repository shell ready.");
}

#[test]
fn default_status_and_help_follow_focus() {
    let workspace = context(AppMode::Workspace, PaneId::WorkspaceList, None);
    assert_eq!(
        default_status_text(&workspace),
        "Workspace triage ready; 2 repo(s) visible with attention sort and all filter."
    );
    assert!(help_text(&workspace).starts_with("j/k move  / search"));

    let mut repo = repo_state(RepoSubview::Tags);
    let detail = context(AppMode::Repository, PaneId::RepoDetail, Some(repo.clone()));
    assert_eq!(
        default_status_text(&detail),
        "Tags detail focus; deeper interactions are staged behind the shell bead."
    );
    assert!(repo_help_text(&detail).starts_with("Tags pane  j/k move"));

    repo.commit_box = Some(CommitBoxMode::Amend);
    let boxed = context(AppMode::Repository, PaneId::RepoStaged, Some(repo.clone()));
    assert!(default_status_text(&boxed).starts_with("Amend box focused"));
    assert!(repo_help_text(&boxed).starts_with("Amend box  type message"));

    repo.commit_box = None;
    repo.focused_filter_query = Some(s("fea"));
    let filtering = context(AppMode::Repository, PaneId::RepoDetail, Some(repo));
    assert!(default_status_text(&filtering).starts_with("Detail filter focused"));
    assert!(repo_help_text(&filtering).ends_with("query=/fea"));

    let mut modal = context(AppMode::Repository, PaneId::Modal, None);
    modal.modal_open = true;
    assert_eq!(help_text(&modal), "Esc close  q close overlay");
    modal.prompt_pending = true;
    assert!(help_text(&modal).starts_with("Prompt overlay"));
}

fn summary() -> RepoSummary {
    RepoSummary {
        display_name: s("repo-1"),
        display_path: s("/tmp/repo-1"),
        branch: None,
        dirty: true,
        conflicted: false,
        staged_count: 1,
        unstaged_count: 2,
        untracked_count: 3,
        ahead_count: 4,
        behind_count: 1,
        last_fetch_at: Some(100),
        last_refresh_at: Some(130),
        last_error: Some(s("index locked")),
        remote_name: Some(s("origin")),
        tracking_branch: Some(s("origin/main")),
    }
}

#[test]
fn render_workspace_preview_surfaces_summary_errors() {
    let lines = workspace_preview_lines(&summary(), 7, "Fresh");
    assert_eq!(lines[0], "Path: /tmp/repo-1");
    assert_eq!(lines[1], "Branch: detached");
    assert_eq!(lines[2], "Attention: 7  Watcher: Fresh");
    assert_eq!(lines[3], "Changes: staged=1 unstaged=2 untracked=3");
    assert_eq!(lines[4], "Remote: origin/main ahead=4 behind=1 conflicted=false");
    assert_eq!(lines[5], "Fetch age: 30s");
    assert_eq!(lines[6], "Last error: index locked");
}

#[test]
fn render_workspace_shell_shows_scanning_pending_preview() {
    let pending = workspace_pending_preview_lines("repo-9", &ScanStatus::Scanning);
    assert_eq!(pending[1], "Repo: repo-9");
    assert_eq!(pending[3], "Scan: scanning");
    let list = workspace_empty_list_lines(&ScanStatus::Scanning, 0, "all", "");
    assert_eq!(list[0], "Scanning workspace for repositories...");
    let preview = workspace_empty_preview_lines(&ScanStatus::Scanning, 0, "all", "name", "");
    assert_eq!(preview[1], "Workspace scan in progress.");
}

#[test]
fn render_workspace_shell_shows_scan_failure_empty_state() {
    let failed = ScanStatus::Failed { message: s("permission denied") };
    let list = workspace_empty_list_lines(&failed, 0, "all", "");
    assert_eq!(list, vec![s("Workspace scan failed."), s("Reason: permission denied"), s("Press r to retry the scan.")]);
    let preview = workspace_empty_preview_lines(&failed, 3, "all", "name", "");
    assert_eq!(preview[3], "Press r to retry.");
    let hidden = workspace_empty_list_lines(&ScanStatus::Idle, 2, "dirty", "zz");
    assert_eq!(hidden[1], "Filter=dirty  Search=zz");
    let none = workspace_empty_preview_lines(&ScanStatus::Idle, 2, "dirty", "name", "");
    assert_eq!(none[2], "Filter: dirty  Sort: name");
    assert_eq!(none[3], "Search: -");
}

#[test]
fn render_workspace_shell_shows_polling_badges_when_watcher_is_degraded() {
    let status = WorkspaceStatus {
        discovered_count: 3,
        filter_label: s("all"),
        sort_label: s("attention"),
        search_query: s("a-very-long-search-query"),
        search_focused: true,
        watcher_health: WatcherHealth::Degraded,
        scan_status: ScanStatus::Complete { scanned_repos: 3 },
    };
    let segments = workspace_status_line(&status, 2, 1);
    let text = texts(&segments).concat();
    assert_eq!(
        text,
        "repos=2/3  filter=all  sort=attention  search=a-very-long-sea...*  watch=polling  issues=1  scan=ready:3"
    );
    assert_eq!(segments[8].tone, LineTone::Alert);
    assert_eq!(segments[10].tone, LineTone::Alert);
    let summaries = vec![Some(summary()), None, Some(RepoSummary { last_error: None, ..summary() })];
    assert_eq!(workspace_repo_issue_count(&summaries), 2);
}

#[test]
fn render_workspace_shell_shows_wide_repo_table_columns() {
    let wide = workspace_table_header(workspace_table_layout(120));
    assert_eq!(wide.len(), 5);
    assert!(wide[1].starts_with("BRANCH"));
    assert!(wide[3].starts_with("SYNC"));
    let narrow = workspace_table_header(workspace_table_layout(40));
    assert_eq!(narrow.len(), 4);
    assert!(narrow[1].starts_with("BR"));
    assert!(narrow[3].starts_with("AGE"));
}

fn diff() -> DiffModel {
    DiffModel {
        selected_path: None,
        presentation: DiffPresentation::Comparison,
        lines: vec![
            DiffLine { kind: DiffLineKind::HunkHeader, content: s("@@ -1 +1 @@") },
            DiffLine { kind: DiffLineKind::Addition, content: s("+x") },
        ],
        hunks: vec![DiffHunk { start_line_index: 0, end_line_index: 2 }],
        selected_hunk: Some(0),
        hunk_count: 1,
    }
}

#[test]
fn render_repo_shell_shows_compare_view() {
    let base = ComparisonTarget::Branch(s("main"));
    let target = ComparisonTarget::Commit(s("abc1234"));
    let d = diff();
    let lines = repo_compare_lines(Some(&d), Some(&base), Some(&target), true, 0, 20);
    let text = texts(&lines);
    assert_eq!(text[0], "Comparing main -> abc1234");
    assert_eq!(text[1], "x clears compare and returns to history.");
    assert_eq!(text[2], "Path: working tree (comparison)");
    assert!(text[4].starts_with("Read-only diff"));
    assert_eq!(lines.len(), 7);
    let cut = repo_compare_lines(Some(&d), None, None, true, 0, 3);
    assert_eq!(texts(&cut)[0], "Comparing - -> -");
    assert_eq!(cut.len(), 3);
}

#[test]
fn render_repo_shell_shows_rebase_view() {
    let state = RebaseState {
        kind: RebaseKind::Interactive,
        step: 0,
        total: 0,
        head_name: Some(s("feature")),
        onto: None,
        current_commit: None,
        current_summary: None,
        todo_preview: vec![s("pick abc1234 add lib")],
    };
    let diff_lines = vec![DiffLine { kind: DiffLineKind::Addition, content: s("+x") }];
    let text = texts(&repo_rebase_lines(true, Some(&state), &diff_lines, 0, 30));
    assert_eq!(text[0], "Interactive rebase control");
    assert_eq!(text[1], "Mode: interactive  Step: 1/1");
    assert_eq!(text[2], "Branch: feature  Onto: -");
    assert_eq!(text[3], "Current: -  waiting for git metadata");
    assert_eq!(text[6], "Upcoming commands:");
    assert_eq!(text[7], "  pick abc1234 add lib");
    assert_eq!(text[8], "Diff preview:");
    assert_eq!(text[9], "+x");
    let scrolled = texts(&repo_rebase_lines(true, Some(&state), &diff_lines, 100, 4));
    assert_eq!(scrolled, vec![s("Interactive rebase control"), s("  pick abc1234 add lib"), s("Diff preview:"), s("+x")]);
    let idle = texts(&repo_rebase_lines(true, None, &diff_lines, 0, 30));
    assert_eq!(idle[1], "No rebase is currently active.");
}

#[test]
fn render_menu_modal_shows_recent_repo_and_command_log_entries() {
    let stack = vec![
        RecentRepo { repo_id: s("/tmp/alpha"), summary: Some((s("alpha"), s("/tmp/alpha"))) },
        RecentRepo { repo_id: s("/tmp/beta"), summary: None },
        RecentRepo { repo_id: s("/tmp/alpha"), summary: Some((s("alpha"), s("/tmp/alpha"))) },
        RecentRepo { repo_id: s("/tmp/gamma"), summary: None },
    ];
    assert_eq!(recent_repo_menu_lines(&stack, Some("/tmp/gamma")), vec![s("alpha  /tmp/alpha"), s("/tmp/beta")]);
    let log = vec![
        LogEntry { level: s("Info"), text: s("Fetched origin") },
        LogEntry { level: s("Error"), text: s("push rejected") },
    ];
    assert_eq!(command_log_menu_lines(&log), vec![s("[Error] push rejected"), s("[Info] Fetched origin")]);
}

#[test]
fn other_menus_follow_repository_state() {
    assert_eq!(merge_rebase_menu_lines(false, true, true, true), Vec::<String>::new());
    let items = merge_rebase_menu_lines(true, true, false, false);
    assert_eq!(items, vec![s("Continue active rebase"), s("Skip current rebase step"), s("Abort active rebase"), s("Open rebase / merge status panel")]);
    assert_eq!(merge_rebase_menu_lines(true, false, true, true).len(), 12);
    let bisect = BisectState { has_current_commit: true, bad_term: s("bad"), good_term: s("good") };
    assert_eq!(bisect_menu_lines(true, Some(&bisect))[0], "Mark current bisect commit as bad");
    assert_eq!(bisect_menu_lines(true, None).len(), 2);
    assert_eq!(patch_menu_lines(true, DiffPresentation::Staged, true), vec![s("Unstage selected hunk"), s("Unstage selected line range")]);
    assert!(patch_menu_lines(true, DiffPresentation::Comparison, true).is_empty());
    let state = DiffMenuState {
        active_subview: RepoSubview::Branches,
        selected_target: Some(ComparisonTarget::Branch(s("feature"))),
        comparison_base: Some(ComparisonTarget::Branch(s("main"))),
        comparison_target: None,
        comparison_source: Some(RepoSubview::Branches),
        ignore_whitespace: false,
        context_lines: 1,
        rename_similarity_threshold: 50,
    };
    let diff_items = diff_menu_lines(Some(&state));
    assert_eq!(diff_items[0], "Compare current base against selected branch 'feature'");
    assert_eq!(diff_items[1], "Ignore whitespace changes in diff");
    assert_eq!(diff_items[2], "Increase diff context (currently 1 line)");
    assert_eq!(diff_items[5], "Decrease rename similarity threshold (currently 50%)");
    let fresh = DiffMenuState { comparison_base: None, comparison_source: None, context_lines: 3, ..state };
    let fresh_items = diff_menu_lines(Some(&fresh));
    assert_eq!(fresh_items[0], "Mark selected branch 'feature' as comparison base");
    assert_eq!(fresh_items[2], "Increase diff context (currently 3 lines)");
}

#[test]
fn confirm_modal_renders_repo_specific_copy() {
    let body = ModalBody::Confirm { pending: Some((s("/tmp/repo-1"), ConfirmableOperation::Push)) };
    let text = texts(&modal_lines("Confirm push", &body));
    assert_eq!(
        text,
        vec![
            s("Confirm push"),
            s(""),
            s("Repo: /tmp/repo-1"),
            s("Push the current branch to its configured upstream?"),
            s("Enter or y confirms. Esc, n, or q cancels."),
        ]
    );
}

#[test]
fn confirm_modal_renders_nuke_working_tree_copy() {
    let body = ModalBody::Confirm { pending: Some((s("repo-1"), ConfirmableOperation::NukeWorkingTree)) };
    let text = texts(&modal_lines("Confirm", &body));
    assert!(text[3].contains("git reset --hard HEAD and git clean -fd"));
}

#[test]
fn modal_lines_show_prompts_menus_and_help() {
    let prompt = ModalBody::InputPrompt { pending: Some((s("repo-1"), InputPromptOperation::CreateBranch, s("feat"))) };
    let text = texts(&modal_lines("New branch", &prompt));
    assert_eq!(text[5], "> feat_");
    let menu = ModalBody::Menu { pending: Some((s("repo-1"), MenuOperation::IgnoreOptions, Vec::new(), 0)) };
    let lines = modal_lines("Ignore", &menu);
    let text = texts(&lines);
    assert_eq!(text[3], "Choose whether the selected path should go to the shared ignore list or the local exclude file.");
    assert_eq!(text[5], "> Add selected path to .gitignore");
    assert_eq!(text[8], "j/k moves. Enter selects. Esc cancels.");
    let help = texts(&modal_lines("Help", &ModalBody::Help));
    assert_eq!(help, vec![s("Help"), s(""), s("Help"), s("Esc closes this overlay.")]);
}

#[test]
fn render_repo_shell_shows_three_pane_scaffold() {
    let tabs = repo_subview_tabs(RepoSubview::Commits);
    assert_eq!(tabs.concat(), "1 Status  2 Branches  m Remotes  9 Remote  t Tags  [3 Commits]  4 Compare  5 Rebase  6 Stash  7 Reflog  8 Worktrees  b Submodules");
    assert_eq!(detail_title(Some(RepoSubview::Status)), "Detail: Status");
    assert_eq!(detail_title(None), "Detail");
    assert_eq!(
        repo_header_line("repo-1", Some("main"), WatcherHealth::Healthy, "normal"),
        "Repo: repo-1  Branch: main  Watch: live  Screen: normal"
    );
    assert_eq!(repo_screen_status_line("half"), "Screen mode half  + next screen  _ previous screen  Ctrl+Z suspend terminal");
    assert_eq!(status_bar_size(120, 32), "size=120x32");
    assert_eq!(workspace_root_label(None), "Root: current directory");
    assert_eq!(workspace_root_label(Some("/src")), "Root: /src");
    assert_eq!(status_text(None, Some("note"), s("fallback")), "note");
    assert_eq!(status_text(Some("latest"), Some("note"), s("fallback")), "latest");
    assert_eq!(status_text(None, None, s("fallback")), "fallback");
}

#[test]
fn render_repo_shell_hides_side_panes_in_fullscreen_mode() {
    assert_eq!(fullscreen_repo_pane(PaneId::RepoStaged, Some(PaneId::RepoUnstaged)), PaneId::RepoStaged);
    assert_eq!(fullscreen_repo_pane(PaneId::Modal, Some(PaneId::RepoUnstaged)), PaneId::RepoUnstaged);
    assert_eq!(fullscreen_repo_pane(PaneId::WorkspaceList, None), PaneId::RepoDetail);
}

#[test]
fn theme_colors_parse_hex_triples() {
    assert_eq!(parse_hex_color("#1e1e2e"), Some((0x1e, 0x1e, 0x2e)));
    assert_eq!(parse_hex_color("FFaa00"), Some((255, 170, 0)));
    assert_eq!(parse_hex_color("#+f+f+f"), Some((15, 15, 15)));
    assert_eq!(parse_hex_color("#12345"), None);
    assert_eq!(parse_hex_color("##123456"), None);
    assert_eq!(parse_hex_color("#12345g"), None);
    assert_eq!(parse_hex_color("#ééé"), None);
}
