use super_lazygit_tui::app::{InputEvent, InputOutcome, TuiApp};
use super_lazygit_tui::keys::KeybindingOverride;
use super_lazygit_tui::layout::Viewport;
use super_lazygit_tui::model::{
    Action, AppMode, CommitBoxMode, CommitFilesMode, CommitSubviewMode, DiffPresentation,
    ModalKind, PaneId, RepoDetailSnapshot, RepoRouteState, RepoSubview, RouteContext,
    StashSubviewMode, SubviewFilter,
};

fn workspace_ctx(selected: Option<&str>) -> RouteContext {
    RouteContext {
        mode: AppMode::Workspace,
        focused_pane: PaneId::WorkspaceList,
        top_modal: None,
        has_pending_input_prompt: false,
        workspace_search_focused: false,
        workspace_search_query: String::new(),
        selected_repo_id: selected.map(|id| id.to_string()),
        repo_mode: None,
    }
}

fn empty_detail() -> RepoDetailSnapshot {
    RepoDetailSnapshot {
        branches: Vec::new(),
        remotes: Vec::new(),
        remote_branches: Vec::new(),
        tag_count: 0,
        stashes: Vec::new(),
        diff_presentation: DiffPresentation::Unstaged,
    }
}

fn repo_state(subview: RepoSubview, detail: Option<RepoDetailSnapshot>) -> RepoRouteState {
    RepoRouteState {
        active_subview: subview,
        commit_subview_mode: CommitSubviewMode::History,
        commit_files_mode: CommitFilesMode::List,
        stash_subview_mode: StashSubviewMode::List,
        commit_box_focused: false,
        subview_filter: SubviewFilter::Absent,
        has_copied_commit: false,
        has_comparison_base: false,
        selected_branch_index: None,
        selected_remote_index: None,
        selected_remote_branch_index: None,
        selected_tag_index: None,
        selected_stash_index: None,
        detail,
    }
}

fn repo_ctx(pane: PaneId, repo: RepoRouteState) -> RouteContext {
    RouteContext {
        mode: AppMode::Repository,
        focused_pane: pane,
        top_modal: None,
        has_pending_input_prompt: false,
        workspace_search_focused: false,
        workspace_search_query: String::new(),
        selected_repo_id: Some("repo-1".to_string()),
        repo_mode: Some(repo),
    }
}

fn key(app: &TuiApp, ctx: &RouteContext, k: &str) -> Option<Action<String>> {
    app.route_key(ctx, k)
}

#[test]
fn route_workspace_enter_opens_repo_mode() {
    let app = TuiApp::new(&Vec::new());
    let ctx = workspace_ctx(Some("repo-1"));
    assert_eq!(
        key(&app, &ctx, "enter"),
        Some(Action::EnterRepoMode { repo_id: "repo-1".to_string() })
    );
}

#[test]
fn route_workspace_override_accepts_legacy_action_name_and_replaces_enter() {
    let overrides = vec![KeybindingOverride {
        action: "EnterRepoMode".to_string(),
        keys: vec!["o".to_string()],
    }];
    let app = TuiApp::new(&overrides);
    let ctx = workspace_ctx(Some("repo-1"));

    assert_eq!(key(&app, &ctx, "enter"), None);
    assert_eq!(
        key(&app, &ctx, "o"),
        Some(Action::EnterRepoMode { repo_id: "repo-1".to_string() })
    );
}

#[test]
fn route_repository_escape_returns_to_workspace_context() {
    let app = TuiApp::new(&Vec::new());
    let ctx = repo_ctx(PaneId::RepoUnstaged, repo_state(RepoSubview::Status, Some(empty_detail())));
    assert_eq!(key(&app, &ctx, "esc"), Some(Action::LeaveRepoMode));
}

#[test]
fn route_repo_override_replaces_uppercase_push_binding() {
    let overrides = vec![KeybindingOverride {
        action: "push_current_branch".to_string(),
        keys: vec!["g".to_string()],
    }];
    let app = TuiApp::new(&overrides);
    let ctx = repo_ctx(PaneId::RepoDetail, repo_state(RepoSubview::Status, Some(empty_detail())));

    assert_ne!(key(&app, &ctx, "P"), Some(Action::PushCurrentBranch));
    assert_eq!(key(&app, &ctx, "g"), Some(Action::PushCurrentBranch));
}

#[test]
fn repo_mode_routes_uppercase_push() {
    let app = TuiApp::new(&Vec::new());
    let ctx = repo_ctx(PaneId::RepoDetail, repo_state(RepoSubview::Status, None));
    assert_eq!(key(&app, &ctx, "P"), Some(Action::PushCurrentBranch));
}

#[test]
fn repo_mode_cycles_focus_across_three_panes() {
    let app = TuiApp::new(&Vec::new());
    let unstaged = repo_ctx(PaneId::RepoUnstaged, repo_state(RepoSubview::Status, None));
    assert_eq!(key(&app, &unstaged, "tab"), Some(Action::SetFocusedPane(PaneId::RepoStaged)));
    let staged = repo_ctx(PaneId::RepoStaged, repo_state(RepoSubview::Status, None));
    assert_eq!(key(&app, &staged, "tab"), Some(Action::SetFocusedPane(PaneId::RepoDetail)));
    let detail = repo_ctx(PaneId::RepoDetail, repo_state(RepoSubview::Status, None));
    assert_eq!(key(&app, &detail, "shift+tab"), Some(Action::SetFocusedPane(PaneId::RepoStaged)));
}

#[test]
fn repo_mode_commit_box_routes_text_input_and_submit() {
    let mut app = TuiApp::new(&Vec::new());
    let staged = repo_ctx(PaneId::RepoStaged, repo_state(RepoSubview::Status, Some(empty_detail())));
    assert_eq!(
        key(&app, &staged, "c"),
        Some(Action::OpenCommitBox { mode: CommitBoxMode::Commit })
    );

    let mut focused = repo_state(RepoSubview::Status, Some(empty_detail()));
    focused.commit_box_focused = true;
    let typing = repo_ctx(PaneId::RepoStaged, focused);
    assert_eq!(
        app.handle_input(&typing, InputEvent::Paste("feat".to_string())),
        InputOutcome::Dispatch(Action::AppendCommitInput { text: "feat".to_string() })
    );
    assert_eq!(
        key(&app, &typing, " "),
        Some(Action::AppendCommitInput { text: " ".to_string() })
    );
    assert_eq!(
        key(&app, &typing, "x"),
        Some(Action::AppendCommitInput { text: "x".to_string() })
    );
    assert_eq!(key(&app, &typing, "backspace"), Some(Action::BackspaceCommitInput));
    assert_eq!(key(&app, &typing, "enter"), Some(Action::SubmitCommitBox));
}

#[test]
fn repo_mode_commit_box_escape_cancels_without_leaving_repo_mode() {
    let app = TuiApp::new(&Vec::new());
    let mut focused = repo_state(RepoSubview::Status, Some(empty_detail()));
    focused.commit_box_focused = true;
    let ctx = repo_ctx(PaneId::RepoStaged, focused);
    assert_eq!(key(&app, &ctx, "esc"), Some(Action::CancelCommitBox));
}

#[test]
fn route_workspace_search_focus_paste_and_clear() {
    let mut app = TuiApp::new(&Vec::new());
    let ctx = workspace_ctx(Some("/tmp/alpha"));
    assert_eq!(key(&app, &ctx, "/"), Some(Action::FocusWorkspaceSearch));

    let mut searching = workspace_ctx(Some("/tmp/alpha"));
    searching.workspace_search_focused = true;
    assert_eq!(
        app.handle_input(&searching, InputEvent::Paste("bet".to_string())),
        InputOutcome::Dispatch(Action::AppendWorkspaceSearch { text: "bet".to_string() })
    );
    searching.workspace_search_query = "bet".to_string();
    assert_eq!(key(&app, &searching, "enter"), Some(Action::BlurWorkspaceSearch));

    let mut kept = workspace_ctx(Some("/tmp/beta"));
    kept.workspace_search_query = "bet".to_string();
    assert_eq!(key(&app, &kept, "esc"), Some(Action::CancelWorkspaceSearch));
}

#[test]
fn route_workspace_filter_and_sort_keys_cycle_triage_modes() {
    let app = TuiApp::new(&Vec::new());
    let ctx = workspace_ctx(None);
    assert_eq!(key(&app, &ctx, "f"), Some(Action::CycleWorkspaceFilter));
    assert_eq!(key(&app, &ctx, "s"), Some(Action::CycleWorkspaceSort));
}

#[test]
fn route_resize_updates_viewport_without_mutating_state() {
    let mut app = TuiApp::new(&Vec::new());
    let ctx = workspace_ctx(None);
    let outcome = app.handle_input(&ctx, InputEvent::Resize { width: 101, height: 33 });
    assert_eq!(app.viewport(), Viewport { width: 101, height: 33 });
    assert_eq!(outcome, InputOutcome::ScheduleRender);
}

#[test]
fn modal_overlay_takes_focus_and_renders() {
    let app = TuiApp::new(&Vec::new());
    let mut ctx = workspace_ctx(Some("repo-1"));
    ctx.top_modal = Some(ModalKind::Help);
    assert_eq!(key(&app, &ctx, "q"), Some(Action::CloseTopModal));
    assert_eq!(key(&app, &ctx, "enter"), None);
}

#[test]
fn help_key_opens_help_modal_in_workspace() {
    let app = TuiApp::new(&Vec::new());
    let ctx = workspace_ctx(None);
    assert_eq!(
        key(&app, &ctx, "?"),
        Some(Action::OpenModal { kind: ModalKind::Help, title: "Help".to_string() })
    );
}

#[test]
fn default_viewport_and_page_size() {
    let app = TuiApp::new(&Vec::new());
    assert_eq!(app.viewport(), Viewport { width: 120, height: 32 });
    assert!(app.repo_list_page_size() >= 1);
}
