use vstd::prelude::*;
use vstd::string::*;

use crate::cells::{fork_name, fork_remote_suggested_name, stash_message, stash_message_label};
use crate::model::{
    Action, CommitBoxMode, CommitFilesMode, CommitSubviewMode, DiffPresentation,
    InputPromptOperation, PaneId, RepoRouteState, RepoSubview, RouteContext, StashSubviewMode,
    SubviewFilter,
};
use crate::routing::{
    empty_rules, focus_left, focus_right, push1, push2, push3, repo_focus_left_action,
    repo_focus_right_action, rs, rules_view, same_pane, same_subview, KeyRule, RuleSpec,
};
use crate::selection::{
    selected_branch, selected_branch_of, selected_remote, selected_remote_branch,
    selected_remote_branch_of, selected_remote_of, selected_stash, selected_stash_of, selected_tag,
    selected_tag_of,
};

verus! {

/// The commits subview shows the history (not the files of a commit).
pub open spec fn history(r: RepoRouteState) -> bool {
    r.commit_subview_mode == CommitSubviewMode::History
}

/// The commits subview shows the files of a commit.
pub open spec fn files(r: RepoRouteState) -> bool {
    r.commit_subview_mode == CommitSubviewMode::Files
}

/// The commits subview shows the file list of a commit.
pub open spec fn files_list(r: RepoRouteState) -> bool {
    files(r) && r.commit_files_mode == CommitFilesMode::List
}

/// The commits subview shows the diff of a file of a commit.
pub open spec fn files_diff(r: RepoRouteState) -> bool {
    files(r) && r.commit_files_mode == CommitFilesMode::Diff
}

/// The stash subview shows the stash list (not the files of a stash).
pub open spec fn stash_list(r: RepoRouteState) -> bool {
    r.stash_subview_mode == StashSubviewMode::List
}

/// A comparison base is set and the subview can show or clear it.
pub open spec fn comparison_clearable(r: RepoRouteState) -> bool {
    r.has_comparison_base && (r.active_subview == RepoSubview::Branches || r.active_subview
        == RepoSubview::Commits || r.active_subview == RepoSubview::Compare)
}

/// A commit is copied for cherry-picking while the commit history is shown.
pub open spec fn copied_in_history(ctx: RouteContext) -> bool {
    ctx.repo_mode matches Some(r) && r.active_subview == RepoSubview::Commits && history(r)
        && r.has_copied_commit
}

/// The focused pane is a list that pages, jumps to its ends and is filtered.
pub open spec fn shared_list_navigation(ctx: RouteContext) -> bool {
    ||| ctx.focused_pane == PaneId::RepoUnstaged
    ||| ctx.focused_pane == PaneId::RepoStaged
    ||| ctx.focused_pane == PaneId::RepoDetail && (ctx.repo_mode matches Some(r) && !(
    r.active_subview == RepoSubview::Status || r.active_subview == RepoSubview::Compare
        || r.active_subview == RepoSubview::Rebase))
}

pub open spec fn detail_focused_with(ctx: RouteContext, p: spec_fn(RepoRouteState) -> bool) -> bool {
    ctx.focused_pane == PaneId::RepoDetail && (ctx.repo_mode matches Some(r) && p(r))
}

/// The focused detail subview has a filter.
pub open spec fn detail_filter_present(ctx: RouteContext) -> bool {
    detail_focused_with(ctx, |r: RepoRouteState| r.subview_filter != SubviewFilter::Absent)
}

/// The focused detail subview shows a diff whose options can be changed.
pub open spec fn diff_options_available(ctx: RouteContext) -> bool {
    detail_focused_with(
        ctx,
        |r: RepoRouteState|
            r.active_subview == RepoSubview::Status || r.active_subview == RepoSubview::Branches
                || r.active_subview == RepoSubview::Commits || r.active_subview
                == RepoSubview::Compare,
    )
}

/// The focused detail subview shows a diff whose context and rename detection can be tuned.
pub open spec fn diff_tuning_available(ctx: RouteContext) -> bool {
    detail_focused_with(
        ctx,
        |r: RepoRouteState|
            r.active_subview == RepoSubview::Status || r.active_subview == RepoSubview::Commits
                || r.active_subview == RepoSubview::Compare,
    )
}

/// The focused detail subview offers the merge and rebase menu.
pub open spec fn merge_rebase_available(ctx: RouteContext) -> bool {
    detail_focused_with(
        ctx,
        |r: RepoRouteState|
            r.active_subview == RepoSubview::Commits || r.active_subview == RepoSubview::Rebase,
    )
}

/// The focused detail subview is the status diff, which offers the patch menu.
pub open spec fn patch_available(ctx: RouteContext) -> bool {
    detail_focused_with(ctx, |r: RepoRouteState| r.active_subview == RepoSubview::Status)
}

/// The focused detail subview is the tag list and a tag is selected.
pub open spec fn tag_push_available(ctx: RouteContext) -> bool {
    detail_focused_with(
        ctx,
        |r: RepoRouteState|
            r.active_subview == RepoSubview::Tags && selected_tag_of(r.detail, r.selected_tag_index)
                is Some,
    )
}

/// The staged pane has the focus and the status of a loaded repository is shown.
pub open spec fn can_open_commit_box(ctx: RouteContext) -> bool {
    ctx.focused_pane == PaneId::RepoStaged && (ctx.repo_mode matches Some(r) && r.active_subview
        == RepoSubview::Status && r.detail is Some)
}

/// One of the two file panes has the focus.
pub open spec fn status_pane_focused(ctx: RouteContext) -> bool {
    ctx.focused_pane == PaneId::RepoUnstaged || ctx.focused_pane == PaneId::RepoStaged
}

/// What `L` asks for in the status diff: stage the selected lines of an unstaged diff,
/// unstage those of a staged one; nothing otherwise.
pub open spec fn selected_lines_action(r: RepoRouteState) -> Option<Action<Seq<char>>> {
    match r.detail {
        Some(d) => match d.diff_presentation {
            DiffPresentation::Unstaged => Some(Action::StageSelectedLines),
            DiffPresentation::Staged => Some(Action::UnstageSelectedLines),
            DiffPresentation::Comparison => None,
        },
        None => None,
    }
}

/// The keys of repository mode that the detail subviews do not shadow.
pub open spec fn repo_global_keys(s: Seq<RuleSpec>, ctx: RouteContext, page_size: usize) -> Seq<RuleSpec> {
    let s1 = s.push(rs("open_recent_repos", seq!["ctrl+r"], if copied_in_history(ctx) { Some(Action::ClearCopiedCommitSelection) } else { Some(Action::OpenRecentRepos) }));
    let s2 = s1.push(rs("open_command_log", seq!["@"], Some(Action::OpenCommandLog)));
    let s3 = s2.push(rs("next_screen_mode", seq!["+"], Some(Action::NextScreenMode)));
    let s4 = s3.push(rs("previous_screen_mode", seq!["_"], Some(Action::PreviousScreenMode)));
    let s5 = s4.push(rs("open_shell_command_prompt", seq![":"], Some(Action::OpenInputPrompt { operation: InputPromptOperation::ShellCommand })));
    let s6 = if shared_list_navigation(ctx) {
        let s7 = s5.push(rs("page_down_repo_list", seq![".", "pagedown"], Some(Action::PageDownRepoList { page_size })));
        let s8 = s7.push(rs("page_up_repo_list", seq![",", "pageup"], Some(Action::PageUpRepoList { page_size })));
        let s9 = s8.push(rs("select_first_repo_list_entry", seq!["<", "home"], Some(Action::SelectFirstRepoListEntry)));
        let s10 = s9.push(rs("select_last_repo_list_entry", seq![">", "end"], Some(Action::SelectLastRepoListEntry)));
        s10
    } else {
        s5
    };
    let s11 = s6.push(rs("select_previous_repo_subview", seq!["["], Some(Action::SelectPreviousRepoSubview)));
    let s12 = s11.push(rs("select_next_repo_subview", seq!["]"], Some(Action::SelectNextRepoSubview)));
    let s13 = if detail_filter_present(ctx) {
        let s14 = s12.push(rs("open_filter_options", seq!["ctrl+s"], Some(Action::OpenFilterOptions)));
        s14
    } else {
        s12
    };
    let s15 = if diff_options_available(ctx) {
        let s16 = s13.push(rs("open_diff_options", seq!["W", "ctrl+e"], Some(Action::OpenDiffOptions)));
        s16
    } else {
        s13
    };
    let s17 = if diff_tuning_available(ctx) {
        let s18 = s15.push(rs("toggle_whitespace_in_diff", seq!["ctrl+w"], Some(Action::ToggleWhitespaceInDiff)));
        let s19 = s18.push(rs("increase_diff_context", seq!["}"], Some(Action::IncreaseDiffContext)));
        let s20 = s19.push(rs("decrease_diff_context", seq!["{"], Some(Action::DecreaseDiffContext)));
        let s21 = s20.push(rs("increase_rename_similarity_threshold", seq![")"], Some(Action::IncreaseRenameSimilarityThreshold)));
        let s22 = s21.push(rs("decrease_rename_similarity_threshold", seq!["("], Some(Action::DecreaseRenameSimilarityThreshold)));
        s22
    } else {
        s15
    };
    let s23 = if merge_rebase_available(ctx) {
        let s24 = s17.push(rs("open_merge_rebase_options", seq!["m"], Some(Action::OpenMergeRebaseOptions)));
        s24
    } else {
        s17
    };
    let s25 = if patch_available(ctx) {
        let s26 = s23.push(rs("open_patch_options", seq!["ctrl+p"], Some(Action::OpenPatchOptions)));
        s26
    } else {
        s23
    };
    let s27 = if tag_push_available(ctx) {
        let s28 = s25.push(rs("push_selected_tag", seq!["P"], Some(Action::PushSelectedTag)));
        s28
    } else {
        s25
    };
    let s29 = s27.push(rs("push_current_branch", seq!["P"], Some(Action::PushCurrentBranch)));
    let s30 = if can_open_commit_box(ctx) {
        let s31 = s29.push(rs("open_amend_commit_box", seq!["A"], Some(Action::OpenCommitBox { mode: CommitBoxMode::Amend })));
        s31
    } else {
        s29
    };
    s30
}

/// The keys of the unstaged and staged file panes that move, open and change files.
pub open spec fn status_pane_keys(s: Seq<RuleSpec>, ctx: RouteContext) -> Seq<RuleSpec> {
    let s1 = s.push(rs("select_next_status_entry", seq!["j", "down"], Some(Action::SelectNextStatusEntry)));
    let s2 = s1.push(rs("select_previous_status_entry", seq!["k", "up"], Some(Action::SelectPreviousStatusEntry)));
    let s3 = s2.push(rs("discard_selected_file", seq!["d", "D"], Some(Action::DiscardSelectedFile)));
    let s4 = s3.push(rs("open_in_editor", seq!["e"], Some(Action::OpenInEditor)));
    let s5 = s4.push(rs("copy_selected_status_path", seq!["y", "ctrl+o"], Some(Action::CopySelectedStatusPath)));
    let s6 = s5.push(rs("open_selected_status_path_in_default_app", seq!["o"], Some(Action::OpenSelectedStatusPathInDefaultApp)));
    let s7 = s6.push(rs("open_selected_status_path_in_external_difftool", seq!["ctrl+t"], Some(Action::OpenSelectedStatusPathInExternalDiffTool)));
    let s8 = s7.push(rs("open_stash_options", seq!["S"], Some(Action::OpenStashOptions)));
    let s9 = s8.push(rs("stash_all_changes", seq!["s"], Some(Action::StashAllChanges)));
    let s10 = s9.push(rs("stage_selection", seq!["a"], if ctx.focused_pane == PaneId::RepoUnstaged { Some(Action::StageSelection) } else { Some(Action::UnstageSelection) }));
    let s11 = s10.push(rs("cycle_status_filter_mode", seq!["ctrl+b"], Some(Action::CycleStatusFilterMode)));
    let s12 = s11.push(rs("toggle_status_tree", seq!["`"], Some(Action::ToggleStatusTree)));
    s12
}

/// The keys of the unstaged and staged file panes that change the view, stage and commit.
pub open spec fn status_pane_more_keys(s: Seq<RuleSpec>, ctx: RouteContext) -> Seq<RuleSpec> {
    let s1 = s.push(rs("collapse_status_entry", seq!["-"], Some(Action::CollapseStatusEntry)));
    let s2 = s1.push(rs("expand_status_entry", seq!["="], Some(Action::ExpandStatusEntry)));
    let s3 = s2.push(rs("open_ignore_options", seq!["i"], Some(Action::OpenIgnoreOptions)));
    let s4 = s3.push(rs("open_status_reset_options", seq!["g"], Some(Action::OpenStatusResetOptions)));
    let s5 = s4.push(rs("open_merge_rebase_options", seq!["M"], Some(Action::OpenMergeRebaseOptions)));
    let s6 = s5.push(rs("focus_repo_detail_pane", seq!["0"], Some(Action::SetFocusedPane(PaneId::RepoDetail))));
    let s7 = s6.push(rs("focus_repo_subview_filter", seq!["/"], Some(Action::FocusRepoSubviewFilter)));
    let s8 = s7.push(rs("open_selected_status_entry", seq!["enter"], Some(Action::OpenSelectedStatusEntry)));
    let s9 = if ctx.focused_pane == PaneId::RepoUnstaged {
        let s10 = s8.push(rs("stage_selected_file", seq!["space"], Some(Action::StageSelectedFile)));
        s10
    } else {
        s8
    };
    let s11 = if ctx.focused_pane == PaneId::RepoStaged {
        let s12 = s9.push(rs("unstage_selected_file", seq!["space"], Some(Action::UnstageSelectedFile)));
        s12
    } else {
        s9
    };
    let s13 = if ctx.focused_pane == PaneId::RepoStaged && can_open_commit_box(ctx) {
        let s14 = s11.push(rs("open_commit_box", seq!["c"], Some(Action::OpenCommitBox { mode: CommitBoxMode::Commit })));
        s14
    } else {
        s11
    };
    let s15 = if ctx.focused_pane == PaneId::RepoStaged && can_open_commit_box(ctx) {
        let s16 = s13.push(rs("open_commit_no_verify_box", seq!["w"], Some(Action::OpenCommitBox { mode: CommitBoxMode::CommitNoVerify })));
        s16
    } else {
        s13
    };
    let s17 = s15.push(rs("commit_staged_with_editor", seq!["C"], Some(Action::CommitStagedWithEditor)));
    s17
}

/// The keys of the branches subview.
pub open spec fn branch_keys(s: Seq<RuleSpec>, r: RepoRouteState) -> Seq<RuleSpec> {
    let s1 = s.push(rs("select_next_branch", seq!["j", "down"], Some(Action::SelectNextBranch)));
    let s2 = s1.push(rs("select_previous_branch", seq!["k", "up"], Some(Action::SelectPreviousBranch)));
    let s3 = s2.push(rs("open_selected_branch_commits", seq!["enter"], Some(Action::OpenSelectedBranchCommits)));
    let s4 = s3.push(rs("checkout_selected_branch", seq!["space"], Some(Action::CheckoutSelectedBranch)));
    let s5 = s4.push(rs("checkout_previous_branch", seq!["-"], Some(Action::CheckoutBranch { branch_ref: "-"@ })));
    let s6 = match selected_branch_of(r.detail, r.selected_branch_index) {
        Some(b) => {
            let s7 = s5.push(rs("open_rename_branch_prompt", seq!["R"], Some(Action::OpenInputPrompt { operation: InputPromptOperation::RenameBranch { current_name: b.name@ } })));
            s7
        },
        None => s5,
    };
    let s8 = s6.push(rs("open_checkout_branch_prompt", seq!["c"], Some(Action::OpenInputPrompt { operation: InputPromptOperation::CheckoutBranch })));
    let s9 = s8.push(rs("open_create_branch_prompt", seq!["n"], Some(Action::OpenInputPrompt { operation: InputPromptOperation::CreateBranch })));
    let s10 = s9.push(rs("delete_selected_branch", seq!["d"], Some(Action::DeleteSelectedBranch)));
    let s11 = s10.push(rs("open_branch_upstream_options", seq!["u"], Some(Action::OpenBranchUpstreamOptions)));
    let s12 = s11.push(rs("copy_selected_branch_name", seq!["y", "ctrl+o"], Some(Action::CopySelectedBranchName)));
    let s13 = s12.push(rs("open_branch_pull_request_options", seq!["o"], Some(Action::OpenBranchPullRequestOptions)));
    let s14 = s13.push(rs("open_branch_reset_options", seq!["g"], Some(Action::OpenBranchResetOptions)));
    let s15 = s14.push(rs("open_branch_sort_options", seq!["s"], Some(Action::OpenBranchSortOptions)));
    let s16 = s15.push(rs("open_branch_git_flow_options", seq!["G"], Some(Action::OpenBranchGitFlowOptions)));
    let s17 = s16.push(rs("force_checkout_selected_branch", seq!["F"], Some(Action::ForceCheckoutSelectedBranch)));
    let s18 = s17.push(rs("rebase_current_branch_onto_selected_branch", seq!["r"], Some(Action::RebaseCurrentBranchOntoSelectedBranch)));
    let s19 = s18.push(rs("merge_selected_branch_into_current", seq!["M"], Some(Action::MergeSelectedBranchIntoCurrent)));
    let s20 = s19.push(rs("create_tag_from_selected_branch", seq!["T"], Some(Action::CreateTagFromSelectedBranch)));
    s20
}

/// The keys of the remotes subview.
pub open spec fn remote_keys(s: Seq<RuleSpec>, r: RepoRouteState) -> Seq<RuleSpec> {
    let s1 = s.push(rs("select_next_remote", seq!["j", "down"], Some(Action::SelectNextRemote)));
    let s2 = s1.push(rs("select_previous_remote", seq!["k", "up"], Some(Action::SelectPreviousRemote)));
    let s3 = s2.push(rs("open_selected_remote_branches", seq!["enter"], Some(Action::OpenSelectedRemoteBranches)));
    let s4 = s3.push(rs("open_create_remote_prompt", seq!["n"], Some(Action::OpenInputPrompt { operation: InputPromptOperation::CreateRemote })));
    let s5 = match selected_remote_of(r.detail, r.selected_remote_index) {
        Some(rm) => {
            let s6 = s4.push(rs("open_edit_remote_prompt", seq!["e"], Some(Action::OpenInputPrompt { operation: InputPromptOperation::EditRemote { current_name: rm.name@, current_url: rm.fetch_url@ } })));
            s6
        },
        None => s4,
    };
    let s7 = s5.push(rs("remove_selected_remote", seq!["d"], Some(Action::DeleteSelectedRemote)));
    let s8 = s7.push(rs("fetch_selected_remote", seq!["f"], Some(Action::FetchSelectedRemote)));
    let s9 = match selected_remote_of(r.detail, r.selected_remote_index) {
        Some(rm) => {
            let s10 = s8.push(rs("open_fork_remote_prompt", seq!["F"], Some(Action::OpenInputPrompt { operation: InputPromptOperation::ForkRemote { suggested_name: fork_name(rm.name@), remote_url: rm.fetch_url@ } })));
            s10
        },
        None => s8,
    };
    s9
}

/// The keys of the remote branches subview.
pub open spec fn remote_branch_keys(s: Seq<RuleSpec>, r: RepoRouteState) -> Seq<RuleSpec> {
    let s1 = s.push(rs("select_next_remote_branch", seq!["j", "down"], Some(Action::SelectNextRemoteBranch)));
    let s2 = s1.push(rs("select_previous_remote_branch", seq!["k", "up"], Some(Action::SelectPreviousRemoteBranch)));
    let s3 = s2.push(rs("open_selected_remote_branch_commits", seq!["enter"], Some(Action::OpenSelectedRemoteBranchCommits)));
    let s4 = s3.push(rs("checkout_selected_remote_branch", seq!["space"], Some(Action::CheckoutSelectedRemoteBranch)));
    let s5 = match selected_remote_branch_of(r.detail, r.selected_remote_branch_index) {
        Some(b) => {
            let s6 = s4.push(rs("open_create_local_branch_from_remote_prompt", seq!["n"], Some(Action::OpenInputPrompt { operation: InputPromptOperation::CreateBranchFromRemote { remote_branch_ref: b.name@, suggested_name: b.branch_name@ } })));
            s6
        },
        None => s4,
    };
    let s7 = s5.push(rs("delete_selected_remote_branch", seq!["d"], Some(Action::DeleteSelectedRemoteBranch)));
    let s8 = s7.push(rs("copy_selected_remote_branch_name", seq!["y", "ctrl+o"], Some(Action::CopySelectedRemoteBranchName)));
    let s9 = s8.push(rs("open_remote_branch_pull_request_options", seq!["o"], Some(Action::OpenRemoteBranchPullRequestOptions)));
    let s10 = s9.push(rs("open_remote_branch_reset_options", seq!["g"], Some(Action::OpenRemoteBranchResetOptions)));
    let s11 = s10.push(rs("open_remote_branch_sort_options", seq!["s"], Some(Action::OpenRemoteBranchSortOptions)));
    let s12 = s11.push(rs("set_current_branch_upstream_to_selected_remote_branch", seq!["u"], Some(Action::SetCurrentBranchUpstreamToSelectedRemoteBranch)));
    let s13 = s12.push(rs("rebase_current_branch_onto_selected_remote_branch", seq!["r"], Some(Action::RebaseCurrentBranchOntoSelectedRemoteBranch)));
    let s14 = s13.push(rs("merge_selected_remote_branch_into_current", seq!["M"], Some(Action::MergeSelectedRemoteBranchIntoCurrent)));
    let s15 = s14.push(rs("create_tag_from_selected_remote_branch", seq!["T"], Some(Action::CreateTagFromSelectedRemoteBranch)));
    s15
}

/// The keys of the tags subview.
pub open spec fn tag_keys(s: Seq<RuleSpec>, r: RepoRouteState) -> Seq<RuleSpec> {
    let s1 = s.push(rs("select_next_tag", seq!["j", "down"], Some(Action::SelectNextTag)));
    let s2 = s1.push(rs("select_previous_tag", seq!["k", "up"], Some(Action::SelectPreviousTag)));
    let s3 = s2.push(rs("open_selected_tag_commits", seq!["enter"], Some(Action::OpenSelectedTagCommits)));
    let s4 = s3.push(rs("checkout_selected_tag", seq!["space"], Some(Action::CheckoutSelectedTag)));
    let s5 = s4.push(rs("open_create_tag_prompt", seq!["n"], Some(Action::OpenInputPrompt { operation: InputPromptOperation::CreateTag })));
    let s6 = s5.push(rs("delete_selected_tag", seq!["d"], Some(Action::DeleteSelectedTag)));
    let s7 = s6.push(rs("copy_selected_tag_name", seq!["ctrl+o", "y"], Some(Action::CopySelectedTagName)));
    let s8 = s7.push(rs("open_tag_reset_options", seq!["g"], Some(Action::OpenTagResetOptions)));
    let s9 = s8.push(rs("soft_reset_to_selected_tag", seq!["S"], Some(Action::SoftResetToSelectedTag)));
    let s10 = s9.push(rs("mixed_reset_to_selected_tag", seq!["M"], Some(Action::MixedResetToSelectedTag)));
    let s11 = s10.push(rs("hard_reset_to_selected_tag", seq!["H"], Some(Action::HardResetToSelectedTag)));
    s11
}

/// The keys of the status subview (the diff of the selected file).
pub open spec fn status_detail_keys(s: Seq<RuleSpec>, r: RepoRouteState) -> Seq<RuleSpec> {
    let s1 = s.push(rs("select_next_diff_line", seq!["J"], Some(Action::SelectNextDiffLine)));
    let s2 = s1.push(rs("select_previous_diff_line", seq!["K"], Some(Action::SelectPreviousDiffLine)));
    let s3 = s2.push(rs("select_next_diff_hunk", seq!["j"], Some(Action::SelectNextDiffHunk)));
    let s4 = s3.push(rs("select_previous_diff_hunk", seq!["k"], Some(Action::SelectPreviousDiffHunk)));
    let s5 = s4.push(rs("toggle_diff_line_anchor", seq!["v"], Some(Action::ToggleDiffLineAnchor)));
    let s6 = s5.push(rs("scroll_repo_detail_down", seq!["down"], Some(Action::ScrollRepoDetailDown)));
    let s7 = s6.push(rs("scroll_repo_detail_up", seq!["up"], Some(Action::ScrollRepoDetailUp)));
    let s8 = s7.push(rs("apply_selected_hunk", seq!["enter", "space"], Some(Action::ActivateRepoSubviewSelection)));
    let s9 = s8.push(rs("apply_selected_lines", seq!["L"], selected_lines_action(r)));
    let s10 = s9.push(rs("discard_selected_file", seq!["D"], Some(Action::DiscardSelectedFile)));
    let s11 = s10.push(rs("open_config_file_in_default_app", seq!["o"], Some(Action::OpenConfigFileInDefaultApp)));
    let s12 = s11.push(rs("open_config_file_in_editor", seq!["e"], Some(Action::OpenConfigFileInEditor)));
    let s13 = s12.push(rs("check_for_updates", seq!["u"], Some(Action::CheckForUpdates)));
    let s14 = s13.push(rs("nuke_working_tree", seq!["X"], Some(Action::NukeWorkingTree)));
    let s15 = s14.push(rs("open_all_branch_graph", seq!["a"], Some(Action::OpenAllBranchGraph { reverse: false })));
    let s16 = s15.push(rs("open_all_branch_graph_reverse", seq!["A"], Some(Action::OpenAllBranchGraph { reverse: true })));
    s16
}

/// The keys of the diff of a file of a commit.
pub open spec fn commit_file_diff_keys(s: Seq<RuleSpec>, r: RepoRouteState) -> Seq<RuleSpec> {
    let s1 = if files_diff(r) {
        let s2 = s.push(rs("select_next_diff_line", seq!["J"], Some(Action::SelectNextDiffLine)));
        let s3 = s2.push(rs("select_previous_diff_line", seq!["K"], Some(Action::SelectPreviousDiffLine)));
        let s4 = s3.push(rs("select_next_diff_hunk", seq!["j"], Some(Action::SelectNextDiffHunk)));
        let s5 = s4.push(rs("select_previous_diff_hunk", seq!["k"], Some(Action::SelectPreviousDiffHunk)));
        let s6 = s5.push(rs("toggle_diff_line_anchor", seq!["v"], Some(Action::ToggleDiffLineAnchor)));
        let s7 = s6.push(rs("scroll_repo_detail_down", seq!["down"], Some(Action::ScrollRepoDetailDown)));
        let s8 = s7.push(rs("scroll_repo_detail_up", seq!["up"], Some(Action::ScrollRepoDetailUp)));
        let s9 = s8.push(rs("close_selected_commit_files", seq!["enter"], Some(Action::CloseSelectedCommitFiles)));
        let s10 = s9.push(rs("checkout_selected_commit_file", seq!["space"], Some(Action::CheckoutSelectedCommitFile)));
        let s11 = s10.push(rs("open_in_editor", seq!["e"], Some(Action::OpenInEditor)));
        s11
    } else {
        s
    };
    s1
}

/// The keys of the commit history and of the file list of a commit.
pub open spec fn commit_list_keys(s: Seq<RuleSpec>, r: RepoRouteState) -> Seq<RuleSpec> {
    let s1 = if !files_diff(r) {
        let s2 = s.push(rs("select_next_commit", seq!["j", "down"], Some(Action::SelectNextCommit)));
        let s3 = s2.push(rs("select_previous_commit", seq!["k", "up"], Some(Action::SelectPreviousCommit)));
        let s4 = if history(r) {
            let s5 = s3.push(rs("open_selected_commit_files", seq!["enter"], Some(Action::OpenSelectedCommitFiles)));
            s5
        } else {
            s3
        };
        let s6 = if files_list(r) {
            let s7 = s4.push(rs("open_selected_commit_files", seq!["enter"], Some(Action::OpenSelectedCommitFiles)));
            s7
        } else {
            s4
        };
        let s8 = if files_diff(r) {
            let s9 = s6.push(rs("close_selected_commit_files", seq!["enter", "backspace", "left"], Some(Action::CloseSelectedCommitFiles)));
            s9
        } else {
            s6
        };
        let s10 = if files_list(r) {
            let s11 = s8.push(rs("close_selected_commit_files", seq!["backspace", "left"], Some(Action::CloseSelectedCommitFiles)));
            s11
        } else {
            s8
        };
        let s12 = if history(r) {
            let s13 = s10.push(rs("checkout_selected_commit", seq!["space"], Some(Action::CheckoutSelectedCommit)));
            s13
        } else {
            s10
        };
        let s14 = if files(r) {
            let s15 = s12.push(rs("checkout_selected_commit_file", seq!["space"], Some(Action::CheckoutSelectedCommitFile)));
            s15
        } else {
            s12
        };
        let s16 = if files(r) {
            let s17 = s14.push(rs("open_in_editor", seq!["e"], Some(Action::OpenInEditor)));
            s17
        } else {
            s14
        };
        let s18 = if files_list(r) {
            let s19 = s16.push(rs("copy_selected_status_path", seq!["y", "ctrl+o"], Some(Action::CopySelectedStatusPath)));
            s19
        } else {
            s16
        };
        let s20 = if files_list(r) {
            let s21 = s18.push(rs("open_selected_status_path_in_default_app", seq!["o"], Some(Action::OpenSelectedStatusPathInDefaultApp)));
            s21
        } else {
            s18
        };
        let s22 = if files_list(r) {
            let s23 = s20.push(rs("open_selected_status_path_in_external_difftool", seq!["ctrl+t"], Some(Action::OpenSelectedStatusPathInExternalDiffTool)));
            s23
        } else {
            s20
        };
        let s24 = if history(r) {
            let s25 = s22.push(rs("copy_selected_commit_for_cherry_pick", seq!["C"], Some(Action::CopySelectedCommitForCherryPick)));
            s25
        } else {
            s22
        };
        let s26 = if history(r) {
            let s27 = s24.push(rs("cherry_pick_copied_commit", seq!["V"], Some(Action::CherryPickCopiedCommit)));
            s27
        } else {
            s24
        };
        let s28 = if history(r) {
            let s29 = s26.push(rs("copy_selected_commit_hash", seq!["ctrl+o"], Some(Action::CopySelectedCommitHash)));
            s29
        } else {
            s26
        };
        let s30 = if history(r) {
            let s31 = s28.push(rs("open_selected_commit_in_browser", seq!["o"], Some(Action::OpenSelectedCommitInBrowser)));
            s31
        } else {
            s28
        };
        s30
    } else {
        s
    };
    s1
}

/// The keys that act on the selected commit of the history.
pub open spec fn commit_history_keys(s: Seq<RuleSpec>, r: RepoRouteState) -> Seq<RuleSpec> {
    let s1 = if history(r) {
        let s2 = s.push(rs("open_create_branch_from_commit_prompt", seq!["n"], Some(Action::CreateBranchFromSelectedCommit)));
        let s3 = s2.push(rs("open_create_tag_from_commit_prompt", seq!["T"], Some(Action::CreateTagFromSelectedCommit)));
        let s4 = s3.push(rs("start_interactive_rebase", seq!["i"], Some(Action::StartInteractiveRebase)));
        let s5 = s4.push(rs("open_commit_log_options", seq!["ctrl+l"], Some(Action::OpenCommitLogOptions)));
        let s6 = s5.push(rs("open_bisect_options", seq!["b"], Some(Action::OpenBisectOptions)));
        let s7 = s6.push(rs("amend_selected_commit", seq!["A"], Some(Action::AmendSelectedCommit)));
        let s8 = s7.push(rs("open_commit_amend_attribute_options", seq!["a"], Some(Action::OpenCommitAmendAttributeOptions)));
        let s9 = s8.push(rs("open_commit_copy_options", seq!["y"], Some(Action::OpenCommitCopyOptions)));
        let s10 = s9.push(rs("open_commit_fixup_options", seq!["f"], Some(Action::OpenCommitFixupOptions)));
        let s11 = s10.push(rs("fixup_selected_commit", seq!["F"], Some(Action::FixupSelectedCommit)));
        let s12 = s11.push(rs("set_fixup_message_for_selected_commit", seq!["c"], Some(Action::SetFixupMessageForSelectedCommit)));
        let s13 = s12.push(rs("apply_fixup_commits", seq!["g"], Some(Action::ApplyFixupCommits)));
        let s14 = s13.push(rs("squash_selected_commit", seq!["s"], Some(Action::SquashSelectedCommit)));
        let s15 = s14.push(rs("drop_selected_commit", seq!["d"], Some(Action::DropSelectedCommit)));
        let s16 = s15.push(rs("move_selected_commit_up", seq!["ctrl+k"], Some(Action::MoveSelectedCommitUp)));
        let s17 = s16.push(rs("move_selected_commit_down", seq!["ctrl+j"], Some(Action::MoveSelectedCommitDown)));
        let s18 = s17.push(rs("reword_selected_commit", seq!["r"], Some(Action::RewordSelectedCommit)));
        let s19 = s18.push(rs("reword_selected_commit_with_editor", seq!["R"], Some(Action::RewordSelectedCommitWithEditor)));
        let s20 = s19.push(rs("cherry_pick_selected_commit", seq!["C"], Some(Action::CherryPickSelectedCommit)));
        let s21 = s20.push(rs("revert_selected_commit", seq!["t"], Some(Action::RevertSelectedCommit)));
        let s22 = s21.push(rs("soft_reset_to_selected_commit", seq!["S"], Some(Action::SoftResetToSelectedCommit)));
        let s23 = s22.push(rs("mixed_reset_to_selected_commit", seq!["M"], Some(Action::MixedResetToSelectedCommit)));
        let s24 = s23.push(rs("hard_reset_to_selected_commit", seq!["H"], Some(Action::HardResetToSelectedCommit)));
        s24
    } else {
        s
    };
    s1
}

/// The keys of the compare subview.
pub open spec fn compare_keys(s: Seq<RuleSpec>, r: RepoRouteState) -> Seq<RuleSpec> {
    let s1 = s.push(rs("scroll_repo_detail_down", seq!["j", "down"], Some(Action::ScrollRepoDetailDown)));
    let s2 = s1.push(rs("scroll_repo_detail_up", seq!["k", "up"], Some(Action::ScrollRepoDetailUp)));
    s2
}

/// The keys of the rebase subview.
pub open spec fn rebase_keys(s: Seq<RuleSpec>, r: RepoRouteState) -> Seq<RuleSpec> {
    let s1 = s.push(rs("scroll_repo_detail_down", seq!["j", "down"], Some(Action::ScrollRepoDetailDown)));
    let s2 = s1.push(rs("scroll_repo_detail_up", seq!["k", "up"], Some(Action::ScrollRepoDetailUp)));
    let s3 = s2.push(rs("continue_rebase", seq!["c"], Some(Action::ContinueRebase)));
    let s4 = s3.push(rs("skip_rebase", seq!["s"], Some(Action::SkipRebase)));
    let s5 = s4.push(rs("abort_rebase", seq!["A"], Some(Action::AbortRebase)));
    s5
}

/// The keys of the stash subview: the stash list and the files of a stash.
pub open spec fn stash_keys(s: Seq<RuleSpec>, r: RepoRouteState) -> Seq<RuleSpec> {
    let s1 = if stash_list(r) {
        let s2 = s.push(rs("select_next_stash", seq!["j", "down"], Some(Action::SelectNextStash)));
        s2
    } else {
        s
    };
    let s3 = if !stash_list(r) {
        let s4 = s1.push(rs("select_next_stash_file", seq!["j", "down"], Some(Action::SelectNextStashFile)));
        s4
    } else {
        s1
    };
    let s5 = if stash_list(r) {
        let s6 = s3.push(rs("select_previous_stash", seq!["k", "up"], Some(Action::SelectPreviousStash)));
        s6
    } else {
        s3
    };
    let s7 = if !stash_list(r) {
        let s8 = s5.push(rs("select_previous_stash_file", seq!["k", "up"], Some(Action::SelectPreviousStashFile)));
        s8
    } else {
        s5
    };
    let s9 = s7.push(rs("activate_repo_subview_selection", seq!["enter"], Some(Action::ActivateRepoSubviewSelection)));
    let s10 = if stash_list(r) {
        let s11 = s9.push(rs("apply_selected_stash", seq!["space"], Some(Action::ApplySelectedStash)));
        s11
    } else {
        s9
    };
    let s12 = if stash_list(r) {
        let s13 = match selected_stash_of(r.detail, r.selected_stash_index) {
            Some(st) => {
                let s14 = s10.push(rs("open_create_branch_from_stash_prompt", seq!["n"], Some(Action::OpenInputPrompt { operation: InputPromptOperation::CreateBranchFromStash { stash_ref: st.stash_ref@, stash_label: st.label@ } })));
                s14
            },
            None => s10,
        };
        s13
    } else {
        s10
    };
    let s15 = if stash_list(r) {
        let s16 = match selected_stash_of(r.detail, r.selected_stash_index) {
            Some(st) => {
                let s17 = s12.push(rs("open_rename_stash_prompt", seq!["r"], Some(Action::OpenInputPrompt { operation: InputPromptOperation::RenameStash { stash_ref: st.stash_ref@, current_name: stash_message(st.label@) } })));
                s17
            },
            None => s12,
        };
        s16
    } else {
        s12
    };
    let s18 = if stash_list(r) {
        let s19 = s15.push(rs("pop_selected_stash", seq!["g"], Some(Action::PopSelectedStash)));
        s19
    } else {
        s15
    };
    let s20 = if stash_list(r) {
        let s21 = s18.push(rs("drop_selected_stash", seq!["d"], Some(Action::DropSelectedStash)));
        s21
    } else {
        s18
    };
    s20
}

/// The keys of the reflog subview.
pub open spec fn reflog_keys(s: Seq<RuleSpec>, r: RepoRouteState) -> Seq<RuleSpec> {
    let s1 = s.push(rs("select_next_reflog", seq!["j", "down"], Some(Action::SelectNextReflog)));
    let s2 = s1.push(rs("select_previous_reflog", seq!["k", "up"], Some(Action::SelectPreviousReflog)));
    let s3 = s2.push(rs("open_selected_reflog_commits", seq!["enter"], Some(Action::OpenSelectedReflogCommits)));
    let s4 = s3.push(rs("checkout_selected_commit", seq!["space"], Some(Action::CheckoutSelectedCommit)));
    let s5 = s4.push(rs("open_create_branch_from_commit_prompt", seq!["n"], Some(Action::CreateBranchFromSelectedCommit)));
    let s6 = s5.push(rs("open_create_tag_from_commit_prompt", seq!["T"], Some(Action::CreateTagFromSelectedCommit)));
    let s7 = s6.push(rs("cherry_pick_selected_commit", seq!["C"], Some(Action::CherryPickSelectedCommit)));
    let s8 = s7.push(rs("copy_selected_reflog_commit_hash", seq!["ctrl+o", "y"], Some(Action::CopySelectedReflogCommitHash)));
    let s9 = s8.push(rs("open_selected_reflog_in_browser", seq!["o"], Some(Action::OpenSelectedReflogInBrowser)));
    let s10 = s9.push(rs("open_reflog_reset_options", seq!["g"], Some(Action::OpenReflogResetOptions)));
    let s11 = s10.push(rs("soft_reset_to_selected_commit", seq!["S"], Some(Action::SoftResetToSelectedCommit)));
    let s12 = s11.push(rs("mixed_reset_to_selected_commit", seq!["M"], Some(Action::MixedResetToSelectedCommit)));
    let s13 = s12.push(rs("hard_reset_to_selected_commit", seq!["H"], Some(Action::HardResetToSelectedCommit)));
    let s14 = s13.push(rs("restore_selected_reflog_entry", seq!["u"], Some(Action::RestoreSelectedReflogEntry)));
    s14
}

/// The keys of the worktrees subview.
pub open spec fn worktree_keys(s: Seq<RuleSpec>, r: RepoRouteState) -> Seq<RuleSpec> {
    let s1 = s.push(rs("select_next_worktree", seq!["j", "down"], Some(Action::SelectNextWorktree)));
    let s2 = s1.push(rs("select_previous_worktree", seq!["k", "up"], Some(Action::SelectPreviousWorktree)));
    let s3 = s2.push(rs("switch_to_selected_worktree", seq!["enter", "space"], Some(Action::ActivateRepoSubviewSelection)));
    let s4 = s3.push(rs("create_worktree", seq!["n", "c"], Some(Action::CreateWorktree)));
    let s5 = s4.push(rs("open_in_editor", seq!["o"], Some(Action::OpenInEditor)));
    let s6 = s5.push(rs("remove_selected_worktree", seq!["d"], Some(Action::RemoveSelectedWorktree)));
    s6
}

/// The keys of the submodules subview.
pub open spec fn submodule_keys(s: Seq<RuleSpec>, r: RepoRouteState) -> Seq<RuleSpec> {
    let s1 = s.push(rs("select_next_submodule", seq!["j", "down"], Some(Action::SelectNextSubmodule)));
    let s2 = s1.push(rs("select_previous_submodule", seq!["k", "up"], Some(Action::SelectPreviousSubmodule)));
    let s3 = s2.push(rs("enter_selected_submodule", seq!["enter", "space"], Some(Action::ActivateRepoSubviewSelection)));
    let s4 = s3.push(rs("create_submodule", seq!["n"], Some(Action::CreateSubmodule)));
    let s5 = s4.push(rs("copy_selected_submodule_name", seq!["ctrl+o", "y"], Some(Action::CopySelectedSubmoduleName)));
    let s6 = s5.push(rs("open_submodule_options", seq!["b"], Some(Action::OpenSubmoduleOptions)));
    let s7 = s6.push(rs("edit_selected_submodule", seq!["e"], Some(Action::EditSelectedSubmodule)));
    let s8 = s7.push(rs("init_selected_submodule", seq!["i"], Some(Action::InitSelectedSubmodule)));
    let s9 = s8.push(rs("update_selected_submodule", seq!["u"], Some(Action::UpdateSelectedSubmodule)));
    let s10 = s9.push(rs("open_in_editor", seq!["o"], Some(Action::OpenInEditor)));
    let s11 = s10.push(rs("remove_selected_submodule", seq!["d"], Some(Action::RemoveSelectedSubmodule)));
    s11
}

/// The keys that select and clear a comparison.
pub open spec fn comparison_keys(s: Seq<RuleSpec>, r: RepoRouteState) -> Seq<RuleSpec> {
    let s1 = if r.active_subview == RepoSubview::Branches {
        let s2 = s.push(rs("toggle_comparison_selection", seq!["v"], Some(Action::ToggleComparisonSelection)));
        s2
    } else {
        s
    };
    let s3 = if r.active_subview == RepoSubview::Commits && history(r) {
        let s4 = s1.push(rs("toggle_comparison_selection", seq!["v"], Some(Action::ToggleComparisonSelection)));
        s4
    } else {
        s1
    };
    let s5 = if comparison_clearable(r) {
        let s6 = s3.push(rs("clear_comparison", seq!["x"], Some(Action::ClearComparison)));
        s6
    } else {
        s3
    };
    s5
}

/// The keys that focus panes, switch subviews, refresh, fetch and pull.
pub open spec fn repo_tail_keys(s: Seq<RuleSpec>, ctx: RouteContext) -> Seq<RuleSpec> {
    let s1 = if ctx.focused_pane == PaneId::RepoDetail {
        let s2 = s.push(rs("focus_repo_main_pane", seq!["0"], Some(Action::FocusRepoMainPane)));
        s2
    } else {
        s
    };
    let s3 = if ctx.focused_pane == PaneId::RepoDetail {
        let s4 = s1.push(rs("focus_repo_subview_filter", seq!["/"], Some(Action::FocusRepoSubviewFilter)));
        s4
    } else {
        s1
    };
    let s5 = if ctx.focused_pane == PaneId::RepoDetail {
        let s6 = s3.push(rs("open_repo_worktrees_subview", seq!["w"], Some(Action::OpenRepoWorktreesSubview)));
        s6
    } else {
        s3
    };
    let s7 = if ctx.focused_pane == PaneId::RepoDetail {
        let s8 = s5.push(rs("open_repo_submodules_subview", seq!["b"], Some(Action::OpenRepoSubmodulesSubview)));
        s8
    } else {
        s5
    };
    let s9 = s7.push(rs("focus_repo_left", seq!["h", "left"], Some(focus_left(ctx.focused_pane))));
    let s10 = s9.push(rs("focus_repo_right", seq!["l", "right"], Some(focus_right(ctx.focused_pane))));
    let s11 = s10.push(rs("switch_repo_subview_status", seq!["1"], Some(Action::SwitchRepoSubview(RepoSubview::Status))));
    let s12 = s11.push(rs("switch_repo_subview_branches", seq!["2"], Some(Action::SwitchRepoSubview(RepoSubview::Branches))));
    let s13 = s12.push(rs("switch_repo_subview_remotes", seq!["m"], Some(Action::SwitchRepoSubview(RepoSubview::Remotes))));
    let s14 = s13.push(rs("switch_repo_subview_remote_branches", seq!["9"], Some(Action::SwitchRepoSubview(RepoSubview::RemoteBranches))));
    let s15 = s14.push(rs("switch_repo_subview_tags", seq!["t"], Some(Action::SwitchRepoSubview(RepoSubview::Tags))));
    let s16 = s15.push(rs("switch_repo_subview_commits", seq!["3"], Some(Action::SwitchRepoSubview(RepoSubview::Commits))));
    let s17 = s16.push(rs("switch_repo_subview_compare", seq!["4"], Some(Action::SwitchRepoSubview(RepoSubview::Compare))));
    let s18 = s17.push(rs("switch_repo_subview_rebase", seq!["5"], Some(Action::SwitchRepoSubview(RepoSubview::Rebase))));
    let s19 = s18.push(rs("switch_repo_subview_stash", seq!["6"], Some(Action::SwitchRepoSubview(RepoSubview::Stash))));
    let s20 = s19.push(rs("switch_repo_subview_reflog", seq!["7"], Some(Action::SwitchRepoSubview(RepoSubview::Reflog))));
    let s21 = s20.push(rs("switch_repo_subview_worktrees", seq!["8"], Some(Action::SwitchRepoSubview(RepoSubview::Worktrees))));
    let s22 = s21.push(rs("switch_repo_subview_submodules", seq!["b"], Some(Action::SwitchRepoSubview(RepoSubview::Submodules))));
    let s23 = s22.push(rs("refresh_selected_repo", seq!["r"], Some(Action::RefreshSelectedRepo)));
    let s24 = s23.push(rs("refresh_selected_repo_deep", seq!["R"], Some(Action::RefreshSelectedRepoDeep)));
    let s25 = s24.push(rs("fetch_selected_repo", seq!["f"], Some(Action::FetchSelectedRepo)));
    let s26 = s25.push(rs("pull_current_branch", seq!["p"], Some(Action::PullCurrentBranch)));
    s26
}

/// The keys of the focused detail subview.
pub open spec fn detail_keys(s: Seq<RuleSpec>, r: RepoRouteState) -> Seq<RuleSpec> {
    let t = match r.active_subview {
        RepoSubview::Branches => branch_keys(s, r),
        RepoSubview::Remotes => remote_keys(s, r),
        RepoSubview::RemoteBranches => remote_branch_keys(s, r),
        RepoSubview::Tags => tag_keys(s, r),
        RepoSubview::Status => status_detail_keys(s, r),
        RepoSubview::Commits => commit_history_keys(commit_list_keys(commit_file_diff_keys(s, r), r), r),
        RepoSubview::Compare => compare_keys(s, r),
        RepoSubview::Rebase => rebase_keys(s, r),
        RepoSubview::Stash => stash_keys(s, r),
        RepoSubview::Reflog => reflog_keys(s, r),
        RepoSubview::Worktrees => worktree_keys(s, r),
        RepoSubview::Submodules => submodule_keys(s, r),
    };
    comparison_keys(t, r)
}

/// The key map of repository mode, in the order in which its entries are tried.
pub open spec fn repo_rules(ctx: RouteContext, page_size: usize) -> Seq<RuleSpec> {
    let a = repo_global_keys(Seq::empty(), ctx, page_size);
    let b = if status_pane_focused(ctx) {
        status_pane_more_keys(status_pane_keys(a, ctx), ctx)
    } else {
        a
    };
    let c = match ctx.repo_mode {
        Some(r) => if ctx.focused_pane == PaneId::RepoDetail {
            detail_keys(b, r)
        } else {
            b
        },
        None => b,
    };
    repo_tail_keys(c, ctx)
}

fn history_exec(r: &RepoRouteState) -> (b: bool)
    ensures
        b == history(*r),
{
    matches!(r.commit_subview_mode, CommitSubviewMode::History)
}

fn files_exec(r: &RepoRouteState) -> (b: bool)
    ensures
        b == files(*r),
{
    matches!(r.commit_subview_mode, CommitSubviewMode::Files)
}

fn files_list_exec(r: &RepoRouteState) -> (b: bool)
    ensures
        b == files_list(*r),
{
    files_exec(r) && matches!(r.commit_files_mode, CommitFilesMode::List)
}

fn files_diff_exec(r: &RepoRouteState) -> (b: bool)
    ensures
        b == files_diff(*r),
{
    files_exec(r) && matches!(r.commit_files_mode, CommitFilesMode::Diff)
}

fn stash_list_exec(r: &RepoRouteState) -> (b: bool)
    ensures
        b == stash_list(*r),
{
    matches!(r.stash_subview_mode, StashSubviewMode::List)
}

fn comparison_clearable_exec(r: &RepoRouteState) -> (b: bool)
    ensures
        b == comparison_clearable(*r),
{
    r.has_comparison_base && (same_subview(r.active_subview, RepoSubview::Branches) || same_subview(
        r.active_subview,
        RepoSubview::Commits,
    ) || same_subview(r.active_subview, RepoSubview::Compare))
}

fn copied_in_history_exec(ctx: &RouteContext) -> (b: bool)
    ensures
        b == copied_in_history(*ctx),
{
    match &ctx.repo_mode {
        Some(r) => same_subview(r.active_subview, RepoSubview::Commits) && history_exec(r)
            && r.has_copied_commit,
        None => false,
    }
}

fn shared_list_navigation_exec(ctx: &RouteContext) -> (b: bool)
    ensures
        b == shared_list_navigation(*ctx),
{
    if same_pane(ctx.focused_pane, PaneId::RepoUnstaged) || same_pane(ctx.focused_pane, PaneId::RepoStaged) {
        return true;
    }
    same_pane(ctx.focused_pane, PaneId::RepoDetail) && match &ctx.repo_mode {
        Some(r) => !(same_subview(r.active_subview, RepoSubview::Status) || same_subview(
            r.active_subview,
            RepoSubview::Compare,
        ) || same_subview(r.active_subview, RepoSubview::Rebase)),
        None => false,
    }
}

fn detail_filter_present_exec(ctx: &RouteContext) -> (b: bool)
    ensures
        b == detail_filter_present(*ctx),
{
    same_pane(ctx.focused_pane, PaneId::RepoDetail) && match &ctx.repo_mode {
        Some(r) => !matches!(r.subview_filter, SubviewFilter::Absent),
        None => false,
    }
}

fn diff_options_available_exec(ctx: &RouteContext) -> (b: bool)
    ensures
        b == diff_options_available(*ctx),
{
    same_pane(ctx.focused_pane, PaneId::RepoDetail) && match &ctx.repo_mode {
        Some(r) => matches!(
            r.active_subview,
            RepoSubview::Status | RepoSubview::Branches | RepoSubview::Commits | RepoSubview::Compare
        ),
        None => false,
    }
}

fn diff_tuning_available_exec(ctx: &RouteContext) -> (b: bool)
    ensures
        b == diff_tuning_available(*ctx),
{
    same_pane(ctx.focused_pane, PaneId::RepoDetail) && match &ctx.repo_mode {
        Some(r) => matches!(r.active_subview, RepoSubview::Status | RepoSubview::Commits | RepoSubview::Compare),
        None => false,
    }
}

fn merge_rebase_available_exec(ctx: &RouteContext) -> (b: bool)
    ensures
        b == merge_rebase_available(*ctx),
{
    same_pane(ctx.focused_pane, PaneId::RepoDetail) && match &ctx.repo_mode {
        Some(r) => matches!(r.active_subview, RepoSubview::Commits | RepoSubview::Rebase),
        None => false,
    }
}

fn patch_available_exec(ctx: &RouteContext) -> (b: bool)
    ensures
        b == patch_available(*ctx),
{
    same_pane(ctx.focused_pane, PaneId::RepoDetail) && match &ctx.repo_mode {
        Some(r) => matches!(r.active_subview, RepoSubview::Status),
        None => false,
    }
}

fn tag_push_available_exec(ctx: &RouteContext) -> (b: bool)
    ensures
        b == tag_push_available(*ctx),
{
    same_pane(ctx.focused_pane, PaneId::RepoDetail) && match &ctx.repo_mode {
        Some(r) => matches!(r.active_subview, RepoSubview::Tags) && selected_tag(
            r.detail.as_ref(),
            r.selected_tag_index,
        ).is_some(),
        None => false,
    }
}

fn can_open_commit_box_exec(ctx: &RouteContext) -> (b: bool)
    ensures
        b == can_open_commit_box(*ctx),
{
    same_pane(ctx.focused_pane, PaneId::RepoStaged) && match &ctx.repo_mode {
        Some(r) => matches!(r.active_subview, RepoSubview::Status) && r.detail.is_some(),
        None => false,
    }
}

fn status_pane_focused_exec(ctx: &RouteContext) -> (b: bool)
    ensures
        b == status_pane_focused(*ctx),
{
    same_pane(ctx.focused_pane, PaneId::RepoUnstaged) || same_pane(ctx.focused_pane, PaneId::RepoStaged)
}

fn selected_lines_action_exec(r: &RepoRouteState) -> (a: Option<Action<String>>)
    ensures
        crate::model::opt_action_view(a) == selected_lines_action(*r),
{
    match &r.detail {
        Some(d) => match d.diff_presentation {
            DiffPresentation::Unstaged => Some(Action::StageSelectedLines),
            DiffPresentation::Staged => Some(Action::UnstageSelectedLines),
            DiffPresentation::Comparison => None,
        },
        None => None,
    }
}

fn repo_global_keys_exec(v: &mut Vec<KeyRule>, ctx: &RouteContext, page_size: usize)
    ensures
        rules_view(final(v)@) == repo_global_keys(rules_view(old(v)@), *ctx, page_size),
{
    push1(v, "open_recent_repos", "ctrl+r", if copied_in_history_exec(ctx) { Some(Action::ClearCopiedCommitSelection) } else { Some(Action::OpenRecentRepos) });
    push1(v, "open_command_log", "@", Some(Action::OpenCommandLog));
    push1(v, "next_screen_mode", "+", Some(Action::NextScreenMode));
    push1(v, "previous_screen_mode", "_", Some(Action::PreviousScreenMode));
    push1(v, "open_shell_command_prompt", ":", Some(Action::OpenInputPrompt { operation: InputPromptOperation::ShellCommand }));
    if shared_list_navigation_exec(ctx) {
        push2(v, "page_down_repo_list", ".", "pagedown", Some(Action::PageDownRepoList { page_size }));
        push2(v, "page_up_repo_list", ",", "pageup", Some(Action::PageUpRepoList { page_size }));
        push2(v, "select_first_repo_list_entry", "<", "home", Some(Action::SelectFirstRepoListEntry));
        push2(v, "select_last_repo_list_entry", ">", "end", Some(Action::SelectLastRepoListEntry));
    }
    push1(v, "select_previous_repo_subview", "[", Some(Action::SelectPreviousRepoSubview));
    push1(v, "select_next_repo_subview", "]", Some(Action::SelectNextRepoSubview));
    if detail_filter_present_exec(ctx) {
        push1(v, "open_filter_options", "ctrl+s", Some(Action::OpenFilterOptions));
    }
    if diff_options_available_exec(ctx) {
        push2(v, "open_diff_options", "W", "ctrl+e", Some(Action::OpenDiffOptions));
    }
    if diff_tuning_available_exec(ctx) {
        push1(v, "toggle_whitespace_in_diff", "ctrl+w", Some(Action::ToggleWhitespaceInDiff));
        push1(v, "increase_diff_context", "}", Some(Action::IncreaseDiffContext));
        push1(v, "decrease_diff_context", "{", Some(Action::DecreaseDiffContext));
        push1(v, "increase_rename_similarity_threshold", ")", Some(Action::IncreaseRenameSimilarityThreshold));
        push1(v, "decrease_rename_similarity_threshold", "(", Some(Action::DecreaseRenameSimilarityThreshold));
    }
    if merge_rebase_available_exec(ctx) {
        push1(v, "open_merge_rebase_options", "m", Some(Action::OpenMergeRebaseOptions));
    }
    if patch_available_exec(ctx) {
        push1(v, "open_patch_options", "ctrl+p", Some(Action::OpenPatchOptions));
    }
    if tag_push_available_exec(ctx) {
        push1(v, "push_selected_tag", "P", Some(Action::PushSelectedTag));
    }
    push1(v, "push_current_branch", "P", Some(Action::PushCurrentBranch));
    if can_open_commit_box_exec(ctx) {
        push1(v, "open_amend_commit_box", "A", Some(Action::OpenCommitBox { mode: CommitBoxMode::Amend }));
    }
}

fn status_pane_keys_exec(v: &mut Vec<KeyRule>, ctx: &RouteContext)
    ensures
        rules_view(final(v)@) == status_pane_keys(rules_view(old(v)@), *ctx),
{
    push2(v, "select_next_status_entry", "j", "down", Some(Action::SelectNextStatusEntry));
    push2(v, "select_previous_status_entry", "k", "up", Some(Action::SelectPreviousStatusEntry));
    push2(v, "discard_selected_file", "d", "D", Some(Action::DiscardSelectedFile));
    push1(v, "open_in_editor", "e", Some(Action::OpenInEditor));
    push2(v, "copy_selected_status_path", "y", "ctrl+o", Some(Action::CopySelectedStatusPath));
    push1(v, "open_selected_status_path_in_default_app", "o", Some(Action::OpenSelectedStatusPathInDefaultApp));
    push1(v, "open_selected_status_path_in_external_difftool", "ctrl+t", Some(Action::OpenSelectedStatusPathInExternalDiffTool));
    push1(v, "open_stash_options", "S", Some(Action::OpenStashOptions));
    push1(v, "stash_all_changes", "s", Some(Action::StashAllChanges));
    push1(v, "stage_selection", "a", if same_pane(ctx.focused_pane, PaneId::RepoUnstaged) { Some(Action::StageSelection) } else { Some(Action::UnstageSelection) });
    push1(v, "cycle_status_filter_mode", "ctrl+b", Some(Action::CycleStatusFilterMode));
    push1(v, "toggle_status_tree", "`", Some(Action::ToggleStatusTree));
}

fn status_pane_more_keys_exec(v: &mut Vec<KeyRule>, ctx: &RouteContext)
    ensures
        rules_view(final(v)@) == status_pane_more_keys(rules_view(old(v)@), *ctx),
{
    push1(v, "collapse_status_entry", "-", Some(Action::CollapseStatusEntry));
    push1(v, "expand_status_entry", "=", Some(Action::ExpandStatusEntry));
    push1(v, "open_ignore_options", "i", Some(Action::OpenIgnoreOptions));
    push1(v, "open_status_reset_options", "g", Some(Action::OpenStatusResetOptions));
    push1(v, "open_merge_rebase_options", "M", Some(Action::OpenMergeRebaseOptions));
    push1(v, "focus_repo_detail_pane", "0", Some(Action::SetFocusedPane(PaneId::RepoDetail)));
    push1(v, "focus_repo_subview_filter", "/", Some(Action::FocusRepoSubviewFilter));
    push1(v, "open_selected_status_entry", "enter", Some(Action::OpenSelectedStatusEntry));
    if same_pane(ctx.focused_pane, PaneId::RepoUnstaged) {
        push1(v, "stage_selected_file", "space", Some(Action::StageSelectedFile));
    }
    if same_pane(ctx.focused_pane, PaneId::RepoStaged) {
        push1(v, "unstage_selected_file", "space", Some(Action::UnstageSelectedFile));
    }
    if same_pane(ctx.focused_pane, PaneId::RepoStaged) && can_open_commit_box_exec(ctx) {
        push1(v, "open_commit_box", "c", Some(Action::OpenCommitBox { mode: CommitBoxMode::Commit }));
    }
    if same_pane(ctx.focused_pane, PaneId::RepoStaged) && can_open_commit_box_exec(ctx) {
        push1(v, "open_commit_no_verify_box", "w", Some(Action::OpenCommitBox { mode: CommitBoxMode::CommitNoVerify }));
    }
    push1(v, "commit_staged_with_editor", "C", Some(Action::CommitStagedWithEditor));
}

fn branch_keys_exec(v: &mut Vec<KeyRule>, r: &RepoRouteState)
    ensures
        rules_view(final(v)@) == branch_keys(rules_view(old(v)@), *r),
{
    push2(v, "select_next_branch", "j", "down", Some(Action::SelectNextBranch));
    push2(v, "select_previous_branch", "k", "up", Some(Action::SelectPreviousBranch));
    push1(v, "open_selected_branch_commits", "enter", Some(Action::OpenSelectedBranchCommits));
    push1(v, "checkout_selected_branch", "space", Some(Action::CheckoutSelectedBranch));
    push1(v, "checkout_previous_branch", "-", Some(Action::CheckoutBranch { branch_ref: String::from_str("-") }));
    match selected_branch(r.detail.as_ref(), r.selected_branch_index) {
        Some(b) => {
            push1(v, "open_rename_branch_prompt", "R", Some(Action::OpenInputPrompt { operation: InputPromptOperation::RenameBranch { current_name: b.name.clone() } }));
        },
        None => {},
    }
    push1(v, "open_checkout_branch_prompt", "c", Some(Action::OpenInputPrompt { operation: InputPromptOperation::CheckoutBranch }));
    push1(v, "open_create_branch_prompt", "n", Some(Action::OpenInputPrompt { operation: InputPromptOperation::CreateBranch }));
    push1(v, "delete_selected_branch", "d", Some(Action::DeleteSelectedBranch));
    push1(v, "open_branch_upstream_options", "u", Some(Action::OpenBranchUpstreamOptions));
    push2(v, "copy_selected_branch_name", "y", "ctrl+o", Some(Action::CopySelectedBranchName));
    push1(v, "open_branch_pull_request_options", "o", Some(Action::OpenBranchPullRequestOptions));
    push1(v, "open_branch_reset_options", "g", Some(Action::OpenBranchResetOptions));
    push1(v, "open_branch_sort_options", "s", Some(Action::OpenBranchSortOptions));
    push1(v, "open_branch_git_flow_options", "G", Some(Action::OpenBranchGitFlowOptions));
    push1(v, "force_checkout_selected_branch", "F", Some(Action::ForceCheckoutSelectedBranch));
    push1(v, "rebase_current_branch_onto_selected_branch", "r", Some(Action::RebaseCurrentBranchOntoSelectedBranch));
    push1(v, "merge_selected_branch_into_current", "M", Some(Action::MergeSelectedBranchIntoCurrent));
    push1(v, "create_tag_from_selected_branch", "T", Some(Action::CreateTagFromSelectedBranch));
}

fn remote_keys_exec(v: &mut Vec<KeyRule>, r: &RepoRouteState)
    ensures
        rules_view(final(v)@) == remote_keys(rules_view(old(v)@), *r),
{
    push2(v, "select_next_remote", "j", "down", Some(Action::SelectNextRemote));
    push2(v, "select_previous_remote", "k", "up", Some(Action::SelectPreviousRemote));
    push1(v, "open_selected_remote_branches", "enter", Some(Action::OpenSelectedRemoteBranches));
    push1(v, "open_create_remote_prompt", "n", Some(Action::OpenInputPrompt { operation: InputPromptOperation::CreateRemote }));
    match selected_remote(r.detail.as_ref(), r.selected_remote_index) {
        Some(rm) => {
            push1(v, "open_edit_remote_prompt", "e", Some(Action::OpenInputPrompt { operation: InputPromptOperation::EditRemote { current_name: rm.name.clone(), current_url: rm.fetch_url.clone() } }));
        },
        None => {},
    }
    push1(v, "remove_selected_remote", "d", Some(Action::DeleteSelectedRemote));
    push1(v, "fetch_selected_remote", "f", Some(Action::FetchSelectedRemote));
    match selected_remote(r.detail.as_ref(), r.selected_remote_index) {
        Some(rm) => {
            push1(v, "open_fork_remote_prompt", "F", Some(Action::OpenInputPrompt { operation: InputPromptOperation::ForkRemote { suggested_name: fork_remote_suggested_name(rm.name.as_str()), remote_url: rm.fetch_url.clone() } }));
        },
        None => {},
    }
}

fn remote_branch_keys_exec(v: &mut Vec<KeyRule>, r: &RepoRouteState)
    ensures
        rules_view(final(v)@) == remote_branch_keys(rules_view(old(v)@), *r),
{
    push2(v, "select_next_remote_branch", "j", "down", Some(Action::SelectNextRemoteBranch));
    push2(v, "select_previous_remote_branch", "k", "up", Some(Action::SelectPreviousRemoteBranch));
    push1(v, "open_selected_remote_branch_commits", "enter", Some(Action::OpenSelectedRemoteBranchCommits));
    push1(v, "checkout_selected_remote_branch", "space", Some(Action::CheckoutSelectedRemoteBranch));
    match selected_remote_branch(r.detail.as_ref(), r.selected_remote_branch_index) {
        Some(b) => {
            push1(v, "open_create_local_branch_from_remote_prompt", "n", Some(Action::OpenInputPrompt { operation: InputPromptOperation::CreateBranchFromRemote { remote_branch_ref: b.name.clone(), suggested_name: b.branch_name.clone() } }));
        },
        None => {},
    }
    push1(v, "delete_selected_remote_branch", "d", Some(Action::DeleteSelectedRemoteBranch));
    push2(v, "copy_selected_remote_branch_name", "y", "ctrl+o", Some(Action::CopySelectedRemoteBranchName));
    push1(v, "open_remote_branch_pull_request_options", "o", Some(Action::OpenRemoteBranchPullRequestOptions));
    push1(v, "open_remote_branch_reset_options", "g", Some(Action::OpenRemoteBranchResetOptions));
    push1(v, "open_remote_branch_sort_options", "s", Some(Action::OpenRemoteBranchSortOptions));
    push1(v, "set_current_branch_upstream_to_selected_remote_branch", "u", Some(Action::SetCurrentBranchUpstreamToSelectedRemoteBranch));
    push1(v, "rebase_current_branch_onto_selected_remote_branch", "r", Some(Action::RebaseCurrentBranchOntoSelectedRemoteBranch));
    push1(v, "merge_selected_remote_branch_into_current", "M", Some(Action::MergeSelectedRemoteBranchIntoCurrent));
    push1(v, "create_tag_from_selected_remote_branch", "T", Some(Action::CreateTagFromSelectedRemoteBranch));
}

fn tag_keys_exec(v: &mut Vec<KeyRule>, r: &RepoRouteState)
    ensures
        rules_view(final(v)@) == tag_keys(rules_view(old(v)@), *r),
{
    push2(v, "select_next_tag", "j", "down", Some(Action::SelectNextTag));
    push2(v, "select_previous_tag", "k", "up", Some(Action::SelectPreviousTag));
    push1(v, "open_selected_tag_commits", "enter", Some(Action::OpenSelectedTagCommits));
    push1(v, "checkout_selected_tag", "space", Some(Action::CheckoutSelectedTag));
    push1(v, "open_create_tag_prompt", "n", Some(Action::OpenInputPrompt { operation: InputPromptOperation::CreateTag }));
    push1(v, "delete_selected_tag", "d", Some(Action::DeleteSelectedTag));
    push2(v, "copy_selected_tag_name", "ctrl+o", "y", Some(Action::CopySelectedTagName));
    push1(v, "open_tag_reset_options", "g", Some(Action::OpenTagResetOptions));
    push1(v, "soft_reset_to_selected_tag", "S", Some(Action::SoftResetToSelectedTag));
    push1(v, "mixed_reset_to_selected_tag", "M", Some(Action::MixedResetToSelectedTag));
    push1(v, "hard_reset_to_selected_tag", "H", Some(Action::HardResetToSelectedTag));
}

fn status_detail_keys_exec(v: &mut Vec<KeyRule>, r: &RepoRouteState)
    ensures
        rules_view(final(v)@) == status_detail_keys(rules_view(old(v)@), *r),
{
    push1(v, "select_next_diff_line", "J", Some(Action::SelectNextDiffLine));
    push1(v, "select_previous_diff_line", "K", Some(Action::SelectPreviousDiffLine));
    push1(v, "select_next_diff_hunk", "j", Some(Action::SelectNextDiffHunk));
    push1(v, "select_previous_diff_hunk", "k", Some(Action::SelectPreviousDiffHunk));
    push1(v, "toggle_diff_line_anchor", "v", Some(Action::ToggleDiffLineAnchor));
    push1(v, "scroll_repo_detail_down", "down", Some(Action::ScrollRepoDetailDown));
    push1(v, "scroll_repo_detail_up", "up", Some(Action::ScrollRepoDetailUp));
    push2(v, "apply_selected_hunk", "enter", "space", Some(Action::ActivateRepoSubviewSelection));
    push1(v, "apply_selected_lines", "L", selected_lines_action_exec(r));
    push1(v, "discard_selected_file", "D", Some(Action::DiscardSelectedFile));
    push1(v, "open_config_file_in_default_app", "o", Some(Action::OpenConfigFileInDefaultApp));
    push1(v, "open_config_file_in_editor", "e", Some(Action::OpenConfigFileInEditor));
    push1(v, "check_for_updates", "u", Some(Action::CheckForUpdates));
    push1(v, "nuke_working_tree", "X", Some(Action::NukeWorkingTree));
    push1(v, "open_all_branch_graph", "a", Some(Action::OpenAllBranchGraph { reverse: false }));
    push1(v, "open_all_branch_graph_reverse", "A", Some(Action::OpenAllBranchGraph { reverse: true }));
}

fn commit_file_diff_keys_exec(v: &mut Vec<KeyRule>, r: &RepoRouteState)
    ensures
        rules_view(final(v)@) == commit_file_diff_keys(rules_view(old(v)@), *r),
{
    if files_diff_exec(r) {
        push1(v, "select_next_diff_line", "J", Some(Action::SelectNextDiffLine));
        push1(v, "select_previous_diff_line", "K", Some(Action::SelectPreviousDiffLine));
        push1(v, "select_next_diff_hunk", "j", Some(Action::SelectNextDiffHunk));
        push1(v, "select_previous_diff_hunk", "k", Some(Action::SelectPreviousDiffHunk));
        push1(v, "toggle_diff_line_anchor", "v", Some(Action::ToggleDiffLineAnchor));
        push1(v, "scroll_repo_detail_down", "down", Some(Action::ScrollRepoDetailDown));
        push1(v, "scroll_repo_detail_up", "up", Some(Action::ScrollRepoDetailUp));
        push1(v, "close_selected_commit_files", "enter", Some(Action::CloseSelectedCommitFiles));
        push1(v, "checkout_selected_commit_file", "space", Some(Action::CheckoutSelectedCommitFile));
        push1(v, "open_in_editor", "e", Some(Action::OpenInEditor));
    }
}

fn commit_list_keys_exec(v: &mut Vec<KeyRule>, r: &RepoRouteState)
    ensures
        rules_view(final(v)@) == commit_list_keys(rules_view(old(v)@), *r),
{
    if !files_diff_exec(r) {
        push2(v, "select_next_commit", "j", "down", Some(Action::SelectNextCommit));
        push2(v, "select_previous_commit", "k", "up", Some(Action::SelectPreviousCommit));
        if history_exec(r) {
            push1(v, "open_selected_commit_files", "enter", Some(Action::OpenSelectedCommitFiles));
        }
        if files_list_exec(r) {
            push1(v, "open_selected_commit_files", "enter", Some(Action::OpenSelectedCommitFiles));
        }
        if files_diff_exec(r) {
            push3(v, "close_selected_commit_files", "enter", "backspace", "left", Some(Action::CloseSelectedCommitFiles));
        }
        if files_list_exec(r) {
            push2(v, "close_selected_commit_files", "backspace", "left", Some(Action::CloseSelectedCommitFiles));
        }
        if history_exec(r) {
            push1(v, "checkout_selected_commit", "space", Some(Action::CheckoutSelectedCommit));
        }
        if files_exec(r) {
            push1(v, "checkout_selected_commit_file", "space", Some(Action::CheckoutSelectedCommitFile));
        }
        if files_exec(r) {
            push1(v, "open_in_editor", "e", Some(Action::OpenInEditor));
        }
        if files_list_exec(r) {
            push2(v, "copy_selected_status_path", "y", "ctrl+o", Some(Action::CopySelectedStatusPath));
        }
        if files_list_exec(r) {
            push1(v, "open_selected_status_path_in_default_app", "o", Some(Action::OpenSelectedStatusPathInDefaultApp));
        }
        if files_list_exec(r) {
            push1(v, "open_selected_status_path_in_external_difftool", "ctrl+t", Some(Action::OpenSelectedStatusPathInExternalDiffTool));
        }
        if history_exec(r) {
            push1(v, "copy_selected_commit_for_cherry_pick", "C", Some(Action::CopySelectedCommitForCherryPick));
        }
        if history_exec(r) {
            push1(v, "cherry_pick_copied_commit", "V", Some(Action::CherryPickCopiedCommit));
        }
        if history_exec(r) {
            push1(v, "copy_selected_commit_hash", "ctrl+o", Some(Action::CopySelectedCommitHash));
        }
        if history_exec(r) {
            push1(v, "open_selected_commit_in_browser", "o", Some(Action::OpenSelectedCommitInBrowser));
        }
    }
}

fn commit_history_keys_exec(v: &mut Vec<KeyRule>, r: &RepoRouteState)
    ensures
        rules_view(final(v)@) == commit_history_keys(rules_view(old(v)@), *r),
{
    if history_exec(r) {
        push1(v, "open_create_branch_from_commit_prompt", "n", Some(Action::CreateBranchFromSelectedCommit));
        push1(v, "open_create_tag_from_commit_prompt", "T", Some(Action::CreateTagFromSelectedCommit));
        push1(v, "start_interactive_rebase", "i", Some(Action::StartInteractiveRebase));
        push1(v, "open_commit_log_options", "ctrl+l", Some(Action::OpenCommitLogOptions));
        push1(v, "open_bisect_options", "b", Some(Action::OpenBisectOptions));
        push1(v, "amend_selected_commit", "A", Some(Action::AmendSelectedCommit));
        push1(v, "open_commit_amend_attribute_options", "a", Some(Action::OpenCommitAmendAttributeOptions));
        push1(v, "open_commit_copy_options", "y", Some(Action::OpenCommitCopyOptions));
        push1(v, "open_commit_fixup_options", "f", Some(Action::OpenCommitFixupOptions));
        push1(v, "fixup_selected_commit", "F", Some(Action::FixupSelectedCommit));
        push1(v, "set_fixup_message_for_selected_commit", "c", Some(Action::SetFixupMessageForSelectedCommit));
        push1(v, "apply_fixup_commits", "g", Some(Action::ApplyFixupCommits));
        push1(v, "squash_selected_commit", "s", Some(Action::SquashSelectedCommit));
        push1(v, "drop_selected_commit", "d", Some(Action::DropSelectedCommit));
        push1(v, "move_selected_commit_up", "ctrl+k", Some(Action::MoveSelectedCommitUp));
        push1(v, "move_selected_commit_down", "ctrl+j", Some(Action::MoveSelectedCommitDown));
        push1(v, "reword_selected_commit", "r", Some(Action::RewordSelectedCommit));
        push1(v, "reword_selected_commit_with_editor", "R", Some(Action::RewordSelectedCommitWithEditor));
        push1(v, "cherry_pick_selected_commit", "C", Some(Action::CherryPickSelectedCommit));
        push1(v, "revert_selected_commit", "t", Some(Action::RevertSelectedCommit));
        push1(v, "soft_reset_to_selected_commit", "S", Some(Action::SoftResetToSelectedCommit));
        push1(v, "mixed_reset_to_selected_commit", "M", Some(Action::MixedResetToSelectedCommit));
        push1(v, "hard_reset_to_selected_commit", "H", Some(Action::HardResetToSelectedCommit));
    }
}

fn compare_keys_exec(v: &mut Vec<KeyRule>, r: &RepoRouteState)
    ensures
        rules_view(final(v)@) == compare_keys(rules_view(old(v)@), *r),
{
    push2(v, "scroll_repo_detail_down", "j", "down", Some(Action::ScrollRepoDetailDown));
    push2(v, "scroll_repo_detail_up", "k", "up", Some(Action::ScrollRepoDetailUp));
}

fn rebase_keys_exec(v: &mut Vec<KeyRule>, r: &RepoRouteState)
    ensures
        rules_view(final(v)@) == rebase_keys(rules_view(old(v)@), *r),
{
    push2(v, "scroll_repo_detail_down", "j", "down", Some(Action::ScrollRepoDetailDown));
    push2(v, "scroll_repo_detail_up", "k", "up", Some(Action::ScrollRepoDetailUp));
    push1(v, "continue_rebase", "c", Some(Action::ContinueRebase));
    push1(v, "skip_rebase", "s", Some(Action::SkipRebase));
    push1(v, "abort_rebase", "A", Some(Action::AbortRebase));
}

fn stash_keys_exec(v: &mut Vec<KeyRule>, r: &RepoRouteState)
    ensures
        rules_view(final(v)@) == stash_keys(rules_view(old(v)@), *r),
{
    if stash_list_exec(r) {
        push2(v, "select_next_stash", "j", "down", Some(Action::SelectNextStash));
    }
    if !stash_list_exec(r) {
        push2(v, "select_next_stash_file", "j", "down", Some(Action::SelectNextStashFile));
    }
    if stash_list_exec(r) {
        push2(v, "select_previous_stash", "k", "up", Some(Action::SelectPreviousStash));
    }
    if !stash_list_exec(r) {
        push2(v, "select_previous_stash_file", "k", "up", Some(Action::SelectPreviousStashFile));
    }
    push1(v, "activate_repo_subview_selection", "enter", Some(Action::ActivateRepoSubviewSelection));
    if stash_list_exec(r) {
        push1(v, "apply_selected_stash", "space", Some(Action::ApplySelectedStash));
    }
    if stash_list_exec(r) {
        match selected_stash(r.detail.as_ref(), r.selected_stash_index) {
            Some(st) => {
                push1(v, "open_create_branch_from_stash_prompt", "n", Some(Action::OpenInputPrompt { operation: InputPromptOperation::CreateBranchFromStash { stash_ref: st.stash_ref.clone(), stash_label: st.label.clone() } }));
            },
            None => {},
        }
    }
    if stash_list_exec(r) {
        match selected_stash(r.detail.as_ref(), r.selected_stash_index) {
            Some(st) => {
                push1(v, "open_rename_stash_prompt", "r", Some(Action::OpenInputPrompt { operation: InputPromptOperation::RenameStash { stash_ref: st.stash_ref.clone(), current_name: stash_message_label(st.label.as_str()) } }));
            },
            None => {},
        }
    }
    if stash_list_exec(r) {
        push1(v, "pop_selected_stash", "g", Some(Action::PopSelectedStash));
    }
    if stash_list_exec(r) {
        push1(v, "drop_selected_stash", "d", Some(Action::DropSelectedStash));
    }
}

fn reflog_keys_exec(v: &mut Vec<KeyRule>, r: &RepoRouteState)
    ensures
        rules_view(final(v)@) == reflog_keys(rules_view(old(v)@), *r),
{
    push2(v, "select_next_reflog", "j", "down", Some(Action::SelectNextReflog));
    push2(v, "select_previous_reflog", "k", "up", Some(Action::SelectPreviousReflog));
    push1(v, "open_selected_reflog_commits", "enter", Some(Action::OpenSelectedReflogCommits));
    push1(v, "checkout_selected_commit", "space", Some(Action::CheckoutSelectedCommit));
    push1(v, "open_create_branch_from_commit_prompt", "n", Some(Action::CreateBranchFromSelectedCommit));
    push1(v, "open_create_tag_from_commit_prompt", "T", Some(Action::CreateTagFromSelectedCommit));
    push1(v, "cherry_pick_selected_commit", "C", Some(Action::CherryPickSelectedCommit));
    push2(v, "copy_selected_reflog_commit_hash", "ctrl+o", "y", Some(Action::CopySelectedReflogCommitHash));
    push1(v, "open_selected_reflog_in_browser", "o", Some(Action::OpenSelectedReflogInBrowser));
    push1(v, "open_reflog_reset_options", "g", Some(Action::OpenReflogResetOptions));
    push1(v, "soft_reset_to_selected_commit", "S", Some(Action::SoftResetToSelectedCommit));
    push1(v, "mixed_reset_to_selected_commit", "M", Some(Action::MixedResetToSelectedCommit));
    push1(v, "hard_reset_to_selected_commit", "H", Some(Action::HardResetToSelectedCommit));
    push1(v, "restore_selected_reflog_entry", "u", Some(Action::RestoreSelectedReflogEntry));
}

fn worktree_keys_exec(v: &mut Vec<KeyRule>, r: &RepoRouteState)
    ensures
        rules_view(final(v)@) == worktree_keys(rules_view(old(v)@), *r),
{
    push2(v, "select_next_worktree", "j", "down", Some(Action::SelectNextWorktree));
    push2(v, "select_previous_worktree", "k", "up", Some(Action::SelectPreviousWorktree));
    push2(v, "switch_to_selected_worktree", "enter", "space", Some(Action::ActivateRepoSubviewSelection));
    push2(v, "create_worktree", "n", "c", Some(Action::CreateWorktree));
    push1(v, "open_in_editor", "o", Some(Action::OpenInEditor));
    push1(v, "remove_selected_worktree", "d", Some(Action::RemoveSelectedWorktree));
}

fn submodule_keys_exec(v: &mut Vec<KeyRule>, r: &RepoRouteState)
    ensures
        rules_view(final(v)@) == submodule_keys(rules_view(old(v)@), *r),
{
    push2(v, "select_next_submodule", "j", "down", Some(Action::SelectNextSubmodule));
    push2(v, "select_previous_submodule", "k", "up", Some(Action::SelectPreviousSubmodule));
    push2(v, "enter_selected_submodule", "enter", "space", Some(Action::ActivateRepoSubviewSelection));
    push1(v, "create_submodule", "n", Some(Action::CreateSubmodule));
    push2(v, "copy_selected_submodule_name", "ctrl+o", "y", Some(Action::CopySelectedSubmoduleName));
    push1(v, "open_submodule_options", "b", Some(Action::OpenSubmoduleOptions));
    push1(v, "edit_selected_submodule", "e", Some(Action::EditSelectedSubmodule));
    push1(v, "init_selected_submodule", "i", Some(Action::InitSelectedSubmodule));
    push1(v, "update_selected_submodule", "u", Some(Action::UpdateSelectedSubmodule));
    push1(v, "open_in_editor", "o", Some(Action::OpenInEditor));
    push1(v, "remove_selected_submodule", "d", Some(Action::RemoveSelectedSubmodule));
}

fn comparison_keys_exec(v: &mut Vec<KeyRule>, r: &RepoRouteState)
    ensures
        rules_view(final(v)@) == comparison_keys(rules_view(old(v)@), *r),
{
    if same_subview(r.active_subview, RepoSubview::Branches) {
        push1(v, "toggle_comparison_selection", "v", Some(Action::ToggleComparisonSelection));
    }
    if same_subview(r.active_subview, RepoSubview::Commits) && history_exec(r) {
        push1(v, "toggle_comparison_selection", "v", Some(Action::ToggleComparisonSelection));
    }
    if comparison_clearable_exec(r) {
        push1(v, "clear_comparison", "x", Some(Action::ClearComparison));
    }
}

#[verifier::rlimit(40)]
fn repo_tail_keys_exec(v: &mut Vec<KeyRule>, ctx: &RouteContext)
    ensures
        rules_view(final(v)@) == repo_tail_keys(rules_view(old(v)@), *ctx),
{
    if same_pane(ctx.focused_pane, PaneId::RepoDetail) {
        push1(v, "focus_repo_main_pane", "0", Some(Action::FocusRepoMainPane));
    }
    if same_pane(ctx.focused_pane, PaneId::RepoDetail) {
        push1(v, "focus_repo_subview_filter", "/", Some(Action::FocusRepoSubviewFilter));
    }
    if same_pane(ctx.focused_pane, PaneId::RepoDetail) {
        push1(v, "open_repo_worktrees_subview", "w", Some(Action::OpenRepoWorktreesSubview));
    }
    if same_pane(ctx.focused_pane, PaneId::RepoDetail) {
        push1(v, "open_repo_submodules_subview", "b", Some(Action::OpenRepoSubmodulesSubview));
    }
    push2(v, "focus_repo_left", "h", "left", Some(repo_focus_left_action(ctx.focused_pane)));
    push2(v, "focus_repo_right", "l", "right", Some(repo_focus_right_action(ctx.focused_pane)));
    push1(v, "switch_repo_subview_status", "1", Some(Action::SwitchRepoSubview(RepoSubview::Status)));
    push1(v, "switch_repo_subview_branches", "2", Some(Action::SwitchRepoSubview(RepoSubview::Branches)));
    push1(v, "switch_repo_subview_remotes", "m", Some(Action::SwitchRepoSubview(RepoSubview::Remotes)));
    push1(v, "switch_repo_subview_remote_branches", "9", Some(Action::SwitchRepoSubview(RepoSubview::RemoteBranches)));
    push1(v, "switch_repo_subview_tags", "t", Some(Action::SwitchRepoSubview(RepoSubview::Tags)));
    push1(v, "switch_repo_subview_commits", "3", Some(Action::SwitchRepoSubview(RepoSubview::Commits)));
    push1(v, "switch_repo_subview_compare", "4", Some(Action::SwitchRepoSubview(RepoSubview::Compare)));
    push1(v, "switch_repo_subview_rebase", "5", Some(Action::SwitchRepoSubview(RepoSubview::Rebase)));
    push1(v, "switch_repo_subview_stash", "6", Some(Action::SwitchRepoSubview(RepoSubview::Stash)));
    push1(v, "switch_repo_subview_reflog", "7", Some(Action::SwitchRepoSubview(RepoSubview::Reflog)));
    push1(v, "switch_repo_subview_worktrees", "8", Some(Action::SwitchRepoSubview(RepoSubview::Worktrees)));
    push1(v, "switch_repo_subview_submodules", "b", Some(Action::SwitchRepoSubview(RepoSubview::Submodules)));
    push1(v, "refresh_selected_repo", "r", Some(Action::RefreshSelectedRepo));
    push1(v, "refresh_selected_repo_deep", "R", Some(Action::RefreshSelectedRepoDeep));
    push1(v, "fetch_selected_repo", "f", Some(Action::FetchSelectedRepo));
    push1(v, "pull_current_branch", "p", Some(Action::PullCurrentBranch));
}

fn detail_keys_exec(v: &mut Vec<KeyRule>, r: &RepoRouteState)
    ensures
        rules_view(final(v)@) == detail_keys(rules_view(old(v)@), *r),
{
    match r.active_subview {
        RepoSubview::Branches => branch_keys_exec(v, r),
        RepoSubview::Remotes => remote_keys_exec(v, r),
        RepoSubview::RemoteBranches => remote_branch_keys_exec(v, r),
        RepoSubview::Tags => tag_keys_exec(v, r),
        RepoSubview::Status => status_detail_keys_exec(v, r),
        RepoSubview::Commits => {
            commit_file_diff_keys_exec(v, r);
            commit_list_keys_exec(v, r);
            commit_history_keys_exec(v, r);
        },
        RepoSubview::Compare => compare_keys_exec(v, r),
        RepoSubview::Rebase => rebase_keys_exec(v, r),
        RepoSubview::Stash => stash_keys_exec(v, r),
        RepoSubview::Reflog => reflog_keys_exec(v, r),
        RepoSubview::Worktrees => worktree_keys_exec(v, r),
        RepoSubview::Submodules => submodule_keys_exec(v, r),
    }
    comparison_keys_exec(v, r);
}

/// The key map of repository mode (see `repo_rules`).
pub fn repo_rules_exec(ctx: &RouteContext, page_size: usize) -> (v: Vec<KeyRule>)
    ensures
        rules_view(v@) == repo_rules(*ctx, page_size),
{
    let mut v = empty_rules();
    repo_global_keys_exec(&mut v, ctx, page_size);
    if status_pane_focused_exec(ctx) {
        status_pane_keys_exec(&mut v, ctx);
        status_pane_more_keys_exec(&mut v, ctx);
    }
    match &ctx.repo_mode {
        Some(r) => if same_pane(ctx.focused_pane, PaneId::RepoDetail) {
            detail_keys_exec(&mut v, r);
        },
        None => {},
    }
    repo_tail_keys_exec(&mut v, ctx);
    v
}

} // verus!
