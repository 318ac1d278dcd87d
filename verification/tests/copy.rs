use super_lazygit_tui::copy::{confirmation_copy, input_prompt_copy, ConfirmableOperation};
use super_lazygit_tui::labels::{
    commit_box_title, file_status_kind_label, history_operation_state_line, menu_copy, mode_label,
    rebase_kind_label, repo_subview_label, watcher_health_label, FileStatusKind, MenuOperation,
    MergeState, RebaseKind, WatcherHealth,
};
use super_lazygit_tui::model::{
    AppMode, CommitBoxMode, InputPromptOperation, RepoSubview, ResetMode, StashMode,
};

fn s(text: &str) -> String {
    text.to_string()
}

#[test]
fn input_prompt_copy_distinguishes_keep_index_from_unstaged_stash() {
    let keep_index = input_prompt_copy(&InputPromptOperation::CreateStash { mode: StashMode::KeepIndex });
    let unstaged = input_prompt_copy(&InputPromptOperation::CreateStash { mode: StashMode::Unstaged });

    assert!(keep_index.contains("keep staged changes in place"));
    assert!(unstaged.contains("stash only tracked unstaged changes"));
    assert!(unstaged.contains("restored after the stash is created"));
}

#[test]
fn input_prompt_copy_describes_stash_rename() {
    let rename = input_prompt_copy(&InputPromptOperation::RenameStash {
        stash_ref: s("stash@{1}"),
        current_name: s("prior experiment"),
    });

    assert!(rename.contains("new message for stash@{1}"));
    assert!(rename.contains("default stash message"));
}

#[test]
fn input_prompt_copy_describes_branch_creation_from_stash() {
    let copy = input_prompt_copy(&InputPromptOperation::CreateBranchFromStash {
        stash_ref: s("stash@{1}"),
        stash_label: s("stash@{1}: On feature: prior experiment"),
    });

    assert!(copy.contains("new branch name"));
    assert!(copy.contains("stash@{1}: On feature: prior experiment"));
    assert!(copy.contains("stash will be dropped"));
}

#[test]
fn input_prompt_copy_describes_checkout_by_name() {
    let copy = input_prompt_copy(&InputPromptOperation::CheckoutBranch);

    assert!(copy.contains("branch name"));
    assert!(copy.contains("remote ref"));
    assert!(copy.contains("Use - to switch back"));
}

#[test]
fn restore_reflog_confirmation_copy_describes_hard_reset_limits() {
    let copy = confirmation_copy(&ConfirmableOperation::RestoreReflogEntry {
        target: s("HEAD@{1}"),
        summary: s("HEAD@{1}: commit: add repo-mode stash flows"),
    });

    assert!(copy.contains("git reset --hard HEAD@{1}"));
    assert!(copy.contains("Working tree edits and untracked files are not undone"));
}

#[test]
fn pop_stash_confirmation_copy_mentions_apply_and_drop() {
    let copy = confirmation_copy(&ConfirmableOperation::PopStash { stash_ref: s("stash@{1}") });

    assert!(copy.contains("Pop stash@{1}?"));
    assert!(copy.contains("applies it"));
    assert!(copy.contains("removes it from the stash list"));
}

#[test]
fn delete_remote_branch_confirmation_copy_mentions_push_delete() {
    let copy = confirmation_copy(&ConfirmableOperation::DeleteRemoteBranch {
        remote_name: s("origin"),
        branch_name: s("feature"),
    });

    assert!(copy.contains("Delete remote branch origin/feature?"));
    assert!(copy.contains("git push origin --delete feature"));
}

#[test]
fn remote_confirmation_copy_mentions_fetch_and_remove_operations() {
    let fetch = confirmation_copy(&ConfirmableOperation::FetchRemote { remote_name: s("upstream") });
    let remove = confirmation_copy(&ConfirmableOperation::RemoveRemote { remote_name: s("upstream") });

    assert!(fetch.contains("Fetch updates from remote upstream?"));
    assert!(remove.contains("Remove remote upstream?"));
    assert!(remove.contains("configured remote entry"));
}

#[test]
fn branch_ref_confirmation_copy_mentions_upstream_merge_and_rebase_commands() {
    let unset = confirmation_copy(&ConfirmableOperation::UnsetBranchUpstream { branch_name: s("feature") });
    let fast_forward = confirmation_copy(&ConfirmableOperation::FastForwardCurrentBranchFromUpstream {
        branch_name: s("main"),
        upstream_ref: s("origin/main"),
    });
    let merge = confirmation_copy(&ConfirmableOperation::MergeRefIntoCurrent {
        target_ref: s("feature"),
        source_label: s("feature"),
    });
    let rebase = confirmation_copy(&ConfirmableOperation::RebaseCurrentBranchOntoRef {
        target_ref: s("origin/feature"),
        source_label: s("origin/feature"),
    });

    assert!(unset.contains("Unset upstream for feature?"));
    assert!(unset.contains("tracking branch"));
    assert!(fast_forward.contains("git merge --ff-only origin/main"));
    assert!(merge.contains("git merge feature"));
    assert!(rebase.contains("git rebase origin/feature"));
    assert!(rebase.contains("rewrites local history"));
}

#[test]
fn force_checkout_confirmation_copy_mentions_checkout_f() {
    let copy = confirmation_copy(&ConfirmableOperation::ForceCheckoutRef {
        target_ref: s("feature"),
        source_label: s("feature"),
    });

    assert!(copy.contains("Force-checkout feature?"));
    assert!(copy.contains("git checkout -f feature"));
    assert!(copy.contains("discards tracked working tree changes"));
}

#[test]
fn tag_confirmation_copy_mentions_delete_and_push_commands() {
    let delete = confirmation_copy(&ConfirmableOperation::DeleteTag { tag_name: s("release-candidate") });
    let push = confirmation_copy(&ConfirmableOperation::PushTag {
        remote_name: s("origin"),
        tag_name: s("release-candidate"),
    });

    assert!(delete.contains("Delete tag release-candidate?"));
    assert!(delete.contains("local tag reference"));
    assert!(push.contains("Push tag release-candidate to origin?"));
    assert!(push.contains("git push origin refs/tags/release-candidate"));
}

#[test]
fn create_branch_from_remote_prompt_copy_mentions_selected_ref() {
    let copy = input_prompt_copy(&InputPromptOperation::CreateBranchFromRemote {
        remote_branch_ref: s("origin/feature"),
        suggested_name: s("feature"),
    });

    assert!(copy.contains("origin/feature"));
    assert!(copy.contains("created from origin/feature and checked out"));
}

#[test]
fn create_tag_prompt_copy_mentions_current_head() {
    let copy = input_prompt_copy(&InputPromptOperation::CreateTag);

    assert!(copy.contains("new tag name"));
    assert!(copy.contains("created at the current HEAD"));
}

#[test]
fn create_tag_from_commit_prompt_copy_mentions_selected_commit() {
    let copy = input_prompt_copy(&InputPromptOperation::CreateTagFromCommit {
        commit: s("abcdef1234567890"),
        summary: s("abcdef1 add lib"),
    });

    assert!(copy.contains("new tag name"));
    assert!(copy.contains("abcdef1 add lib"));
    assert!(copy.contains("created from"));
}

#[test]
fn fork_remote_and_ref_tag_prompt_copy_describe_initial_values() {
    let fork = input_prompt_copy(&InputPromptOperation::ForkRemote {
        suggested_name: s("upstream"),
        remote_url: s("git@github.com:example/upstream.git"),
    });
    let tag = input_prompt_copy(&InputPromptOperation::CreateTagFromRef {
        target_ref: s("origin/feature"),
        source_label: s("origin/feature"),
    });

    assert!(fork.contains("<name> <url>"));
    assert!(fork.contains("upstream git@github.com:example/upstream.git"));
    assert!(tag.contains("new tag name"));
    assert!(tag.contains("origin/feature"));
}

#[test]
fn remote_prompt_copy_mentions_name_and_url_format() {
    let create = input_prompt_copy(&InputPromptOperation::CreateRemote);
    let edit = input_prompt_copy(&InputPromptOperation::EditRemote {
        current_name: s("upstream"),
        current_url: s("git@github.com:example/upstream.git"),
    });

    assert!(create.contains("<name> <url>"));
    assert!(create.contains("upstream"));
    assert!(edit.contains("Edit remote upstream"));
    assert!(edit.contains("<name> <url>"));
}

#[test]
fn submodule_prompt_and_confirmation_copy_describe_lifecycle_actions() {
    let create = input_prompt_copy(&InputPromptOperation::CreateSubmodule);
    let edit = input_prompt_copy(&InputPromptOperation::EditSubmoduleUrl {
        name: s("child-module"),
        path: s("vendor/child-module"),
        current_url: s("../child-module.git"),
    });
    let remove = confirmation_copy(&ConfirmableOperation::RemoveSubmodule {
        name: s("child-module"),
        path: s("vendor/child-module"),
    });

    assert!(create.contains("<path> <url>"));
    assert!(edit.contains("submodule child-module"));
    assert!(edit.contains(".gitmodules"));
    assert!(remove.contains("deinitializes it"));
    assert!(remove.contains(".gitmodules"));
}

#[test]
fn reset_confirmation_copy_names_each_mode_exactly() {
    let soft = confirmation_copy(&ConfirmableOperation::ResetToCommit {
        mode: ResetMode::Soft,
        summary: s("abc1234 init"),
    });
    assert_eq!(
        soft,
        "Soft reset HEAD to abc1234 init? This moves HEAD only and keeps both the index and working tree intact."
    );
    let hard = confirmation_copy(&ConfirmableOperation::ResetToCommit {
        mode: ResetMode::Hard,
        summary: s("abc1234 init"),
    });
    assert!(hard.starts_with("Hard reset HEAD to abc1234 init?"));
    assert_eq!(
        confirmation_copy(&ConfirmableOperation::MoveCommitDown {
            summary: s("b"),
            adjacent_summary: s("c"),
        }),
        "Move b below c? Git will rewrite the current branch and swap those adjacent commits."
    );
}

#[test]
fn amend_prompt_copy_follows_file_change_flag() {
    let with_files = input_prompt_copy(&InputPromptOperation::CreateAmendCommit {
        summary: s("abc1234 fix"),
        include_file_changes: true,
    });
    let message_only = input_prompt_copy(&InputPromptOperation::CreateAmendCommit {
        summary: s("abc1234 fix"),
        include_file_changes: false,
    });
    assert_eq!(
        with_files,
        "Enter the replacement subject line for the amend! commit targeting abc1234 fix. Staged changes stay attached to the amend! commit."
    );
    assert!(message_only.ends_with("This creates a message-only amend! commit with no file changes."));
}

#[test]
fn short_labels_match_their_kinds() {
    assert_eq!(mode_label(AppMode::Workspace), "WORKSPACE");
    assert_eq!(mode_label(AppMode::Repository), "REPOSITORY");
    assert_eq!(file_status_kind_label(FileStatusKind::Untracked), "?");
    assert_eq!(file_status_kind_label(FileStatusKind::Conflicted), "U");
    assert_eq!(commit_box_title(CommitBoxMode::CommitNoVerify), "Commit without hooks");
    assert_eq!(repo_subview_label(RepoSubview::RemoteBranches), "Remote Branches");
    assert_eq!(rebase_kind_label(RebaseKind::Apply), "apply");
    assert_eq!(watcher_health_label(WatcherHealth::Healthy), "live");
    assert_eq!(watcher_health_label(WatcherHealth::Degraded), "polling");
    assert_eq!(history_operation_state_line(MergeState::Clean), "State: idle");
    assert_eq!(
        history_operation_state_line(MergeState::CherryPickInProgress),
        "State: cherry-pick in progress"
    );
    assert_eq!(
        menu_copy(MenuOperation::RecentRepos),
        "Switch directly to one of the repositories you visited recently."
    );
}
