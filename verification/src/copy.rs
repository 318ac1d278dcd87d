use vstd::prelude::*;

use crate::model::{InputPromptOperation, ResetMode, StashMode};

verus! {

/// An operation that waits for the user to confirm it, with the values its question names.
#[derive(Clone, Debug, PartialEq, Eq)]
pub enum ConfirmableOperation {
    Fetch,
    FetchRemote { remote_name: String },
    Pull,
    Push,
    DiscardFile { path: String },
    StartInteractiveRebase { summary: String },
    AmendCommit { summary: String },
    ApplyFixupCommits { summary: String },
    FixupCommit { summary: String },
    SetFixupMessageForCommit { summary: String },
    SquashCommit { summary: String },
    DropCommit { summary: String },
    MoveCommitUp { summary: String, adjacent_summary: String },
    MoveCommitDown { summary: String, adjacent_summary: String },
    CherryPickCommit { summary: String },
    RevertCommit { summary: String },
    ResetToCommit { mode: ResetMode, summary: String },
    RestoreReflogEntry { target: String, summary: String },
    AbortRebase,
    SkipRebase,
    NukeWorkingTree,
    DeleteBranch { branch_name: String },
    UnsetBranchUpstream { branch_name: String },
    FastForwardCurrentBranchFromUpstream { branch_name: String, upstream_ref: String },
    MergeRefIntoCurrent { source_label: String, target_ref: String },
    ForceCheckoutRef { source_label: String, target_ref: String },
    RebaseCurrentBranchOntoRef { source_label: String, target_ref: String },
    RemoveRemote { remote_name: String },
    DeleteRemoteBranch { remote_name: String, branch_name: String },
    DeleteTag { tag_name: String },
    PushTag { remote_name: String, tag_name: String },
    PopStash { stash_ref: String },
    DropStash { stash_ref: String },
    RemoveWorktree { path: String },
    RemoveSubmodule { name: String, path: String },
}

/// The question a confirmation modal asks before an operation runs.
pub open spec fn confirmation_text(op: ConfirmableOperation) -> Seq<char> {
    match op {
        ConfirmableOperation::Fetch => "Fetch remote updates for the current repository?"@,
        ConfirmableOperation::FetchRemote { remote_name } => "Fetch updates from remote "@ + remote_name@ + "?"@,
        ConfirmableOperation::Pull => "Pull remote changes into the current branch?"@,
        ConfirmableOperation::Push => "Push the current branch to its configured upstream?"@,
        ConfirmableOperation::DiscardFile { path } => "Discard all staged and unstaged changes for "@ + path@ + "? This only affects the selected file, and untracked files will be removed."@,
        ConfirmableOperation::StartInteractiveRebase { summary } => "Start an interactive rebase at "@ + summary@ + "? The selected commit will be marked edit."@,
        ConfirmableOperation::AmendCommit { summary } => "Start older-commit amend for "@ + summary@ + "? Git will pause on that commit so you can stage changes, amend it from Status, and continue from Rebase."@,
        ConfirmableOperation::ApplyFixupCommits { summary } => "Apply pending fixup and squash commits for "@ + summary@ + "? Git will rewrite the current branch with autosquash."@,
        ConfirmableOperation::FixupCommit { summary } => "Create a fixup commit for "@ + summary@ + " from the currently staged changes and autosquash it with rebase?"@,
        ConfirmableOperation::SetFixupMessageForCommit { summary } => "Fold "@ + summary@ + " into its parent and keep that commit message with git rebase fixup -C?"@,
        ConfirmableOperation::SquashCommit { summary } => "Squash "@ + summary@ + " into its parent commit? Git will rewrite history and keep the default combined message."@,
        ConfirmableOperation::DropCommit { summary } => "Drop "@ + summary@ + " from history? Git will rewrite the current branch and remove that commit."@,
        ConfirmableOperation::MoveCommitUp { summary, adjacent_summary } => "Move "@ + summary@ + " above "@ + adjacent_summary@ + "? Git will rewrite the current branch and swap those adjacent commits."@,
        ConfirmableOperation::MoveCommitDown { summary, adjacent_summary } => "Move "@ + summary@ + " below "@ + adjacent_summary@ + "? Git will rewrite the current branch and swap those adjacent commits."@,
        ConfirmableOperation::CherryPickCommit { summary } => "Cherry-pick "@ + summary@ + " onto the current HEAD?"@,
        ConfirmableOperation::RevertCommit { summary } => "Revert "@ + summary@ + " with an automatic revert commit?"@,
        ConfirmableOperation::ResetToCommit { mode, summary } => match mode {
            ResetMode::Soft => "Soft reset HEAD to "@ + summary@ + "? This moves HEAD only and keeps both the index and working tree intact."@,
            ResetMode::Mixed => "Mixed reset HEAD to "@ + summary@ + "? This moves HEAD and resets the index, but keeps working tree changes."@,
            ResetMode::Hard => "Hard reset HEAD to "@ + summary@ + "? This moves HEAD and discards tracked staged and unstaged changes."@,
        },
        ConfirmableOperation::RestoreReflogEntry { target, summary } => "Restore HEAD to "@ + summary@ + "? This uses git reset --hard "@ + target@ + ", so only committed HEAD movement is recoverable. Working tree edits and untracked files are not undone here."@,
        ConfirmableOperation::AbortRebase => "Abort the current rebase and restore the branch to its pre-rebase state?"@,
        ConfirmableOperation::SkipRebase => "Skip the current rebase step? Git will drop the commit being replayed."@,
        ConfirmableOperation::NukeWorkingTree => "Discard all local changes in this repository? This runs git reset --hard HEAD and git clean -fd, removing tracked edits and untracked files/directories."@,
        ConfirmableOperation::DeleteBranch { branch_name } => "Delete local branch "@ + branch_name@ + "? Git will refuse if it is not safely merged."@,
        ConfirmableOperation::UnsetBranchUpstream { branch_name } => "Unset upstream for "@ + branch_name@ + "? Future pulls and pushes will stop using its configured tracking branch."@,
        ConfirmableOperation::FastForwardCurrentBranchFromUpstream { branch_name, upstream_ref } => "Fast-forward "@ + branch_name@ + " from "@ + upstream_ref@ + "? This runs git merge --ff-only "@ + upstream_ref@ + " on the current branch."@,
        ConfirmableOperation::MergeRefIntoCurrent { source_label, target_ref } => "Merge "@ + source_label@ + " into the current branch? This runs git merge "@ + target_ref@ + "."@,
        ConfirmableOperation::ForceCheckoutRef { source_label, target_ref } => "Force-checkout "@ + source_label@ + "? This runs git checkout -f "@ + target_ref@ + " and discards tracked working tree changes in the current checkout."@,
        ConfirmableOperation::RebaseCurrentBranchOntoRef { source_label, target_ref } => "Rebase the current branch onto "@ + source_label@ + "? This runs git rebase "@ + target_ref@ + " and rewrites local history."@,
        ConfirmableOperation::RemoveRemote { remote_name } => "Remove remote "@ + remote_name@ + "? This deletes the configured remote entry."@,
        ConfirmableOperation::DeleteRemoteBranch { remote_name, branch_name } => "Delete remote branch "@ + remote_name@ + "/"@ + branch_name@ + "? This runs git push "@ + remote_name@ + " --delete "@ + branch_name@ + "."@,
        ConfirmableOperation::DeleteTag { tag_name } => "Delete tag "@ + tag_name@ + "? This removes the local tag reference."@,
        ConfirmableOperation::PushTag { remote_name, tag_name } => "Push tag "@ + tag_name@ + " to "@ + remote_name@ + "? This runs git push "@ + remote_name@ + " refs/tags/"@ + tag_name@ + "."@,
        ConfirmableOperation::PopStash { stash_ref } => "Pop "@ + stash_ref@ + "? This applies it and removes it from the stash list."@,
        ConfirmableOperation::DropStash { stash_ref } => "Drop "@ + stash_ref@ + "? This permanently removes the stash entry."@,
        ConfirmableOperation::RemoveWorktree { path } => "Remove linked worktree "@ + path@ + "? Git will delete the worktree checkout."@,
        ConfirmableOperation::RemoveSubmodule { name, path } => "Remove submodule "@ + name@ + " at "@ + path@ + "? This deinitializes it, removes the gitlink, and updates .gitmodules."@,
    }
}

/// The instructions an input prompt shows for an operation.
pub open spec fn prompt_text(op: InputPromptOperation<String>) -> Seq<char> {
    match op {
        InputPromptOperation::ShellCommand => "Enter a shell command to run in the current repository root. The terminal suspends until the command exits."@,
        InputPromptOperation::CheckoutBranch => "Enter a branch name, remote ref, or -. Use - to switch back to the previous branch."@,
        InputPromptOperation::CreateBranch => "Enter the new branch name. The branch will be created from HEAD and checked out."@,
        InputPromptOperation::RenameBranch { current_name } => "Enter the new name for "@ + current_name@ + "."@,
        InputPromptOperation::CreateRemote => "Enter remote details as: <name> <url>. Example: upstream git@github.com:owner/repo.git."@,
        InputPromptOperation::EditRemote { current_name, current_url: _ } => "Edit remote "@ + current_name@ + " as: <name> <url>. Renaming and URL updates are applied together."@,
        InputPromptOperation::ForkRemote { suggested_name, remote_url } => "Enter fork remote details as: <name> <url>. The prompt starts from "@ + suggested_name@ + " "@ + remote_url@ + " so you can keep or adjust both values before adding the remote."@,
        InputPromptOperation::CreateBranchFromRemote { remote_branch_ref, suggested_name: _ } => "Enter the new local branch name. The branch will be created from "@ + remote_branch_ref@ + " and checked out."@,
        InputPromptOperation::CreateTag => "Enter the new tag name. The tag will be created at the current HEAD."@,
        InputPromptOperation::CreateBranchFromStash { stash_ref: _, stash_label } => "Enter the new branch name. The branch will be created from '"@ + stash_label@ + "', checked out, and the stash will be dropped if it applies cleanly."@,
        InputPromptOperation::RenameStash { stash_ref, current_name: _ } => "Enter the new message for "@ + stash_ref@ + ". Leave it blank to use Git's default stash message."@,
        InputPromptOperation::CreateTagFromCommit { summary, .. } => "Enter the new tag name. The tag will be created from "@ + summary@ + "."@,
        InputPromptOperation::CreateTagFromRef { source_label, .. } => "Enter the new tag name. The tag will be created from "@ + source_label@ + "."@,
        InputPromptOperation::CreateBranchFromCommit { summary, .. } => "Enter the new branch name. The branch will be created from "@ + summary@ + " and checked out."@,
        InputPromptOperation::SetBranchUpstream { branch_name } => "Enter the upstream ref for "@ + branch_name@ + ", for example origin/main."@,
        InputPromptOperation::CreateStash { mode } => match mode {
            StashMode::TrackedChanges => "Enter an optional stash message. Leave it blank to use Git's default tracked-changes stash message."@,
            StashMode::KeepIndex => "Enter an optional stash message. Leave it blank to stash tracked worktree changes and keep staged changes in place."@,
            StashMode::IncludeUntracked => "Enter an optional stash message. Leave it blank to use Git's default stash message while including untracked files."@,
            StashMode::Staged => "Enter an optional stash message. Leave it blank to stash only the current index state."@,
            StashMode::Unstaged => "Enter an optional stash message. Leave it blank to stash only tracked unstaged changes. If staged changes exist, they are restored after the stash is created."@,
        },
        InputPromptOperation::CreateWorktree => "Enter worktree details as: <path> <branch>. Example: ../repo-feature feature."@,
        InputPromptOperation::CreateSubmodule => "Enter submodule details as: <path> <url>. Example: vendor/lib ../lib.git."@,
        InputPromptOperation::EditSubmoduleUrl { name, .. } => "Enter the new URL for submodule "@ + name@ + ". This updates both .gitmodules and local submodule config."@,
        InputPromptOperation::CreateAmendCommit { summary, include_file_changes } => if include_file_changes { "Enter the replacement subject line for the amend! commit targeting "@ + summary@ + ". Staged changes stay attached to the amend! commit."@ } else { "Enter the replacement subject line for the amend! commit targeting "@ + summary@ + ". This creates a message-only amend! commit with no file changes."@ },
        InputPromptOperation::SetCommitCoAuthor { summary } => "Enter the co-author for "@ + summary@ + " as: Name <email@example.com>. This amends the selected commit without changing its subject."@,
        InputPromptOperation::RewordCommit { summary, .. } => "Enter a replacement subject line for "@ + summary@ + ". This rewrites the selected commit message via rebase."@,
    }
}

/// The question a confirmation modal asks (see `confirmation_text`).
pub fn confirmation_copy(op: &ConfirmableOperation) -> (res: String)
    ensures
        res@ == confirmation_text(*op),
{
    match op {
        ConfirmableOperation::Fetch => {
            String::from_str("Fetch remote updates for the current repository?")
        },
        ConfirmableOperation::FetchRemote { remote_name } => {
            let mut s = String::from_str("Fetch updates from remote ");
            s.append(remote_name.as_str());
            s.append("?");
            s
        },
        ConfirmableOperation::Pull => {
            String::from_str("Pull remote changes into the current branch?")
        },
        ConfirmableOperation::Push => {
            String::from_str("Push the current branch to its configured upstream?")
        },
        ConfirmableOperation::DiscardFile { path } => {
            let mut s = String::from_str("Discard all staged and unstaged changes for ");
            s.append(path.as_str());
            s.append("? This only affects the selected file, and untracked files will be removed.");
            s
        },
        ConfirmableOperation::StartInteractiveRebase { summary } => {
            let mut s = String::from_str("Start an interactive rebase at ");
            s.append(summary.as_str());
            s.append("? The selected commit will be marked edit.");
            s
        },
        ConfirmableOperation::AmendCommit { summary } => {
            let mut s = String::from_str("Start older-commit amend for ");
            s.append(summary.as_str());
            s.append("? Git will pause on that commit so you can stage changes, amend it from Status, and continue from Rebase.");
            s
        },
        ConfirmableOperation::ApplyFixupCommits { summary } => {
            let mut s = String::from_str("Apply pending fixup and squash commits for ");
            s.append(summary.as_str());
            s.append("? Git will rewrite the current branch with autosquash.");
            s
        },
        ConfirmableOperation::FixupCommit { summary } => {
            let mut s = String::from_str("Create a fixup commit for ");
            s.append(summary.as_str());
            s.append(" from the currently staged changes and autosquash it with rebase?");
            s
        },
        ConfirmableOperation::SetFixupMessageForCommit { summary } => {
            let mut s = String::from_str("Fold ");
            s.append(summary.as_str());
            s.append(" into its parent and keep that commit message with git rebase fixup -C?");
            s
        },
        ConfirmableOperation::SquashCommit { summary } => {
            let mut s = String::from_str("Squash ");
            s.append(summary.as_str());
            s.append(" into its parent commit? Git will rewrite history and keep the default combined message.");
            s
        },
        ConfirmableOperation::DropCommit { summary } => {
            let mut s = String::from_str("Drop ");
            s.append(summary.as_str());
            s.append(" from history? Git will rewrite the current branch and remove that commit.");
            s
        },
        ConfirmableOperation::MoveCommitUp { summary, adjacent_summary } => {
            let mut s = String::from_str("Move ");
            s.append(summary.as_str());
            s.append(" above ");
            s.append(adjacent_summary.as_str());
            s.append("? Git will rewrite the current branch and swap those adjacent commits.");
            s
        },
        ConfirmableOperation::MoveCommitDown { summary, adjacent_summary } => {
            let mut s = String::from_str("Move ");
            s.append(summary.as_str());
            s.append(" below ");
            s.append(adjacent_summary.as_str());
            s.append("? Git will rewrite the current branch and swap those adjacent commits.");
            s
        },
        ConfirmableOperation::CherryPickCommit { summary } => {
            let mut s = String::from_str("Cherry-pick ");
            s.append(summary.as_str());
            s.append(" onto the current HEAD?");
            s
        },
        ConfirmableOperation::RevertCommit { summary } => {
            let mut s = String::from_str("Revert ");
            s.append(summary.as_str());
            s.append(" with an automatic revert commit?");
            s
        },
        ConfirmableOperation::ResetToCommit { mode, summary } => match mode {
            ResetMode::Soft => {
                let mut s = String::from_str("Soft reset HEAD to ");
                s.append(summary.as_str());
                s.append("? This moves HEAD only and keeps both the index and working tree intact.");
                s
            },
            ResetMode::Mixed => {
                let mut s = String::from_str("Mixed reset HEAD to ");
                s.append(summary.as_str());
                s.append("? This moves HEAD and resets the index, but keeps working tree changes.");
                s
            },
            ResetMode::Hard => {
                let mut s = String::from_str("Hard reset HEAD to ");
                s.append(summary.as_str());
                s.append("? This moves HEAD and discards tracked staged and unstaged changes.");
                s
            },
        },
        ConfirmableOperation::RestoreReflogEntry { target, summary } => {
            let mut s = String::from_str("Restore HEAD to ");
            s.append(summary.as_str());
            s.append("? This uses git reset --hard ");
            s.append(target.as_str());
            s.append(", so only committed HEAD movement is recoverable. Working tree edits and untracked files are not undone here.");
            s
        },
        ConfirmableOperation::AbortRebase => {
            String::from_str("Abort the current rebase and restore the branch to its pre-rebase state?")
        },
        ConfirmableOperation::SkipRebase => {
            String::from_str("Skip the current rebase step? Git will drop the commit being replayed.")
        },
        ConfirmableOperation::NukeWorkingTree => {
            String::from_str("Discard all local changes in this repository? This runs git reset --hard HEAD and git clean -fd, removing tracked edits and untracked files/directories.")
        },
        ConfirmableOperation::DeleteBranch { branch_name } => {
            let mut s = String::from_str("Delete local branch ");
            s.append(branch_name.as_str());
            s.append("? Git will refuse if it is not safely merged.");
            s
        },
        ConfirmableOperation::UnsetBranchUpstream { branch_name } => {
            let mut s = String::from_str("Unset upstream for ");
            s.append(branch_name.as_str());
            s.append("? Future pulls and pushes will stop using its configured tracking branch.");
            s
        },
        ConfirmableOperation::FastForwardCurrentBranchFromUpstream { branch_name, upstream_ref } => {
            let mut s = String::from_str("Fast-forward ");
            s.append(branch_name.as_str());
            s.append(" from ");
            s.append(upstream_ref.as_str());
            s.append("? This runs git merge --ff-only ");
            s.append(upstream_ref.as_str());
            s.append(" on the current branch.");
            s
        },
        ConfirmableOperation::MergeRefIntoCurrent { source_label, target_ref } => {
            let mut s = String::from_str("Merge ");
            s.append(source_label.as_str());
            s.append(" into the current branch? This runs git merge ");
            s.append(target_ref.as_str());
            s.append(".");
            s
        },
        ConfirmableOperation::ForceCheckoutRef { source_label, target_ref } => {
            let mut s = String::from_str("Force-checkout ");
            s.append(source_label.as_str());
            s.append("? This runs git checkout -f ");
            s.append(target_ref.as_str());
            s.append(" and discards tracked working tree changes in the current checkout.");
            s
        },
        ConfirmableOperation::RebaseCurrentBranchOntoRef { source_label, target_ref } => {
            let mut s = String::from_str("Rebase the current branch onto ");
            s.append(source_label.as_str());
            s.append("? This runs git rebase ");
            s.append(target_ref.as_str());
            s.append(" and rewrites local history.");
            s
        },
        ConfirmableOperation::RemoveRemote { remote_name } => {
            let mut s = String::from_str("Remove remote ");
            s.append(remote_name.as_str());
            s.append("? This deletes the configured remote entry.");
            s
        },
        ConfirmableOperation::DeleteRemoteBranch { remote_name, branch_name } => {
            let mut s = String::from_str("Delete remote branch ");
            s.append(remote_name.as_str());
            s.append("/");
            s.append(branch_name.as_str());
            s.append("? This runs git push ");
            s.append(remote_name.as_str());
            s.append(" --delete ");
            s.append(branch_name.as_str());
            s.append(".");
            s
        },
        ConfirmableOperation::DeleteTag { tag_name } => {
            let mut s = String::from_str("Delete tag ");
            s.append(tag_name.as_str());
            s.append("? This removes the local tag reference.");
            s
        },
        ConfirmableOperation::PushTag { remote_name, tag_name } => {
            let mut s = String::from_str("Push tag ");
            s.append(tag_name.as_str());
            s.append(" to ");
            s.append(remote_name.as_str());
            s.append("? This runs git push ");
            s.append(remote_name.as_str());
            s.append(" refs/tags/");
            s.append(tag_name.as_str());
            s.append(".");
            s
        },
        ConfirmableOperation::PopStash { stash_ref } => {
            let mut s = String::from_str("Pop ");
            s.append(stash_ref.as_str());
            s.append("? This applies it and removes it from the stash list.");
            s
        },
        ConfirmableOperation::DropStash { stash_ref } => {
            let mut s = String::from_str("Drop ");
            s.append(stash_ref.as_str());
            s.append("? This permanently removes the stash entry.");
            s
        },
        ConfirmableOperation::RemoveWorktree { path } => {
            let mut s = String::from_str("Remove linked worktree ");
            s.append(path.as_str());
            s.append("? Git will delete the worktree checkout.");
            s
        },
        ConfirmableOperation::RemoveSubmodule { name, path } => {
            let mut s = String::from_str("Remove submodule ");
            s.append(name.as_str());
            s.append(" at ");
            s.append(path.as_str());
            s.append("? This deinitializes it, removes the gitlink, and updates .gitmodules.");
            s
        },
    }
}

/// The instructions an input prompt shows (see `prompt_text`).
pub fn input_prompt_copy(op: &InputPromptOperation<String>) -> (res: String)
    ensures
        res@ == prompt_text(*op),
{
    match op {
        InputPromptOperation::ShellCommand => {
            String::from_str("Enter a shell command to run in the current repository root. The terminal suspends until the command exits.")
        },
        InputPromptOperation::CheckoutBranch => {
            String::from_str("Enter a branch name, remote ref, or -. Use - to switch back to the previous branch.")
        },
        InputPromptOperation::CreateBranch => {
            String::from_str("Enter the new branch name. The branch will be created from HEAD and checked out.")
        },
        InputPromptOperation::RenameBranch { current_name } => {
            let mut s = String::from_str("Enter the new name for ");
            s.append(current_name.as_str());
            s.append(".");
            s
        },
        InputPromptOperation::CreateRemote => {
            String::from_str("Enter remote details as: <name> <url>. Example: upstream git@github.com:owner/repo.git.")
        },
        InputPromptOperation::EditRemote { current_name, current_url: _ } => {
            let mut s = String::from_str("Edit remote ");
            s.append(current_name.as_str());
            s.append(" as: <name> <url>. Renaming and URL updates are applied together.");
            s
        },
        InputPromptOperation::ForkRemote { suggested_name, remote_url } => {
            let mut s = String::from_str("Enter fork remote details as: <name> <url>. The prompt starts from ");
            s.append(suggested_name.as_str());
            s.append(" ");
            s.append(remote_url.as_str());
            s.append(" so you can keep or adjust both values before adding the remote.");
            s
        },
        InputPromptOperation::CreateBranchFromRemote { remote_branch_ref, suggested_name: _ } => {
            let mut s = String::from_str("Enter the new local branch name. The branch will be created from ");
            s.append(remote_branch_ref.as_str());
            s.append(" and checked out.");
            s
        },
        InputPromptOperation::CreateTag => {
            String::from_str("Enter the new tag name. The tag will be created at the current HEAD.")
        },
        InputPromptOperation::CreateBranchFromStash { stash_ref: _, stash_label } => {
            let mut s = String::from_str("Enter the new branch name. The branch will be created from '");
            s.append(stash_label.as_str());
            s.append("', checked out, and the stash will be dropped if it applies cleanly.");
            s
        },
        InputPromptOperation::RenameStash { stash_ref, current_name: _ } => {
            let mut s = String::from_str("Enter the new message for ");
            s.append(stash_ref.as_str());
            s.append(". Leave it blank to use Git's default stash message.");
            s
        },
        InputPromptOperation::CreateTagFromCommit { summary, .. } => {
            let mut s = String::from_str("Enter the new tag name. The tag will be created from ");
            s.append(summary.as_str());
            s.append(".");
            s
        },
        InputPromptOperation::CreateTagFromRef { source_label, .. } => {
            let mut s = String::from_str("Enter the new tag name. The tag will be created from ");
            s.append(source_label.as_str());
            s.append(".");
            s
        },
        InputPromptOperation::CreateBranchFromCommit { summary, .. } => {
            let mut s = String::from_str("Enter the new branch name. The branch will be created from ");
            s.append(summary.as_str());
            s.append(" and checked out.");
            s
        },
        InputPromptOperation::SetBranchUpstream { branch_name } => {
            let mut s = String::from_str("Enter the upstream ref for ");
            s.append(branch_name.as_str());
            s.append(", for example origin/main.");
            s
        },
        InputPromptOperation::CreateStash { mode } => match mode {
            StashMode::TrackedChanges => {
                String::from_str("Enter an optional stash message. Leave it blank to use Git's default tracked-changes stash message.")
            },
            StashMode::KeepIndex => {
                String::from_str("Enter an optional stash message. Leave it blank to stash tracked worktree changes and keep staged changes in place.")
            },
            StashMode::IncludeUntracked => {
                String::from_str("Enter an optional stash message. Leave it blank to use Git's default stash message while including untracked files.")
            },
            StashMode::Staged => {
                String::from_str("Enter an optional stash message. Leave it blank to stash only the current index state.")
            },
            StashMode::Unstaged => {
                String::from_str("Enter an optional stash message. Leave it blank to stash only tracked unstaged changes. If staged changes exist, they are restored after the stash is created.")
            },
        },
        InputPromptOperation::CreateWorktree => {
            String::from_str("Enter worktree details as: <path> <branch>. Example: ../repo-feature feature.")
        },
        InputPromptOperation::CreateSubmodule => {
            String::from_str("Enter submodule details as: <path> <url>. Example: vendor/lib ../lib.git.")
        },
        InputPromptOperation::EditSubmoduleUrl { name, .. } => {
            let mut s = String::from_str("Enter the new URL for submodule ");
            s.append(name.as_str());
            s.append(". This updates both .gitmodules and local submodule config.");
            s
        },
        InputPromptOperation::CreateAmendCommit { summary, include_file_changes } => if *include_file_changes {
            let mut s = String::from_str("Enter the replacement subject line for the amend! commit targeting ");
            s.append(summary.as_str());
            s.append(". Staged changes stay attached to the amend! commit.");
            s
        } else {
            let mut s = String::from_str("Enter the replacement subject line for the amend! commit targeting ");
            s.append(summary.as_str());
            s.append(". This creates a message-only amend! commit with no file changes.");
            s
        },
        InputPromptOperation::SetCommitCoAuthor { summary } => {
            let mut s = String::from_str("Enter the co-author for ");
            s.append(summary.as_str());
            s.append(" as: Name <email@example.com>. This amends the selected commit without changing its subject.");
            s
        },
        InputPromptOperation::RewordCommit { summary, .. } => {
            let mut s = String::from_str("Enter a replacement subject line for ");
            s.append(summary.as_str());
            s.append(". This rewrites the selected commit message via rebase.");
            s
        },
    }
}

} // verus!
