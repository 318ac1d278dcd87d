use vstd::prelude::*;

use crate::model::{AppMode, CommitBoxMode, DiffPresentation, RepoSubview};

verus! {

/// The menus that a key can open.
#[derive(Clone, Copy, Debug, PartialEq, Eq)]
pub enum MenuOperation {
    StashOptions,
    FilterOptions,
    DiffOptions,
    CommitLogOptions,
    BranchGitFlowOptions,
    BranchPullRequestOptions,
    BranchResetOptions,
    BranchSortOptions,
    CommitCopyOptions,
    TagResetOptions,
    ReflogResetOptions,
    CommitAmendAttributeOptions,
    CommitFixupOptions,
    BisectOptions,
    BranchUpstreamOptions,
    MergeRebaseOptions,
    IgnoreOptions,
    StatusResetOptions,
    RemoteBranchPullRequestOptions,
    RemoteBranchResetOptions,
    RemoteBranchSortOptions,
    PatchOptions,
    SubmoduleOptions,
    RecentRepos,
    CommandLog,
}

/// How a file differs from the index or from HEAD.
#[derive(Clone, Copy, Debug, PartialEq, Eq)]
pub enum FileStatusKind {
    Added,
    Deleted,
    Renamed,
    Untracked,
    Conflicted,
    Modified,
}

/// The multi-step operation that a repository is in the middle of, if any.
#[derive(Clone, Copy, Debug, PartialEq, Eq)]
pub enum MergeState {
    Clean,
    MergeInProgress,
    RebaseInProgress,
    CherryPickInProgress,
    RevertInProgress,
}

/// The flavour of an ongoing rebase.
#[derive(Clone, Copy, Debug, PartialEq, Eq)]
pub enum RebaseKind {
    Interactive,
    Apply,
}

/// Whether the file watcher delivers events.
#[derive(Clone, Copy, Debug, PartialEq, Eq)]
pub enum WatcherHealth {
    Unknown,
    Healthy,
    Degraded,
}

/// The line a menu shows above its items.
pub open spec fn menu_text(x: MenuOperation) -> Seq<char> {
    match x {
        MenuOperation::StashOptions => "Choose which stash scope to save from the current repository state."@,
        MenuOperation::FilterOptions => "Open the shipped text-filter flows for the current detail panel."@,
        MenuOperation::DiffOptions => "Open the shipped comparison flows for the current branch, commit, or compare context."@,
        MenuOperation::CommitLogOptions => "Switch the commits panel between current-branch history and the whole-repository graph."@,
        MenuOperation::BranchGitFlowOptions => "Run one of the shipped git-flow finish commands for the selected branch."@,
        MenuOperation::BranchPullRequestOptions => "Open or copy the browser pull request URL for the selected branch."@,
        MenuOperation::BranchResetOptions => "Choose how aggressively to reset the current branch to the selected branch ref."@,
        MenuOperation::BranchSortOptions => "Choose how the branch list should be ordered in this repository view."@,
        MenuOperation::CommitCopyOptions => "Choose which selected commit attribute to copy to the clipboard."@,
        MenuOperation::TagResetOptions => "Choose how aggressively to reset the current branch to the selected tag."@,
        MenuOperation::ReflogResetOptions => "Choose how aggressively to reset the current branch to the selected reflog entry."@,
        MenuOperation::CommitAmendAttributeOptions => "Choose which amend-only metadata change to apply to the selected commit."@,
        MenuOperation::CommitFixupOptions => "Choose whether to create a fixup! commit or one of the amend! variants for the selected commit."@,
        MenuOperation::BisectOptions => "Open the shipped bisect flows for the selected commit or the active bisect candidate."@,
        MenuOperation::BranchUpstreamOptions => "Choose whether to set, unset, or fast-forward the selected branch's upstream relationship."@,
        MenuOperation::MergeRebaseOptions => "Open the shipped merge/rebase flows that make sense in the current repository context."@,
        MenuOperation::IgnoreOptions => "Choose whether the selected path should go to the shared ignore list or the local exclude file."@,
        MenuOperation::StatusResetOptions => "Choose how aggressively to reset the current branch against its configured upstream."@,
        MenuOperation::RemoteBranchPullRequestOptions => "Open or copy the browser pull request URL for the selected remote branch."@,
        MenuOperation::RemoteBranchResetOptions => "Choose how aggressively to reset the current branch to the selected remote branch ref."@,
        MenuOperation::RemoteBranchSortOptions => "Choose how the remote-branch list should be ordered in this repository view."@,
        MenuOperation::PatchOptions => "Jump directly into the shipped hunk/line patch flows for the current status diff."@,
        MenuOperation::SubmoduleOptions => "Choose a lifecycle or clipboard action for the selected submodule."@,
        MenuOperation::RecentRepos => "Switch directly to one of the repositories you visited recently."@,
        MenuOperation::CommandLog => "Review recent command and status messages recorded in this session."@,
    }
}

/// The text of `menu_text`.
pub fn menu_copy(x: MenuOperation) -> (res: &'static str)
    ensures
        res@ == menu_text(x),
{
    match x {
        MenuOperation::StashOptions => "Choose which stash scope to save from the current repository state.",
        MenuOperation::FilterOptions => "Open the shipped text-filter flows for the current detail panel.",
        MenuOperation::DiffOptions => "Open the shipped comparison flows for the current branch, commit, or compare context.",
        MenuOperation::CommitLogOptions => "Switch the commits panel between current-branch history and the whole-repository graph.",
        MenuOperation::BranchGitFlowOptions => "Run one of the shipped git-flow finish commands for the selected branch.",
        MenuOperation::BranchPullRequestOptions => "Open or copy the browser pull request URL for the selected branch.",
        MenuOperation::BranchResetOptions => "Choose how aggressively to reset the current branch to the selected branch ref.",
        MenuOperation::BranchSortOptions => "Choose how the branch list should be ordered in this repository view.",
        MenuOperation::CommitCopyOptions => "Choose which selected commit attribute to copy to the clipboard.",
        MenuOperation::TagResetOptions => "Choose how aggressively to reset the current branch to the selected tag.",
        MenuOperation::ReflogResetOptions => "Choose how aggressively to reset the current branch to the selected reflog entry.",
        MenuOperation::CommitAmendAttributeOptions => "Choose which amend-only metadata change to apply to the selected commit.",
        MenuOperation::CommitFixupOptions => "Choose whether to create a fixup! commit or one of the amend! variants for the selected commit.",
        MenuOperation::BisectOptions => "Open the shipped bisect flows for the selected commit or the active bisect candidate.",
        MenuOperation::BranchUpstreamOptions => "Choose whether to set, unset, or fast-forward the selected branch's upstream relationship.",
        MenuOperation::MergeRebaseOptions => "Open the shipped merge/rebase flows that make sense in the current repository context.",
        MenuOperation::IgnoreOptions => "Choose whether the selected path should go to the shared ignore list or the local exclude file.",
        MenuOperation::StatusResetOptions => "Choose how aggressively to reset the current branch against its configured upstream.",
        MenuOperation::RemoteBranchPullRequestOptions => "Open or copy the browser pull request URL for the selected remote branch.",
        MenuOperation::RemoteBranchResetOptions => "Choose how aggressively to reset the current branch to the selected remote branch ref.",
        MenuOperation::RemoteBranchSortOptions => "Choose how the remote-branch list should be ordered in this repository view.",
        MenuOperation::PatchOptions => "Jump directly into the shipped hunk/line patch flows for the current status diff.",
        MenuOperation::SubmoduleOptions => "Choose a lifecycle or clipboard action for the selected submodule.",
        MenuOperation::RecentRepos => "Switch directly to one of the repositories you visited recently.",
        MenuOperation::CommandLog => "Review recent command and status messages recorded in this session.",
    }
}

/// The name of a mode in the status bar.
pub open spec fn mode_text(x: AppMode) -> Seq<char> {
    match x {
        AppMode::Workspace => "WORKSPACE"@,
        AppMode::Repository => "REPOSITORY"@,
    }
}

/// The text of `mode_text`.
pub fn mode_label(x: AppMode) -> (res: &'static str)
    ensures
        res@ == mode_text(x),
{
    match x {
        AppMode::Workspace => "WORKSPACE",
        AppMode::Repository => "REPOSITORY",
    }
}

/// The one-letter code of a file status.
pub open spec fn file_status_text(x: FileStatusKind) -> Seq<char> {
    match x {
        FileStatusKind::Added => "A"@,
        FileStatusKind::Deleted => "D"@,
        FileStatusKind::Renamed => "R"@,
        FileStatusKind::Untracked => "?"@,
        FileStatusKind::Conflicted => "U"@,
        FileStatusKind::Modified => "M"@,
    }
}

/// The text of `file_status_text`.
pub fn file_status_kind_label(x: FileStatusKind) -> (res: &'static str)
    ensures
        res@ == file_status_text(x),
{
    match x {
        FileStatusKind::Added => "A",
        FileStatusKind::Deleted => "D",
        FileStatusKind::Renamed => "R",
        FileStatusKind::Untracked => "?",
        FileStatusKind::Conflicted => "U",
        FileStatusKind::Modified => "M",
    }
}

/// The name of a diff presentation.
pub open spec fn diff_presentation_text(x: DiffPresentation) -> Seq<char> {
    match x {
        DiffPresentation::Unstaged => "unstaged"@,
        DiffPresentation::Staged => "staged"@,
        DiffPresentation::Comparison => "comparison"@,
    }
}

/// The text of `diff_presentation_text`.
pub fn diff_presentation_label(x: DiffPresentation) -> (res: &'static str)
    ensures
        res@ == diff_presentation_text(x),
{
    match x {
        DiffPresentation::Unstaged => "unstaged",
        DiffPresentation::Staged => "staged",
        DiffPresentation::Comparison => "comparison",
    }
}

/// The state line of the commit history.
pub open spec fn merge_state_text(x: MergeState) -> Seq<char> {
    match x {
        MergeState::Clean => "State: idle"@,
        MergeState::MergeInProgress => "State: merge in progress"@,
        MergeState::RebaseInProgress => "State: rebase in progress"@,
        MergeState::CherryPickInProgress => "State: cherry-pick in progress"@,
        MergeState::RevertInProgress => "State: revert in progress"@,
    }
}

/// The text of `merge_state_text`.
pub fn history_operation_state_line(x: MergeState) -> (res: String)
    ensures
        res@ == merge_state_text(x),
{
    match x {
        MergeState::Clean => String::from_str("State: idle"),
        MergeState::MergeInProgress => String::from_str("State: merge in progress"),
        MergeState::RebaseInProgress => String::from_str("State: rebase in progress"),
        MergeState::CherryPickInProgress => String::from_str("State: cherry-pick in progress"),
        MergeState::RevertInProgress => String::from_str("State: revert in progress"),
    }
}

/// The title of the commit box.
pub open spec fn commit_box_text(x: CommitBoxMode) -> Seq<char> {
    match x {
        CommitBoxMode::Commit => "Commit box"@,
        CommitBoxMode::CommitNoVerify => "Commit without hooks"@,
        CommitBoxMode::Amend => "Amend HEAD"@,
    }
}

/// The text of `commit_box_text`.
pub fn commit_box_title(x: CommitBoxMode) -> (res: &'static str)
    ensures
        res@ == commit_box_text(x),
{
    match x {
        CommitBoxMode::Commit => "Commit box",
        CommitBoxMode::CommitNoVerify => "Commit without hooks",
        CommitBoxMode::Amend => "Amend HEAD",
    }
}

/// The name of a repository subview.
pub open spec fn repo_subview_text(x: RepoSubview) -> Seq<char> {
    match x {
        RepoSubview::Status => "Status"@,
        RepoSubview::Branches => "Branches"@,
        RepoSubview::Remotes => "Remotes"@,
        RepoSubview::RemoteBranches => "Remote Branches"@,
        RepoSubview::Tags => "Tags"@,
        RepoSubview::Commits => "Commits"@,
        RepoSubview::Compare => "Compare"@,
        RepoSubview::Rebase => "Rebase"@,
        RepoSubview::Stash => "Stash"@,
        RepoSubview::Reflog => "Reflog"@,
        RepoSubview::Worktrees => "Worktrees"@,
        RepoSubview::Submodules => "Submodules"@,
    }
}

/// The text of `repo_subview_text`.
pub fn repo_subview_label(x: RepoSubview) -> (res: &'static str)
    ensures
        res@ == repo_subview_text(x),
{
    match x {
        RepoSubview::Status => "Status",
        RepoSubview::Branches => "Branches",
        RepoSubview::Remotes => "Remotes",
        RepoSubview::RemoteBranches => "Remote Branches",
        RepoSubview::Tags => "Tags",
        RepoSubview::Commits => "Commits",
        RepoSubview::Compare => "Compare",
        RepoSubview::Rebase => "Rebase",
        RepoSubview::Stash => "Stash",
        RepoSubview::Reflog => "Reflog",
        RepoSubview::Worktrees => "Worktrees",
        RepoSubview::Submodules => "Submodules",
    }
}

/// The name of a rebase flavour.
pub open spec fn rebase_kind_text(x: RebaseKind) -> Seq<char> {
    match x {
        RebaseKind::Interactive => "interactive"@,
        RebaseKind::Apply => "apply"@,
    }
}

/// The text of `rebase_kind_text`.
pub fn rebase_kind_label(x: RebaseKind) -> (res: &'static str)
    ensures
        res@ == rebase_kind_text(x),
{
    match x {
        RebaseKind::Interactive => "interactive",
        RebaseKind::Apply => "apply",
    }
}

/// The watcher health shown in the workspace status line.
pub open spec fn watcher_health_text(x: WatcherHealth) -> Seq<char> {
    match x {
        WatcherHealth::Unknown => "unknown"@,
        WatcherHealth::Healthy => "live"@,
        WatcherHealth::Degraded => "polling"@,
    }
}

/// The text of `watcher_health_text`.
pub fn watcher_health_label(x: WatcherHealth) -> (res: &'static str)
    ensures
        res@ == watcher_health_text(x),
{
    match x {
        WatcherHealth::Unknown => "unknown",
        WatcherHealth::Healthy => "live",
        WatcherHealth::Degraded => "polling",
    }
}
} // verus!
