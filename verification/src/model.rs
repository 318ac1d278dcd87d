use vstd::prelude::*;

verus! {

/// The two top-level modes of the application.
#[derive(Clone, Copy, Debug, PartialEq, Eq)]
pub enum AppMode {
    Workspace,
    Repository,
}

/// The panes that can hold the keyboard focus.
#[derive(Clone, Copy, Debug, PartialEq, Eq)]
pub enum PaneId {
    WorkspaceList,
    WorkspacePreview,
    RepoUnstaged,
    RepoStaged,
    RepoDetail,
    Modal,
}

/// The detail subviews of repository mode.
#[derive(Clone, Copy, Debug, PartialEq, Eq)]
pub enum RepoSubview {
    Status,
    Branches,
    Remotes,
    RemoteBranches,
    Tags,
    Commits,
    Compare,
    Rebase,
    Stash,
    Reflog,
    Worktrees,
    Submodules,
}

#[derive(Clone, Copy, Debug, PartialEq, Eq)]
pub enum CommitSubviewMode {
    History,
    Files,
}

#[derive(Clone, Copy, Debug, PartialEq, Eq)]
pub enum CommitFilesMode {
    List,
    Diff,
}

#[derive(Clone, Copy, Debug, PartialEq, Eq)]
pub enum StashSubviewMode {
    List,
    Files,
}

#[derive(Clone, Copy, Debug, PartialEq, Eq)]
pub enum CommitBoxMode {
    Commit,
    CommitNoVerify,
    Amend,
}

/// The kind of the modal on top of the modal stack.
#[derive(Clone, Copy, Debug, PartialEq, Eq)]
pub enum ModalKind {
    Help,
    Confirm,
    InputPrompt,
    Menu,
}

/// Which side of a change the diff in the detail pane shows.
#[derive(Clone, Copy, Debug, PartialEq, Eq)]
pub enum DiffPresentation {
    Unstaged,
    Staged,
    Comparison,
}

/// The input prompts that a key can open, with the values they start from.
#[derive(Clone, Debug, PartialEq, Eq)]
pub enum InputPromptOperation<S> {
    ShellCommand,
    CheckoutBranch,
    CreateBranch,
    RenameBranch { current_name: S },
    CreateRemote,
    EditRemote { current_name: S, current_url: S },
    ForkRemote { suggested_name: S, remote_url: S },
    CreateBranchFromRemote { remote_branch_ref: S, suggested_name: S },
    CreateTag,
    CreateBranchFromStash { stash_ref: S, stash_label: S },
    RenameStash { stash_ref: S, current_name: S },
    CreateTagFromCommit { commit: S, summary: S },
    CreateTagFromRef { target_ref: S, source_label: S },
    CreateBranchFromCommit { commit: S, summary: S },
    SetBranchUpstream { branch_name: S },
    CreateStash { mode: StashMode },
    CreateWorktree,
    CreateSubmodule,
    EditSubmoduleUrl { name: S, path: S, current_url: S },
    CreateAmendCommit { summary: S, include_file_changes: bool },
    SetCommitCoAuthor { summary: S },
    RewordCommit { commit: S, summary: S, initial_message: S },
}

/// Which changes a new stash entry takes.
#[derive(Clone, Copy, Debug, PartialEq, Eq)]
pub enum StashMode {
    TrackedChanges,
    KeepIndex,
    IncludeUntracked,
    Staged,
    Unstaged,
}

/// How far a reset moves the index and the working tree along with HEAD.
#[derive(Clone, Copy, Debug, PartialEq, Eq)]
pub enum ResetMode {
    Soft,
    Mixed,
    Hard,
}

impl View for InputPromptOperation<String> {
    type V = InputPromptOperation<Seq<char>>;

    open spec fn view(&self) -> InputPromptOperation<Seq<char>> {
        match self {
            InputPromptOperation::ShellCommand => InputPromptOperation::ShellCommand,
            InputPromptOperation::CheckoutBranch => InputPromptOperation::CheckoutBranch,
            InputPromptOperation::CreateBranch => InputPromptOperation::CreateBranch,
            InputPromptOperation::RenameBranch { current_name } => InputPromptOperation::RenameBranch {
                current_name: current_name@,
            },
            InputPromptOperation::CreateRemote => InputPromptOperation::CreateRemote,
            InputPromptOperation::EditRemote { current_name, current_url } => InputPromptOperation::EditRemote {
                current_name: current_name@,
                current_url: current_url@,
            },
            InputPromptOperation::ForkRemote { suggested_name, remote_url } => InputPromptOperation::ForkRemote {
                suggested_name: suggested_name@,
                remote_url: remote_url@,
            },
            InputPromptOperation::CreateBranchFromRemote { remote_branch_ref, suggested_name } => InputPromptOperation::CreateBranchFromRemote {
                remote_branch_ref: remote_branch_ref@,
                suggested_name: suggested_name@,
            },
            InputPromptOperation::CreateTag => InputPromptOperation::CreateTag,
            InputPromptOperation::CreateBranchFromStash { stash_ref, stash_label } => InputPromptOperation::CreateBranchFromStash {
                stash_ref: stash_ref@,
                stash_label: stash_label@,
            },
            InputPromptOperation::RenameStash { stash_ref, current_name } => InputPromptOperation::RenameStash {
                stash_ref: stash_ref@,
                current_name: current_name@,
            },
            InputPromptOperation::CreateTagFromCommit { commit, summary } => InputPromptOperation::CreateTagFromCommit {
                commit: commit@,
                summary: summary@,
            },
            InputPromptOperation::CreateTagFromRef { target_ref, source_label } => InputPromptOperation::CreateTagFromRef {
                target_ref: target_ref@,
                source_label: source_label@,
            },
            InputPromptOperation::CreateBranchFromCommit { commit, summary } => InputPromptOperation::CreateBranchFromCommit {
                commit: commit@,
                summary: summary@,
            },
            InputPromptOperation::SetBranchUpstream { branch_name } => InputPromptOperation::SetBranchUpstream {
                branch_name: branch_name@,
            },
            InputPromptOperation::CreateStash { mode } => InputPromptOperation::CreateStash { mode: *mode },
            InputPromptOperation::CreateWorktree => InputPromptOperation::CreateWorktree,
            InputPromptOperation::CreateSubmodule => InputPromptOperation::CreateSubmodule,
            InputPromptOperation::EditSubmoduleUrl { name, path, current_url } => InputPromptOperation::EditSubmoduleUrl {
                name: name@,
                path: path@,
                current_url: current_url@,
            },
            InputPromptOperation::CreateAmendCommit { summary, include_file_changes } => InputPromptOperation::CreateAmendCommit {
                summary: summary@,
                include_file_changes: *include_file_changes,
            },
            InputPromptOperation::SetCommitCoAuthor { summary } => InputPromptOperation::SetCommitCoAuthor {
                summary: summary@,
            },
            InputPromptOperation::RewordCommit { commit, summary, initial_message } => InputPromptOperation::RewordCommit {
                commit: commit@,
                summary: summary@,
                initial_message: initial_message@,
            },
        }
    }
}

/// What a routed key press asks the application to do; `S` is the type of its text
/// (`String` for the values the library returns, `Seq<char>` in contracts).
#[derive(Clone, Debug, PartialEq, Eq)]
pub enum Action<S> {
    AbortRebase,
    ActivateRepoSubviewSelection,
    AmendSelectedCommit,
    AppendCommitInput { text: S },
    AppendPromptInput { text: S },
    AppendRepoSubviewFilter { text: S },
    AppendWorkspaceSearch { text: S },
    ApplyFixupCommits,
    ApplySelectedStash,
    BackspaceCommitInput,
    BackspacePromptInput,
    BackspaceRepoSubviewFilter,
    BackspaceWorkspaceSearch,
    BlurRepoSubviewFilter,
    BlurWorkspaceSearch,
    CancelCommitBox,
    CancelRepoSubviewFilter,
    CancelWorkspaceSearch,
    CheckForUpdates,
    CheckoutBranch { branch_ref: S },
    CheckoutSelectedBranch,
    CheckoutSelectedCommit,
    CheckoutSelectedCommitFile,
    CheckoutSelectedRemoteBranch,
    CheckoutSelectedTag,
    CherryPickCopiedCommit,
    CherryPickSelectedCommit,
    ClearComparison,
    ClearCopiedCommitSelection,
    CloseSelectedCommitFiles,
    CloseTopModal,
    CollapseStatusEntry,
    CommitStagedWithEditor,
    ConfirmPendingOperation,
    ContinueRebase,
    CopySelectedBranchName,
    CopySelectedCommitForCherryPick,
    CopySelectedCommitHash,
    CopySelectedReflogCommitHash,
    CopySelectedRemoteBranchName,
    CopySelectedStatusPath,
    CopySelectedSubmoduleName,
    CopySelectedTagName,
    CreateBranchFromSelectedCommit,
    CreateSubmodule,
    CreateTagFromSelectedBranch,
    CreateTagFromSelectedCommit,
    CreateTagFromSelectedRemoteBranch,
    CreateWorktree,
    CycleStatusFilterMode,
    CycleWorkspaceFilter,
    CycleWorkspaceSort,
    DecreaseDiffContext,
    DecreaseRenameSimilarityThreshold,
    DeleteSelectedBranch,
    DeleteSelectedRemote,
    DeleteSelectedRemoteBranch,
    DeleteSelectedTag,
    DiscardSelectedFile,
    DropSelectedCommit,
    DropSelectedStash,
    EditSelectedSubmodule,
    EnterRepoMode { repo_id: S },
    ExpandStatusEntry,
    FetchSelectedRemote,
    FetchSelectedRepo,
    FixupSelectedCommit,
    FocusRepoMainPane,
    FocusRepoSubviewFilter,
    FocusWorkspaceSearch,
    ForceCheckoutSelectedBranch,
    HardResetToSelectedCommit,
    HardResetToSelectedTag,
    IncreaseDiffContext,
    IncreaseRenameSimilarityThreshold,
    InitSelectedSubmodule,
    LeaveRepoMode,
    MergeSelectedBranchIntoCurrent,
    MergeSelectedRemoteBranchIntoCurrent,
    MixedResetToSelectedCommit,
    MixedResetToSelectedTag,
    MoveSelectedCommitDown,
    MoveSelectedCommitUp,
    NextScreenMode,
    NukeWorkingTree,
    OpenAllBranchGraph { reverse: bool },
    OpenBisectOptions,
    OpenBranchGitFlowOptions,
    OpenBranchPullRequestOptions,
    OpenBranchResetOptions,
    OpenBranchSortOptions,
    OpenBranchUpstreamOptions,
    OpenCommandLog,
    OpenCommitAmendAttributeOptions,
    OpenCommitBox { mode: CommitBoxMode },
    OpenCommitCopyOptions,
    OpenCommitFixupOptions,
    OpenCommitLogOptions,
    OpenConfigFileInDefaultApp,
    OpenConfigFileInEditor,
    OpenDiffOptions,
    OpenFilterOptions,
    OpenIgnoreOptions,
    OpenInEditor,
    OpenInputPrompt { operation: InputPromptOperation<S> },
    OpenMergeRebaseOptions,
    OpenModal { kind: ModalKind, title: S },
    OpenPatchOptions,
    OpenRecentRepos,
    OpenReflogResetOptions,
    OpenRemoteBranchPullRequestOptions,
    OpenRemoteBranchResetOptions,
    OpenRemoteBranchSortOptions,
    OpenRepoSubmodulesSubview,
    OpenRepoWorktreesSubview,
    OpenSelectedBranchCommits,
    OpenSelectedCommitFiles,
    OpenSelectedCommitInBrowser,
    OpenSelectedReflogCommits,
    OpenSelectedReflogInBrowser,
    OpenSelectedRemoteBranchCommits,
    OpenSelectedRemoteBranches,
    OpenSelectedStatusEntry,
    OpenSelectedStatusPathInDefaultApp,
    OpenSelectedStatusPathInExternalDiffTool,
    OpenSelectedTagCommits,
    OpenStashOptions,
    OpenStatusResetOptions,
    OpenSubmoduleOptions,
    OpenTagResetOptions,
    PageDownRepoList { page_size: usize },
    PageUpRepoList { page_size: usize },
    PopSelectedStash,
    PreviousScreenMode,
    PullCurrentBranch,
    PushCurrentBranch,
    PushSelectedTag,
    RebaseCurrentBranchOntoSelectedBranch,
    RebaseCurrentBranchOntoSelectedRemoteBranch,
    RefreshSelectedRepo,
    RefreshSelectedRepoDeep,
    RefreshVisibleRepos,
    RemoveSelectedSubmodule,
    RemoveSelectedWorktree,
    RestoreSelectedReflogEntry,
    RevertSelectedCommit,
    RewordSelectedCommit,
    RewordSelectedCommitWithEditor,
    ScrollRepoDetailDown,
    ScrollRepoDetailUp,
    SelectFirstRepoListEntry,
    SelectLastRepoListEntry,
    SelectNextBranch,
    SelectNextCommit,
    SelectNextDiffHunk,
    SelectNextDiffLine,
    SelectNextMenuItem,
    SelectNextReflog,
    SelectNextRemote,
    SelectNextRemoteBranch,
    SelectNextRepo,
    SelectNextRepoSubview,
    SelectNextStash,
    SelectNextStashFile,
    SelectNextStatusEntry,
    SelectNextSubmodule,
    SelectNextTag,
    SelectNextWorktree,
    SelectPreviousBranch,
    SelectPreviousCommit,
    SelectPreviousDiffHunk,
    SelectPreviousDiffLine,
    SelectPreviousMenuItem,
    SelectPreviousReflog,
    SelectPreviousRemote,
    SelectPreviousRemoteBranch,
    SelectPreviousRepo,
    SelectPreviousRepoSubview,
    SelectPreviousStash,
    SelectPreviousStashFile,
    SelectPreviousStatusEntry,
    SelectPreviousSubmodule,
    SelectPreviousTag,
    SelectPreviousWorktree,
    SetCurrentBranchUpstreamToSelectedRemoteBranch,
    SetFixupMessageForSelectedCommit,
    SetFocusedPane(PaneId),
    SkipRebase,
    SoftResetToSelectedCommit,
    SoftResetToSelectedTag,
    SquashSelectedCommit,
    StageSelectedFile,
    StageSelectedLines,
    StageSelection,
    StartInteractiveRebase,
    StashAllChanges,
    SubmitCommitBox,
    SubmitMenuSelection,
    SubmitPromptInput,
    SwitchRepoSubview(RepoSubview),
    ToggleComparisonSelection,
    ToggleDiffLineAnchor,
    ToggleStatusTree,
    ToggleWhitespaceInDiff,
    UnstageSelectedFile,
    UnstageSelectedLines,
    UnstageSelection,
    UpdateSelectedSubmodule,
}

impl View for Action<String> {
    type V = Action<Seq<char>>;

    open spec fn view(&self) -> Action<Seq<char>> {
        match self {
            Action::AbortRebase => Action::AbortRebase,
            Action::ActivateRepoSubviewSelection => Action::ActivateRepoSubviewSelection,
            Action::AmendSelectedCommit => Action::AmendSelectedCommit,
            Action::AppendCommitInput { text } => Action::AppendCommitInput { text: text@ },
            Action::AppendPromptInput { text } => Action::AppendPromptInput { text: text@ },
            Action::AppendRepoSubviewFilter { text } => Action::AppendRepoSubviewFilter { text: text@ },
            Action::AppendWorkspaceSearch { text } => Action::AppendWorkspaceSearch { text: text@ },
            Action::ApplyFixupCommits => Action::ApplyFixupCommits,
            Action::ApplySelectedStash => Action::ApplySelectedStash,
            Action::BackspaceCommitInput => Action::BackspaceCommitInput,
            Action::BackspacePromptInput => Action::BackspacePromptInput,
            Action::BackspaceRepoSubviewFilter => Action::BackspaceRepoSubviewFilter,
            Action::BackspaceWorkspaceSearch => Action::BackspaceWorkspaceSearch,
            Action::BlurRepoSubviewFilter => Action::BlurRepoSubviewFilter,
            Action::BlurWorkspaceSearch => Action::BlurWorkspaceSearch,
            Action::CancelCommitBox => Action::CancelCommitBox,
            Action::CancelRepoSubviewFilter => Action::CancelRepoSubviewFilter,
            Action::CancelWorkspaceSearch => Action::CancelWorkspaceSearch,
            Action::CheckForUpdates => Action::CheckForUpdates,
            Action::CheckoutBranch { branch_ref } => Action::CheckoutBranch { branch_ref: branch_ref@ },
            Action::CheckoutSelectedBranch => Action::CheckoutSelectedBranch,
            Action::CheckoutSelectedCommit => Action::CheckoutSelectedCommit,
            Action::CheckoutSelectedCommitFile => Action::CheckoutSelectedCommitFile,
            Action::CheckoutSelectedRemoteBranch => Action::CheckoutSelectedRemoteBranch,
            Action::CheckoutSelectedTag => Action::CheckoutSelectedTag,
            Action::CherryPickCopiedCommit => Action::CherryPickCopiedCommit,
            Action::CherryPickSelectedCommit => Action::CherryPickSelectedCommit,
            Action::ClearComparison => Action::ClearComparison,
            Action::ClearCopiedCommitSelection => Action::ClearCopiedCommitSelection,
            Action::CloseSelectedCommitFiles => Action::CloseSelectedCommitFiles,
            Action::CloseTopModal => Action::CloseTopModal,
            Action::CollapseStatusEntry => Action::CollapseStatusEntry,
            Action::CommitStagedWithEditor => Action::CommitStagedWithEditor,
            Action::ConfirmPendingOperation => Action::ConfirmPendingOperation,
            Action::ContinueRebase => Action::ContinueRebase,
            Action::CopySelectedBranchName => Action::CopySelectedBranchName,
            Action::CopySelectedCommitForCherryPick => Action::CopySelectedCommitForCherryPick,
            Action::CopySelectedCommitHash => Action::CopySelectedCommitHash,
            Action::CopySelectedReflogCommitHash => Action::CopySelectedReflogCommitHash,
            Action::CopySelectedRemoteBranchName => Action::CopySelectedRemoteBranchName,
            Action::CopySelectedStatusPath => Action::CopySelectedStatusPath,
            Action::CopySelectedSubmoduleName => Action::CopySelectedSubmoduleName,
            Action::CopySelectedTagName => Action::CopySelectedTagName,
            Action::CreateBranchFromSelectedCommit => Action::CreateBranchFromSelectedCommit,
            Action::CreateSubmodule => Action::CreateSubmodule,
            Action::CreateTagFromSelectedBranch => Action::CreateTagFromSelectedBranch,
            Action::CreateTagFromSelectedCommit => Action::CreateTagFromSelectedCommit,
            Action::CreateTagFromSelectedRemoteBranch => Action::CreateTagFromSelectedRemoteBranch,
            Action::CreateWorktree => Action::CreateWorktree,
            Action::CycleStatusFilterMode => Action::CycleStatusFilterMode,
            Action::CycleWorkspaceFilter => Action::CycleWorkspaceFilter,
            Action::CycleWorkspaceSort => Action::CycleWorkspaceSort,
            Action::DecreaseDiffContext => Action::DecreaseDiffContext,
            Action::DecreaseRenameSimilarityThreshold => Action::DecreaseRenameSimilarityThreshold,
            Action::DeleteSelectedBranch => Action::DeleteSelectedBranch,
            Action::DeleteSelectedRemote => Action::DeleteSelectedRemote,
            Action::DeleteSelectedRemoteBranch => Action::DeleteSelectedRemoteBranch,
            Action::DeleteSelectedTag => Action::DeleteSelectedTag,
            Action::DiscardSelectedFile => Action::DiscardSelectedFile,
            Action::DropSelectedCommit => Action::DropSelectedCommit,
            Action::DropSelectedStash => Action::DropSelectedStash,
            Action::EditSelectedSubmodule => Action::EditSelectedSubmodule,
            Action::EnterRepoMode { repo_id } => Action::EnterRepoMode { repo_id: repo_id@ },
            Action::ExpandStatusEntry => Action::ExpandStatusEntry,
            Action::FetchSelectedRemote => Action::FetchSelectedRemote,
            Action::FetchSelectedRepo => Action::FetchSelectedRepo,
            Action::FixupSelectedCommit => Action::FixupSelectedCommit,
            Action::FocusRepoMainPane => Action::FocusRepoMainPane,
            Action::FocusRepoSubviewFilter => Action::FocusRepoSubviewFilter,
            Action::FocusWorkspaceSearch => Action::FocusWorkspaceSearch,
            Action::ForceCheckoutSelectedBranch => Action::ForceCheckoutSelectedBranch,
            Action::HardResetToSelectedCommit => Action::HardResetToSelectedCommit,
            Action::HardResetToSelectedTag => Action::HardResetToSelectedTag,
            Action::IncreaseDiffContext => Action::IncreaseDiffContext,
            Action::IncreaseRenameSimilarityThreshold => Action::IncreaseRenameSimilarityThreshold,
            Action::InitSelectedSubmodule => Action::InitSelectedSubmodule,
            Action::LeaveRepoMode => Action::LeaveRepoMode,
            Action::MergeSelectedBranchIntoCurrent => Action::MergeSelectedBranchIntoCurrent,
            Action::MergeSelectedRemoteBranchIntoCurrent => Action::MergeSelectedRemoteBranchIntoCurrent,
            Action::MixedResetToSelectedCommit => Action::MixedResetToSelectedCommit,
            Action::MixedResetToSelectedTag => Action::MixedResetToSelectedTag,
            Action::MoveSelectedCommitDown => Action::MoveSelectedCommitDown,
            Action::MoveSelectedCommitUp => Action::MoveSelectedCommitUp,
            Action::NextScreenMode => Action::NextScreenMode,
            Action::NukeWorkingTree => Action::NukeWorkingTree,
            Action::OpenAllBranchGraph { reverse } => Action::OpenAllBranchGraph { reverse: *reverse },
            Action::OpenBisectOptions => Action::OpenBisectOptions,
            Action::OpenBranchGitFlowOptions => Action::OpenBranchGitFlowOptions,
            Action::OpenBranchPullRequestOptions => Action::OpenBranchPullRequestOptions,
            Action::OpenBranchResetOptions => Action::OpenBranchResetOptions,
            Action::OpenBranchSortOptions => Action::OpenBranchSortOptions,
            Action::OpenBranchUpstreamOptions => Action::OpenBranchUpstreamOptions,
            Action::OpenCommandLog => Action::OpenCommandLog,
            Action::OpenCommitAmendAttributeOptions => Action::OpenCommitAmendAttributeOptions,
            Action::OpenCommitBox { mode } => Action::OpenCommitBox { mode: *mode },
            Action::OpenCommitCopyOptions => Action::OpenCommitCopyOptions,
            Action::OpenCommitFixupOptions => Action::OpenCommitFixupOptions,
            Action::OpenCommitLogOptions => Action::OpenCommitLogOptions,
            Action::OpenConfigFileInDefaultApp => Action::OpenConfigFileInDefaultApp,
            Action::OpenConfigFileInEditor => Action::OpenConfigFileInEditor,
            Action::OpenDiffOptions => Action::OpenDiffOptions,
            Action::OpenFilterOptions => Action::OpenFilterOptions,
            Action::OpenIgnoreOptions => Action::OpenIgnoreOptions,
            Action::OpenInEditor => Action::OpenInEditor,
            Action::OpenInputPrompt { operation } => Action::OpenInputPrompt { operation: operation.view() },
            Action::OpenMergeRebaseOptions => Action::OpenMergeRebaseOptions,
            Action::OpenModal { kind, title } => Action::OpenModal { kind: *kind, title: title@ },
            Action::OpenPatchOptions => Action::OpenPatchOptions,
            Action::OpenRecentRepos => Action::OpenRecentRepos,
            Action::OpenReflogResetOptions => Action::OpenReflogResetOptions,
            Action::OpenRemoteBranchPullRequestOptions => Action::OpenRemoteBranchPullRequestOptions,
            Action::OpenRemoteBranchResetOptions => Action::OpenRemoteBranchResetOptions,
            Action::OpenRemoteBranchSortOptions => Action::OpenRemoteBranchSortOptions,
            Action::OpenRepoSubmodulesSubview => Action::OpenRepoSubmodulesSubview,
            Action::OpenRepoWorktreesSubview => Action::OpenRepoWorktreesSubview,
            Action::OpenSelectedBranchCommits => Action::OpenSelectedBranchCommits,
            Action::OpenSelectedCommitFiles => Action::OpenSelectedCommitFiles,
            Action::OpenSelectedCommitInBrowser => Action::OpenSelectedCommitInBrowser,
            Action::OpenSelectedReflogCommits => Action::OpenSelectedReflogCommits,
            Action::OpenSelectedReflogInBrowser => Action::OpenSelectedReflogInBrowser,
            Action::OpenSelectedRemoteBranchCommits => Action::OpenSelectedRemoteBranchCommits,
            Action::OpenSelectedRemoteBranches => Action::OpenSelectedRemoteBranches,
            Action::OpenSelectedStatusEntry => Action::OpenSelectedStatusEntry,
            Action::OpenSelectedStatusPathInDefaultApp => Action::OpenSelectedStatusPathInDefaultApp,
            Action::OpenSelectedStatusPathInExternalDiffTool => Action::OpenSelectedStatusPathInExternalDiffTool,
            Action::OpenSelectedTagCommits => Action::OpenSelectedTagCommits,
            Action::OpenStashOptions => Action::OpenStashOptions,
            Action::OpenStatusResetOptions => Action::OpenStatusResetOptions,
            Action::OpenSubmoduleOptions => Action::OpenSubmoduleOptions,
            Action::OpenTagResetOptions => Action::OpenTagResetOptions,
            Action::PageDownRepoList { page_size } => Action::PageDownRepoList { page_size: *page_size },
            Action::PageUpRepoList { page_size } => Action::PageUpRepoList { page_size: *page_size },
            Action::PopSelectedStash => Action::PopSelectedStash,
            Action::PreviousScreenMode => Action::PreviousScreenMode,
            Action::PullCurrentBranch => Action::PullCurrentBranch,
            Action::PushCurrentBranch => Action::PushCurrentBranch,
            Action::PushSelectedTag => Action::PushSelectedTag,
            Action::RebaseCurrentBranchOntoSelectedBranch => Action::RebaseCurrentBranchOntoSelectedBranch,
            Action::RebaseCurrentBranchOntoSelectedRemoteBranch => Action::RebaseCurrentBranchOntoSelectedRemoteBranch,
            Action::RefreshSelectedRepo => Action::RefreshSelectedRepo,
            Action::RefreshSelectedRepoDeep => Action::RefreshSelectedRepoDeep,
            Action::RefreshVisibleRepos => Action::RefreshVisibleRepos,
            Action::RemoveSelectedSubmodule => Action::RemoveSelectedSubmodule,
            Action::RemoveSelectedWorktree => Action::RemoveSelectedWorktree,
            Action::RestoreSelectedReflogEntry => Action::RestoreSelectedReflogEntry,
            Action::RevertSelectedCommit => Action::RevertSelectedCommit,
            Action::RewordSelectedCommit => Action::RewordSelectedCommit,
            Action::RewordSelectedCommitWithEditor => Action::RewordSelectedCommitWithEditor,
            Action::ScrollRepoDetailDown => Action::ScrollRepoDetailDown,
            Action::ScrollRepoDetailUp => Action::ScrollRepoDetailUp,
            Action::SelectFirstRepoListEntry => Action::SelectFirstRepoListEntry,
            Action::SelectLastRepoListEntry => Action::SelectLastRepoListEntry,
            Action::SelectNextBranch => Action::SelectNextBranch,
            Action::SelectNextCommit => Action::SelectNextCommit,
            Action::SelectNextDiffHunk => Action::SelectNextDiffHunk,
            Action::SelectNextDiffLine => Action::SelectNextDiffLine,
            Action::SelectNextMenuItem => Action::SelectNextMenuItem,
            Action::SelectNextReflog => Action::SelectNextReflog,
            Action::SelectNextRemote => Action::SelectNextRemote,
            Action::SelectNextRemoteBranch => Action::SelectNextRemoteBranch,
            Action::SelectNextRepo => Action::SelectNextRepo,
            Action::SelectNextRepoSubview => Action::SelectNextRepoSubview,
            Action::SelectNextStash => Action::SelectNextStash,
            Action::SelectNextStashFile => Action::SelectNextStashFile,
            Action::SelectNextStatusEntry => Action::SelectNextStatusEntry,
            Action::SelectNextSubmodule => Action::SelectNextSubmodule,
            Action::SelectNextTag => Action::SelectNextTag,
            Action::SelectNextWorktree => Action::SelectNextWorktree,
            Action::SelectPreviousBranch => Action::SelectPreviousBranch,
            Action::SelectPreviousCommit => Action::SelectPreviousCommit,
            Action::SelectPreviousDiffHunk => Action::SelectPreviousDiffHunk,
            Action::SelectPreviousDiffLine => Action::SelectPreviousDiffLine,
            Action::SelectPreviousMenuItem => Action::SelectPreviousMenuItem,
            Action::SelectPreviousReflog => Action::SelectPreviousReflog,
            Action::SelectPreviousRemote => Action::SelectPreviousRemote,
            Action::SelectPreviousRemoteBranch => Action::SelectPreviousRemoteBranch,
            Action::SelectPreviousRepo => Action::SelectPreviousRepo,
            Action::SelectPreviousRepoSubview => Action::SelectPreviousRepoSubview,
            Action::SelectPreviousStash => Action::SelectPreviousStash,
            Action::SelectPreviousStashFile => Action::SelectPreviousStashFile,
            Action::SelectPreviousStatusEntry => Action::SelectPreviousStatusEntry,
            Action::SelectPreviousSubmodule => Action::SelectPreviousSubmodule,
            Action::SelectPreviousTag => Action::SelectPreviousTag,
            Action::SelectPreviousWorktree => Action::SelectPreviousWorktree,
            Action::SetCurrentBranchUpstreamToSelectedRemoteBranch => Action::SetCurrentBranchUpstreamToSelectedRemoteBranch,
            Action::SetFixupMessageForSelectedCommit => Action::SetFixupMessageForSelectedCommit,
            Action::SetFocusedPane(x) => Action::SetFocusedPane(*x),
            Action::SkipRebase => Action::SkipRebase,
            Action::SoftResetToSelectedCommit => Action::SoftResetToSelectedCommit,
            Action::SoftResetToSelectedTag => Action::SoftResetToSelectedTag,
            Action::SquashSelectedCommit => Action::SquashSelectedCommit,
            Action::StageSelectedFile => Action::StageSelectedFile,
            Action::StageSelectedLines => Action::StageSelectedLines,
            Action::StageSelection => Action::StageSelection,
            Action::StartInteractiveRebase => Action::StartInteractiveRebase,
            Action::StashAllChanges => Action::StashAllChanges,
            Action::SubmitCommitBox => Action::SubmitCommitBox,
            Action::SubmitMenuSelection => Action::SubmitMenuSelection,
            Action::SubmitPromptInput => Action::SubmitPromptInput,
            Action::SwitchRepoSubview(x) => Action::SwitchRepoSubview(*x),
            Action::ToggleComparisonSelection => Action::ToggleComparisonSelection,
            Action::ToggleDiffLineAnchor => Action::ToggleDiffLineAnchor,
            Action::ToggleStatusTree => Action::ToggleStatusTree,
            Action::ToggleWhitespaceInDiff => Action::ToggleWhitespaceInDiff,
            Action::UnstageSelectedFile => Action::UnstageSelectedFile,
            Action::UnstageSelectedLines => Action::UnstageSelectedLines,
            Action::UnstageSelection => Action::UnstageSelection,
            Action::UpdateSelectedSubmodule => Action::UpdateSelectedSubmodule,
        }
    }
}

/// Whether the detail subview's filter exists and has the focus.
#[derive(Clone, Copy, Debug, PartialEq, Eq)]
pub enum SubviewFilter {
    Absent,
    Idle,
    Focused,
}

/// A local branch as routing sees it.
#[derive(Clone, Debug)]
pub struct BranchEntry {
    pub name: String,
    pub is_head: bool,
}

/// A remote as routing sees it.
#[derive(Clone, Debug)]
pub struct RemoteEntry {
    pub name: String,
    pub fetch_url: String,
}

/// A remote-tracking branch as routing sees it.
#[derive(Clone, Debug)]
pub struct RemoteBranchEntry {
    pub name: String,
    pub branch_name: String,
}

/// A stash entry as routing sees it.
#[derive(Clone, Debug)]
pub struct StashEntry {
    pub stash_ref: String,
    pub label: String,
}

/// The loaded repository detail, as far as key routing reads it.
#[derive(Clone, Debug)]
pub struct RepoDetailSnapshot {
    pub branches: Vec<BranchEntry>,
    pub remotes: Vec<RemoteEntry>,
    pub remote_branches: Vec<RemoteBranchEntry>,
    pub tag_count: usize,
    pub stashes: Vec<StashEntry>,
    pub diff_presentation: DiffPresentation,
}

/// The repository-mode state, as far as key routing reads it.
#[derive(Clone, Debug)]
pub struct RepoRouteState {
    pub active_subview: RepoSubview,
    pub commit_subview_mode: CommitSubviewMode,
    pub commit_files_mode: CommitFilesMode,
    pub stash_subview_mode: StashSubviewMode,
    pub commit_box_focused: bool,
    pub subview_filter: SubviewFilter,
    pub has_copied_commit: bool,
    pub has_comparison_base: bool,
    pub selected_branch_index: Option<usize>,
    pub selected_remote_index: Option<usize>,
    pub selected_remote_branch_index: Option<usize>,
    pub selected_tag_index: Option<usize>,
    pub selected_stash_index: Option<usize>,
    pub detail: Option<RepoDetailSnapshot>,
}

/// The application state, as far as key routing reads it.
#[derive(Clone, Debug)]
pub struct RouteContext {
    pub mode: AppMode,
    pub focused_pane: PaneId,
    /// The kind of the modal on top of the stack; `None` when no modal is open.
    pub top_modal: Option<ModalKind>,
    pub has_pending_input_prompt: bool,
    pub workspace_search_focused: bool,
    pub workspace_search_query: String,
    pub selected_repo_id: Option<String>,
    pub repo_mode: Option<RepoRouteState>,
}

/// The view of a routing result.
pub open spec fn opt_action_view(a: Option<Action<String>>) -> Option<Action<Seq<char>>> {
    match a {
        Some(x) => Some(x@),
        None => None,
    }
}

} // verus!
