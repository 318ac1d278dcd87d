use vstd::prelude::*;

use crate::labels::{repo_subview_label, repo_subview_text};
use crate::model::{AppMode, CommitBoxMode, DiffPresentation, PaneId, RepoSubview, StashSubviewMode};
use crate::text::{decimal, push_decimal};

verus! {

/// What the status and help lines read of repository mode.
#[derive(Clone, Debug, PartialEq, Eq)]
pub struct RepoHelpState {
    pub active_subview: RepoSubview,
    pub stash_subview_mode: StashSubviewMode,
    /// The mode of the commit box while it has the focus.
    pub commit_box: Option<CommitBoxMode>,
    /// The query of the active subview's filter while it has the focus.
    pub focused_filter_query: Option<String>,
    /// Whether the repository detail has loaded.
    pub detail_loaded: bool,
    pub diff_presentation: DiffPresentation,
    /// No merge, rebase, cherry-pick or revert is in progress.
    pub merge_clean: bool,
}

/// What the status and help lines read of the application state.
#[derive(Clone, Debug, PartialEq, Eq)]
pub struct HelpContext {
    pub mode: AppMode,
    pub focused_pane: PaneId,
    pub modal_open: bool,
    pub prompt_pending: bool,
    pub workspace_search_focused: bool,
    pub visible_repo_count: usize,
    /// The names of the workspace sort and filter modes.
    pub sort_label: String,
    pub filter_label: String,
    pub repo: Option<RepoHelpState>,
}

/// The status line of the status diff, by how its hunks can be staged.
pub open spec fn status_focus_text(r: RepoHelpState) -> Seq<char> {
    if !r.detail_loaded {
        "Repository shell ready."@
    } else {
        "Status diff focus; "@ + match r.diff_presentation {
            DiffPresentation::Unstaged => if r.merge_clean {
                "Enter/Space stages the current hunk and L stages the selected line range"@
            } else {
                "Enter/Space stages the current hunk for merge resolution and L stages the selected line range"@
            },
            DiffPresentation::Staged => "Enter/Space unstages the current hunk and L unstages the selected line range"@,
            DiffPresentation::Comparison => "the current diff is read-only while j/k change hunks and Down/Up scroll"@,
        } + ", Ctrl+W toggles whitespace, {/} change diff context, (/) change rename similarity, W/Ctrl+E opens diff options, a/A open the all-branches graph, o opens the config file, e edits it, u checks for updates, Esc or 0 returns to the main pane, w opens worktrees, b opens submodules, D discards the current file, and X nukes the working tree."@
    }
}

/// The status line of the status diff (see `status_focus_text`).
pub fn status_detail_focus_help(r: &RepoHelpState) -> (res: String)
    ensures
        res@ == status_focus_text(*r),
{
    if !r.detail_loaded {
        return String::from_str("Repository shell ready.");
    }
    let mut s = String::from_str("Status diff focus; ");
    match r.diff_presentation {
        DiffPresentation::Unstaged => if r.merge_clean {
            s.append("Enter/Space stages the current hunk and L stages the selected line range");
        } else {
            s.append("Enter/Space stages the current hunk for merge resolution and L stages the selected line range");
        },
        DiffPresentation::Staged => s.append("Enter/Space unstages the current hunk and L unstages the selected line range"),
        DiffPresentation::Comparison => s.append("the current diff is read-only while j/k change hunks and Down/Up scroll"),
    }
    s.append(", Ctrl+W toggles whitespace, {/} change diff context, (/) change rename similarity, W/Ctrl+E opens diff options, a/A open the all-branches graph, o opens the config file, e edits it, u checks for updates, Esc or 0 returns to the main pane, w opens worktrees, b opens submodules, D discards the current file, and X nukes the working tree.");
    s
}

/// The status line while the detail pane has the focus, by subview.
pub open spec fn detail_focus_text(r: RepoHelpState) -> Seq<char> {
    match r.active_subview {
        RepoSubview::Status => status_focus_text(r),
        RepoSubview::Branches => "Branches detail focus; Enter opens commits, Space checks out, 0 returns to the main pane, / filters this panel, Ctrl+S opens filter options, W/Ctrl+E opens diff options, w opens worktrees, b opens submodules, v compares refs, x clears compare, c creates, R renames, d deletes, u opens upstream options, y copies, r rebases current onto the selected branch, and M merges the selected branch into the current branch."@,
        RepoSubview::Remotes => "Remotes detail focus; Enter opens remote branches, f fetches the selected remote, 0 returns to the main pane, / filters this panel, Ctrl+S opens filter options, w opens worktrees, b opens submodules, and n/e/d manage remotes."@,
        RepoSubview::RemoteBranches => "Remote branches detail focus; Enter opens commits, Space checks out, 0 returns to the main pane, / filters this panel, Ctrl+S opens filter options, w opens worktrees, b opens submodules, n creates a local branch, d deletes the selected remote branch, y copies, u sets the current branch upstream, r rebases the current branch onto the selected remote branch, and M merges the selected remote branch into the current branch."@,
        RepoSubview::Commits => "Commits detail focus; 3 returns to current-branch history, Ctrl+L opens log options, Ctrl+W toggles whitespace, {/} change diff context, (/) change rename similarity, 0 returns to the main pane, / filters history, Ctrl+S opens filter options, W/Ctrl+E opens diff options, w opens worktrees, b opens bisect options, n branches off the selected commit, T tags it, i starts a rebase, m opens merge/rebase options, A amends with staged changes, a opens amend attribute options, f opens fixup options, F fixups, g applies fixups, s squashes, d drops, Ctrl+K/Ctrl+J move the selected commit, y opens copy options, C cherry-picks, V pastes the copied commit, t reverts, S/M/H reset HEAD, v compares commits, and x clears compare."@,
        RepoSubview::Compare => "Compare detail focus; j/k scroll the comparison diff, Ctrl+W toggles whitespace, {/} change diff context, (/) change rename similarity, W/Ctrl+E opens diff options, 0 returns to the main pane, and x clears compare."@,
        RepoSubview::Rebase => "Rebase detail focus; c continues, s skips, A aborts, 0 returns to the main pane, and j/k scroll the active step."@,
        RepoSubview::Stash => match r.stash_subview_mode {
            StashSubviewMode::List => "Stash detail focus; Enter opens changed files, Space applies, 0 returns to the main pane, / filters this panel, Ctrl+S opens filter options, w opens worktrees, b opens submodules, and g/d manage the selected stash."@,
            StashSubviewMode::Files => "Stash files focus; Enter returns to the stash list, 0 returns to the main pane, and w/b open worktrees or submodules. Apply/pop/drop/rename/new-branch stay on the stash list."@,
        },
        RepoSubview::Reflog => "Reflog detail focus; Enter opens commit history, Space detaches to the selected target, Ctrl+O copies the selected hash, o opens the selected target in the browser, n branches off it, T tags it, C cherry-picks, g opens reset options, S/M/H reset via the selector, 0 returns to the main pane, / filters this panel, Ctrl+S opens filter options, w opens worktrees, b opens submodules, and u preserves the explicit restore flow."@,
        RepoSubview::Worktrees => "Worktrees detail focus; Enter/Space switches worktrees, 0 returns to the main pane, / filters this panel, Ctrl+S opens filter options, b opens submodules, and n/o/d manage the selected worktree."@,
        RepoSubview::Submodules => "Submodules detail focus; Enter opens the selected nested repo, Ctrl+O copies the selected submodule name, b opens the submodule options menu, Esc returns to the parent repo, 0 returns to the main pane, / filters this panel, Ctrl+S opens filter options, and n/e/i/u/o/d manage the selected submodule."@,
        _ => repo_subview_text(r.active_subview) + " detail focus; deeper interactions are staged behind the shell bead."@,
    }
}

/// The default status line: what the focused part of the screen does.
pub open spec fn default_status_spec(c: HelpContext) -> Seq<char> {
    match c.mode {
        AppMode::Workspace => if c.workspace_search_focused {
            "Workspace search focused; type to filter repos, Enter keeps it, and Esc clears it."@
        } else {
            "Workspace triage ready; "@ + decimal(c.visible_repo_count as nat) + " repo(s) visible with "@ + c.sort_label@ + " sort and "@ + c.filter_label@
                + " filter."@
        },
        AppMode::Repository => match c.repo {
            Some(r) if r.commit_box is Some => match r.commit_box->0 {
                CommitBoxMode::Commit => "Commit box focused; type a message, Enter commits, and Esc cancels."@,
                CommitBoxMode::CommitNoVerify => "No-verify commit box focused; type a message, Enter commits without hooks, and Esc cancels."@,
                CommitBoxMode::Amend => "Amend box focused; Enter confirms, Esc cancels, and blank input keeps the HEAD message."@,
            },
            Some(r) if r.focused_filter_query is Some => "Detail filter focused; type to narrow the current panel, Enter keeps the query, and Esc clears it."@,
            _ => match c.focused_pane {
                PaneId::RepoUnstaged => "Working tree focus; j/k move, Space stages, Enter opens the diff, Ctrl+B cycles status filters, ` toggles the tree, -/= collapse or expand directories, a stages all, i opens ignore options, o opens the path, y copies the path, Ctrl+T opens the difftool, g opens reset options, M opens merge options, / filters, and 0 jumps to the main pane."@,
                PaneId::RepoStaged => "Staged focus; j/k move, Space unstages, Enter opens the diff, Ctrl+B cycles status filters, ` toggles the tree, -/= collapse or expand directories, a unstages all, i opens ignore options, o opens the path, y copies the path, Ctrl+T opens the difftool, g opens reset options, M opens merge options, / filters, 0 jumps to the main pane, c commits, w commits without hooks, and A amends HEAD."@,
                PaneId::RepoDetail => match c.repo {
                    Some(r) => detail_focus_text(r),
                    None => "Repository shell ready."@,
                },
                _ => "Repository shell ready."@,
            },
        },
    }
}

fn detail_focus_help(r: &RepoHelpState) -> (res: String)
    ensures
        res@ == detail_focus_text(*r),
{
    match r.active_subview {
        RepoSubview::Status => status_detail_focus_help(r),
        RepoSubview::Branches => String::from_str("Branches detail focus; Enter opens commits, Space checks out, 0 returns to the main pane, / filters this panel, Ctrl+S opens filter options, W/Ctrl+E opens diff options, w opens worktrees, b opens submodules, v compares refs, x clears compare, c creates, R renames, d deletes, u opens upstream options, y copies, r rebases current onto the selected branch, and M merges the selected branch into the current branch."),
        RepoSubview::Remotes => String::from_str("Remotes detail focus; Enter opens remote branches, f fetches the selected remote, 0 returns to the main pane, / filters this panel, Ctrl+S opens filter options, w opens worktrees, b opens submodules, and n/e/d manage remotes."),
        RepoSubview::RemoteBranches => String::from_str("Remote branches detail focus; Enter opens commits, Space checks out, 0 returns to the main pane, / filters this panel, Ctrl+S opens filter options, w opens worktrees, b opens submodules, n creates a local branch, d deletes the selected remote branch, y copies, u sets the current branch upstream, r rebases the current branch onto the selected remote branch, and M merges the selected remote branch into the current branch."),
        RepoSubview::Commits => String::from_str("Commits detail focus; 3 returns to current-branch history, Ctrl+L opens log options, Ctrl+W toggles whitespace, {/} change diff context, (/) change rename similarity, 0 returns to the main pane, / filters history, Ctrl+S opens filter options, W/Ctrl+E opens diff options, w opens worktrees, b opens bisect options, n branches off the selected commit, T tags it, i starts a rebase, m opens merge/rebase options, A amends with staged changes, a opens amend attribute options, f opens fixup options, F fixups, g applies fixups, s squashes, d drops, Ctrl+K/Ctrl+J move the selected commit, y opens copy options, C cherry-picks, V pastes the copied commit, t reverts, S/M/H reset HEAD, v compares commits, and x clears compare."),
        RepoSubview::Compare => String::from_str("Compare detail focus; j/k scroll the comparison diff, Ctrl+W toggles whitespace, {/} change diff context, (/) change rename similarity, W/Ctrl+E opens diff options, 0 returns to the main pane, and x clears compare."),
        RepoSubview::Rebase => String::from_str("Rebase detail focus; c continues, s skips, A aborts, 0 returns to the main pane, and j/k scroll the active step."),
        RepoSubview::Stash => match r.stash_subview_mode {
            StashSubviewMode::List => String::from_str("Stash detail focus; Enter opens changed files, Space applies, 0 returns to the main pane, / filters this panel, Ctrl+S opens filter options, w opens worktrees, b opens submodules, and g/d manage the selected stash."),
            StashSubviewMode::Files => String::from_str("Stash files focus; Enter returns to the stash list, 0 returns to the main pane, and w/b open worktrees or submodules. Apply/pop/drop/rename/new-branch stay on the stash list."),
        },
        RepoSubview::Reflog => String::from_str("Reflog detail focus; Enter opens commit history, Space detaches to the selected target, Ctrl+O copies the selected hash, o opens the selected target in the browser, n branches off it, T tags it, C cherry-picks, g opens reset options, S/M/H reset via the selector, 0 returns to the main pane, / filters this panel, Ctrl+S opens filter options, w opens worktrees, b opens submodules, and u preserves the explicit restore flow."),
        RepoSubview::Worktrees => String::from_str("Worktrees detail focus; Enter/Space switches worktrees, 0 returns to the main pane, / filters this panel, Ctrl+S opens filter options, b opens submodules, and n/o/d manage the selected worktree."),
        RepoSubview::Submodules => String::from_str("Submodules detail focus; Enter opens the selected nested repo, Ctrl+O copies the selected submodule name, b opens the submodule options menu, Esc returns to the parent repo, 0 returns to the main pane, / filters this panel, Ctrl+S opens filter options, and n/e/i/u/o/d manage the selected submodule."),
        _ => {
            let mut s = String::from_str(repo_subview_label(r.active_subview));
            s.append(" detail focus; deeper interactions are staged behind the shell bead.");
            s
        },
    }
}

/// The default status line (see `default_status_spec`).
pub fn default_status_text(c: &HelpContext) -> (res: String)
    ensures
        res@ == default_status_spec(*c),
{
    match c.mode {
        AppMode::Workspace => {
            if c.workspace_search_focused {
                return String::from_str("Workspace search focused; type to filter repos, Enter keeps it, and Esc clears it.");
            }
            let mut s = String::from_str("Workspace triage ready; ");
            push_decimal(&mut s, c.visible_repo_count as u64);
            s.append(" repo(s) visible with ");
            s.append(c.sort_label.as_str());
            s.append(" sort and ");
            s.append(c.filter_label.as_str());
            s.append(" filter.");
            s
        },
        AppMode::Repository => {
            match &c.repo {
                Some(r) => {
                    match r.commit_box {
                        Some(CommitBoxMode::Commit) => return String::from_str("Commit box focused; type a message, Enter commits, and Esc cancels."),
                        Some(CommitBoxMode::CommitNoVerify) => return String::from_str("No-verify commit box focused; type a message, Enter commits without hooks, and Esc cancels."),
                        Some(CommitBoxMode::Amend) => return String::from_str("Amend box focused; Enter confirms, Esc cancels, and blank input keeps the HEAD message."),
                        None => {},
                    }
                    if r.focused_filter_query.is_some() {
                        return String::from_str("Detail filter focused; type to narrow the current panel, Enter keeps the query, and Esc clears it.");
                    }
                },
                None => {},
            }
            match c.focused_pane {
                PaneId::RepoUnstaged => String::from_str("Working tree focus; j/k move, Space stages, Enter opens the diff, Ctrl+B cycles status filters, ` toggles the tree, -/= collapse or expand directories, a stages all, i opens ignore options, o opens the path, y copies the path, Ctrl+T opens the difftool, g opens reset options, M opens merge options, / filters, and 0 jumps to the main pane."),
                PaneId::RepoStaged => String::from_str("Staged focus; j/k move, Space unstages, Enter opens the diff, Ctrl+B cycles status filters, ` toggles the tree, -/= collapse or expand directories, a unstages all, i opens ignore options, o opens the path, y copies the path, Ctrl+T opens the difftool, g opens reset options, M opens merge options, / filters, 0 jumps to the main pane, c commits, w commits without hooks, and A amends HEAD."),
                PaneId::RepoDetail => match &c.repo {
                    Some(r) => detail_focus_help(r),
                    None => String::from_str("Repository shell ready."),
                },
                _ => String::from_str("Repository shell ready."),
            }
        },
    }
}

/// The help footer of repository mode, by what has the focus.
pub open spec fn repo_help_spec(c: HelpContext) -> Seq<char> {
    match c.repo {
        Some(r) if r.commit_box is Some => match r.commit_box->0 {
            CommitBoxMode::Commit => "Commit box  type message  Enter commit  Esc cancel  Backspace delete  Paste insert"@,
            CommitBoxMode::CommitNoVerify => "No-verify commit box  type message  Enter commit without hooks  Esc cancel  Backspace delete  Paste insert"@,
            CommitBoxMode::Amend => "Amend box  type message  Enter amend HEAD  Esc cancel  Backspace delete  Paste insert"@,
        },
        Some(r) if r.focused_filter_query is Some => "Detail filter  type to filter  Paste insert  Backspace delete  Enter keep  Esc clear  query=/"@ + r.focused_filter_query->0@,
        _ => match c.focused_pane {
            PaneId::RepoUnstaged => "Working tree pane  j/k move  ,/. page  </> top/bottom  Space stage file  Enter main diff  a stage all  Ctrl+B status filter  ` tree  -/= collapse/expand  / text filter  i ignore/exclude menu  y/Ctrl+O copy path  o open path  Ctrl+T external difftool  g reset menu  M merge menu  Ctrl+R recent repos  : shell  @ command log  r refresh  R full refresh  s stash tracked changes  S stash options  d/D discard file  0 main pane  l next pane  [/] detail tabs  1-9/t/m/b detail view  f fetch  p pull  P push  Tab cycle panes  ? help  Esc workspace"@,
            PaneId::RepoStaged => "Staged pane  j/k move  ,/. page  </> top/bottom  Space unstage file  Enter main diff  a unstage all  Ctrl+B status filter  ` tree  -/= collapse/expand  / text filter  i ignore/exclude menu  y/Ctrl+O copy path  o open path  Ctrl+T external difftool  g reset menu  M merge menu  Ctrl+R recent repos  : shell  @ command log  r refresh  R full refresh  s stash tracked changes  S stash options  d/D discard file  c commit  A amend HEAD  0 main pane  h/l change pane  [/] detail tabs  1-9/t/m/b detail view  f fetch  p pull  P push  Tab cycle panes  ? help  Esc workspace"@,
            PaneId::RepoDetail => match c.repo {
                Some(r) => match r.active_subview {
                    RepoSubview::Status => "Status diff pane  j/k scroll diff  Ctrl+W whitespace  {/} context  (/) rename similarity  W/Ctrl+E diff menu  Enter apply hunk  Ctrl+P patch menu  o open config  e edit config  u check updates  Ctrl+R recent repos  : shell  @ command log  r refresh  R full refresh  0 main pane  w worktrees  b submodules  D discard file  X nuke working tree  h left pane  1-9/t/m/b switch view  f fetch  p pull  P push  Tab cycle panes  ? help  Esc workspace"@,
                    RepoSubview::Branches => "Branches pane  j/k move  ,/. page  </> top/bottom  [/] tabs  Enter commits  Space checkout  F force checkout  Ctrl+S filter menu  W/Ctrl+E diff menu  Ctrl+R recent repos  : shell  @ command log  0 main pane  / filter  w worktrees  b submodules  v compare  x clear compare  - previous  c create/checkout  R rename  d delete  u upstream menu  o pull request menu  g reset menu  s sort menu  G git-flow menu  y/Ctrl+O copy  r rebase current  M merge into current  T tag  h left pane  1-9/t/m/b switch view  f fetch  p pull  P push  Tab cycle panes  ? help  Esc workspace"@,
                    RepoSubview::Remotes => "Remotes pane  j/k move  ,/. page  </> top/bottom  [/] tabs  Enter branches  Ctrl+S filter menu  Ctrl+R recent repos  : shell  @ command log  r refresh  R full refresh  f fetch remote  0 main pane  / filter  w worktrees  b submodules  n add  e edit  d remove  F fork remote  h left pane  1-9/t/m/b switch view  p pull  P push  Tab cycle panes  ? help  Esc workspace"@,
                    RepoSubview::RemoteBranches => "Remote branches pane  j/k move  ,/. page  </> top/bottom  [/] tabs  Enter commits  Space checkout  Ctrl+S filter menu  Ctrl+R recent repos  : shell  @ command log  0 main pane  / filter  w worktrees  b submodules  n local branch  d delete  o pull request menu  g reset menu  s sort menu  y/Ctrl+O copy  u set upstream  r rebase current  M merge into current  T tag  h left pane  1-9/t/m/b switch view  f fetch  p pull  P push  Tab cycle panes  ? help  Esc workspace"@,
                    RepoSubview::Tags => "Tags pane  j/k move  ,/. page  </> top/bottom  [/] tabs  Enter commits  Space checkout  Ctrl+O copy tag  g reset menu  Ctrl+R recent repos  : shell  @ command log  r refresh  R full refresh  0 main pane  w worktrees  b submodules  n create  d delete  P push  S/M/H reset  h left pane  1-9/t/m/b switch view  f fetch  p pull  ? help  Esc workspace"@,
                    RepoSubview::Commits => "Commits pane  j/k move commit  ,/. page  </> top/bottom  [/] tabs  Enter files  Space checkout  Ctrl+O copy hash  a amend attrs  y copy menu  o browser  C copy  V paste copied  t revert  Ctrl+R clear copied  3 current branch  Ctrl+L log menu  n branch  T tag  b bisect menu  i start rebase  A amend  f fixup menu  F fixup+autosquash  c set fixup msg  g apply-fixups  s squash  d drop  Ctrl+K move up  Ctrl+J move down  r reword  R reword editor  S soft reset  M mixed reset  H hard reset  v compare  x clear compare  Ctrl+W whitespace  {/} context  (/) rename similarity  Ctrl+S filter menu  W/Ctrl+E diff menu  m merge/rebase menu  : shell  @ command log  0 main pane  / filter  w worktrees  h left pane  1-9/t switch view  p pull  P push  Tab cycle panes  ? help  Esc workspace"@,
                    RepoSubview::Compare => "Compare pane  j/k scroll diff  Ctrl+W whitespace  {/} context  (/) rename similarity  W/Ctrl+E diff menu  Ctrl+R recent repos  : shell  @ command log  r refresh  R full refresh  0 main pane  x clear compare  h left pane  1-9/t/m/b switch view  f fetch  p pull  P push  Tab cycle panes  ? help  Esc workspace"@,
                    RepoSubview::Rebase => "Rebase pane  c continue  s skip  A abort  m merge/rebase menu  Ctrl+R recent repos  : shell  @ command log  r refresh  R full refresh  j/k scroll  0 main pane  h left pane  1-9/t/b switch view  f fetch  p pull  P push  Tab cycle panes  ? help  Esc workspace"@,
                    RepoSubview::Stash => match r.stash_subview_mode {
                        StashSubviewMode::List => "Stash pane  j/k move stash  ,/. page  </> top/bottom  [/] tabs  Enter files  Space apply  Ctrl+S filter menu  Ctrl+R recent repos  : shell  @ command log  r refresh  R full refresh  0 main pane  / filter  w worktrees  b submodules  n branch  g pop  d drop  h left pane  1-9/t/m/b switch view  f fetch  p pull  P push  Tab cycle panes  ? help  Esc workspace"@,
                        StashSubviewMode::Files => "Stash files pane  j/k move file  ,/. page  </> top/bottom  [/] tabs  Enter stash list  Ctrl+R recent repos  : shell  @ command log  r refresh  R full refresh  0 main pane  w worktrees  b submodules  h left pane  1-9/t/m/b switch view  f fetch  p pull  P push  Tab cycle panes  ? help  Esc workspace"@,
                    },
                    RepoSubview::Reflog => "Reflog pane  j/k move  ,/. page  </> top/bottom  [/] tabs  Enter commits  Space checkout  Ctrl+O copy hash  o browser  g reset menu  Ctrl+S filter menu  Ctrl+R recent repos  : shell  @ command log  r refresh  R full refresh  n branch  C cherry-pick  S/M/H reset  u restore  0 main pane  / filter  w worktrees  b submodules  h left pane  1-9/t/m/b switch view  f fetch  p pull  P push  Tab cycle panes  ? help  Esc workspace"@,
                    RepoSubview::Worktrees => "Worktrees pane  j/k move  ,/. page  </> top/bottom  [/] tabs  Enter switch  Ctrl+S filter menu  Ctrl+R recent repos  : shell  @ command log  r refresh  R full refresh  0 main pane  / filter  b submodules  n create  o open  d delete  h left pane  1-9/t/m/b switch view  f fetch  p pull  P push  Tab cycle panes  ? help  Esc workspace"@,
                    RepoSubview::Submodules => "Submodules pane  j/k move  ,/. page  </> top/bottom  [/] tabs  Enter nested repo  Ctrl+O copy submodule  b options menu  Ctrl+S filter menu  Ctrl+R recent repos  : shell  @ command log  r refresh  R full refresh  0 main pane  / filter  n add  e edit-url  i init  u update  o open  d remove  h left pane  1-9/t/m/b switch view  f fetch  p pull  P push  Tab cycle panes  ? help  Esc workspace"@,
                },
                None => "Repository shell"@,
            },
            _ => "Repository shell"@,
        },
    }
}

/// The help footer of repository mode (see `repo_help_spec`).
pub fn repo_help_text(c: &HelpContext) -> (res: String)
    ensures
        res@ == repo_help_spec(*c),
{
    match &c.repo {
        Some(r) => {
            match r.commit_box {
                Some(CommitBoxMode::Commit) => return String::from_str("Commit box  type message  Enter commit  Esc cancel  Backspace delete  Paste insert"),
                Some(CommitBoxMode::CommitNoVerify) => return String::from_str("No-verify commit box  type message  Enter commit without hooks  Esc cancel  Backspace delete  Paste insert"),
                Some(CommitBoxMode::Amend) => return String::from_str("Amend box  type message  Enter amend HEAD  Esc cancel  Backspace delete  Paste insert"),
                None => {},
            }
            match &r.focused_filter_query {
                Some(query) => {
                    let mut s = String::from_str("Detail filter  type to filter  Paste insert  Backspace delete  Enter keep  Esc clear  query=/");
                    s.append(query.as_str());
                    return s;
                },
                None => {},
            }
        },
        None => {},
    }
    match c.focused_pane {
        PaneId::RepoUnstaged => String::from_str("Working tree pane  j/k move  ,/. page  </> top/bottom  Space stage file  Enter main diff  a stage all  Ctrl+B status filter  ` tree  -/= collapse/expand  / text filter  i ignore/exclude menu  y/Ctrl+O copy path  o open path  Ctrl+T external difftool  g reset menu  M merge menu  Ctrl+R recent repos  : shell  @ command log  r refresh  R full refresh  s stash tracked changes  S stash options  d/D discard file  0 main pane  l next pane  [/] detail tabs  1-9/t/m/b detail view  f fetch  p pull  P push  Tab cycle panes  ? help  Esc workspace"),
        PaneId::RepoStaged => String::from_str("Staged pane  j/k move  ,/. page  </> top/bottom  Space unstage file  Enter main diff  a unstage all  Ctrl+B status filter  ` tree  -/= collapse/expand  / text filter  i ignore/exclude menu  y/Ctrl+O copy path  o open path  Ctrl+T external difftool  g reset menu  M merge menu  Ctrl+R recent repos  : shell  @ command log  r refresh  R full refresh  s stash tracked changes  S stash options  d/D discard file  c commit  A amend HEAD  0 main pane  h/l change pane  [/] detail tabs  1-9/t/m/b detail view  f fetch  p pull  P push  Tab cycle panes  ? help  Esc workspace"),
        PaneId::RepoDetail => match &c.repo {
            Some(r) => match r.active_subview {
                RepoSubview::Status => String::from_str("Status diff pane  j/k scroll diff  Ctrl+W whitespace  {/} context  (/) rename similarity  W/Ctrl+E diff menu  Enter apply hunk  Ctrl+P patch menu  o open config  e edit config  u check updates  Ctrl+R recent repos  : shell  @ command log  r refresh  R full refresh  0 main pane  w worktrees  b submodules  D discard file  X nuke working tree  h left pane  1-9/t/m/b switch view  f fetch  p pull  P push  Tab cycle panes  ? help  Esc workspace"),
                RepoSubview::Branches => String::from_str("Branches pane  j/k move  ,/. page  </> top/bottom  [/] tabs  Enter commits  Space checkout  F force checkout  Ctrl+S filter menu  W/Ctrl+E diff menu  Ctrl+R recent repos  : shell  @ command log  0 main pane  / filter  w worktrees  b submodules  v compare  x clear compare  - previous  c create/checkout  R rename  d delete  u upstream menu  o pull request menu  g reset menu  s sort menu  G git-flow menu  y/Ctrl+O copy  r rebase current  M merge into current  T tag  h left pane  1-9/t/m/b switch view  f fetch  p pull  P push  Tab cycle panes  ? help  Esc workspace"),
                RepoSubview::Remotes => String::from_str("Remotes pane  j/k move  ,/. page  </> top/bottom  [/] tabs  Enter branches  Ctrl+S filter menu  Ctrl+R recent repos  : shell  @ command log  r refresh  R full refresh  f fetch remote  0 main pane  / filter  w worktrees  b submodules  n add  e edit  d remove  F fork remote  h left pane  1-9/t/m/b switch view  p pull  P push  Tab cycle panes  ? help  Esc workspace"),
                RepoSubview::RemoteBranches => String::from_str("Remote branches pane  j/k move  ,/. page  </> top/bottom  [/] tabs  Enter commits  Space checkout  Ctrl+S filter menu  Ctrl+R recent repos  : shell  @ command log  0 main pane  / filter  w worktrees  b submodules  n local branch  d delete  o pull request menu  g reset menu  s sort menu  y/Ctrl+O copy  u set upstream  r rebase current  M merge into current  T tag  h left pane  1-9/t/m/b switch view  f fetch  p pull  P push  Tab cycle panes  ? help  Esc workspace"),
                RepoSubview::Tags => String::from_str("Tags pane  j/k move  ,/. page  </> top/bottom  [/] tabs  Enter commits  Space checkout  Ctrl+O copy tag  g reset menu  Ctrl+R recent repos  : shell  @ command log  r refresh  R full refresh  0 main pane  w worktrees  b submodules  n create  d delete  P push  S/M/H reset  h left pane  1-9/t/m/b switch view  f fetch  p pull  ? help  Esc workspace"),
                RepoSubview::Commits => String::from_str("Commits pane  j/k move commit  ,/. page  </> top/bottom  [/] tabs  Enter files  Space checkout  Ctrl+O copy hash  a amend attrs  y copy menu  o browser  C copy  V paste copied  t revert  Ctrl+R clear copied  3 current branch  Ctrl+L log menu  n branch  T tag  b bisect menu  i start rebase  A amend  f fixup menu  F fixup+autosquash  c set fixup msg  g apply-fixups  s squash  d drop  Ctrl+K move up  Ctrl+J move down  r reword  R reword editor  S soft reset  M mixed reset  H hard reset  v compare  x clear compare  Ctrl+W whitespace  {/} context  (/) rename similarity  Ctrl+S filter menu  W/Ctrl+E diff menu  m merge/rebase menu  : shell  @ command log  0 main pane  / filter  w worktrees  h left pane  1-9/t switch view  p pull  P push  Tab cycle panes  ? help  Esc workspace"),
                RepoSubview::Compare => String::from_str("Compare pane  j/k scroll diff  Ctrl+W whitespace  {/} context  (/) rename similarity  W/Ctrl+E diff menu  Ctrl+R recent repos  : shell  @ command log  r refresh  R full refresh  0 main pane  x clear compare  h left pane  1-9/t/m/b switch view  f fetch  p pull  P push  Tab cycle panes  ? help  Esc workspace"),
                RepoSubview::Rebase => String::from_str("Rebase pane  c continue  s skip  A abort  m merge/rebase menu  Ctrl+R recent repos  : shell  @ command log  r refresh  R full refresh  j/k scroll  0 main pane  h left pane  1-9/t/b switch view  f fetch  p pull  P push  Tab cycle panes  ? help  Esc workspace"),
                RepoSubview::Stash => match r.stash_subview_mode {
                    StashSubviewMode::List => String::from_str("Stash pane  j/k move stash  ,/. page  </> top/bottom  [/] tabs  Enter files  Space apply  Ctrl+S filter menu  Ctrl+R recent repos  : shell  @ command log  r refresh  R full refresh  0 main pane  / filter  w worktrees  b submodules  n branch  g pop  d drop  h left pane  1-9/t/m/b switch view  f fetch  p pull  P push  Tab cycle panes  ? help  Esc workspace"),
                    StashSubviewMode::Files => String::from_str("Stash files pane  j/k move file  ,/. page  </> top/bottom  [/] tabs  Enter stash list  Ctrl+R recent repos  : shell  @ command log  r refresh  R full refresh  0 main pane  w worktrees  b submodules  h left pane  1-9/t/m/b switch view  f fetch  p pull  P push  Tab cycle panes  ? help  Esc workspace"),
                },
                RepoSubview::Reflog => String::from_str("Reflog pane  j/k move  ,/. page  </> top/bottom  [/] tabs  Enter commits  Space checkout  Ctrl+O copy hash  o browser  g reset menu  Ctrl+S filter menu  Ctrl+R recent repos  : shell  @ command log  r refresh  R full refresh  n branch  C cherry-pick  S/M/H reset  u restore  0 main pane  / filter  w worktrees  b submodules  h left pane  1-9/t/m/b switch view  f fetch  p pull  P push  Tab cycle panes  ? help  Esc workspace"),
                RepoSubview::Worktrees => String::from_str("Worktrees pane  j/k move  ,/. page  </> top/bottom  [/] tabs  Enter switch  Ctrl+S filter menu  Ctrl+R recent repos  : shell  @ command log  r refresh  R full refresh  0 main pane  / filter  b submodules  n create  o open  d delete  h left pane  1-9/t/m/b switch view  f fetch  p pull  P push  Tab cycle panes  ? help  Esc workspace"),
                RepoSubview::Submodules => String::from_str("Submodules pane  j/k move  ,/. page  </> top/bottom  [/] tabs  Enter nested repo  Ctrl+O copy submodule  b options menu  Ctrl+S filter menu  Ctrl+R recent repos  : shell  @ command log  r refresh  R full refresh  0 main pane  / filter  n add  e edit-url  i init  u update  o open  d remove  h left pane  1-9/t/m/b switch view  f fetch  p pull  P push  Tab cycle panes  ? help  Esc workspace"),
            },
            None => String::from_str("Repository shell"),
        },
        _ => String::from_str("Repository shell"),
    }
}

/// The help footer: the keys of an open prompt or overlay, of the workspace (its search
/// while focused), or of repository mode.
pub open spec fn help_spec(c: HelpContext) -> Seq<char> {
    if c.modal_open {
        if c.prompt_pending {
            "Prompt overlay  type value  Enter submit  Backspace delete  Paste insert  Esc cancel"@
        } else {
            "Esc close  q close overlay"@
        }
    } else {
        match c.mode {
            AppMode::Workspace => if c.workspace_search_focused {
                "Workspace search  type to filter  Paste insert  Backspace delete  Enter keep  Esc clear"@
            } else {
                "j/k move  / search  f filter  s sort  Enter open repo  Tab swap pane  r refresh  ? help"@
            },
            AppMode::Repository => repo_help_spec(c),
        }
    }
}

/// The help footer (see `help_spec`).
pub fn help_text(c: &HelpContext) -> (res: String)
    ensures
        res@ == help_spec(*c),
{
    if c.modal_open {
        if c.prompt_pending {
            return String::from_str("Prompt overlay  type value  Enter submit  Backspace delete  Paste insert  Esc cancel");
        }
        return String::from_str("Esc close  q close overlay");
    }
    match c.mode {
        AppMode::Workspace => if c.workspace_search_focused {
            String::from_str("Workspace search  type to filter  Paste insert  Backspace delete  Enter keep  Esc clear")
        } else {
            String::from_str("j/k move  / search  f filter  s sort  Enter open repo  Tab swap pane  r refresh  ? help")
        },
        AppMode::Repository => repo_help_text(c),
    }
}

} // verus!
