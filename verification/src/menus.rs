use vstd::prelude::*;

use crate::chars::{char_count, str_eq, trim, trim_str};
use crate::labels::MenuOperation;
use crate::lists::BranchSortMode;
use crate::model::{CommitSubviewMode, DiffPresentation, RepoSubview};
use crate::text::{decimal, push_decimal, target_text};
use crate::text::{lines_view, push_line, ComparisonTarget, LineTone, StyledLine};

verus! {

/// The items of the menus whose items never change; the other menus take theirs from the
/// repository state.
pub open spec fn fixed_items(op: MenuOperation) -> Option<Seq<Seq<char>>> {
    match op {
        MenuOperation::StashOptions => Some(
            seq![
                "Stash tracked changes"@,
                "Stash tracked changes and keep staged changes"@,
                "Stash all changes including untracked"@,
                "Stash staged changes"@,
                "Stash unstaged changes"@,
            ],
        ),
        MenuOperation::CommitCopyOptions => Some(
            seq!["Copy short hash"@, "Copy full hash"@, "Copy summary"@, "Copy diff"@, "Copy browser URL"@],
        ),
        MenuOperation::TagResetOptions => Some(
            seq!["Soft reset to selected tag"@, "Mixed reset to selected tag"@, "Hard reset to selected tag"@],
        ),
        MenuOperation::ReflogResetOptions => Some(
            seq![
                "Soft reset to selected reflog target"@,
                "Mixed reset to selected reflog target"@,
                "Hard reset to selected reflog target"@,
            ],
        ),
        MenuOperation::CommitAmendAttributeOptions => Some(seq!["Reset author"@, "Set co-author"@]),
        MenuOperation::CommitFixupOptions => Some(
            seq![
                "Create fixup! commit"@,
                "Create amend! commit with staged changes"@,
                "Create amend! commit without file changes"@,
            ],
        ),
        MenuOperation::BranchUpstreamOptions => Some(
            seq!["Set upstream..."@, "Unset upstream"@, "Fast-forward current branch from upstream"@],
        ),
        MenuOperation::IgnoreOptions => Some(
            seq!["Add selected path to .gitignore"@, "Add selected path to .git/info/exclude"@],
        ),
        MenuOperation::SubmoduleOptions => Some(
            seq![
                "Copy selected submodule"@,
                "Open selected submodule in editor"@,
                "Edit selected submodule URL"@,
                "Initialize selected submodule"@,
                "Update selected submodule"@,
                "Remove selected submodule"@,
            ],
        ),
        _ => None,
    }
}

fn strings(items: Vec<&'static str>) -> (res: Vec<String>)
    ensures
        res@.len() == items@.len(),
        forall|i: int| 0 <= i < items@.len() ==> #[trigger] res@[i]@ == items@[i]@,
{
    let mut res: Vec<String> = Vec::new();
    let mut k: usize = 0;
    while k < items.len()
        invariant
            k <= items.len(),
            res@.len() == k,
            forall|i: int| 0 <= i < k ==> #[trigger] res@[i]@ == items@[i]@,
        decreases items.len() - k,
    {
        res.push(String::from_str(items[k]));
        k = k + 1;
    }
    res
}

/// The items of a menu whose items never change (see `fixed_items`).
pub fn fixed_menu_items(op: MenuOperation) -> (res: Option<Vec<String>>)
    ensures
        match fixed_items(op) {
            Some(items) => res matches Some(v) && v@.len() == items.len() && forall|i: int|
                0 <= i < items.len() ==> #[trigger] v@[i]@ == items[i],
            None => res is None,
        },
{
    let items: Vec<&'static str> = match op {
        MenuOperation::StashOptions => vec![
            "Stash tracked changes",
            "Stash tracked changes and keep staged changes",
            "Stash all changes including untracked",
            "Stash staged changes",
            "Stash unstaged changes",
        ],
        MenuOperation::CommitCopyOptions => vec![
            "Copy short hash",
            "Copy full hash",
            "Copy summary",
            "Copy diff",
            "Copy browser URL",
        ],
        MenuOperation::TagResetOptions => vec![
            "Soft reset to selected tag",
            "Mixed reset to selected tag",
            "Hard reset to selected tag",
        ],
        MenuOperation::ReflogResetOptions => vec![
            "Soft reset to selected reflog target",
            "Mixed reset to selected reflog target",
            "Hard reset to selected reflog target",
        ],
        MenuOperation::CommitAmendAttributeOptions => vec!["Reset author", "Set co-author"],
        MenuOperation::CommitFixupOptions => vec![
            "Create fixup! commit",
            "Create amend! commit with staged changes",
            "Create amend! commit without file changes",
        ],
        MenuOperation::BranchUpstreamOptions => vec![
            "Set upstream...",
            "Unset upstream",
            "Fast-forward current branch from upstream",
        ],
        MenuOperation::IgnoreOptions => vec![
            "Add selected path to .gitignore",
            "Add selected path to .git/info/exclude",
        ],
        MenuOperation::SubmoduleOptions => vec![
            "Copy selected submodule",
            "Open selected submodule in editor",
            "Edit selected submodule URL",
            "Initialize selected submodule",
            "Update selected submodule",
            "Remove selected submodule",
        ],
        _ => return None,
    };
    Some(strings(items))
}

/// The rows of a menu: each item, the selected one marked and highlighted.
pub open spec fn menu_rows(items: Seq<Seq<char>>, selected: usize) -> Seq<(Seq<char>, LineTone)> {
    Seq::new(
        items.len(),
        |i: int|
            if i == selected {
                ("> "@ + items[i], LineTone::Heading)
            } else {
                ("  "@ + items[i], LineTone::Row)
            },
    )
}

/// The rows of a menu (see `menu_rows`): the menu's own items when they never change, else
/// `state_items`, the items that the repository state gives it.
pub fn menu_lines(op: MenuOperation, state_items: &Vec<String>, selected_index: usize) -> (lines: Vec<StyledLine>)
    ensures
        lines_view(lines@) == menu_rows(
            match fixed_items(op) {
                Some(items) => items,
                None => state_items@.map_values(|s: String| s@),
            },
            selected_index,
        ),
{
    let fixed = fixed_menu_items(op);
    let items: &Vec<String> = match &fixed {
        Some(v) => v,
        None => state_items,
    };
    let ghost spec_items = match fixed_items(op) {
        Some(items) => items,
        None => state_items@.map_values(|s: String| s@),
    };
    proof {
        assert(items@.map_values(|s: String| s@) =~= spec_items);
    }
    let mut lines: Vec<StyledLine> = Vec::new();
    let mut k: usize = 0;
    while k < items.len()
        invariant
            k <= items.len(),
            items@.map_values(|s: String| s@) == spec_items,
            lines_view(lines@) == menu_rows(spec_items, selected_index).take(k as int),
        decreases items.len() - k,
    {
        let mut text = if k == selected_index {
            String::from_str("> ")
        } else {
            String::from_str("  ")
        };
        text.append(items[k].as_str());
        let tone = if k == selected_index {
            LineTone::Heading
        } else {
            LineTone::Row
        };
        push_line(&mut lines, text, tone);
        proof {
            assert(spec_items[k as int] == items@[k as int]@);
            assert(menu_rows(spec_items, selected_index).take(k + 1) =~= menu_rows(spec_items, selected_index).take(
                k as int,
            ).push(menu_rows(spec_items, selected_index)[k as int]));
        }
        k = k + 1;
    }
    proof {
        assert(menu_rows(spec_items, selected_index).take(items.len() as int) =~= menu_rows(
            spec_items,
            selected_index,
        ));
    }
    lines
}

/// What the filter of the active subview filters, as the filter menu names it.
pub open spec fn filter_subject(active: RepoSubview, commit_mode: CommitSubviewMode) -> Seq<char> {
    match active {
        RepoSubview::Branches => "branch list"@,
        RepoSubview::Remotes => "remote list"@,
        RepoSubview::RemoteBranches => "remote-branch list"@,
        RepoSubview::Tags => "tag list"@,
        RepoSubview::Commits => match commit_mode {
            CommitSubviewMode::History => "commit history"@,
            CommitSubviewMode::Files => "commit-file list"@,
        },
        RepoSubview::Stash => "stash list"@,
        RepoSubview::Reflog => "reflog list"@,
        RepoSubview::Worktrees => "worktree list"@,
        RepoSubview::Submodules => "submodule list"@,
        _ => "detail panel"@,
    }
}

/// What the filter of the active subview filters (see `filter_subject`).
pub fn filter_menu_subject(active: RepoSubview, commit_mode: CommitSubviewMode) -> (res: &'static str)
    ensures
        res@ == filter_subject(active, commit_mode),
{
    match active {
        RepoSubview::Branches => "branch list",
        RepoSubview::Remotes => "remote list",
        RepoSubview::RemoteBranches => "remote-branch list",
        RepoSubview::Tags => "tag list",
        RepoSubview::Commits => match commit_mode {
            CommitSubviewMode::History => "commit history",
            CommitSubviewMode::Files => "commit-file list",
        },
        RepoSubview::Stash => "stash list",
        RepoSubview::Reflog => "reflog list",
        RepoSubview::Worktrees => "worktree list",
        RepoSubview::Submodules => "submodule list",
        RepoSubview::Status | RepoSubview::Compare | RepoSubview::Rebase => "detail panel",
    }
}

/// The items of the filter menu for a subview filter with the given query: focus it while
/// blank, else edit it or clear it. Without a subview filter the menu is empty.
pub open spec fn filter_items(query: Option<Seq<char>>, subject: Seq<char>) -> Seq<Seq<char>> {
    match query {
        None => Seq::empty(),
        Some(q) => if trim(q).len() == 0 {
            seq!["Focus "@ + subject + " filter"@]
        } else {
            seq!["Edit "@ + subject + " filter (/"@ + q + ")"@, "Clear "@ + subject + " filter"@]
        },
    }
}

/// The items of the filter menu (see `filter_items`).
pub fn filter_menu_lines(query: Option<&str>, subject: &str) -> (res: Vec<String>)
    ensures
        res@.map_values(|s: String| s@) == filter_items(
            match query {
                Some(q) => Some(q@),
                None => None,
            },
            subject@,
        ),
{
    let mut res: Vec<String> = Vec::new();
    let q = match query {
        Some(q) => q,
        None => {
            proof {
                assert(res@.map_values(|s: String| s@) =~= Seq::<Seq<char>>::empty());
            }
            return res;
        },
    };
    if char_count(trim_str(q)) == 0 {
        let mut t = String::from_str("Focus ");
        t.append(subject);
        t.append(" filter");
        res.push(t);
    } else {
        let mut t = String::from_str("Edit ");
        t.append(subject);
        t.append(" filter (/");
        t.append(q);
        t.append(")");
        res.push(t);
        let mut c = String::from_str("Clear ");
        c.append(subject);
        c.append(" filter");
        res.push(c);
    }
    proof {
        assert(res@.map_values(|s: String| s@) =~= filter_items(Some(q@), subject@));
    }
    res
}

/// The items of the commit-log menu, offered in the commit history only.
pub open spec fn commit_log_items(in_history: bool) -> Seq<Seq<char>> {
    if in_history {
        seq![
            "Show current branch history"@,
            "Show whole git graph (newest first)"@,
            "Show whole git graph (oldest first)"@,
        ]
    } else {
        Seq::empty()
    }
}

/// The items of the commit-log menu (see `commit_log_items`): `in_history` says that the
/// commits subview shows its history.
pub fn commit_log_menu_lines(in_history: bool) -> (res: Vec<String>)
    ensures
        res@.map_values(|s: String| s@) == commit_log_items(in_history),
{
    let mut res: Vec<String> = Vec::new();
    if in_history {
        res.push(String::from_str("Show current branch history"));
        res.push(String::from_str("Show whole git graph (newest first)"));
        res.push(String::from_str("Show whole git graph (oldest first)"));
    }
    proof {
        assert(res@.map_values(|s: String| s@) =~= commit_log_items(in_history));
    }
    res
}

/// The items of the menus about a ref, by its name: git-flow finishes and pull-request
/// actions of the selected branch or remote branch, and resets to the selected branch, remote
/// branch or upstream. Without such a ref they are empty.
pub open spec fn branch_menu_items(op: MenuOperation, branch: Option<Seq<char>>) -> Seq<Seq<char>> {
    match branch {
        None => Seq::empty(),
        Some(name) => match op {
            MenuOperation::BranchGitFlowOptions => seq![
                "git flow feature finish "@ + name,
                "git flow release finish "@ + name,
                "git flow hotfix finish "@ + name,
            ],
            MenuOperation::BranchPullRequestOptions | MenuOperation::RemoteBranchPullRequestOptions => seq![
                "Open pull request for "@ + name,
                "Copy pull request URL for "@ + name,
            ],
            MenuOperation::BranchResetOptions | MenuOperation::RemoteBranchResetOptions
            | MenuOperation::StatusResetOptions => seq![
                "Soft reset to "@ + name,
                "Mixed reset to "@ + name,
                "Hard reset to "@ + name,
            ],
            _ => Seq::empty(),
        },
    }
}

fn prefixed(prefix: &str, name: &str) -> (res: String)
    ensures
        res@ == prefix@ + name@,
{
    let mut s = String::from_str(prefix);
    s.append(name);
    s
}

/// The items of a menu about a ref (see `branch_menu_items`).
pub fn branch_menu_lines(op: MenuOperation, branch: Option<&str>) -> (res: Vec<String>)
    ensures
        res@.map_values(|s: String| s@) == branch_menu_items(
            op,
            match branch {
                Some(b) => Some(b@),
                None => None,
            },
        ),
{
    let mut res: Vec<String> = Vec::new();
    match branch {
        None => {},
        Some(name) => match op {
            MenuOperation::BranchGitFlowOptions => {
                res.push(prefixed("git flow feature finish ", name));
                res.push(prefixed("git flow release finish ", name));
                res.push(prefixed("git flow hotfix finish ", name));
            },
            MenuOperation::BranchPullRequestOptions | MenuOperation::RemoteBranchPullRequestOptions => {
                res.push(prefixed("Open pull request for ", name));
                res.push(prefixed("Copy pull request URL for ", name));
            },
            MenuOperation::BranchResetOptions | MenuOperation::RemoteBranchResetOptions
            | MenuOperation::StatusResetOptions => {
                res.push(prefixed("Soft reset to ", name));
                res.push(prefixed("Mixed reset to ", name));
                res.push(prefixed("Hard reset to ", name));
            },
            _ => {},
        },
    }
    proof {
        let spec_branch = match branch {
            Some(b) => Some(b@),
            None => None,
        };
        assert(res@.map_values(|s: String| s@) =~= branch_menu_items(op, spec_branch));
    }
    res
}

/// The items of the branch-sort and remote-branch-sort menus, the current order marked.
pub open spec fn branch_sort_items(current: BranchSortMode) -> Seq<Seq<char>> {
    seq![
        "Natural order"@ + if current == BranchSortMode::Natural {
            " (current)"@
        } else {
            ""@
        },
        "Sort by branch name"@ + if current == BranchSortMode::Name {
            " (current)"@
        } else {
            ""@
        },
    ]
}

/// The items of the branch-sort menu (see `branch_sort_items`).
pub fn branch_sort_menu_lines(current: BranchSortMode) -> (res: Vec<String>)
    ensures
        res@.map_values(|s: String| s@) == branch_sort_items(current),
{
    let mut natural = String::from_str("Natural order");
    let mut by_name = String::from_str("Sort by branch name");
    match current {
        BranchSortMode::Natural => natural.append(" (current)"),
        BranchSortMode::Name => by_name.append(" (current)"),
    }
    let res = vec![natural, by_name];
    proof {
        reveal_strlit("");
        assert(res@.map_values(|s: String| s@) =~= branch_sort_items(current));
    }
    res
}

/// How the diff menu names a comparison end: a branch by name, a commit by its first
/// eight characters.
pub open spec fn target_menu_label(t: ComparisonTarget) -> Seq<char> {
    match t {
        ComparisonTarget::Branch(name) => "branch '"@ + name@ + "'"@,
        ComparisonTarget::Commit(oid) => "commit "@ + if oid@.len() > 8 {
            oid@.take(8)
        } else {
            oid@
        },
    }
}

/// How the diff menu names a comparison end (see `target_menu_label`).
pub fn diff_menu_target_label(target: &ComparisonTarget) -> (res: String)
    ensures
        res@ == target_menu_label(*target),
{
    match target {
        ComparisonTarget::Branch(name) => {
            let mut s = String::from_str("branch '");
            s.append(name.as_str());
            s.append("'");
            s
        },
        ComparisonTarget::Commit(oid) => {
            let mut s = String::from_str("commit ");
            let n = char_count(oid.as_str());
            if n > 8 {
                s.append(oid.as_str().substring_char(0, 8));
                proof {
                    assert(oid@.subrange(0, 8) =~= oid@.take(8));
                }
            } else {
                s.append(oid.as_str());
            }
            s
        },
    }
}

/// The items of the merge/rebase menu: the controls of an active rebase, the history
/// rewrites of the commit history, and the panel, named by whether a merge-like operation
/// runs. Without a loaded detail the menu is empty.
pub open spec fn merge_rebase_items(loaded: bool, rebase_active: bool, in_history: bool, merge_clean: bool) -> Seq<
    Seq<char>,
> {
    if !loaded {
        Seq::empty()
    } else {
        (if rebase_active {
            seq!["Continue active rebase"@, "Skip current rebase step"@, "Abort active rebase"@]
        } else {
            Seq::empty()
        }) + (if in_history {
            seq![
                "Interactive rebase from selected commit"@,
                "Amend older commit at selection"@,
                "Create fixup commit for selected commit"@,
                "Fixup onto selected commit"@,
                "Apply pending fixup/squash commits"@,
                "Squash selected commit into its parent"@,
                "Drop selected commit"@,
                "Move selected commit up"@,
                "Move selected commit down"@,
                "Reword selected commit"@,
                "Reword selected commit in editor"@,
            ]
        } else {
            Seq::empty()
        }) + seq![
            if merge_clean {
                "Open rebase / merge panel"@
            } else {
                "Open rebase / merge status panel"@
            },
        ]
    }
}

/// The items of the merge/rebase menu (see `merge_rebase_items`): `rebase_active` says that
/// a rebase runs and its state is known, `in_history` that the commit history is shown.
pub fn merge_rebase_menu_lines(loaded: bool, rebase_active: bool, in_history: bool, merge_clean: bool) -> (res: Vec<
    String,
>)
    ensures
        res@.map_values(|s: String| s@) == merge_rebase_items(loaded, rebase_active, in_history, merge_clean),
{
    let mut res: Vec<String> = Vec::new();
    if !loaded {
        proof {
            assert(res@.map_values(|s: String| s@) =~= merge_rebase_items(
                loaded,
                rebase_active,
                in_history,
                merge_clean,
            ));
        }
        return res;
    }
    if rebase_active {
        res.push(String::from_str("Continue active rebase"));
        res.push(String::from_str("Skip current rebase step"));
        res.push(String::from_str("Abort active rebase"));
    }
    if in_history {
        res.push(String::from_str("Interactive rebase from selected commit"));
        res.push(String::from_str("Amend older commit at selection"));
        res.push(String::from_str("Create fixup commit for selected commit"));
        res.push(String::from_str("Fixup onto selected commit"));
        res.push(String::from_str("Apply pending fixup/squash commits"));
        res.push(String::from_str("Squash selected commit into its parent"));
        res.push(String::from_str("Drop selected commit"));
        res.push(String::from_str("Move selected commit up"));
        res.push(String::from_str("Move selected commit down"));
        res.push(String::from_str("Reword selected commit"));
        res.push(String::from_str("Reword selected commit in editor"));
    }
    if merge_clean {
        res.push(String::from_str("Open rebase / merge panel"));
    } else {
        res.push(String::from_str("Open rebase / merge status panel"));
    }
    proof {
        assert(res@.map_values(|s: String| s@) =~= merge_rebase_items(
            loaded,
            rebase_active,
            in_history,
            merge_clean,
        ));
    }
    res
}

/// An active bisect: whether git has checked out a commit to test, and the terms of the
/// two verdicts.
#[derive(Clone, Debug, PartialEq, Eq)]
pub struct BisectState {
    pub has_current_commit: bool,
    pub bad_term: String,
    pub good_term: String,
}

/// The items of the bisect menu: the verdicts on the commit under test (or the selected
/// one) and the reset while a bisect runs, else the two ways to start one. Without a loaded
/// detail the menu is empty.
pub open spec fn bisect_items(loaded: bool, bisect: Option<BisectState>) -> Seq<Seq<char>> {
    if !loaded {
        Seq::empty()
    } else {
        match bisect {
            Some(b) => {
                let target = if b.has_current_commit {
                    "current bisect commit"@
                } else {
                    "selected commit"@
                };
                seq![
                    "Mark "@ + target + " as "@ + b.bad_term@,
                    "Mark "@ + target + " as "@ + b.good_term@,
                    "Skip "@ + target,
                    "Reset active bisect"@,
                ]
            },
            None => seq![
                "Start bisect by marking selected commit as bad"@,
                "Start bisect by marking selected commit as good"@,
            ],
        }
    }
}

/// The items of the bisect menu (see `bisect_items`).
pub fn bisect_menu_lines(loaded: bool, bisect: Option<&BisectState>) -> (res: Vec<String>)
    ensures
        res@.map_values(|s: String| s@) == bisect_items(
            loaded,
            match bisect {
                Some(b) => Some(*b),
                None => None,
            },
        ),
{
    let mut res: Vec<String> = Vec::new();
    if loaded {
        match bisect {
            Some(b) => {
                let target = if b.has_current_commit {
                    "current bisect commit"
                } else {
                    "selected commit"
                };
                let mut bad = String::from_str("Mark ");
                bad.append(target);
                bad.append(" as ");
                bad.append(b.bad_term.as_str());
                res.push(bad);
                let mut good = String::from_str("Mark ");
                good.append(target);
                good.append(" as ");
                good.append(b.good_term.as_str());
                res.push(good);
                let mut skip = String::from_str("Skip ");
                skip.append(target);
                res.push(skip);
                res.push(String::from_str("Reset active bisect"));
            },
            None => {
                res.push(String::from_str("Start bisect by marking selected commit as bad"));
                res.push(String::from_str("Start bisect by marking selected commit as good"));
            },
        }
    }
    proof {
        let spec_bisect = match bisect {
            Some(b) => Some(*b),
            None => None,
        };
        assert(res@.map_values(|s: String| s@) =~= bisect_items(loaded, spec_bisect));
    }
    res
}

/// The items of the patch menu: staging (or unstaging) the selected hunk, and the selected
/// line range when there is a line cursor. Without a loaded detail, a selected file or a
/// selected hunk, and for a comparison, the menu is empty.
pub open spec fn patch_items(ready: bool, presentation: DiffPresentation, has_cursor: bool) -> Seq<Seq<char>> {
    if !ready {
        Seq::empty()
    } else {
        match presentation {
            DiffPresentation::Unstaged => if has_cursor {
                seq!["Stage selected hunk"@, "Stage selected line range"@]
            } else {
                seq!["Stage selected hunk"@]
            },
            DiffPresentation::Staged => if has_cursor {
                seq!["Unstage selected hunk"@, "Unstage selected line range"@]
            } else {
                seq!["Unstage selected hunk"@]
            },
            DiffPresentation::Comparison => Seq::empty(),
        }
    }
}

/// The items of the patch menu (see `patch_items`): `ready` says that the detail has loaded
/// with a selected file and hunk.
pub fn patch_menu_lines(ready: bool, presentation: DiffPresentation, has_cursor: bool) -> (res: Vec<String>)
    ensures
        res@.map_values(|s: String| s@) == patch_items(ready, presentation, has_cursor),
{
    let mut res: Vec<String> = Vec::new();
    if ready {
        match presentation {
            DiffPresentation::Unstaged => {
                res.push(String::from_str("Stage selected hunk"));
                if has_cursor {
                    res.push(String::from_str("Stage selected line range"));
                }
            },
            DiffPresentation::Staged => {
                res.push(String::from_str("Unstage selected hunk"));
                if has_cursor {
                    res.push(String::from_str("Unstage selected line range"));
                }
            },
            DiffPresentation::Comparison => {},
        }
    }
    proof {
        assert(res@.map_values(|s: String| s@) =~= patch_items(ready, presentation, has_cursor));
    }
    res
}

/// Two comparison ends are the same: the same kind and name.
pub open spec fn same_target(a: ComparisonTarget, b: ComparisonTarget) -> bool {
    (a is Branch <==> b is Branch) && target_text(a) == target_text(b)
}

fn same_target_exec(a: &ComparisonTarget, b: &ComparisonTarget) -> (r: bool)
    ensures
        r == same_target(*a, *b),
{
    match (a, b) {
        (ComparisonTarget::Branch(x), ComparisonTarget::Branch(y)) => str_eq(x.as_str(), y.as_str()),
        (ComparisonTarget::Commit(x), ComparisonTarget::Commit(y)) => str_eq(x.as_str(), y.as_str()),
        _ => false,
    }
}

/// What the diff menu reads of repository mode.
#[derive(Clone, Debug, PartialEq, Eq)]
pub struct DiffMenuState {
    pub active_subview: RepoSubview,
    /// The branch or commit selected in the active subview, if it offers one.
    pub selected_target: Option<ComparisonTarget>,
    pub comparison_base: Option<ComparisonTarget>,
    pub comparison_target: Option<ComparisonTarget>,
    pub comparison_source: Option<RepoSubview>,
    pub ignore_whitespace: bool,
    pub context_lines: usize,
    pub rename_similarity_threshold: usize,
}

/// A number of lines, singular for one.
pub open spec fn lines_count(n: nat) -> Seq<char> {
    decimal(n) + " line"@ + if n == 1 {
        ""@
    } else {
        "s"@
    }
}

/// The items of the diff menu: marking the selected branch or commit as base (or comparing
/// the base against it), opening and clearing a complete comparison, and the whitespace,
/// context and rename-similarity settings. Without repository mode the menu is empty.
pub open spec fn diff_menu_items(st: Option<DiffMenuState>) -> Seq<Seq<char>> {
    match st {
        None => Seq::empty(),
        Some(r) => {
            let list_subview = r.active_subview == RepoSubview::Branches || r.active_subview
                == RepoSubview::Commits;
            let mark = match r.selected_target {
                Some(t) if list_subview => {
                    let same_source = r.comparison_source == Some(r.active_subview);
                    if r.comparison_base is None || !same_source {
                        seq!["Mark selected "@ + target_menu_label(t) + " as comparison base"@]
                    } else if !same_target(r.comparison_base->0, t) || !(r.comparison_target matches Some(ct)
                        && same_target(ct, t)) {
                        seq!["Compare current base against selected "@ + target_menu_label(t)]
                    } else {
                        Seq::empty()
                    }
                },
                _ => Seq::empty(),
            };
            let complete = r.comparison_base is Some && r.comparison_target is Some;
            let open = if complete && r.active_subview != RepoSubview::Compare {
                seq!["Open comparison diff"@]
            } else {
                Seq::empty()
            };
            let clear = if complete && (list_subview || r.active_subview == RepoSubview::Compare) {
                seq!["Clear comparison"@]
            } else {
                Seq::empty()
            };
            mark + open + clear + seq![
                (if r.ignore_whitespace {
                    "Show"@
                } else {
                    "Ignore"@
                }) + " whitespace changes in diff"@,
                "Increase diff context (currently "@ + lines_count(r.context_lines as nat) + ")"@,
                "Decrease diff context (currently "@ + lines_count(r.context_lines as nat) + ")"@,
                "Increase rename similarity threshold (currently "@ + decimal(r.rename_similarity_threshold as nat)
                    + "%)"@,
                "Decrease rename similarity threshold (currently "@ + decimal(r.rename_similarity_threshold as nat)
                    + "%)"@,
            ]
        },
    }
}

fn push_lines_count(s: &mut String, n: usize)
    ensures
        final(s)@ == old(s)@ + lines_count(n as nat),
{
    push_decimal(s, n as u64);
    s.append(" line");
    if n != 1 {
        s.append("s");
    }
    proof {
        reveal_strlit("");
    }
}

/// The items of the diff menu (see `diff_menu_items`).
#[verifier::rlimit(50)]
pub fn diff_menu_lines(st: Option<&DiffMenuState>) -> (res: Vec<String>)
    ensures
        res@.map_values(|s: String| s@) == diff_menu_items(
            match st {
                Some(r) => Some(*r),
                None => None,
            },
        ),
{
    let mut res: Vec<String> = Vec::new();
    let r = match st {
        Some(r) => r,
        None => {
            proof {
                assert(res@.map_values(|s: String| s@) =~= diff_menu_items(None));
            }
            return res;
        },
    };
    let list_subview = match r.active_subview {
        RepoSubview::Branches | RepoSubview::Commits => true,
        _ => false,
    };
    let is_compare = match r.active_subview {
        RepoSubview::Compare => true,
        _ => false,
    };
    if list_subview {
        match &r.selected_target {
            Some(t) => {
                let same_source = match r.comparison_source {
                    Some(source) => match (source, r.active_subview) {
                        (RepoSubview::Branches, RepoSubview::Branches) => true,
                        (RepoSubview::Commits, RepoSubview::Commits) => true,
                        _ => false,
                    },
                    None => false,
                };
                match &r.comparison_base {
                    Some(base) if same_source => {
                        let target_same = match &r.comparison_target {
                            Some(ct) => same_target_exec(ct, t),
                            None => false,
                        };
                        if !same_target_exec(base, t) || !target_same {
                            let mut item = String::from_str("Compare current base against selected ");
                            item.append(diff_menu_target_label(t).as_str());
                            res.push(item);
                        }
                    },
                    _ => {
                        let mut item = String::from_str("Mark selected ");
                        item.append(diff_menu_target_label(t).as_str());
                        item.append(" as comparison base");
                        res.push(item);
                    },
                }
            },
            None => {},
        }
    }
    let complete = r.comparison_base.is_some() && r.comparison_target.is_some();
    if complete && !is_compare {
        res.push(String::from_str("Open comparison diff"));
    }
    if complete && (list_subview || is_compare) {
        res.push(String::from_str("Clear comparison"));
    }
    let mut whitespace = if r.ignore_whitespace {
        String::from_str("Show")
    } else {
        String::from_str("Ignore")
    };
    whitespace.append(" whitespace changes in diff");
    res.push(whitespace);
    let mut more = String::from_str("Increase diff context (currently ");
    push_lines_count(&mut more, r.context_lines);
    more.append(")");
    res.push(more);
    let mut less = String::from_str("Decrease diff context (currently ");
    push_lines_count(&mut less, r.context_lines);
    less.append(")");
    res.push(less);
    let mut up = String::from_str("Increase rename similarity threshold (currently ");
    push_decimal(&mut up, r.rename_similarity_threshold as u64);
    up.append("%)");
    res.push(up);
    let mut down = String::from_str("Decrease rename similarity threshold (currently ");
    push_decimal(&mut down, r.rename_similarity_threshold as u64);
    down.append("%)");
    res.push(down);
    proof {
        assert(res@.map_values(|s: String| s@) =~= diff_menu_items(Some(*r)));
    }
    res
}

/// Whether `s` ends with `t`.
pub open spec fn ends_with(s: Seq<char>, t: Seq<char>) -> bool {
    t.len() <= s.len() && s.subrange(s.len() - t.len(), s.len() as int) == t
}

fn str_ends_with(s: &str, t: &str) -> (res: bool)
    ensures
        res == ends_with(s@, t@),
{
    let n = s.unicode_len();
    let m = t.unicode_len();
    if m > n {
        return false;
    }
    let mut i: usize = 0;
    while i < m
        invariant
            n == s@.len(),
            m == t@.len(),
            m <= n,
            i <= m,
            forall|j: int| 0 <= j < i ==> s@[n - m + j] == t@[j],
        decreases m - i,
    {
        if s.get_char(n - m + i) != t.get_char(i) {
            proof {
                assert(s@.subrange(n - m, n as int)[i as int] != t@[i as int]);
            }
            return false;
        }
        i = i + 1;
    }
    proof {
        assert(s@.subrange(n - m, n as int) =~= t@);
    }
    true
}

/// A repository of the recent-repository stack, with its name and path once its summary
/// has arrived.
#[derive(Clone, Debug, PartialEq, Eq)]
pub struct RecentRepo {
    pub repo_id: String,
    pub summary: Option<(String, String)>,
}

/// How the recent-repository menu names a repository: its name and path, else its id.
pub open spec fn recent_label(r: RecentRepo) -> Seq<char> {
    match r.summary {
        Some((name, path)) => name@ + "  "@ + path@,
        None => r.repo_id@,
    }
}

/// Whether an item already ends with a repository id.
pub open spec fn listed(items: Seq<Seq<char>>, id: Seq<char>) -> bool {
    exists|j: int| 0 <= j < items.len() && ends_with(#[trigger] items[j], id)
}

/// The recent-repository menu over the last `k` entries of the stack, newest first: each
/// repository but the current one, skipping one whose id ends an item already listed.
pub open spec fn recent_items(stack: Seq<RecentRepo>, current: Option<Seq<char>>, k: nat) -> Seq<Seq<char>>
    decreases k,
{
    if k == 0 || k > stack.len() {
        Seq::empty()
    } else {
        let prev = recent_items(stack, current, (k - 1) as nat);
        let r = stack[stack.len() - k];
        if current == Some(r.repo_id@) || listed(prev, r.repo_id@) {
            prev
        } else {
            prev.push(recent_label(r))
        }
    }
}

/// The recent-repository menu (see `recent_items`); `stack` runs from the oldest visit to
/// the newest and `current` is the open (or selected) repository.
pub fn recent_repo_menu_lines(stack: &Vec<RecentRepo>, current: Option<&str>) -> (res: Vec<String>)
    ensures
        res@.map_values(|s: String| s@) == recent_items(
            stack@,
            match current {
                Some(c) => Some(c@),
                None => None,
            },
            stack.len() as nat,
        ),
{
    let ghost cur = match current {
        Some(c) => Some(c@),
        None => None,
    };
    let mut res: Vec<String> = Vec::new();
    let mut k: usize = 0;
    proof {
        assert(res@.map_values(|s: String| s@) =~= recent_items(stack@, cur, 0));
    }
    while k < stack.len()
        invariant
            k <= stack.len(),
            cur == (match current {
                Some(c) => Some(c@),
                None => None,
            }),
            res@.map_values(|s: String| s@) == recent_items(stack@, cur, k as nat),
        decreases stack.len() - k,
    {
        let r = &stack[stack.len() - 1 - k];
        let is_current = match current {
            Some(c) => str_eq(c, r.repo_id.as_str()),
            None => false,
        };
        let ghost prev = res@.map_values(|s: String| s@);
        let mut seen = false;
        let mut j: usize = 0;
        while j < res.len()
            invariant
                j <= res.len(),
                prev == res@.map_values(|s: String| s@),
                seen <==> exists|i: int| 0 <= i < j && ends_with(#[trigger] prev[i], r.repo_id@),
            decreases res.len() - j,
        {
            if str_ends_with(res[j].as_str(), r.repo_id.as_str()) {
                seen = true;
            }
            proof {
                assert(prev[j as int] == res@[j as int]@);
            }
            j = j + 1;
        }
        if !is_current && !seen {
            let label = match &r.summary {
                Some((name, path)) => {
                    let mut t = String::from_str(name.as_str());
                    t.append("  ");
                    t.append(path.as_str());
                    t
                },
                None => r.repo_id.clone(),
            };
            res.push(label);
            proof {
                assert(res@.map_values(|s: String| s@) =~= prev.push(recent_label(*r)));
            }
        }
        proof {
            assert(stack@[stack.len() - (k + 1)] == *r);
        }
        k = k + 1;
    }
    res
}

/// A status message of the command log: its level's name and its text.
#[derive(Clone, Debug, PartialEq, Eq)]
pub struct LogEntry {
    pub level: String,
    pub text: String,
}

/// The command-log menu: each status message, newest first, as `[level] text`.
pub open spec fn command_log_items(log: Seq<LogEntry>) -> Seq<Seq<char>> {
    Seq::new(log.len(), |i: int| "["@ + log[log.len() - 1 - i].level@ + "] "@ + log[log.len() - 1 - i].text@)
}

/// The command-log menu (see `command_log_items`); `log` runs from the oldest message to the
/// newest.
pub fn command_log_menu_lines(log: &Vec<LogEntry>) -> (res: Vec<String>)
    ensures
        res@.map_values(|s: String| s@) == command_log_items(log@),
{
    let mut res: Vec<String> = Vec::new();
    let mut k: usize = 0;
    while k < log.len()
        invariant
            k <= log.len(),
            res@.len() == k,
            forall|i: int| 0 <= i < k ==> #[trigger] res@[i]@ == command_log_items(log@)[i],
        decreases log.len() - k,
    {
        let e = &log[log.len() - 1 - k];
        let mut t = String::from_str("[");
        t.append(e.level.as_str());
        t.append("] ");
        t.append(e.text.as_str());
        res.push(t);
        k = k + 1;
    }
    proof {
        assert(res@.map_values(|s: String| s@) =~= command_log_items(log@));
    }
    res
}

} // verus!
