use vstd::prelude::*;

use crate::copy::{confirmation_copy, confirmation_text, input_prompt_copy, prompt_text, ConfirmableOperation};
use crate::labels::{
    menu_copy, menu_text, mode_label, mode_text, repo_subview_label, repo_subview_text,
    watcher_health_label, watcher_health_text, MenuOperation, WatcherHealth,
};
use crate::menus::{fixed_items, menu_lines, menu_rows};
use crate::model::{AppMode, CommitBoxMode, InputPromptOperation, PaneId, RepoSubview};
use crate::text::{decimal, lines_view, push_decimal, push_line, LineTone, StyledLine};

verus! {

/// The tabs of the repository header in their order, with their keys.
pub open spec fn tab_labels() -> Seq<(RepoSubview, Seq<char>)> {
    seq![
        (RepoSubview::Status, "1 Status"@),
        (RepoSubview::Branches, "2 Branches"@),
        (RepoSubview::Remotes, "m Remotes"@),
        (RepoSubview::RemoteBranches, "9 Remote"@),
        (RepoSubview::Tags, "t Tags"@),
        (RepoSubview::Commits, "3 Commits"@),
        (RepoSubview::Compare, "4 Compare"@),
        (RepoSubview::Rebase, "5 Rebase"@),
        (RepoSubview::Stash, "6 Stash"@),
        (RepoSubview::Reflog, "7 Reflog"@),
        (RepoSubview::Worktrees, "8 Worktrees"@),
        (RepoSubview::Submodules, "b Submodules"@),
    ]
}

/// The tab of a subview, bracketed when it is the active one.
pub open spec fn tab_text(tab: (RepoSubview, Seq<char>), active: RepoSubview) -> Seq<char> {
    if tab.0 == active {
        "["@ + tab.1 + "]"@
    } else {
        tab.1
    }
}

/// The spans of the tab row: each tab, two spaces between each two.
pub open spec fn tab_spans(active: RepoSubview) -> Seq<Seq<char>> {
    Seq::new(
        23,
        |i: int|
            if i % 2 == 0 {
                tab_text(tab_labels()[i / 2], active)
            } else {
                "  "@
            },
    )
}

fn tab_span(label: &str, is_active: bool) -> (res: String)
    ensures
        res@ == (if is_active {
            "["@ + label@ + "]"@
        } else {
            label@
        }),
{
    if is_active {
        let mut s = String::from_str("[");
        s.append(label);
        s.append("]");
        s
    } else {
        String::from_str(label)
    }
}

/// The spans of the tab row (see `tab_spans`).
pub fn repo_subview_tabs(active: RepoSubview) -> (res: Vec<String>)
    ensures
        res@.map_values(|s: String| s@) == tab_spans(active),
{
    let all: Vec<(RepoSubview, &'static str)> = vec![
        (RepoSubview::Status, "1 Status"),
        (RepoSubview::Branches, "2 Branches"),
        (RepoSubview::Remotes, "m Remotes"),
        (RepoSubview::RemoteBranches, "9 Remote"),
        (RepoSubview::Tags, "t Tags"),
        (RepoSubview::Commits, "3 Commits"),
        (RepoSubview::Compare, "4 Compare"),
        (RepoSubview::Rebase, "5 Rebase"),
        (RepoSubview::Stash, "6 Stash"),
        (RepoSubview::Reflog, "7 Reflog"),
        (RepoSubview::Worktrees, "8 Worktrees"),
        (RepoSubview::Submodules, "b Submodules"),
    ];
    proof {
        assert forall|i: int| 0 <= i < 12 implies all@[i].0 == tab_labels()[i].0 && all@[i].1@ == tab_labels()[i].1 by {}
    }
    let mut res: Vec<String> = Vec::new();
    let mut k: usize = 0;
    while k < all.len()
        invariant
            k <= all.len(),
            all.len() == 12,
            forall|i: int| 0 <= i < 12 ==> all@[i].0 == tab_labels()[i].0 && all@[i].1@ == tab_labels()[i].1,
            res@.len() == if k == 0 {
                0
            } else {
                2 * k - 1
            },
            forall|i: int| 0 <= i < res@.len() ==> #[trigger] res@[i]@ == tab_spans(active)[i],
        decreases all.len() - k,
    {
        if k > 0 {
            res.push(String::from_str("  "));
        }
        let (subview, label) = all[k];
        let is_active = match (subview, active) {
            (RepoSubview::Status, RepoSubview::Status) => true,
            (RepoSubview::Branches, RepoSubview::Branches) => true,
            (RepoSubview::Remotes, RepoSubview::Remotes) => true,
            (RepoSubview::RemoteBranches, RepoSubview::RemoteBranches) => true,
            (RepoSubview::Tags, RepoSubview::Tags) => true,
            (RepoSubview::Commits, RepoSubview::Commits) => true,
            (RepoSubview::Compare, RepoSubview::Compare) => true,
            (RepoSubview::Rebase, RepoSubview::Rebase) => true,
            (RepoSubview::Stash, RepoSubview::Stash) => true,
            (RepoSubview::Reflog, RepoSubview::Reflog) => true,
            (RepoSubview::Worktrees, RepoSubview::Worktrees) => true,
            (RepoSubview::Submodules, RepoSubview::Submodules) => true,
            _ => false,
        };
        res.push(tab_span(label, is_active));
        k = k + 1;
    }
    proof {
        assert(res@.map_values(|s: String| s@) =~= tab_spans(active));
    }
    res
}

/// The title of the detail pane: the active subview's name in repository mode.
pub open spec fn detail_title_text(active: Option<RepoSubview>) -> Seq<char> {
    match active {
        Some(s) => "Detail: "@ + repo_subview_text(s),
        None => "Detail"@,
    }
}

/// The title of the detail pane (see `detail_title_text`).
pub fn detail_title(active: Option<RepoSubview>) -> (res: String)
    ensures
        res@ == detail_title_text(active),
{
    match active {
        Some(s) => {
            let mut t = String::from_str("Detail: ");
            t.append(repo_subview_label(s));
            t
        },
        None => String::from_str("Detail"),
    }
}

/// The pane shown in full-screen mode: the focused repository pane, else the main pane
/// that repository mode remembers, else the detail pane.
pub open spec fn fullscreen_pane(focused: PaneId, main_focus: Option<PaneId>) -> PaneId {
    match focused {
        PaneId::RepoUnstaged | PaneId::RepoStaged | PaneId::RepoDetail => focused,
        _ => match main_focus {
            Some(p) => p,
            None => PaneId::RepoDetail,
        },
    }
}

/// The pane shown in full-screen mode (see `fullscreen_pane`).
pub fn fullscreen_repo_pane(focused: PaneId, main_focus: Option<PaneId>) -> (res: PaneId)
    ensures
        res == fullscreen_pane(focused, main_focus),
{
    match focused {
        PaneId::RepoUnstaged | PaneId::RepoStaged | PaneId::RepoDetail => focused,
        _ => match main_focus {
            Some(p) => p,
            None => PaneId::RepoDetail,
        },
    }
}

/// The workspace root line.
pub open spec fn root_text(root: Option<Seq<char>>) -> Seq<char> {
    match root {
        Some(r) => "Root: "@ + r,
        None => "Root: current directory"@,
    }
}

/// The workspace root line (see `root_text`).
pub fn workspace_root_label(root: Option<&str>) -> (res: String)
    ensures
        res@ == root_text(
            match root {
                Some(r) => Some(r@),
                None => None,
            },
        ),
{
    match root {
        Some(r) => {
            let mut s = String::from_str("Root: ");
            s.append(r);
            s
        },
        None => String::from_str("Root: current directory"),
    }
}

/// The status message: the latest status message, else the latest notification, else the
/// default status line.
pub open spec fn status_message(latest_status: Option<Seq<char>>, latest_notification: Option<Seq<char>>, fallback: Seq<
    char,
>) -> Seq<char> {
    match latest_status {
        Some(m) => m,
        None => match latest_notification {
            Some(n) => n,
            None => fallback,
        },
    }
}

/// The status message (see `status_message`); `fallback` is the default status line.
pub fn status_text(latest_status: Option<&str>, latest_notification: Option<&str>, fallback: String) -> (res: String)
    ensures
        res@ == status_message(
            match latest_status {
                Some(m) => Some(m@),
                None => None,
            },
            match latest_notification {
                Some(n) => Some(n@),
                None => None,
            },
            fallback@,
        ),
{
    match latest_status {
        Some(m) => String::from_str(m),
        None => match latest_notification {
            Some(n) => String::from_str(n),
            None => fallback,
        },
    }
}

/// The screen-mode line of repository mode.
pub open spec fn screen_status_text(screen_mode: Seq<char>) -> Seq<char> {
    "Screen mode "@ + screen_mode + "  + next screen  _ previous screen  Ctrl+Z suspend terminal"@
}

/// The screen-mode line of repository mode (see `screen_status_text`); `screen_mode` names
/// the current screen mode.
pub fn repo_screen_status_line(screen_mode: &str) -> (res: String)
    ensures
        res@ == screen_status_text(screen_mode@),
{
    let mut s = String::from_str("Screen mode ");
    s.append(screen_mode);
    s.append("  + next screen  _ previous screen  Ctrl+Z suspend terminal");
    s
}

/// The first line of the repository header: the repository, its branch, the watcher and
/// the screen mode.
pub open spec fn header_text(name: Seq<char>, branch: Option<Seq<char>>, watch: WatcherHealth, screen: Seq<char>) -> Seq<
    char,
> {
    "Repo: "@ + name + "  Branch: "@ + match branch {
        Some(b) => b,
        None => "detached"@,
    } + "  Watch: "@ + watcher_health_text(watch) + "  Screen: "@ + screen
}

/// The first line of the repository header (see `header_text`).
pub fn repo_header_line(name: &str, branch: Option<&str>, watch: WatcherHealth, screen_mode: &str) -> (res: String)
    ensures
        res@ == header_text(
            name@,
            match branch {
                Some(b) => Some(b@),
                None => None,
            },
            watch,
            screen_mode@,
        ),
{
    let mut s = String::from_str("Repo: ");
    s.append(name);
    s.append("  Branch: ");
    match branch {
        Some(b) => s.append(b),
        None => s.append("detached"),
    }
    s.append("  Watch: ");
    s.append(watcher_health_label(watch));
    s.append("  Screen: ");
    s.append(screen_mode);
    s
}

/// The first status-bar segments after the mode: the focused pane and the terminal size.
pub open spec fn size_text(width: u16, height: u16) -> Seq<char> {
    "size="@ + decimal(width as nat) + "x"@ + decimal(height as nat)
}

/// The terminal size segment of the status bar (see `size_text`).
pub fn status_bar_size(width: u16, height: u16) -> (res: String)
    ensures
        res@ == size_text(width, height),
{
    let mut s = String::from_str("size=");
    push_decimal(&mut s, width as u64);
    s.append("x");
    push_decimal(&mut s, height as u64);
    s
}

/// What an open modal shows besides its title.
#[derive(Clone, Debug, PartialEq, Eq)]
pub enum ModalBody {
    /// A confirmation, with the repository and the operation when one is pending.
    Confirm { pending: Option<(String, ConfirmableOperation)> },
    /// An input prompt, with the repository, the operation and the typed value when one is
    /// pending.
    InputPrompt { pending: Option<(String, InputPromptOperation<String>, String)> },
    /// A menu, with the repository, the operation, the items that the state gives it and the
    /// selected item when one is pending.
    Menu { pending: Option<(String, MenuOperation, Vec<String>, usize)> },
    /// The help overlay.
    Help,
}

/// The lines of an open modal: its title, then the pending confirmation, prompt or menu with
/// its keys, or the help overlay's kind and key.
pub open spec fn modal_rows(title: Seq<char>, body: ModalBody) -> Seq<(Seq<char>, LineTone)> {
    let head = seq![(title, LineTone::Heading), (""@, LineTone::Plain)];
    match body {
        ModalBody::Confirm { pending } => head + match pending {
            Some((repo, op)) => seq![
                ("Repo: "@ + repo@, LineTone::Plain),
                (confirmation_text(op), LineTone::Plain),
            ],
            None => Seq::empty(),
        } + seq![("Enter or y confirms. Esc, n, or q cancels."@, LineTone::Plain)],
        ModalBody::InputPrompt { pending } => head + match pending {
            Some((repo, op, value)) => seq![
                ("Repo: "@ + repo@, LineTone::Plain),
                (prompt_text(op), LineTone::Plain),
                (""@, LineTone::Plain),
                ("> "@ + value@ + "_"@, LineTone::Plain),
                ("Enter submits. Esc cancels. Backspace deletes."@, LineTone::Plain),
            ],
            None => Seq::empty(),
        },
        ModalBody::Menu { pending } => head + match pending {
            Some((repo, op, items, selected)) => seq![
                ("Repo: "@ + repo@, LineTone::Plain),
                (menu_text(op), LineTone::Plain),
                (""@, LineTone::Plain),
            ] + menu_rows(
                match fixed_items(op) {
                    Some(fixed) => fixed,
                    None => items@.map_values(|s: String| s@),
                },
                selected,
            ) + seq![(""@, LineTone::Plain), ("j/k moves. Enter selects. Esc cancels."@, LineTone::Plain)],
            None => Seq::empty(),
        },
        ModalBody::Help => head + seq![("Help"@, LineTone::Plain), ("Esc closes this overlay."@, LineTone::Plain)],
    }
}

fn push_text_line(lines: &mut Vec<StyledLine>, text: &str)
    ensures
        lines_view(final(lines)@) == lines_view(old(lines)@).push((text@, LineTone::Plain)),
{
    push_line(lines, String::from_str(text), LineTone::Plain);
}

/// The lines of an open modal (see `modal_rows`).
#[verifier::rlimit(50)]
pub fn modal_lines(title: &str, body: &ModalBody) -> (lines: Vec<StyledLine>)
    ensures
        lines_view(lines@) == modal_rows(title@, *body),
{
    let mut lines: Vec<StyledLine> = Vec::new();
    push_line(&mut lines, String::from_str(title), LineTone::Heading);
    push_text_line(&mut lines, "");
    let ghost head = lines_view(lines@);
    match body {
        ModalBody::Confirm { pending } => {
            match pending {
                Some((repo, op)) => {
                    let mut r = String::from_str("Repo: ");
                    r.append(repo.as_str());
                    push_line(&mut lines, r, LineTone::Plain);
                    push_line(&mut lines, confirmation_copy(op), LineTone::Plain);
                },
                None => {},
            }
            push_text_line(&mut lines, "Enter or y confirms. Esc, n, or q cancels.");
        },
        ModalBody::InputPrompt { pending } => {
            match pending {
                Some((repo, op, value)) => {
                    let mut r = String::from_str("Repo: ");
                    r.append(repo.as_str());
                    push_line(&mut lines, r, LineTone::Plain);
                    push_line(&mut lines, input_prompt_copy(op), LineTone::Plain);
                    push_text_line(&mut lines, "");
                    let mut v = String::from_str("> ");
                    v.append(value.as_str());
                    v.append("_");
                    push_line(&mut lines, v, LineTone::Plain);
                    push_text_line(&mut lines, "Enter submits. Esc cancels. Backspace deletes.");
                },
                None => {},
            }
        },
        ModalBody::Menu { pending } => {
            match pending {
                Some((repo, op, items, selected)) => {
                    let mut r = String::from_str("Repo: ");
                    r.append(repo.as_str());
                    push_line(&mut lines, r, LineTone::Plain);
                    push_text_line(&mut lines, menu_copy(*op));
                    push_text_line(&mut lines, "");
                    let ghost before = lines_view(lines@);
                    let rows = menu_lines(*op, items, *selected);
                    let mut k: usize = 0;
                    while k < rows.len()
                        invariant
                            k <= rows.len(),
                            lines_view(lines@) == before + lines_view(rows@).take(k as int),
                        decreases rows.len() - k,
                    {
                        push_line(&mut lines, rows[k].text.clone(), rows[k].tone);
                        proof {
                            assert(lines_view(rows@).take(k + 1) =~= lines_view(rows@).take(k as int).push(
                                lines_view(rows@)[k as int],
                            ));
                        }
                        k = k + 1;
                    }
                    proof {
                        assert(lines_view(rows@).take(rows.len() as int) =~= lines_view(rows@));
                    }
                    push_text_line(&mut lines, "");
                    push_text_line(&mut lines, "j/k moves. Enter selects. Esc cancels.");
                },
                None => {},
            }
        },
        ModalBody::Help => {
            push_text_line(&mut lines, "Help");
            push_text_line(&mut lines, "Esc closes this overlay.");
        },
    }
    proof {
        assert(lines_view(lines@) =~~= modal_rows(title@, *body));
    }
    lines
}

/// The title of the staged pane: it names the commit box's mode while the box is open.
pub open spec fn staged_title_text(commit_box: Option<CommitBoxMode>) -> Seq<char> {
    match commit_box {
        Some(CommitBoxMode::Commit) => "Staged changes · Commit"@,
        Some(CommitBoxMode::CommitNoVerify) => "Staged changes · Commit (No Verify)"@,
        Some(CommitBoxMode::Amend) => "Staged changes · Amend"@,
        None => "Staged changes"@,
    }
}

/// The title of the staged pane (see `staged_title_text`); `commit_box` is the mode of the
/// commit box while it has the focus.
pub fn staged_pane_title(commit_box: Option<CommitBoxMode>) -> (res: &'static str)
    ensures
        res@ == staged_title_text(commit_box),
{
    match commit_box {
        Some(CommitBoxMode::Commit) => "Staged changes · Commit",
        Some(CommitBoxMode::CommitNoVerify) => "Staged changes · Commit (No Verify)",
        Some(CommitBoxMode::Amend) => "Staged changes · Amend",
        None => "Staged changes",
    }
}

} // verus!
