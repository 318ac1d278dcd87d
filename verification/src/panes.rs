use vstd::prelude::*;

use crate::cells::{push_repeated, repeat_char, stash_message, stash_message_label};
use crate::commits::{file_row, ChangedFile};
use crate::labels::file_status_kind_label;
use crate::model::StashSubviewMode;
use crate::selection::pick_index;
use crate::chars::char_count;
use crate::diff::{first_pos, lemma_first_pos, position_of};
use crate::model::RepoSubview;
use crate::text::{
    comparison_status_line, comparison_text, ComparisonTarget,
    decimal, filter_summary_shown, filter_summary_text, lines_view, push_decimal, push_line,
    repo_filter_summary_line, LineTone, StyledLine,
};

verus! {

/// The lines of a list subview while the repository detail loads.
pub open spec fn loading_rows(title: Seq<char>) -> Seq<(Seq<char>, LineTone)> {
    seq![(title, LineTone::Heading), ("Repository detail is still loading."@, LineTone::Plain)]
}

/// The lines of a list subview whose filter keeps nothing: the filter summary (or a blank
/// line), then `note` for an empty list or `prefix` with the query for one without matches.
pub open spec fn empty_rows(
    title: Seq<char>,
    query: Seq<char>,
    focused: bool,
    total: nat,
    note: Seq<char>,
    prefix: Seq<char>,
) -> Seq<(Seq<char>, LineTone)> {
    seq![
        (title, LineTone::Heading),
        (
            if filter_summary_shown(query, focused) {
                filter_summary_text(query, focused, 0, total)
            } else {
                ""@
            },
            LineTone::Plain,
        ),
        (
            if total == 0 {
                note
            } else {
                prefix + query + "."@
            },
            LineTone::Plain,
        ),
    ]
}

/// The filter summary as a line of its own, when one is shown.
pub open spec fn filter_rows(query: Seq<char>, focused: bool, visible: nat, total: nat) -> Seq<(Seq<char>, LineTone)> {
    if filter_summary_shown(query, focused) {
        seq![(filter_summary_text(query, focused, visible, total), LineTone::Plain)]
    } else {
        Seq::empty()
    }
}

/// The selected item of a list: the selection when the filter keeps it, else the first kept
/// item.
pub open spec fn pick(selected: Option<usize>, visible: Seq<usize>) -> usize {
    match selected {
        Some(i) => if visible.contains(i) {
            i
        } else {
            visible[0]
        },
        None => visible[0],
    }
}

/// The tone of a list row: bold when selected, also reversed in the focused pane.
pub open spec fn row_tone(selected: bool, focused: bool) -> LineTone {
    if selected {
        if focused {
            LineTone::FocusedRow
        } else {
            LineTone::SelectedRow
        }
    } else {
        LineTone::Row
    }
}

/// The filter keeps indices of items of the list.
pub open spec fn valid_kept(visible: Seq<usize>, count: nat) -> bool {
    forall|a: int| 0 <= a < visible.len() ==> visible[a] < count
}

fn loading_lines(title: &str) -> (lines: Vec<StyledLine>)
    ensures
        lines_view(lines@) == loading_rows(title@),
{
    let mut lines: Vec<StyledLine> = Vec::new();
    push_line(&mut lines, String::from_str(title), LineTone::Heading);
    push_line(&mut lines, String::from_str("Repository detail is still loading."), LineTone::Plain);
    proof {
        assert(lines_view(lines@) =~~= loading_rows(title@));
    }
    lines
}

fn empty_lines(title: &str, query: &str, focused: bool, total: usize, note: &str, prefix: &str) -> (lines: Vec<
    StyledLine,
>)
    ensures
        lines_view(lines@) == empty_rows(title@, query@, focused, total as nat, note@, prefix@),
{
    let mut lines: Vec<StyledLine> = Vec::new();
    push_line(&mut lines, String::from_str(title), LineTone::Heading);
    let summary = match repo_filter_summary_line(query, focused, 0, total) {
        Some(line) => line,
        None => String::new(),
    };
    push_line(&mut lines, summary, LineTone::Plain);
    let last = if total == 0 {
        String::from_str(note)
    } else {
        let mut t = String::from_str(prefix);
        t.append(query);
        t.append(".");
        t
    };
    push_line(&mut lines, last, LineTone::Plain);
    proof {
        reveal_strlit("");
        assert(lines_view(lines@) =~~= empty_rows(title@, query@, focused, total as nat, note@, prefix@));
    }
    lines
}

/// The selected item of a list (see `pick`).
pub fn pick_selected(selected: Option<usize>, visible: &Vec<usize>) -> (res: usize)
    requires
        visible.len() > 0,
    ensures
        res == pick(selected, visible@),
        visible@.contains(res),
{
    proof {
        assert(visible@.contains(visible@[0]));
    }
    match selected {
        Some(i) => match position_of(visible, i) {
            Some(_) => {
                proof {
                    lemma_first_pos(visible@, i);
                }
                i
            },
            None => {
                proof {
                    lemma_first_pos(visible@, i);
                }
                visible[0]
            },
        },
        None => visible[0],
    }
}

fn push_filter_line(lines: &mut Vec<StyledLine>, query: &str, focused: bool, visible: usize, total: usize)
    ensures
        lines_view(final(lines)@) == lines_view(old(lines)@) + filter_rows(
            query@,
            focused,
            visible as nat,
            total as nat,
        ),
{
    let ghost before = lines_view(lines@);
    match repo_filter_summary_line(query, focused, visible, total) {
        Some(line) => push_line(lines, line, LineTone::Plain),
        None => {},
    }
    proof {
        assert(lines_view(lines@) =~~= before + filter_rows(query@, focused, visible as nat, total as nat));
    }
}

fn push_text(lines: &mut Vec<StyledLine>, text: &str)
    ensures
        lines_view(final(lines)@) == lines_view(old(lines)@).push((text@, LineTone::Plain)),
{
    push_line(lines, String::from_str(text), LineTone::Plain);
}

fn row_tone_of(selected: bool, focused: bool) -> (t: LineTone)
    ensures
        t == row_tone(selected, focused),
{
    if selected {
        if focused {
            LineTone::FocusedRow
        } else {
            LineTone::SelectedRow
        }
    } else {
        LineTone::Row
    }
}

/// A submodule of the repository.
#[derive(Clone, Debug, PartialEq, Eq)]
pub struct SubmoduleItem {
    pub name: String,
    pub path: String,
    pub url: String,
    pub branch: Option<String>,
    pub short_oid: Option<String>,
    pub initialized: bool,
    pub dirty: bool,
    pub conflicted: bool,
}

/// The state of a submodule: a conflict first, then a missing checkout, then changes.
pub open spec fn submodule_state(s: SubmoduleItem) -> Seq<char> {
    if s.conflicted {
        "conflicted"@
    } else if !s.initialized {
        "uninitialized"@
    } else if s.dirty {
        "dirty"@
    } else {
        "clean"@
    }
}

/// A text, or a stand-in when there is none.
pub open spec fn or_text(t: Option<String>, fallback: Seq<char>) -> Seq<char> {
    match t {
        Some(x) => x@,
        None => fallback,
    }
}

/// The row of a submodule: path, branch, checked-out commit and state.
pub open spec fn submodule_row(s: SubmoduleItem) -> Seq<char> {
    s.path@ + "  ["@ + or_text(s.branch, "(detached)"@) + "]  "@ + or_text(s.short_oid, "-------"@) + "  "@
        + submodule_state(s)
}

/// The submodules subview: the selected submodule's details, the filter, the keys, and a
/// row per kept submodule.
pub open spec fn submodule_rows(
    submodules: Option<Seq<SubmoduleItem>>,
    selected: Option<usize>,
    visible: Seq<usize>,
    query: Seq<char>,
    focused_filter: bool,
    is_focused: bool,
) -> Seq<(Seq<char>, LineTone)> {
    match submodules {
        None => loading_rows("Submodules"@),
        Some(items) => if visible.len() == 0 {
            empty_rows(
                "Submodules"@,
                query,
                focused_filter,
                items.len(),
                "No submodules are configured for this repository."@,
                "No submodules match /"@,
            )
        } else {
            let sel = pick(selected, visible);
            let s = items[sel as int];
            seq![
                ("Submodules"@, LineTone::Heading),
                ("Selected: "@ + s.path@, LineTone::Plain),
                ("Name: "@ + s.name@, LineTone::Plain),
                (
                    "State: "@ + submodule_state(s) + "  Branch: "@ + or_text(s.branch, "(detached)"@) + "  HEAD: "@
                        + or_text(s.short_oid, "(uninitialized)"@),
                    LineTone::Plain,
                ),
                ("URL: "@ + s.url@, LineTone::Plain),
            ] + filter_rows(query, focused_filter, visible.len(), items.len()) + seq![
                (
                    "Context: Enter/Space open nested repo. Ctrl+O copy submodule. b options menu. 0 main. / filter."@,
                    LineTone::Plain,
                ),
                ("Other: n add. e edit URL. i init. u update. o open path. d remove."@, LineTone::Plain),
                (""@, LineTone::Plain),
            ] + Seq::new(
                visible.len(),
                |k: int| (submodule_row(items[visible[k] as int]), row_tone(visible[k] == sel, is_focused)),
            )
        },
    }
}

/// Appends a text, or a stand-in when there is none.
pub fn push_or(s: &mut String, t: &Option<String>, fallback: &str)
    ensures
        final(s)@ == old(s)@ + or_text(*t, fallback@),
{
    match t {
        Some(x) => s.append(x.as_str()),
        None => s.append(fallback),
    }
}

fn submodule_state_label(s: &SubmoduleItem) -> (res: &'static str)
    ensures
        res@ == submodule_state(*s),
{
    if s.conflicted {
        "conflicted"
    } else if !s.initialized {
        "uninitialized"
    } else if s.dirty {
        "dirty"
    } else {
        "clean"
    }
}

/// The lines of the submodules subview (see `submodule_rows`); `visible` holds the indices
/// of the submodules that the filter keeps.
#[verifier::rlimit(50)]
pub fn repo_submodule_lines(
    submodules: Option<&Vec<SubmoduleItem>>,
    selected_index: Option<usize>,
    visible: &Vec<usize>,
    filter_query: &str,
    filter_focused: bool,
    is_focused: bool,
) -> (lines: Vec<StyledLine>)
    requires
        submodules matches Some(items) ==> valid_kept(visible@, items.len() as nat),
    ensures
        lines_view(lines@) == submodule_rows(
            match submodules {
                Some(items) => Some(items@),
                None => None,
            },
            selected_index,
            visible@,
            filter_query@,
            filter_focused,
            is_focused,
        ),
{
    let items = match submodules {
        Some(items) => items,
        None => return loading_lines("Submodules"),
    };
    if visible.len() == 0 {
        return empty_lines(
            "Submodules",
            filter_query,
            filter_focused,
            items.len(),
            "No submodules are configured for this repository.",
            "No submodules match /",
        );
    }
    let sel = pick_selected(selected_index, visible);
    let s = &items[sel];
    let mut lines: Vec<StyledLine> = Vec::new();
    push_line(&mut lines, String::from_str("Submodules"), LineTone::Heading);
    let mut t1 = String::from_str("Selected: ");
    t1.append(s.path.as_str());
    push_line(&mut lines, t1, LineTone::Plain);
    let mut t2 = String::from_str("Name: ");
    t2.append(s.name.as_str());
    push_line(&mut lines, t2, LineTone::Plain);
    let mut t3 = String::from_str("State: ");
    t3.append(submodule_state_label(s));
    t3.append("  Branch: ");
    push_or(&mut t3, &s.branch, "(detached)");
    t3.append("  HEAD: ");
    push_or(&mut t3, &s.short_oid, "(uninitialized)");
    push_line(&mut lines, t3, LineTone::Plain);
    let mut t4 = String::from_str("URL: ");
    t4.append(s.url.as_str());
    push_line(&mut lines, t4, LineTone::Plain);
    push_filter_line(&mut lines, filter_query, filter_focused, visible.len(), items.len());
    push_text(
        &mut lines,
        "Context: Enter/Space open nested repo. Ctrl+O copy submodule. b options menu. 0 main. / filter.",
    );
    push_text(&mut lines, "Other: n add. e edit URL. i init. u update. o open path. d remove.");
    push_text(&mut lines, "");
    let ghost head = lines_view(lines@);
    let ghost f = |k: int| (submodule_row(items@[visible@[k] as int]), row_tone(visible@[k] == sel, is_focused));
    let mut k: usize = 0;
    proof {
        assert(head + Seq::new(0, f) =~= head);
    }
    while k < visible.len()
        invariant
            k <= visible.len(),
            valid_kept(visible@, items.len() as nat),
            f == (|k: int| (submodule_row(items@[visible@[k] as int]), row_tone(visible@[k] == sel, is_focused))),
            lines_view(lines@) == head + Seq::new(k as nat, f),
        decreases visible.len() - k,
    {
        let index = visible[k];
        let item = &items[index];
        let mut row = String::from_str(item.path.as_str());
        row.append("  [");
        push_or(&mut row, &item.branch, "(detached)");
        row.append("]  ");
        push_or(&mut row, &item.short_oid, "-------");
        row.append("  ");
        row.append(submodule_state_label(item));
        push_line(&mut lines, row, row_tone_of(index == sel, is_focused));
        proof {
            assert(head + Seq::new((k + 1) as nat, f) =~= (head + Seq::new(k as nat, f)).push(f(k as int)));
        }
        k = k + 1;
    }
    proof {
        reveal_strlit("");
        let spec_items = match submodules {
            Some(items) => Some(items@),
            None => None,
        };
        assert(lines_view(lines@) =~~= submodule_rows(
            spec_items,
            selected_index,
            visible@,
            filter_query@,
            filter_focused,
            is_focused,
        ));
    }
    lines
}

/// An entry of the reflog.
#[derive(Clone, Debug, PartialEq, Eq)]
pub struct ReflogItem {
    pub selector: String,
    pub short_oid: String,
    pub summary: String,
    pub description: String,
}

/// What a reflog entry points at: its short id and summary, whichever are known.
pub open spec fn reflog_target(e: ReflogItem) -> Seq<char> {
    if e.short_oid@.len() == 0 {
        e.summary@
    } else if e.summary@.len() == 0 {
        e.short_oid@
    } else {
        e.short_oid@ + " "@ + e.summary@
    }
}

/// The reflog subview: the selected entry's place, selector, target and description, the
/// filter, the keys and limits, and a row per kept entry.
pub open spec fn reflog_rows(
    entries: Option<Seq<ReflogItem>>,
    selected: Option<usize>,
    visible: Seq<usize>,
    query: Seq<char>,
    focused_filter: bool,
    is_focused: bool,
) -> Seq<(Seq<char>, LineTone)> {
    match entries {
        None => loading_rows("Reflog"@),
        Some(items) => if visible.len() == 0 {
            empty_rows(
                "Reflog"@,
                query,
                focused_filter,
                items.len(),
                "No reflog entries are available."@,
                "No reflog entries match /"@,
            )
        } else {
            let sel = pick(selected, visible);
            let e = items[sel as int];
            seq![
                ("Reflog"@, LineTone::Heading),
                (
                    "Selected "@ + decimal((first_pos(visible, sel) + 1) as nat) + "/"@ + decimal(visible.len()),
                    LineTone::Plain,
                ),
                (e.selector@ + "  "@ + reflog_target(e), LineTone::Plain),
                (e.description@, LineTone::Plain),
            ] + filter_rows(query, focused_filter, visible.len(), items.len()) + seq![
                (
                    "Context: Enter commits. Space checkout. Ctrl+O copy hash. o browser. n branch. T tag. C cherry-pick."@,
                    LineTone::Plain,
                ),
                (
                    "Context: g reset menu. S/M/H reset by reflog target. u restore HEAD. 0 main. / filter. w worktrees."@,
                    LineTone::Plain,
                ),
                ("Use j/k to inspect recent HEAD and ref movement."@, LineTone::Plain),
                ("Limits: no working tree undo; redo is manual by selecting another entry."@, LineTone::Plain),
                (""@, LineTone::Plain),
            ] + Seq::new(
                visible.len(),
                |k: int| (items[visible[k] as int].description@, row_tone(visible[k] == sel, is_focused)),
            )
        },
    }
}

/// The lines of the reflog subview (see `reflog_rows`); `visible` holds the indices of the
/// entries that the filter keeps.
pub fn repo_reflog_lines(
    entries: Option<&Vec<ReflogItem>>,
    selected_index: Option<usize>,
    visible: &Vec<usize>,
    filter_query: &str,
    filter_focused: bool,
    is_focused: bool,
) -> (lines: Vec<StyledLine>)
    requires
        entries matches Some(items) ==> valid_kept(visible@, items.len() as nat),
    ensures
        lines_view(lines@) == reflog_rows(
            match entries {
                Some(items) => Some(items@),
                None => None,
            },
            selected_index,
            visible@,
            filter_query@,
            filter_focused,
            is_focused,
        ),
{
    let items = match entries {
        Some(items) => items,
        None => return loading_lines("Reflog"),
    };
    if visible.len() == 0 {
        return empty_lines(
            "Reflog",
            filter_query,
            filter_focused,
            items.len(),
            "No reflog entries are available.",
            "No reflog entries match /",
        );
    }
    let sel = pick_selected(selected_index, visible);
    proof {
        lemma_first_pos(visible@, sel);
    }
    let pos = match position_of(visible, sel) {
        Some(p) => p,
        None => 0,
    };
    let e = &items[sel];
    let mut lines: Vec<StyledLine> = Vec::new();
    push_line(&mut lines, String::from_str("Reflog"), LineTone::Heading);
    let mut t1 = String::from_str("Selected ");
    push_decimal(&mut t1, (pos + 1) as u64);
    t1.append("/");
    push_decimal(&mut t1, visible.len() as u64);
    push_line(&mut lines, t1, LineTone::Plain);
    let mut t2 = String::from_str(e.selector.as_str());
    t2.append("  ");
    if e.short_oid.unicode_len() == 0 {
        t2.append(e.summary.as_str());
    } else if e.summary.unicode_len() == 0 {
        t2.append(e.short_oid.as_str());
    } else {
        t2.append(e.short_oid.as_str());
        t2.append(" ");
        t2.append(e.summary.as_str());
    }
    push_line(&mut lines, t2, LineTone::Plain);
    push_line(&mut lines, e.description.clone(), LineTone::Plain);
    push_filter_line(&mut lines, filter_query, filter_focused, visible.len(), items.len());
    push_text(
        &mut lines,
        "Context: Enter commits. Space checkout. Ctrl+O copy hash. o browser. n branch. T tag. C cherry-pick.",
    );
    push_text(
        &mut lines,
        "Context: g reset menu. S/M/H reset by reflog target. u restore HEAD. 0 main. / filter. w worktrees.",
    );
    push_text(&mut lines, "Use j/k to inspect recent HEAD and ref movement.");
    push_text(&mut lines, "Limits: no working tree undo; redo is manual by selecting another entry.");
    push_text(&mut lines, "");
    let ghost head = lines_view(lines@);
    let ghost f = |k: int| (items@[visible@[k] as int].description@, row_tone(visible@[k] == sel, is_focused));
    let mut k: usize = 0;
    proof {
        assert(head + Seq::new(0, f) =~= head);
    }
    while k < visible.len()
        invariant
            k <= visible.len(),
            valid_kept(visible@, items.len() as nat),
            f == (|k: int| (items@[visible@[k] as int].description@, row_tone(visible@[k] == sel, is_focused))),
            lines_view(lines@) == head + Seq::new(k as nat, f),
        decreases visible.len() - k,
    {
        let index = visible[k];
        push_line(&mut lines, items[index].description.clone(), row_tone_of(index == sel, is_focused));
        proof {
            assert(head + Seq::new((k + 1) as nat, f) =~= (head + Seq::new(k as nat, f)).push(f(k as int)));
        }
        k = k + 1;
    }
    proof {
        reveal_strlit("");
        let spec_items = match entries {
            Some(items) => Some(items@),
            None => None,
        };
        assert(lines_view(lines@) =~~= reflog_rows(
            spec_items,
            selected_index,
            visible@,
            filter_query@,
            filter_focused,
            is_focused,
        ));
    }
    lines
}

/// A linked worktree of the repository.
#[derive(Clone, Debug, PartialEq, Eq)]
pub struct WorktreeItem {
    pub path: String,
    pub branch: Option<String>,
}

/// The row of a worktree: its path and branch.
pub open spec fn worktree_row(w: WorktreeItem) -> Seq<char> {
    w.path@ + "  ["@ + or_text(w.branch, "(detached)"@) + "]"@
}

/// The worktrees subview: the selected worktree's path and branch, the filter, the keys,
/// and a row per kept worktree.
pub open spec fn worktree_rows(
    worktrees: Option<Seq<WorktreeItem>>,
    selected: Option<usize>,
    visible: Seq<usize>,
    query: Seq<char>,
    focused_filter: bool,
    is_focused: bool,
) -> Seq<(Seq<char>, LineTone)> {
    match worktrees {
        None => loading_rows("Worktrees"@),
        Some(items) => if visible.len() == 0 {
            empty_rows(
                "Worktrees"@,
                query,
                focused_filter,
                items.len(),
                "No linked worktrees are available."@,
                "No worktrees match /"@,
            )
        } else {
            let sel = pick(selected, visible);
            let w = items[sel as int];
            seq![
                ("Worktrees"@, LineTone::Heading),
                ("Selected: "@ + w.path@, LineTone::Plain),
                ("Branch: "@ + or_text(w.branch, "(detached)"@), LineTone::Plain),
            ] + filter_rows(query, focused_filter, visible.len(), items.len()) + seq![
                ("Context: Enter/Space switch. 0 main. / filter."@, LineTone::Plain),
                ("Other: n create. o open selected worktree. d remove."@, LineTone::Plain),
                (""@, LineTone::Plain),
            ] + Seq::new(
                visible.len(),
                |k: int| (worktree_row(items[visible[k] as int]), row_tone(visible[k] == sel, is_focused)),
            )
        },
    }
}

/// The lines of the worktrees subview (see `worktree_rows`); `visible` holds the indices of
/// the worktrees that the filter keeps.
pub fn repo_worktree_lines(
    worktrees: Option<&Vec<WorktreeItem>>,
    selected_index: Option<usize>,
    visible: &Vec<usize>,
    filter_query: &str,
    filter_focused: bool,
    is_focused: bool,
) -> (lines: Vec<StyledLine>)
    requires
        worktrees matches Some(items) ==> valid_kept(visible@, items.len() as nat),
    ensures
        lines_view(lines@) == worktree_rows(
            match worktrees {
                Some(items) => Some(items@),
                None => None,
            },
            selected_index,
            visible@,
            filter_query@,
            filter_focused,
            is_focused,
        ),
{
    let items = match worktrees {
        Some(items) => items,
        None => return loading_lines("Worktrees"),
    };
    if visible.len() == 0 {
        return empty_lines(
            "Worktrees",
            filter_query,
            filter_focused,
            items.len(),
            "No linked worktrees are available.",
            "No worktrees match /",
        );
    }
    let sel = pick_selected(selected_index, visible);
    let w = &items[sel];
    let mut lines: Vec<StyledLine> = Vec::new();
    push_line(&mut lines, String::from_str("Worktrees"), LineTone::Heading);
    let mut t1 = String::from_str("Selected: ");
    t1.append(w.path.as_str());
    push_line(&mut lines, t1, LineTone::Plain);
    let mut t2 = String::from_str("Branch: ");
    push_or(&mut t2, &w.branch, "(detached)");
    push_line(&mut lines, t2, LineTone::Plain);
    push_filter_line(&mut lines, filter_query, filter_focused, visible.len(), items.len());
    push_text(&mut lines, "Context: Enter/Space switch. 0 main. / filter.");
    push_text(&mut lines, "Other: n create. o open selected worktree. d remove.");
    push_text(&mut lines, "");
    let ghost head = lines_view(lines@);
    let ghost f = |k: int| (worktree_row(items@[visible@[k] as int]), row_tone(visible@[k] == sel, is_focused));
    let mut k: usize = 0;
    proof {
        assert(head + Seq::new(0, f) =~= head);
    }
    while k < visible.len()
        invariant
            k <= visible.len(),
            valid_kept(visible@, items.len() as nat),
            f == (|k: int| (worktree_row(items@[visible@[k] as int]), row_tone(visible@[k] == sel, is_focused))),
            lines_view(lines@) == head + Seq::new(k as nat, f),
        decreases visible.len() - k,
    {
        let index = visible[k];
        let item = &items[index];
        let mut row = String::from_str(item.path.as_str());
        row.append("  [");
        push_or(&mut row, &item.branch, "(detached)");
        row.append("]");
        push_line(&mut lines, row, row_tone_of(index == sel, is_focused));
        proof {
            assert(head + Seq::new((k + 1) as nat, f) =~= (head + Seq::new(k as nat, f)).push(f(k as int)));
        }
        k = k + 1;
    }
    proof {
        reveal_strlit("");
        let spec_items = match worktrees {
            Some(items) => Some(items@),
            None => None,
        };
        assert(lines_view(lines@) =~~= worktree_rows(
            spec_items,
            selected_index,
            visible@,
            filter_query@,
            filter_focused,
            is_focused,
        ));
    }
    lines
}

/// A text padded with spaces on the right to at least `width` characters.
pub open spec fn left_aligned(t: Seq<char>, width: nat) -> Seq<char> {
    if t.len() >= width {
        t
    } else {
        t + repeat_char(' ', (width - t.len()) as nat)
    }
}

fn push_left_aligned(s: &mut String, t: &str, width: usize)
    ensures
        final(s)@ == old(s)@ + left_aligned(t@, width as nat),
{
    s.append(t);
    let n = char_count(t);
    if n < width {
        push_repeated(s, ' ', width - n);
    } else {
        proof {
            assert(old(s)@ + t@ =~= old(s)@ + left_aligned(t@, width as nat));
        }
    }
}

/// A tag of the repository.
#[derive(Clone, Debug, PartialEq, Eq)]
pub struct TagItem {
    pub name: String,
    pub target_short_oid: String,
    pub annotated: bool,
    pub summary: String,
}

/// Whether a tag carries its own message.
pub open spec fn tag_kind(annotated: bool) -> Seq<char> {
    if annotated {
        "annotated"@
    } else {
        "lightweight"@
    }
}

/// The row of a tag: its name in a column of 24, its target and its kind.
pub open spec fn tag_row(t: TagItem) -> Seq<char> {
    "  "@ + left_aligned(t.name@, 24) + " "@ + t.target_short_oid@ + "  "@ + tag_kind(t.annotated)
}

/// The row of a tag (see `tag_row`).
pub fn tag_row_label(tag: &TagItem) -> (res: String)
    ensures
        res@ == tag_row(*tag),
{
    let mut s = String::from_str("  ");
    push_left_aligned(&mut s, tag.name.as_str(), 24);
    s.append(" ");
    s.append(tag.target_short_oid.as_str());
    s.append("  ");
    if tag.annotated {
        s.append("annotated");
    } else {
        s.append("lightweight");
    }
    s
}

/// The tags subview: the selected tag's name, target, kind and summary, the filter, the
/// keys, and a row per kept tag.
pub open spec fn tag_rows(
    tags: Option<Seq<TagItem>>,
    selected: Option<usize>,
    visible: Seq<usize>,
    query: Seq<char>,
    focused_filter: bool,
    is_focused: bool,
) -> Seq<(Seq<char>, LineTone)> {
    match tags {
        None => loading_rows("Tags"@),
        Some(items) => if visible.len() == 0 {
            empty_rows("Tags"@, query, focused_filter, items.len(), "No tags available."@, "No tags match /"@)
        } else {
            let sel = pick(selected, visible);
            let t = items[sel as int];
            seq![
                ("Tags"@, LineTone::Heading),
                ("Selected: "@ + t.name@, LineTone::Plain),
                ("Target: "@ + t.target_short_oid@, LineTone::Plain),
                ("Type: "@ + tag_kind(t.annotated), LineTone::Plain),
                ("Summary: "@ + t.summary@, LineTone::Plain),
            ] + filter_rows(query, focused_filter, visible.len(), items.len()) + seq![
                (
                    "Context: Enter commits. Space checkout. Ctrl+O copy tag. g reset menu. 0 main. / filter. w worktrees."@,
                    LineTone::Plain,
                ),
                ("Other: n create tag. d delete tag. P push tag. S/M/H reset to tag."@, LineTone::Plain),
                (""@, LineTone::Plain),
            ] + Seq::new(
                visible.len(),
                |k: int| (tag_row(items[visible[k] as int]), row_tone(visible[k] == sel, is_focused)),
            )
        },
    }
}

/// The lines of the tags subview (see `tag_rows`); `visible` holds the indices of the tags
/// that the filter keeps.
pub fn repo_tag_lines(
    tags: Option<&Vec<TagItem>>,
    selected_index: Option<usize>,
    visible: &Vec<usize>,
    filter_query: &str,
    filter_focused: bool,
    is_focused: bool,
) -> (lines: Vec<StyledLine>)
    requires
        tags matches Some(items) ==> valid_kept(visible@, items.len() as nat),
    ensures
        lines_view(lines@) == tag_rows(
            match tags {
                Some(items) => Some(items@),
                None => None,
            },
            selected_index,
            visible@,
            filter_query@,
            filter_focused,
            is_focused,
        ),
{
    let items = match tags {
        Some(items) => items,
        None => return loading_lines("Tags"),
    };
    if visible.len() == 0 {
        return empty_lines("Tags", filter_query, filter_focused, items.len(), "No tags available.", "No tags match /");
    }
    let sel = pick_selected(selected_index, visible);
    let t = &items[sel];
    let mut lines: Vec<StyledLine> = Vec::new();
    push_line(&mut lines, String::from_str("Tags"), LineTone::Heading);
    let mut t1 = String::from_str("Selected: ");
    t1.append(t.name.as_str());
    push_line(&mut lines, t1, LineTone::Plain);
    let mut t2 = String::from_str("Target: ");
    t2.append(t.target_short_oid.as_str());
    push_line(&mut lines, t2, LineTone::Plain);
    let mut t3 = String::from_str("Type: ");
    if t.annotated {
        t3.append("annotated");
    } else {
        t3.append("lightweight");
    }
    push_line(&mut lines, t3, LineTone::Plain);
    let mut t4 = String::from_str("Summary: ");
    t4.append(t.summary.as_str());
    push_line(&mut lines, t4, LineTone::Plain);
    push_filter_line(&mut lines, filter_query, filter_focused, visible.len(), items.len());
    push_text(
        &mut lines,
        "Context: Enter commits. Space checkout. Ctrl+O copy tag. g reset menu. 0 main. / filter. w worktrees.",
    );
    push_text(&mut lines, "Other: n create tag. d delete tag. P push tag. S/M/H reset to tag.");
    push_text(&mut lines, "");
    let ghost head = lines_view(lines@);
    let ghost f = |k: int| (tag_row(items@[visible@[k] as int]), row_tone(visible@[k] == sel, is_focused));
    let mut k: usize = 0;
    proof {
        assert(head + Seq::new(0, f) =~= head);
    }
    while k < visible.len()
        invariant
            k <= visible.len(),
            valid_kept(visible@, items.len() as nat),
            f == (|k: int| (tag_row(items@[visible@[k] as int]), row_tone(visible@[k] == sel, is_focused))),
            lines_view(lines@) == head + Seq::new(k as nat, f),
        decreases visible.len() - k,
    {
        let index = visible[k];
        push_line(&mut lines, tag_row_label(&items[index]), row_tone_of(index == sel, is_focused));
        proof {
            assert(head + Seq::new((k + 1) as nat, f) =~= (head + Seq::new(k as nat, f)).push(f(k as int)));
        }
        k = k + 1;
    }
    proof {
        reveal_strlit("");
        let spec_items = match tags {
            Some(items) => Some(items@),
            None => None,
        };
        assert(lines_view(lines@) =~~= tag_rows(
            spec_items,
            selected_index,
            visible@,
            filter_query@,
            filter_focused,
            is_focused,
        ));
    }
    lines
}

/// A remote of the repository.
#[derive(Clone, Debug, PartialEq, Eq)]
pub struct RemoteItem {
    pub name: String,
    pub fetch_url: String,
    pub push_url: String,
    pub branch_count: usize,
}

/// The row of a remote: its name and how many branches it has.
pub open spec fn remote_row(r: RemoteItem) -> Seq<char> {
    r.name@ + "  ["@ + decimal(r.branch_count as nat) + " branches]"@
}

/// The remotes subview: the selected remote's name, URLs and branch count, the filter, the
/// keys, and a row per kept remote.
pub open spec fn remote_rows(
    remotes: Option<Seq<RemoteItem>>,
    selected: Option<usize>,
    visible: Seq<usize>,
    query: Seq<char>,
    focused_filter: bool,
    is_focused: bool,
) -> Seq<(Seq<char>, LineTone)> {
    match remotes {
        None => loading_rows("Remotes"@),
        Some(items) => if visible.len() == 0 {
            empty_rows("Remotes"@, query, focused_filter, items.len(), "No remotes are configured."@, "No remotes match /"@)
        } else {
            let sel = pick(selected, visible);
            let r = items[sel as int];
            seq![
                ("Remotes"@, LineTone::Heading),
                ("Selected: "@ + r.name@, LineTone::Plain),
                ("Fetch: "@ + r.fetch_url@, LineTone::Plain),
                ("Push: "@ + r.push_url@, LineTone::Plain),
                ("Branches: "@ + decimal(r.branch_count as nat), LineTone::Plain),
            ] + filter_rows(query, focused_filter, visible.len(), items.len()) + seq![
                ("Context: Enter branches. f fetch. 0 main. / filter. w worktrees."@, LineTone::Plain),
                ("Other: n new remote. e edit remote. d remove remote. F fork remote."@, LineTone::Plain),
                (""@, LineTone::Plain),
            ] + Seq::new(
                visible.len(),
                |k: int| (remote_row(items[visible[k] as int]), row_tone(visible[k] == sel, is_focused)),
            )
        },
    }
}

fn remote_row_text(r: &RemoteItem) -> (res: String)
    ensures
        res@ == remote_row(*r),
{
    let mut s = String::from_str(r.name.as_str());
    s.append("  [");
    push_decimal(&mut s, r.branch_count as u64);
    s.append(" branches]");
    s
}

/// The lines of the remotes subview (see `remote_rows`); `visible` holds the indices of the
/// remotes that the filter keeps.
pub fn repo_remote_lines(
    remotes: Option<&Vec<RemoteItem>>,
    selected_index: Option<usize>,
    visible: &Vec<usize>,
    filter_query: &str,
    filter_focused: bool,
    is_focused: bool,
) -> (lines: Vec<StyledLine>)
    requires
        remotes matches Some(items) ==> valid_kept(visible@, items.len() as nat),
    ensures
        lines_view(lines@) == remote_rows(
            match remotes {
                Some(items) => Some(items@),
                None => None,
            },
            selected_index,
            visible@,
            filter_query@,
            filter_focused,
            is_focused,
        ),
{
    let items = match remotes {
        Some(items) => items,
        None => return loading_lines("Remotes"),
    };
    if visible.len() == 0 {
        return empty_lines(
            "Remotes",
            filter_query,
            filter_focused,
            items.len(),
            "No remotes are configured.",
            "No remotes match /",
        );
    }
    let sel = pick_selected(selected_index, visible);
    let r = &items[sel];
    let mut lines: Vec<StyledLine> = Vec::new();
    push_line(&mut lines, String::from_str("Remotes"), LineTone::Heading);
    let mut t1 = String::from_str("Selected: ");
    t1.append(r.name.as_str());
    push_line(&mut lines, t1, LineTone::Plain);
    let mut t2 = String::from_str("Fetch: ");
    t2.append(r.fetch_url.as_str());
    push_line(&mut lines, t2, LineTone::Plain);
    let mut t3 = String::from_str("Push: ");
    t3.append(r.push_url.as_str());
    push_line(&mut lines, t3, LineTone::Plain);
    let mut t4 = String::from_str("Branches: ");
    push_decimal(&mut t4, r.branch_count as u64);
    push_line(&mut lines, t4, LineTone::Plain);
    push_filter_line(&mut lines, filter_query, filter_focused, visible.len(), items.len());
    push_text(&mut lines, "Context: Enter branches. f fetch. 0 main. / filter. w worktrees.");
    push_text(&mut lines, "Other: n new remote. e edit remote. d remove remote. F fork remote.");
    push_text(&mut lines, "");
    let ghost head = lines_view(lines@);
    let ghost f = |k: int| (remote_row(items@[visible@[k] as int]), row_tone(visible@[k] == sel, is_focused));
    let mut k: usize = 0;
    proof {
        assert(head + Seq::new(0, f) =~= head);
    }
    while k < visible.len()
        invariant
            k <= visible.len(),
            valid_kept(visible@, items.len() as nat),
            f == (|k: int| (remote_row(items@[visible@[k] as int]), row_tone(visible@[k] == sel, is_focused))),
            lines_view(lines@) == head + Seq::new(k as nat, f),
        decreases visible.len() - k,
    {
        let index = visible[k];
        push_line(&mut lines, remote_row_text(&items[index]), row_tone_of(index == sel, is_focused));
        proof {
            assert(head + Seq::new((k + 1) as nat, f) =~= (head + Seq::new(k as nat, f)).push(f(k as int)));
        }
        k = k + 1;
    }
    proof {
        reveal_strlit("");
        let spec_items = match remotes {
            Some(items) => Some(items@),
            None => None,
        };
        assert(lines_view(lines@) =~~= remote_rows(
            spec_items,
            selected_index,
            visible@,
            filter_query@,
            filter_focused,
            is_focused,
        ));
    }
    lines
}

/// A remote-tracking branch of the repository.
#[derive(Clone, Debug, PartialEq, Eq)]
pub struct RemoteBranchItem {
    pub name: String,
    pub remote_name: String,
    pub branch_name: String,
}

/// The row of a remote branch: its name in a column of 28, its remote and local name.
pub open spec fn remote_branch_row(b: RemoteBranchItem) -> Seq<char> {
    "  "@ + left_aligned(b.name@, 28) + " remote="@ + b.remote_name@ + " local="@ + b.branch_name@
}

/// The row of a remote branch (see `remote_branch_row`).
pub fn remote_branch_row_label(branch: &RemoteBranchItem) -> (res: String)
    ensures
        res@ == remote_branch_row(*branch),
{
    let mut s = String::from_str("  ");
    push_left_aligned(&mut s, branch.name.as_str(), 28);
    s.append(" remote=");
    s.append(branch.remote_name.as_str());
    s.append(" local=");
    s.append(branch.branch_name.as_str());
    s
}

/// The remote-branches subview: the selected branch's name, remote and local name, the
/// filter, the keys, and a row per kept branch in the order given.
pub open spec fn remote_branch_rows(
    branches: Option<Seq<RemoteBranchItem>>,
    selected: Option<usize>,
    visible: Seq<usize>,
    query: Seq<char>,
    focused_filter: bool,
    is_focused: bool,
) -> Seq<(Seq<char>, LineTone)> {
    match branches {
        None => loading_rows("Remote Branches"@),
        Some(items) => if visible.len() == 0 {
            empty_rows(
                "Remote Branches"@,
                query,
                focused_filter,
                items.len(),
                "No remote branches available."@,
                "No remote branches match /"@,
            )
        } else {
            let sel = pick(selected, visible);
            let b = items[sel as int];
            seq![
                ("Remote Branches"@, LineTone::Heading),
                ("Selected: "@ + b.name@, LineTone::Plain),
                ("Remote: "@ + b.remote_name@, LineTone::Plain),
                ("Local branch: "@ + b.branch_name@, LineTone::Plain),
            ] + filter_rows(query, focused_filter, visible.len(), items.len()) + seq![
                ("Context: Enter commits. Space checkout. 0 main. / filter. w worktrees."@, LineTone::Plain),
                ("Other: n create local branch. d delete remote branch. o pull request."@, LineTone::Plain),
                ("       g reset. s sort. y/Ctrl+O copy. u set upstream."@, LineTone::Plain),
                ("       r rebase current. M merge current. T tag."@, LineTone::Plain),
                (""@, LineTone::Plain),
            ] + Seq::new(
                visible.len(),
                |k: int| (remote_branch_row(items[visible[k] as int]), row_tone(visible[k] == sel, is_focused)),
            )
        },
    }
}

/// The lines of the remote-branches subview (see `remote_branch_rows`); `visible` holds the
/// indices of the branches that the filter keeps, in display order.
pub fn repo_remote_branch_lines(
    branches: Option<&Vec<RemoteBranchItem>>,
    selected_index: Option<usize>,
    visible: &Vec<usize>,
    filter_query: &str,
    filter_focused: bool,
    is_focused: bool,
) -> (lines: Vec<StyledLine>)
    requires
        branches matches Some(items) ==> valid_kept(visible@, items.len() as nat),
    ensures
        lines_view(lines@) == remote_branch_rows(
            match branches {
                Some(items) => Some(items@),
                None => None,
            },
            selected_index,
            visible@,
            filter_query@,
            filter_focused,
            is_focused,
        ),
{
    let items = match branches {
        Some(items) => items,
        None => return loading_lines("Remote Branches"),
    };
    if visible.len() == 0 {
        return empty_lines(
            "Remote Branches",
            filter_query,
            filter_focused,
            items.len(),
            "No remote branches available.",
            "No remote branches match /",
        );
    }
    let sel = pick_selected(selected_index, visible);
    let b = &items[sel];
    let mut lines: Vec<StyledLine> = Vec::new();
    push_line(&mut lines, String::from_str("Remote Branches"), LineTone::Heading);
    let mut t1 = String::from_str("Selected: ");
    t1.append(b.name.as_str());
    push_line(&mut lines, t1, LineTone::Plain);
    let mut t2 = String::from_str("Remote: ");
    t2.append(b.remote_name.as_str());
    push_line(&mut lines, t2, LineTone::Plain);
    let mut t3 = String::from_str("Local branch: ");
    t3.append(b.branch_name.as_str());
    push_line(&mut lines, t3, LineTone::Plain);
    push_filter_line(&mut lines, filter_query, filter_focused, visible.len(), items.len());
    push_text(&mut lines, "Context: Enter commits. Space checkout. 0 main. / filter. w worktrees.");
    push_text(&mut lines, "Other: n create local branch. d delete remote branch. o pull request.");
    push_text(&mut lines, "       g reset. s sort. y/Ctrl+O copy. u set upstream.");
    push_text(&mut lines, "       r rebase current. M merge current. T tag.");
    push_text(&mut lines, "");
    let ghost head = lines_view(lines@);
    let ghost f = |k: int| (remote_branch_row(items@[visible@[k] as int]), row_tone(visible@[k] == sel, is_focused));
    let mut k: usize = 0;
    proof {
        assert(head + Seq::new(0, f) =~= head);
    }
    while k < visible.len()
        invariant
            k <= visible.len(),
            valid_kept(visible@, items.len() as nat),
            f == (|k: int|
                (remote_branch_row(items@[visible@[k] as int]), row_tone(visible@[k] == sel, is_focused))),
            lines_view(lines@) == head + Seq::new(k as nat, f),
        decreases visible.len() - k,
    {
        let index = visible[k];
        push_line(&mut lines, remote_branch_row_label(&items[index]), row_tone_of(index == sel, is_focused));
        proof {
            assert(head + Seq::new((k + 1) as nat, f) =~= (head + Seq::new(k as nat, f)).push(f(k as int)));
        }
        k = k + 1;
    }
    proof {
        reveal_strlit("");
        let spec_items = match branches {
            Some(items) => Some(items@),
            None => None,
        };
        assert(lines_view(lines@) =~~= remote_branch_rows(
            spec_items,
            selected_index,
            visible@,
            filter_query@,
            filter_focused,
            is_focused,
        ));
    }
    lines
}

/// A local branch of the repository.
#[derive(Clone, Debug, PartialEq, Eq)]
pub struct BranchItem {
    pub name: String,
    pub is_head: bool,
    pub upstream: Option<String>,
}

/// The row of a branch: a star on the checked-out one, its name in a column of 20, its
/// upstream.
pub open spec fn branch_row(b: BranchItem) -> Seq<char> {
    (if b.is_head {
        "*"@
    } else {
        " "@
    }) + " "@ + left_aligned(b.name@, 20) + " upstream="@ + or_text(b.upstream, "-"@)
}

/// The row of a branch (see `branch_row`).
pub fn branch_row_label(branch: &BranchItem) -> (res: String)
    ensures
        res@ == branch_row(*branch),
{
    let mut s = if branch.is_head {
        String::from_str("*")
    } else {
        String::from_str(" ")
    };
    s.append(" ");
    push_left_aligned(&mut s, branch.name.as_str(), 20);
    s.append(" upstream=");
    push_or(&mut s, &branch.upstream, "-");
    s
}

/// The tone of a branch row: the checked-out branch stands out in the success colour.
pub open spec fn branch_tone(is_head: bool, selected: bool, focused: bool) -> LineTone {
    if is_head {
        if selected {
            if focused {
                LineTone::FocusedHeadRow
            } else {
                LineTone::SelectedHeadRow
            }
        } else {
            LineTone::HeadRow
        }
    } else {
        row_tone(selected, focused)
    }
}

/// The tone of a branch row (see `branch_tone`).
pub fn branch_row_style(branch: &BranchItem, is_selected: bool, is_focused: bool) -> (t: LineTone)
    ensures
        t == branch_tone(branch.is_head, is_selected, is_focused),
{
    if branch.is_head {
        if is_selected {
            if is_focused {
                LineTone::FocusedHeadRow
            } else {
                LineTone::SelectedHeadRow
            }
        } else {
            LineTone::HeadRow
        }
    } else {
        row_tone_of(is_selected, is_focused)
    }
}

/// The first checked-out branch at or after `i` that the filter keeps.
pub open spec fn kept_head_from(b: Seq<BranchItem>, visible: Seq<usize>, i: int) -> Option<usize>
    decreases b.len() - i,
{
    if i < 0 || i >= b.len() {
        None
    } else if b[i].is_head && visible.contains(i as usize) {
        Some(i as usize)
    } else {
        kept_head_from(b, visible, i + 1)
    }
}

/// The selected branch: the selection when the filter keeps it, else the checked-out
/// branch when kept, else the first kept branch.
pub open spec fn pick_branch(selected: Option<usize>, b: Seq<BranchItem>, visible: Seq<usize>) -> usize {
    match selected {
        Some(i) if visible.contains(i) => i,
        _ => match kept_head_from(b, visible, 0) {
            Some(h) => h,
            None => visible[0],
        },
    }
}

fn find_kept_head(items: &Vec<BranchItem>, visible: &Vec<usize>) -> (res: Option<usize>)
    requires
        items.len() <= usize::MAX,
    ensures
        res == kept_head_from(items@, visible@, 0),
{
    let mut i: usize = 0;
    while i < items.len()
        invariant
            i <= items.len(),
            kept_head_from(items@, visible@, 0) == kept_head_from(items@, visible@, i as int),
        decreases items.len() - i,
    {
        if items[i].is_head {
            let found = position_of(visible, i);
            proof {
                lemma_first_pos(visible@, i);
            }
            if found.is_some() {
                return Some(i);
            }
        }
        i = i + 1;
    }
    None
}

/// The branches subview: the selected branch and its upstream, the filter, the comparison,
/// the keys, and a row per kept branch in the order given.
pub open spec fn branch_rows(
    branches: Option<Seq<BranchItem>>,
    selected: Option<usize>,
    visible: Seq<usize>,
    query: Seq<char>,
    focused_filter: bool,
    base: Option<ComparisonTarget>,
    target: Option<ComparisonTarget>,
    source: Option<RepoSubview>,
    is_focused: bool,
) -> Seq<(Seq<char>, LineTone)> {
    match branches {
        None => loading_rows("Branches"@),
        Some(items) => if visible.len() == 0 {
            empty_rows(
                "Branches"@,
                query,
                focused_filter,
                items.len(),
                "No local branches available."@,
                "No branches match /"@,
            )
        } else {
            let sel = pick_branch(selected, items, visible);
            let b = items[sel as int];
            seq![
                ("Branches"@, LineTone::Heading),
                ("Selected: "@ + b.name@, LineTone::Plain),
                ("Upstream: "@ + or_text(b.upstream, "-"@), LineTone::Plain),
            ] + filter_rows(query, focused_filter, visible.len(), items.len()) + seq![
                (comparison_text(RepoSubview::Branches, base, target, source), LineTone::Plain),
                ("Context: Enter commits. Space checkout. F force checkout. 0 main. / filter."@, LineTone::Plain),
                ("Other: w worktrees. - previous. c checkout by name. n create. R rename."@, LineTone::Plain),
                ("       d delete. u upstream. o pull request. g reset. s sort. G git-flow."@, LineTone::Plain),
                ("       y/Ctrl+O copy. r rebase current. M merge current. T tag. v compare."@, LineTone::Plain),
                (""@, LineTone::Plain),
            ] + Seq::new(
                visible.len(),
                |k: int|
                    (
                        branch_row(items[visible[k] as int]),
                        branch_tone(items[visible[k] as int].is_head, visible[k] == sel, is_focused),
                    ),
            )
        },
    }
}

/// The lines of the branches subview (see `branch_rows`); `visible` holds the indices of the
/// branches that the filter keeps, in display order.
#[verifier::rlimit(50)]
pub fn repo_branch_lines(
    branches: Option<&Vec<BranchItem>>,
    selected_index: Option<usize>,
    visible: &Vec<usize>,
    filter_query: &str,
    filter_focused: bool,
    comparison_base: Option<&ComparisonTarget>,
    comparison_target: Option<&ComparisonTarget>,
    comparison_source: Option<RepoSubview>,
    is_focused: bool,
) -> (lines: Vec<StyledLine>)
    requires
        branches matches Some(items) ==> valid_kept(visible@, items.len() as nat),
    ensures
        lines_view(lines@) == branch_rows(
            match branches {
                Some(items) => Some(items@),
                None => None,
            },
            selected_index,
            visible@,
            filter_query@,
            filter_focused,
            match comparison_base {
                Some(b) => Some(*b),
                None => None,
            },
            match comparison_target {
                Some(t) => Some(*t),
                None => None,
            },
            comparison_source,
            is_focused,
        ),
{
    let items = match branches {
        Some(items) => items,
        None => return loading_lines("Branches"),
    };
    if visible.len() == 0 {
        return empty_lines(
            "Branches",
            filter_query,
            filter_focused,
            items.len(),
            "No local branches available.",
            "No branches match /",
        );
    }
    let kept_selection = match selected_index {
        Some(i) => match position_of(visible, i) {
            Some(_) => Some(i),
            None => None,
        },
        None => None,
    };
    proof {
        if let Some(i) = selected_index {
            lemma_first_pos(visible@, i);
        }
    }
    let sel: usize = match kept_selection {
        Some(i) => i,
        None => match find_kept_head(items, visible) {
            Some(h) => h,
            None => visible[0],
        },
    };
    proof {
        lemma_kept_head_bounds(items@, visible@, 0);
    }
    let b = &items[sel];
    let mut lines: Vec<StyledLine> = Vec::new();
    push_line(&mut lines, String::from_str("Branches"), LineTone::Heading);
    let mut t1 = String::from_str("Selected: ");
    t1.append(b.name.as_str());
    push_line(&mut lines, t1, LineTone::Plain);
    let mut t2 = String::from_str("Upstream: ");
    push_or(&mut t2, &b.upstream, "-");
    push_line(&mut lines, t2, LineTone::Plain);
    push_filter_line(&mut lines, filter_query, filter_focused, visible.len(), items.len());
    push_line(
        &mut lines,
        comparison_status_line(RepoSubview::Branches, comparison_base, comparison_target, comparison_source),
        LineTone::Plain,
    );
    push_text(&mut lines, "Context: Enter commits. Space checkout. F force checkout. 0 main. / filter.");
    push_text(&mut lines, "Other: w worktrees. - previous. c checkout by name. n create. R rename.");
    push_text(&mut lines, "       d delete. u upstream. o pull request. g reset. s sort. G git-flow.");
    push_text(&mut lines, "       y/Ctrl+O copy. r rebase current. M merge current. T tag. v compare.");
    push_text(&mut lines, "");
    let ghost head = lines_view(lines@);
    let ghost f = |k: int|
        (
            branch_row(items@[visible@[k] as int]),
            branch_tone(items@[visible@[k] as int].is_head, visible@[k] == sel, is_focused),
        );
    let mut k: usize = 0;
    proof {
        assert(head + Seq::new(0, f) =~= head);
    }
    while k < visible.len()
        invariant
            k <= visible.len(),
            valid_kept(visible@, items.len() as nat),
            f == (|k: int|
                (
                    branch_row(items@[visible@[k] as int]),
                    branch_tone(items@[visible@[k] as int].is_head, visible@[k] == sel, is_focused),
                )),
            lines_view(lines@) == head + Seq::new(k as nat, f),
        decreases visible.len() - k,
    {
        let index = visible[k];
        let item = &items[index];
        push_line(&mut lines, branch_row_label(item), branch_row_style(item, index == sel, is_focused));
        proof {
            assert(head + Seq::new((k + 1) as nat, f) =~= (head + Seq::new(k as nat, f)).push(f(k as int)));
        }
        k = k + 1;
    }
    proof {
        reveal_strlit("");
        let spec_items = match branches {
            Some(items) => Some(items@),
            None => None,
        };
        assert(lines_view(lines@) =~~= branch_rows(
            spec_items,
            selected_index,
            visible@,
            filter_query@,
            filter_focused,
            match comparison_base {
                Some(b) => Some(*b),
                None => None,
            },
            match comparison_target {
                Some(t) => Some(*t),
                None => None,
            },
            comparison_source,
            is_focused,
        ));
    }
    lines
}

proof fn lemma_kept_head_bounds(b: Seq<BranchItem>, visible: Seq<usize>, i: int)
    requires
        0 <= i,
    ensures
        kept_head_from(b, visible, i) matches Some(h) ==> h < b.len(),
    decreases b.len() - i,
{
    if i < b.len() {
        lemma_kept_head_bounds(b, visible, i + 1);
    }
}

/// A stash entry with the files it changed.
#[derive(Clone, Debug, PartialEq, Eq)]
pub struct StashItem {
    pub stash_ref: String,
    pub label: String,
    pub changed_files: Vec<ChangedFile>,
}

/// The stash list: the selected entry, the filter, the keys, and a row per kept entry.
pub open spec fn stash_list_rows(
    items: Seq<StashItem>,
    selected: Option<usize>,
    visible: Seq<usize>,
    query: Seq<char>,
    focused_filter: bool,
    is_focused: bool,
) -> Seq<(Seq<char>, LineTone)> {
    if visible.len() == 0 {
        empty_rows("Stashes"@, query, focused_filter, items.len(), "No stashes are available."@, "No stashes match /"@)
    } else {
        let sel = pick(selected, visible);
        let st = items[sel as int];
        seq![
            ("Stashes"@, LineTone::Heading),
            ("Selected: "@ + st.stash_ref@, LineTone::Plain),
            (st.label@, LineTone::Plain),
        ] + filter_rows(query, focused_filter, visible.len(), items.len()) + seq![
            ("Context: Enter files. Space apply. 0 main. / filter. w worktrees."@, LineTone::Plain),
            ("Other: n branches off. r renames. g pops. d drops."@, LineTone::Plain),
            (""@, LineTone::Plain),
        ] + Seq::new(visible.len(), |k: int| (items[visible[k] as int].label@, row_tone(visible[k] == sel, is_focused)))
    }
}

/// The files of the selected stash (the selection where in range, else the first entry):
/// its ref and message, the keys, and a row per file with the selected one (in range, else
/// the first) marked.
pub open spec fn stash_file_rows(items: Seq<StashItem>, selected: Option<usize>, selected_file: Option<usize>) -> Seq<
    (Seq<char>, LineTone),
> {
    if items.len() == 0 {
        seq![("Stash files"@, LineTone::Heading), ("No stash is currently selected."@, LineTone::Plain)]
    } else {
        let st = items[pick_index(items.len() as int, selected)];
        let head = seq![
            ("Stash files  "@ + st.stash_ref@ + "  "@ + stash_message(st.label@), LineTone::Heading),
            (st.label@, LineTone::Plain),
            ("Context: Enter stash list. 0 main. w worktrees."@, LineTone::Plain),
            ("Other: apply/pop/drop/rename/new-branch stay on the stash list."@, LineTone::Plain),
            (""@, LineTone::Plain),
        ];
        let files = st.changed_files@;
        if files.len() == 0 {
            head.push(("No changed files were reported for this stash."@, LineTone::Plain))
        } else {
            let f = pick_index(files.len() as int, selected_file);
            head + Seq::new(
                files.len(),
                |i: int|
                    file_row(
                        (if i == f {
                            ">"@
                        } else {
                            " "@
                        }) + " "@,
                        files[i],
                    ),
            )
        }
    }
}

/// The stash subview: the list or the files of the selected stash, by mode.
pub open spec fn stash_rows(
    stashes: Option<Seq<StashItem>>,
    selected: Option<usize>,
    selected_file: Option<usize>,
    visible: Seq<usize>,
    query: Seq<char>,
    focused_filter: bool,
    mode: StashSubviewMode,
    is_focused: bool,
) -> Seq<(Seq<char>, LineTone)> {
    match stashes {
        None => loading_rows("Stashes"@),
        Some(items) => match mode {
            StashSubviewMode::List => stash_list_rows(items, selected, visible, query, focused_filter, is_focused),
            StashSubviewMode::Files => stash_file_rows(items, selected, selected_file),
        },
    }
}

fn stash_list_lines(
    items: &Vec<StashItem>,
    selected_index: Option<usize>,
    visible: &Vec<usize>,
    filter_query: &str,
    filter_focused: bool,
    is_focused: bool,
) -> (lines: Vec<StyledLine>)
    requires
        valid_kept(visible@, items.len() as nat),
    ensures
        lines_view(lines@) == stash_list_rows(items@, selected_index, visible@, filter_query@, filter_focused, is_focused),
{
    if visible.len() == 0 {
        return empty_lines(
            "Stashes",
            filter_query,
            filter_focused,
            items.len(),
            "No stashes are available.",
            "No stashes match /",
        );
    }
    let sel = pick_selected(selected_index, visible);
    let st = &items[sel];
    let mut lines: Vec<StyledLine> = Vec::new();
    push_line(&mut lines, String::from_str("Stashes"), LineTone::Heading);
    let mut t1 = String::from_str("Selected: ");
    t1.append(st.stash_ref.as_str());
    push_line(&mut lines, t1, LineTone::Plain);
    push_line(&mut lines, st.label.clone(), LineTone::Plain);
    push_filter_line(&mut lines, filter_query, filter_focused, visible.len(), items.len());
    push_text(&mut lines, "Context: Enter files. Space apply. 0 main. / filter. w worktrees.");
    push_text(&mut lines, "Other: n branches off. r renames. g pops. d drops.");
    push_text(&mut lines, "");
    let ghost head = lines_view(lines@);
    let ghost f = |k: int| (items@[visible@[k] as int].label@, row_tone(visible@[k] == sel, is_focused));
    let mut k: usize = 0;
    proof {
        assert(head + Seq::new(0, f) =~= head);
    }
    while k < visible.len()
        invariant
            k <= visible.len(),
            valid_kept(visible@, items.len() as nat),
            f == (|k: int| (items@[visible@[k] as int].label@, row_tone(visible@[k] == sel, is_focused))),
            lines_view(lines@) == head + Seq::new(k as nat, f),
        decreases visible.len() - k,
    {
        let index = visible[k];
        push_line(&mut lines, items[index].label.clone(), row_tone_of(index == sel, is_focused));
        proof {
            assert(head + Seq::new((k + 1) as nat, f) =~= (head + Seq::new(k as nat, f)).push(f(k as int)));
        }
        k = k + 1;
    }
    proof {
        reveal_strlit("");
        assert(lines_view(lines@) =~~= stash_list_rows(
            items@,
            selected_index,
            visible@,
            filter_query@,
            filter_focused,
            is_focused,
        ));
    }
    lines
}

fn stash_file_lines(items: &Vec<StashItem>, selected_index: Option<usize>, selected_file_index: Option<usize>) -> (lines:
    Vec<StyledLine>)
    ensures
        lines_view(lines@) == stash_file_rows(items@, selected_index, selected_file_index),
{
    let mut lines: Vec<StyledLine> = Vec::new();
    if items.len() == 0 {
        push_line(&mut lines, String::from_str("Stash files"), LineTone::Heading);
        push_text(&mut lines, "No stash is currently selected.");
        proof {
            assert(lines_view(lines@) =~~= stash_file_rows(items@, selected_index, selected_file_index));
        }
        return lines;
    }
    let index: usize = match selected_index {
        Some(i) => if i < items.len() {
            i
        } else {
            0
        },
        None => 0,
    };
    let st = &items[index];
    let mut title = String::from_str("Stash files  ");
    title.append(st.stash_ref.as_str());
    title.append("  ");
    title.append(stash_message_label(st.label.as_str()).as_str());
    push_line(&mut lines, title, LineTone::Heading);
    push_line(&mut lines, st.label.clone(), LineTone::Plain);
    push_text(&mut lines, "Context: Enter stash list. 0 main. w worktrees.");
    push_text(&mut lines, "Other: apply/pop/drop/rename/new-branch stay on the stash list.");
    push_text(&mut lines, "");
    let files = &st.changed_files;
    if files.len() == 0 {
        push_text(&mut lines, "No changed files were reported for this stash.");
        proof {
            assert(lines_view(lines@) =~~= stash_file_rows(items@, selected_index, selected_file_index));
        }
        return lines;
    }
    let chosen: usize = match selected_file_index {
        Some(i) => if i < files.len() {
            i
        } else {
            0
        },
        None => 0,
    };
    let ghost head = lines_view(lines@);
    let ghost f = |i: int|
        file_row(
            (if i == chosen {
                ">"@
            } else {
                " "@
            }) + " "@,
            files@[i],
        );
    let mut i: usize = 0;
    proof {
        assert(head + Seq::new(0, f) =~= head);
    }
    while i < files.len()
        invariant
            i <= files.len(),
            f == (|i: int|
                file_row(
                    (if i == chosen {
                        ">"@
                    } else {
                        " "@
                    }) + " "@,
                    files@[i],
                )),
            lines_view(lines@) == head + Seq::new(i as nat, f),
        decreases files.len() - i,
    {
        let mut row = if i == chosen {
            String::from_str(">")
        } else {
            String::from_str(" ")
        };
        row.append(" ");
        row.append(file_status_kind_label(files[i].kind));
        row.append(" ");
        row.append(files[i].path.as_str());
        push_line(&mut lines, row, LineTone::Plain);
        proof {
            assert(head + Seq::new((i + 1) as nat, f) =~= (head + Seq::new(i as nat, f)).push(f(i as int)));
        }
        i = i + 1;
    }
    proof {
        reveal_strlit("");
        assert(lines_view(lines@) =~~= stash_file_rows(items@, selected_index, selected_file_index));
    }
    lines
}

/// The lines of the stash subview (see `stash_rows`); `visible` holds the indices of the
/// stash entries that the filter keeps.
pub fn repo_stash_lines(
    stashes: Option<&Vec<StashItem>>,
    selected_index: Option<usize>,
    selected_file_index: Option<usize>,
    visible: &Vec<usize>,
    filter_query: &str,
    filter_focused: bool,
    mode: StashSubviewMode,
    is_focused: bool,
) -> (lines: Vec<StyledLine>)
    requires
        stashes matches Some(items) ==> valid_kept(visible@, items.len() as nat),
    ensures
        lines_view(lines@) == stash_rows(
            match stashes {
                Some(items) => Some(items@),
                None => None,
            },
            selected_index,
            selected_file_index,
            visible@,
            filter_query@,
            filter_focused,
            mode,
            is_focused,
        ),
{
    let items = match stashes {
        Some(items) => items,
        None => return loading_lines("Stashes"),
    };
    match mode {
        StashSubviewMode::List => stash_list_lines(
            items,
            selected_index,
            visible,
            filter_query,
            filter_focused,
            is_focused,
        ),
        StashSubviewMode::Files => stash_file_lines(items, selected_index, selected_file_index),
    }
}

} // verus!
