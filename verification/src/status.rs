use vstd::prelude::*;

use crate::cells::repeat_char;
use crate::chars::{char_count, trim, trim_str};
use crate::labels::{file_status_kind_label, file_status_text, FileStatusKind};
use crate::model::CommitBoxMode;
use crate::text::{
    decimal, lines_view, operation_progress_label, progress_text, push_decimal, push_line,
    LineTone, OperationProgress, StyledLine,
};

verus! {

/// The two file lists of the status view.
#[derive(Clone, Copy, Debug, PartialEq, Eq)]
pub enum FileStatusSection {
    Staged,
    Unstaged,
}

/// What a status entry is: a file, or a directory of the tree view, folded or not.
#[derive(Clone, Copy, Debug, PartialEq, Eq)]
pub enum StatusEntryKind {
    File,
    Directory { collapsed: bool },
}

/// An entry of a status list as the list shows it.
#[derive(Clone, Debug, PartialEq, Eq)]
pub struct StatusEntry {
    pub depth: usize,
    pub kind: Option<FileStatusKind>,
    pub label: String,
    pub entry_kind: StatusEntryKind,
}

/// How a status list reads the repository mode.
#[derive(Clone, Debug, PartialEq, Eq)]
pub struct StatusListState {
    pub selected_index: Option<usize>,
    pub tree_enabled: bool,
    /// The name of the status filter mode.
    pub filter_mode_label: String,
    pub filter_query: String,
}

/// The key hint at the top of a status list.
pub open spec fn section_hint(section: FileStatusSection, is_focused: bool) -> Seq<char> {
    match section {
        FileStatusSection::Unstaged => if is_focused {
            "j/k move  Space stage file  Enter open diff  a stage all  ` tree  / filter"@
        } else {
            "Move focus here to inspect working tree changes."@
        },
        FileStatusSection::Staged => if is_focused {
            "j/k move  Space unstage file  Enter open diff  a unstage all  ` tree  / filter"@
        } else {
            "Move focus here to prep staged work."@
        },
    }
}

/// The tree, status-filter and text-filter settings of a status list.
pub open spec fn section_settings(st: StatusListState) -> Seq<char> {
    "Tree: "@ + (if st.tree_enabled {
        "on"@
    } else {
        "off"@
    }) + "  Status: "@ + st.filter_mode_label@ + "  Filter: /"@ + st.filter_query@
}

/// The row of a status entry: the selection marker, the status letter, and the label
/// indented by depth; a directory shows whether it is folded and ends with a slash.
pub open spec fn entry_row(e: StatusEntry, selected: bool) -> Seq<char> {
    let indent = repeat_char(' ', 2 * e.depth as nat);
    let label = match e.entry_kind {
        StatusEntryKind::Directory { collapsed } => (if collapsed {
            "▸"@
        } else {
            "▾"@
        }) + indent + " "@ + e.label@ + "/"@,
        StatusEntryKind::File => indent + e.label@,
    };
    (if selected {
        ">"@
    } else {
        " "@
    }) + " "@ + (match e.kind {
        Some(k) => file_status_text(k),
        None => " "@,
    }) + " "@ + label
}

/// A status list: its key hint, then a loading note, or its settings with an empty note,
/// or the count and settings with a row per entry.
pub open spec fn section_rows(
    section: FileStatusSection,
    is_focused: bool,
    st: Option<StatusListState>,
    entries: Seq<StatusEntry>,
) -> Seq<(Seq<char>, LineTone)> {
    let hint = (section_hint(section, is_focused), LineTone::Plain);
    match st {
        None => seq![hint, ("Repository detail is still loading."@, LineTone::Plain)],
        Some(st) => if entries.len() == 0 {
            seq![
                hint,
                (section_settings(st), LineTone::Plain),
                (
                    match section {
                        FileStatusSection::Unstaged => "No working tree changes."@,
                        FileStatusSection::Staged => "No staged changes."@,
                    },
                    LineTone::Plain,
                ),
            ]
        } else {
            seq![hint, ("Files: "@ + decimal(entries.len()) + "  "@ + section_settings(st), LineTone::Plain)]
                + Seq::new(
                entries.len(),
                |i: int| (entry_row(entries[i], st.selected_index == Some(i as usize)), LineTone::Plain),
            )
        },
    }
}

fn push_settings(s: &mut String, st: &StatusListState)
    ensures
        final(s)@ == old(s)@ + section_settings(*st),
{
    s.append("Tree: ");
    if st.tree_enabled {
        s.append("on");
    } else {
        s.append("off");
    }
    s.append("  Status: ");
    s.append(st.filter_mode_label.as_str());
    s.append("  Filter: /");
    s.append(st.filter_query.as_str());
}

fn entry_row_text(e: &StatusEntry, selected: bool) -> (res: String)
    ensures
        res@ == entry_row(*e, selected),
{
    let mut s = if selected {
        String::from_str(">")
    } else {
        String::from_str(" ")
    };
    s.append(" ");
    match e.kind {
        Some(k) => s.append(file_status_kind_label(k)),
        None => s.append(" "),
    }
    s.append(" ");
    let mut indent = String::new();
    let mut d: usize = 0;
    while d < e.depth
        invariant
            d <= e.depth,
            indent@ =~= repeat_char(' ', 2 * d as nat),
        decreases e.depth - d,
    {
        indent.append("  ");
        proof {
            reveal_strlit("  ");
        }
        d = d + 1;
    }
    match e.entry_kind {
        StatusEntryKind::Directory { collapsed } => {
            if collapsed {
                s.append("▸");
            } else {
                s.append("▾");
            }
            s.append(indent.as_str());
            s.append(" ");
            s.append(e.label.as_str());
            s.append("/");
        },
        StatusEntryKind::File => {
            s.append(indent.as_str());
            s.append(e.label.as_str());
        },
    }
    proof {
        assert(s@ =~= entry_row(*e, selected));
    }
    s
}

/// A status list (see `section_rows`); `entries` are the entries that the list shows.
pub fn repo_status_section_lines(
    st: Option<&StatusListState>,
    entries: &Vec<StatusEntry>,
    is_focused: bool,
    section: FileStatusSection,
) -> (lines: Vec<StyledLine>)
    ensures
        lines_view(lines@) == section_rows(
            section,
            is_focused,
            match st {
                Some(s) => Some(*s),
                None => None,
            },
            entries@,
        ),
{
    let mut lines: Vec<StyledLine> = Vec::new();
    let hint = match section {
        FileStatusSection::Unstaged => if is_focused {
            "j/k move  Space stage file  Enter open diff  a stage all  ` tree  / filter"
        } else {
            "Move focus here to inspect working tree changes."
        },
        FileStatusSection::Staged => if is_focused {
            "j/k move  Space unstage file  Enter open diff  a unstage all  ` tree  / filter"
        } else {
            "Move focus here to prep staged work."
        },
    };
    push_line(&mut lines, String::from_str(hint), LineTone::Plain);
    let st = match st {
        Some(st) => st,
        None => {
            push_line(&mut lines, String::from_str("Repository detail is still loading."), LineTone::Plain);
            proof {
                assert(lines_view(lines@) =~~= section_rows(section, is_focused, None, entries@));
            }
            return lines;
        },
    };
    if entries.len() == 0 {
        let mut settings = String::new();
        push_settings(&mut settings, st);
        push_line(&mut lines, settings, LineTone::Plain);
        let note = match section {
            FileStatusSection::Unstaged => "No working tree changes.",
            FileStatusSection::Staged => "No staged changes.",
        };
        push_line(&mut lines, String::from_str(note), LineTone::Plain);
        proof {
            assert(lines_view(lines@) =~~= section_rows(section, is_focused, Some(*st), entries@));
        }
        return lines;
    }
    let mut count = String::from_str("Files: ");
    push_decimal(&mut count, entries.len() as u64);
    count.append("  ");
    push_settings(&mut count, st);
    push_line(&mut lines, count, LineTone::Plain);
    let ghost head = lines_view(lines@);
    let ghost f = |i: int| (entry_row(entries@[i], st.selected_index == Some(i as usize)), LineTone::Plain);
    let mut i: usize = 0;
    proof {
        assert(head + Seq::new(0, f) =~= head);
    }
    while i < entries.len()
        invariant
            i <= entries.len(),
            f == (|i: int| (entry_row(entries@[i], st.selected_index == Some(i as usize)), LineTone::Plain)),
            lines_view(lines@) == head + Seq::new(i as nat, f),
        decreases entries.len() - i,
    {
        let selected = match st.selected_index {
            Some(s) => s == i,
            None => false,
        };
        push_line(&mut lines, entry_row_text(&entries[i], selected), LineTone::Plain);
        proof {
            assert(head + Seq::new((i + 1) as nat, f) =~= (head + Seq::new(i as nat, f)).push(f(i as int)));
        }
        i = i + 1;
    }
    proof {
        assert(lines_view(lines@) =~~= section_rows(section, is_focused, Some(*st), entries@));
    }
    lines
}

/// The unstaged list, followed by the progress of the last git operation.
pub fn repo_unstaged_lines(
    st: Option<&StatusListState>,
    entries: &Vec<StatusEntry>,
    is_focused: bool,
    progress: &OperationProgress,
) -> (lines: Vec<StyledLine>)
    ensures
        lines_view(lines@) == section_rows(
            FileStatusSection::Unstaged,
            is_focused,
            match st {
                Some(s) => Some(*s),
                None => None,
            },
            entries@,
        ).push(("Progress: "@ + progress_text(*progress), LineTone::Plain)),
{
    let mut lines = repo_status_section_lines(st, entries, is_focused, FileStatusSection::Unstaged);
    let mut p = String::from_str("Progress: ");
    p.append(operation_progress_label(progress).as_str());
    push_line(&mut lines, p, LineTone::Plain);
    lines
}

/// The staged list.
pub fn repo_staged_lines(st: Option<&StatusListState>, entries: &Vec<StatusEntry>, is_focused: bool) -> (lines: Vec<
    StyledLine,
>)
    ensures
        lines_view(lines@) == section_rows(
            FileStatusSection::Staged,
            is_focused,
            match st {
                Some(s) => Some(*s),
                None => None,
            },
            entries@,
        ),
{
    repo_status_section_lines(st, entries, is_focused, FileStatusSection::Staged)
}

/// A file of the working tree with its staged and unstaged status.
#[derive(Clone, Debug, PartialEq, Eq)]
pub struct StatusFile {
    pub path: String,
    pub kind: FileStatusKind,
    pub staged_kind: Option<FileStatusKind>,
    pub unstaged_kind: Option<FileStatusKind>,
}

/// How many of the files have staged changes.
pub open spec fn staged_count(files: Seq<StatusFile>) -> nat
    decreases files.len(),
{
    if files.len() == 0 {
        0
    } else {
        staged_count(files.drop_last()) + if files.last().staged_kind is Some {
            1nat
        } else {
            0nat
        }
    }
}

/// What the commit box reads of the repository detail.
#[derive(Clone, Debug, PartialEq, Eq)]
pub struct CommitBoxDetail {
    pub file_tree: Vec<StatusFile>,
    pub commit_count: usize,
    pub commit_input: String,
}

/// What the commit box says of its message: whether it can be confirmed, and why not.
pub open spec fn validation_text(mode: CommitBoxMode, staged: nat, commits: nat, input: Seq<char>) -> Seq<char> {
    let blank = trim(input).len() == 0;
    match mode {
        CommitBoxMode::Commit => if staged == 0 {
            "Validation: stage at least one file before committing."@
        } else if blank {
            "Validation: enter a commit message before confirming."@
        } else {
            "Ready: create a commit from "@ + decimal(staged) + " staged file(s)."@
        },
        CommitBoxMode::CommitNoVerify => if staged == 0 {
            "Validation: stage at least one file before committing."@
        } else if blank {
            "Validation: enter a commit message before confirming."@
        } else {
            "Ready: create a no-verify commit from "@ + decimal(staged) + " staged file(s)."@
        },
        CommitBoxMode::Amend => if commits == 0 {
            "Validation: no commits available to amend."@
        } else if blank {
            "Ready: amend HEAD and keep the current commit message."@
        } else {
            "Ready: amend HEAD with the edited message."@
        },
    }
}

/// The first line of the commit box, by mode.
pub open spec fn commit_box_intro(mode: CommitBoxMode) -> Seq<char> {
    match mode {
        CommitBoxMode::Commit => "Type a new commit message without leaving status view."@,
        CommitBoxMode::CommitNoVerify => "Type a commit message and skip pre-commit hooks for this commit."@,
        CommitBoxMode::Amend => "Type a replacement HEAD message, or leave it blank to reuse it."@,
    }
}

/// The commit box: what to type, the staged and commit counts, the message with a cursor,
/// its validation, and the keys.
pub open spec fn commit_box_rows(detail: Option<CommitBoxDetail>, mode: CommitBoxMode) -> Seq<(Seq<char>, LineTone)> {
    match detail {
        None => seq![
            ("Repository detail is still loading."@, LineTone::Plain),
            ("Esc cancel"@, LineTone::Plain),
        ],
        Some(d) => {
            let staged = staged_count(d.file_tree@);
            seq![
                (commit_box_intro(mode), LineTone::Heading),
                (
                    "Staged files: "@ + decimal(staged) + "  Existing commits: "@ + decimal(d.commit_count as nat),
                    LineTone::Plain,
                ),
                ("Message: "@ + d.commit_input@ + "_"@, LineTone::MessageInput),
                (validation_text(mode, staged, d.commit_count as nat, d.commit_input@), LineTone::Plain),
                ("Enter confirm  Esc cancel  Backspace delete  Paste insert"@, LineTone::Plain),
            ]
        },
    }
}

fn count_staged(files: &Vec<StatusFile>) -> (n: usize)
    ensures
        n == staged_count(files@),
{
    let mut n: usize = 0;
    let mut i: usize = 0;
    while i < files.len()
        invariant
            i <= files.len(),
            n == staged_count(files@.take(i as int)),
            n <= i,
        decreases files.len() - i,
    {
        proof {
            assert(files@.take(i + 1).drop_last() =~= files@.take(i as int));
        }
        if files[i].staged_kind.is_some() {
            n = n + 1;
        }
        i = i + 1;
    }
    proof {
        assert(files@.take(files.len() as int) =~= files@);
    }
    n
}

/// The commit box (see `commit_box_rows`).
pub fn commit_box_lines(detail: Option<&CommitBoxDetail>, mode: CommitBoxMode) -> (lines: Vec<StyledLine>)
    ensures
        lines_view(lines@) == commit_box_rows(
            match detail {
                Some(d) => Some(*d),
                None => None,
            },
            mode,
        ),
{
    let mut lines: Vec<StyledLine> = Vec::new();
    let d = match detail {
        Some(d) => d,
        None => {
            push_line(&mut lines, String::from_str("Repository detail is still loading."), LineTone::Plain);
            push_line(&mut lines, String::from_str("Esc cancel"), LineTone::Plain);
            proof {
                assert(lines_view(lines@) =~~= commit_box_rows(None, mode));
            }
            return lines;
        },
    };
    let staged = count_staged(&d.file_tree);
    let blank = char_count(trim_str(d.commit_input.as_str())) == 0;
    let intro = match mode {
        CommitBoxMode::Commit => "Type a new commit message without leaving status view.",
        CommitBoxMode::CommitNoVerify => "Type a commit message and skip pre-commit hooks for this commit.",
        CommitBoxMode::Amend => "Type a replacement HEAD message, or leave it blank to reuse it.",
    };
    push_line(&mut lines, String::from_str(intro), LineTone::Heading);
    let mut counts = String::from_str("Staged files: ");
    push_decimal(&mut counts, staged as u64);
    counts.append("  Existing commits: ");
    push_decimal(&mut counts, d.commit_count as u64);
    push_line(&mut lines, counts, LineTone::Plain);
    let mut message = String::from_str("Message: ");
    message.append(d.commit_input.as_str());
    message.append("_");
    push_line(&mut lines, message, LineTone::MessageInput);
    let validation = match mode {
        CommitBoxMode::Commit => if staged == 0 {
            String::from_str("Validation: stage at least one file before committing.")
        } else if blank {
            String::from_str("Validation: enter a commit message before confirming.")
        } else {
            let mut v = String::from_str("Ready: create a commit from ");
            push_decimal(&mut v, staged as u64);
            v.append(" staged file(s).");
            v
        },
        CommitBoxMode::CommitNoVerify => if staged == 0 {
            String::from_str("Validation: stage at least one file before committing.")
        } else if blank {
            String::from_str("Validation: enter a commit message before confirming.")
        } else {
            let mut v = String::from_str("Ready: create a no-verify commit from ");
            push_decimal(&mut v, staged as u64);
            v.append(" staged file(s).");
            v
        },
        CommitBoxMode::Amend => if d.commit_count == 0 {
            String::from_str("Validation: no commits available to amend.")
        } else if blank {
            String::from_str("Ready: amend HEAD and keep the current commit message.")
        } else {
            String::from_str("Ready: amend HEAD with the edited message.")
        },
    };
    push_line(&mut lines, validation, LineTone::Plain);
    push_line(
        &mut lines,
        String::from_str("Enter confirm  Esc cancel  Backspace delete  Paste insert"),
        LineTone::Plain,
    );
    proof {
        assert(lines_view(lines@) =~~= commit_box_rows(Some(*d), mode));
    }
    lines
}

} // verus!
