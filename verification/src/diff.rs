use vstd::prelude::*;

use crate::labels::{diff_presentation_label, diff_presentation_text};
use crate::model::DiffPresentation;
use crate::text::{
    comparison_target_label, decimal, lines_view, push_decimal, push_line, target_text, truncate_lines,
    truncated_lines, ComparisonTarget, LineTone, StyledLine,
};

verus! {

/// What a line of a diff is.
#[derive(Clone, Copy, Debug, PartialEq, Eq)]
pub enum DiffLineKind {
    Meta,
    HunkHeader,
    Addition,
    Removal,
    Context,
}

#[derive(Clone, Debug, PartialEq, Eq)]
pub struct DiffLine {
    pub kind: DiffLineKind,
    pub content: String,
}

/// A hunk: the index of its header line and the index just past its last line.
#[derive(Clone, Copy, Debug, PartialEq, Eq)]
pub struct DiffHunk {
    pub start_line_index: usize,
    pub end_line_index: usize,
}

/// The diff in the detail pane, its hunks and the selected hunk.
#[derive(Clone, Debug, PartialEq, Eq)]
pub struct DiffModel {
    /// The file the diff is of; the whole working tree when absent.
    pub selected_path: Option<String>,
    pub presentation: DiffPresentation,
    pub lines: Vec<DiffLine>,
    pub hunks: Vec<DiffHunk>,
    pub selected_hunk: Option<usize>,
    pub hunk_count: usize,
}

/// Whether a line adds or removes text, and so can be staged on its own.
pub open spec fn is_change(k: DiffLineKind) -> bool {
    k is Addition || k is Removal
}

/// The indices in `lo..hi` of the lines that change text, in order.
pub open spec fn changed_lines(lines: Seq<DiffLine>, lo: usize, hi: usize) -> Seq<usize>
    decreases hi - lo,
{
    if hi <= lo {
        Seq::empty()
    } else {
        let p = changed_lines(lines, lo, (hi - 1) as usize);
        if is_change(lines[hi - 1].kind) {
            p.push((hi - 1) as usize)
        } else {
            p
        }
    }
}

/// The first index of `x` in `s` at or after `k`, or -1.
pub open spec fn first_pos_from(s: Seq<usize>, x: usize, k: int) -> int
    decreases s.len() - k,
{
    if k >= s.len() || k < 0 {
        -1
    } else if s[k] == x {
        k
    } else {
        first_pos_from(s, x, k + 1)
    }
}

/// The first index of `x` in `s`, or -1.
pub open spec fn first_pos(s: Seq<usize>, x: usize) -> int {
    first_pos_from(s, x, 0)
}

/// The selected hunk, if the selection names one.
pub open spec fn selected_hunk_of(d: DiffModel) -> Option<DiffHunk> {
    match d.selected_hunk {
        Some(i) => if i < d.hunks.len() {
            Some(d.hunks@[i as int])
        } else {
            None
        },
        None => None,
    }
}

/// The selected hunk's lines can be read: its body lies within the diff.
pub open spec fn selected_hunk_readable(d: DiffModel) -> bool {
    match selected_hunk_of(d) {
        Some(h) => h.start_line_index < usize::MAX && (h.start_line_index + 1 < h.end_line_index
            ==> h.end_line_index <= d.lines.len()),
        None => true,
    }
}

/// The lines of the selected hunk that can be staged one by one.
pub open spec fn selectable_lines(d: DiffModel) -> Seq<usize> {
    match selected_hunk_of(d) {
        Some(h) => changed_lines(d.lines@, (h.start_line_index + 1) as usize, h.end_line_index),
        None => Seq::empty(),
    }
}

/// The selected hunk and the number of hunks, `i/n`, or `0/0` without a selection.
pub open spec fn hunk_label_text(selected: Option<usize>, count: nat) -> Seq<char> {
    match selected {
        Some(i) => if count > 0 {
            decimal((i + 1) as nat) + "/"@ + decimal(count)
        } else {
            "0/0"@
        },
        None => "0/0"@,
    }
}

/// Which hunk is selected, as `i/n` (see `hunk_label_text`).
pub fn selected_hunk_label(diff: &DiffModel) -> (res: String)
    requires
        diff.selected_hunk != Some(usize::MAX),
    ensures
        res@ == hunk_label_text(diff.selected_hunk, diff.hunks.len() as nat),
{
    match diff.selected_hunk {
        Some(index) => {
            if diff.hunks.len() > 0 {
                let mut s = String::new();
                push_decimal(&mut s, (index + 1) as u64);
                s.append("/");
                push_decimal(&mut s, diff.hunks.len() as u64);
                proof {
                    assert(Seq::<char>::empty() + decimal((index + 1) as nat) =~= decimal(
                        (index + 1) as nat,
                    ));
                }
                s
            } else {
                String::from_str("0/0")
            }
        },
        None => String::from_str("0/0"),
    }
}

fn collect_selectable(diff: &DiffModel, lo: usize, hi: usize) -> (res: Vec<usize>)
    requires
        lo < hi ==> hi <= diff.lines.len(),
    ensures
        res@ == changed_lines(diff.lines@, lo, hi),
{
    let mut res: Vec<usize> = Vec::new();
    let mut k = lo;
    if hi <= lo {
        return res;
    }
    while k < hi
        invariant
            lo <= k <= hi,
            hi <= diff.lines.len(),
            res@ == changed_lines(diff.lines@, lo, k),
        decreases hi - k,
    {
        match diff.lines[k].kind {
            DiffLineKind::Addition | DiffLineKind::Removal => res.push(k),
            _ => {},
        }
        k = k + 1;
    }
    res
}

/// The selectable lines of the selected hunk (see `selectable_lines`).
fn selected_selectable_lines(diff: &DiffModel) -> (res: Option<Vec<usize>>)
    requires
        selected_hunk_readable(*diff),
    ensures
        res is Some <==> selected_hunk_of(*diff) is Some,
        res matches Some(v) ==> v@ == selectable_lines(*diff),
{
    match diff.selected_hunk {
        Some(i) => {
            if i < diff.hunks.len() {
                let h = diff.hunks[i];
                Some(collect_selectable(diff, h.start_line_index + 1, h.end_line_index))
            } else {
                None
            }
        },
        None => None,
    }
}

proof fn lemma_first_pos_from(s: Seq<usize>, x: usize, k: int)
    requires
        0 <= k <= s.len(),
    ensures
        first_pos_from(s, x, k) >= 0 <==> exists|j: int| k <= j < s.len() && s[j] == x,
        first_pos_from(s, x, k) >= 0 ==> k <= first_pos_from(s, x, k) < s.len() && s[first_pos_from(
            s,
            x,
            k,
        )] == x,
    decreases s.len() - k,
{
    if k < s.len() {
        lemma_first_pos_from(s, x, k + 1);
    }
}

/// `first_pos` finds exactly the elements of the sequence, at a place that holds them.
pub proof fn lemma_first_pos(s: Seq<usize>, x: usize)
    ensures
        first_pos(s, x) >= 0 <==> s.contains(x),
        first_pos(s, x) >= 0 ==> first_pos(s, x) < s.len() && s[first_pos(s, x)] == x,
{
    lemma_first_pos_from(s, x, 0);
}

/// Where `x` first stands in `s` (see `first_pos`).
pub fn position_of(s: &Vec<usize>, x: usize) -> (res: Option<usize>)
    ensures
        match res {
            Some(i) => i < s.len() && i as int == first_pos(s@, x),
            None => first_pos(s@, x) == -1,
        },
{
    let mut k: usize = 0;
    while k < s.len()
        invariant
            k <= s.len(),
            first_pos(s@, x) == first_pos_from(s@, x, k as int),
        decreases s.len() - k,
    {
        if s[k] == x {
            return Some(k);
        }
        k = k + 1;
    }
    None
}

/// The cursor's place among the selectable lines of the selected hunk and their number,
/// `i/n`; `0/n` when the cursor is elsewhere, `0/0` when there is nothing to select.
pub open spec fn line_label_text(d: DiffModel, cursor: Option<usize>) -> Seq<char> {
    let sel = selectable_lines(d);
    if selected_hunk_of(d) is None || sel.len() == 0 {
        "0/0"@
    } else {
        let current = match cursor {
            Some(c) => first_pos(sel, c) + 1,
            None => 0,
        };
        decimal(current as nat) + "/"@ + decimal(sel.len())
    }
}

/// The cursor's place among the selectable lines (see `line_label_text`).
pub fn selected_diff_line_label(cursor: Option<usize>, diff: &DiffModel) -> (res: String)
    requires
        selected_hunk_readable(*diff),
    ensures
        res@ == line_label_text(*diff, cursor),
{
    let selectable = match selected_selectable_lines(diff) {
        Some(v) => v,
        None => return String::from_str("0/0"),
    };
    if selectable.len() == 0 {
        return String::from_str("0/0");
    }
    let current: usize = match cursor {
        Some(c) => match position_of(&selectable, c) {
            Some(i) => i + 1,
            None => 0,
        },
        None => 0,
    };
    let mut s = String::new();
    push_decimal(&mut s, current as u64);
    s.append("/");
    push_decimal(&mut s, selectable.len() as u64);
    proof {
        assert(Seq::<char>::empty() + decimal(current as nat) =~= decimal(current as nat));
    }
    s
}

/// How many lines the range from the anchor to the cursor spans, both ends included; one
/// line without an anchor among the selectable lines, none without the cursor among them.
pub open spec fn range_label_text(d: DiffModel, cursor: Option<usize>, anchor: Option<usize>) -> Seq<char> {
    let sel = selectable_lines(d);
    let cp = match cursor {
        Some(c) => first_pos(sel, c),
        None => -1,
    };
    if selected_hunk_of(d) is None || cp < 0 {
        "0 line(s)"@
    } else {
        let ap = match anchor {
            Some(a) => first_pos(sel, a),
            None => -1,
        };
        let count = if ap < 0 {
            1
        } else if ap >= cp {
            ap - cp + 1
        } else {
            cp - ap + 1
        };
        decimal(count as nat) + " line(s)"@
    }
}

/// How many lines the selected range spans (see `range_label_text`).
pub fn selected_diff_range_label(cursor: Option<usize>, anchor: Option<usize>, diff: &DiffModel) -> (res: String)
    requires
        selected_hunk_readable(*diff),
    ensures
        res@ == range_label_text(*diff, cursor, anchor),
{
    let selectable = match selected_selectable_lines(diff) {
        Some(v) => v,
        None => return String::from_str("0 line(s)"),
    };
    let cursor_index = match cursor {
        Some(c) => match position_of(&selectable, c) {
            Some(i) => i,
            None => return String::from_str("0 line(s)"),
        },
        None => return String::from_str("0 line(s)"),
    };
    let count: usize = match anchor {
        Some(a) => match position_of(&selectable, a) {
            Some(anchor_index) => if anchor_index >= cursor_index {
                anchor_index - cursor_index + 1
            } else {
                cursor_index - anchor_index + 1
            },
            None => 1,
        },
        None => 1,
    };
    let mut s = String::new();
    push_decimal(&mut s, count as u64);
    s.append(" line(s)");
    proof {
        assert(Seq::<char>::empty() + decimal(count as nat) =~= decimal(count as nat));
    }
    s
}

/// The help line over the diff: the staging keys and mode of the working-tree and staged
/// diffs (merge resolution while a merge-like operation runs), or the reading keys of a
/// comparison, each with the selected range.
pub open spec fn diff_help_text(presentation: DiffPresentation, merge_clean: bool, range: Seq<char>) -> Seq<char> {
    match presentation {
        DiffPresentation::Unstaged => "Line select: J/K cursor  v range  L stage lines  Enter/Space stage hunk  Mode: "@
            + if merge_clean {
            "working tree staging"@
        } else {
            "merge resolution"@
        } + "  Range: "@ + range,
        DiffPresentation::Staged => "Line select: J/K cursor  v range  L unstage lines  Enter/Space unstage hunk  Mode: staged changes  Range: "@
            + range,
        DiffPresentation::Comparison => "Read-only diff: j/k hunks  Down/Up scroll  Mode: comparison  Range: "@ + range,
    }
}

/// The help line over the diff (see `diff_help_text`); `merge_clean` says that no merge,
/// rebase, cherry-pick or revert is in progress.
pub fn diff_action_help_line(
    cursor: Option<usize>,
    anchor: Option<usize>,
    diff: &DiffModel,
    merge_clean: bool,
) -> (res: String)
    requires
        selected_hunk_readable(*diff),
    ensures
        res@ == diff_help_text(diff.presentation, merge_clean, range_label_text(*diff, cursor, anchor)),
{
    let range = selected_diff_range_label(cursor, anchor, diff);
    match diff.presentation {
        DiffPresentation::Unstaged => {
            let mut s = String::from_str(
                "Line select: J/K cursor  v range  L stage lines  Enter/Space stage hunk  Mode: ",
            );
            if merge_clean {
                s.append("working tree staging");
            } else {
                s.append("merge resolution");
            }
            s.append("  Range: ");
            s.append(range.as_str());
            s
        },
        DiffPresentation::Staged => {
            let mut s = String::from_str(
                "Line select: J/K cursor  v range  L unstage lines  Enter/Space unstage hunk  Mode: staged changes  Range: ",
            );
            s.append(range.as_str());
            s
        },
        DiffPresentation::Comparison => {
            let mut s = String::from_str(
                "Read-only diff: j/k hunks  Down/Up scroll  Mode: comparison  Range: ",
            );
            s.append(range.as_str());
            s
        },
    }
}

/// Which selections a line of the status diff belongs to.
#[derive(Clone, Copy, Debug, PartialEq, Eq)]
pub struct DiffMarks {
    /// The line lies in the selected hunk (outside comparisons).
    pub hunk: bool,
    /// The line lies between the anchor and the cursor, both included.
    pub range: bool,
    pub anchor: bool,
    pub cursor: bool,
}

/// The marks of line `i` of the diff.
pub open spec fn marks_of(d: DiffModel, cursor: Option<usize>, anchor: Option<usize>, i: int) -> DiffMarks {
    DiffMarks {
        hunk: match selected_hunk_of(d) {
            Some(h) => h.start_line_index <= i < h.end_line_index && d.presentation != DiffPresentation::Comparison,
            None => false,
        },
        range: match cursor {
            Some(c) => {
                let a = match anchor {
                    Some(a) => a,
                    None => c,
                };
                (if a <= c { a } else { c }) <= i <= (if a <= c { c } else { a })
            },
            None => false,
        },
        anchor: anchor == Some(i as usize),
        cursor: cursor == Some(i as usize),
    }
}

/// The window of the diff that the status detail shows: `(first, end)`, after the three
/// header lines, scrolled by at most as much as keeps the window full.
pub open spec fn diff_window(len: nat, scroll: nat, viewport: nat) -> (nat, nat) {
    let cap: nat = if viewport > 4 {
        (viewport - 3) as nat
    } else {
        1
    };
    let max_scroll: nat = if len > cap {
        (len - cap) as nat
    } else {
        0
    };
    let s = if scroll < max_scroll {
        scroll
    } else {
        max_scroll
    };
    let end = if s + cap < len {
        s + cap
    } else {
        len
    };
    (s, end)
}

/// The file a diff is of.
pub open spec fn diff_subject(d: DiffModel) -> Seq<char> {
    match d.selected_path {
        Some(p) => p@,
        None => "working tree"@,
    }
}

/// The status detail: the diff's file, presentation, hunk and line positions and window,
/// its help line, and the window of its lines with their marks.
pub open spec fn status_diff_rows(
    diff: Option<DiffModel>,
    cursor: Option<usize>,
    anchor: Option<usize>,
    merge_clean: bool,
    scroll: nat,
    viewport: nat,
) -> Seq<(Seq<char>, LineTone)> {
    match diff {
        None => seq![("Status diff"@, LineTone::Heading), ("Repository detail is still loading."@, LineTone::Plain)],
        Some(d) => if d.lines.len() == 0 {
            seq![
                ("Path: "@ + diff_subject(d), LineTone::Heading),
                ("No diff available for the current selection."@, LineTone::Plain),
            ]
        } else {
            let (s, end) = diff_window(d.lines.len() as nat, scroll, viewport);
            seq![
                ("Path: "@ + diff_subject(d) + " ("@ + diff_presentation_text(d.presentation) + ")"@, LineTone::Heading),
                (
                    "Hunks: "@ + decimal(d.hunk_count as nat) + "  Selected: "@ + hunk_label_text(
                        d.selected_hunk,
                        d.hunks.len() as nat,
                    ) + "  Changed lines: "@ + line_label_text(d, cursor) + "  Showing "@ + decimal(s + 1)
                        + "-"@ + decimal(end),
                    LineTone::Plain,
                ),
                (diff_help_text(d.presentation, merge_clean, range_label_text(d, cursor, anchor)), LineTone::Plain),
            ] + Seq::new(
                (end - s) as nat,
                |o: int|
                    (
                        d.lines@[s + o].content@,
                        LineTone::MarkedDiff(d.lines@[s + o].kind, marks_of(d, cursor, anchor, s + o)),
                    ),
            )
        },
    }
}

fn marks_at(d: &DiffModel, cursor: Option<usize>, anchor: Option<usize>, i: usize) -> (m: DiffMarks)
    ensures
        m == marks_of(*d, cursor, anchor, i as int),
{
    let hunk = match d.selected_hunk {
        Some(h) => if h < d.hunks.len() {
            let hunk = d.hunks[h];
            hunk.start_line_index <= i && i < hunk.end_line_index && match d.presentation {
                DiffPresentation::Comparison => false,
                _ => true,
            }
        } else {
            false
        },
        None => false,
    };
    let range = match cursor {
        Some(c) => {
            let a = match anchor {
                Some(a) => a,
                None => c,
            };
            let lo = if a <= c {
                a
            } else {
                c
            };
            let hi = if a <= c {
                c
            } else {
                a
            };
            lo <= i && i <= hi
        },
        None => false,
    };
    let is_anchor = match anchor {
        Some(a) => a == i,
        None => false,
    };
    let is_cursor = match cursor {
        Some(c) => c == i,
        None => false,
    };
    DiffMarks { hunk, range, anchor: is_anchor, cursor: is_cursor }
}

/// The lines of the status detail (see `status_diff_rows`): `cursor` and `anchor` are the
/// line selection, `merge_clean` says that no merge-like operation runs.
#[verifier::rlimit(50)]
pub fn repo_diff_lines(
    diff: Option<&DiffModel>,
    cursor: Option<usize>,
    anchor: Option<usize>,
    merge_clean: bool,
    scroll: usize,
    viewport_lines: usize,
) -> (lines: Vec<StyledLine>)
    requires
        diff matches Some(d) ==> selected_hunk_readable(*d) && d.selected_hunk != Some(usize::MAX),
    ensures
        lines_view(lines@) == status_diff_rows(
            match diff {
                Some(d) => Some(*d),
                None => None,
            },
            cursor,
            anchor,
            merge_clean,
            scroll as nat,
            viewport_lines as nat,
        ),
{
    let mut lines: Vec<StyledLine> = Vec::new();
    let d = match diff {
        Some(d) => d,
        None => {
            push_line(&mut lines, String::from_str("Status diff"), LineTone::Heading);
            push_line(&mut lines, String::from_str("Repository detail is still loading."), LineTone::Plain);
            proof {
                assert(lines_view(lines@) =~~= status_diff_rows(
                    None,
                    cursor,
                    anchor,
                    merge_clean,
                    scroll as nat,
                    viewport_lines as nat,
                ));
            }
            return lines;
        },
    };
    let mut path = String::from_str("Path: ");
    match &d.selected_path {
        Some(p) => path.append(p.as_str()),
        None => path.append("working tree"),
    }
    if d.lines.len() == 0 {
        push_line(&mut lines, path, LineTone::Heading);
        push_line(&mut lines, String::from_str("No diff available for the current selection."), LineTone::Plain);
        proof {
            assert(lines_view(lines@) =~~= status_diff_rows(
                Some(*d),
                cursor,
                anchor,
                merge_clean,
                scroll as nat,
                viewport_lines as nat,
            ));
        }
        return lines;
    }
    let len = d.lines.len();
    let cap: usize = if viewport_lines > 4 {
        viewport_lines - 3
    } else {
        1
    };
    let max_scroll: usize = if len > cap {
        len - cap
    } else {
        0
    };
    let s: usize = if scroll < max_scroll {
        scroll
    } else {
        max_scroll
    };
    let end: usize = if len - s > cap {
        s + cap
    } else {
        len
    };
    path.append(" (");
    path.append(diff_presentation_label(d.presentation));
    path.append(")");
    push_line(&mut lines, path, LineTone::Heading);
    let mut counts = String::from_str("Hunks: ");
    push_decimal(&mut counts, d.hunk_count as u64);
    counts.append("  Selected: ");
    counts.append(selected_hunk_label(d).as_str());
    counts.append("  Changed lines: ");
    counts.append(selected_diff_line_label(cursor, d).as_str());
    counts.append("  Showing ");
    push_decimal(&mut counts, (s + 1) as u64);
    counts.append("-");
    push_decimal(&mut counts, end as u64);
    push_line(&mut lines, counts, LineTone::Plain);
    push_line(&mut lines, diff_action_help_line(cursor, anchor, d, merge_clean), LineTone::Plain);
    proof {
        assert(diff_window(len as nat, scroll as nat, viewport_lines as nat) == (s as nat, end as nat));
    }
    let ghost head = lines_view(lines@);
    let ghost f = |o: int|
        (d.lines@[s + o].content@, LineTone::MarkedDiff(d.lines@[s + o].kind, marks_of(*d, cursor, anchor, s + o)));
    let mut i: usize = s;
    proof {
        assert(head + Seq::new(0, f) =~= head);
    }
    while i < end
        invariant
            s <= i <= end,
            end <= d.lines.len(),
            f == (|o: int|
                (
                    d.lines@[s + o].content@,
                    LineTone::MarkedDiff(d.lines@[s + o].kind, marks_of(*d, cursor, anchor, s + o)),
                )),
            lines_view(lines@) == head + Seq::new((i - s) as nat, f),
        decreases end - i,
    {
        let line = &d.lines[i];
        push_line(&mut lines, line.content.clone(), LineTone::MarkedDiff(line.kind, marks_at(d, cursor, anchor, i)));
        proof {
            assert(head + Seq::new((i + 1 - s) as nat, f) =~= (head + Seq::new((i - s) as nat, f)).push(
                f(i - s),
            ));
        }
        i = i + 1;
    }
    proof {
        assert(lines_view(lines@) =~~= status_diff_rows(
            Some(*d),
            cursor,
            anchor,
            merge_clean,
            scroll as nat,
            viewport_lines as nat,
        ));
    }
    lines
}

/// A comparison end by name, or `-`.
pub open spec fn end_text(t: Option<ComparisonTarget>) -> Seq<char> {
    match t {
        Some(x) => target_text(x),
        None => "-"@,
    }
}

/// The compare subview: what is compared, how to leave, and the comparison diff in what the
/// viewport leaves (at least one line), all cut to the viewport.
pub open spec fn compare_rows(
    diff: Option<DiffModel>,
    base: Option<ComparisonTarget>,
    target: Option<ComparisonTarget>,
    merge_clean: bool,
    scroll: nat,
    viewport: nat,
) -> Seq<(Seq<char>, LineTone)> {
    let remaining: nat = if viewport > 3 {
        (viewport - 2) as nat
    } else {
        1
    };
    truncated_lines(
        seq![
            ("Comparing "@ + end_text(base) + " -> "@ + end_text(target), LineTone::Heading),
            ("x clears compare and returns to history."@, LineTone::Plain),
        ] + status_diff_rows(diff, None, None, merge_clean, scroll, remaining),
        if viewport >= 1 {
            viewport
        } else {
            1
        },
    )
}

/// The lines of the compare subview (see `compare_rows`).
#[verifier::rlimit(50)]
pub fn repo_compare_lines(
    diff: Option<&DiffModel>,
    comparison_base: Option<&ComparisonTarget>,
    comparison_target: Option<&ComparisonTarget>,
    merge_clean: bool,
    scroll: usize,
    viewport_lines: usize,
) -> (lines: Vec<StyledLine>)
    requires
        diff matches Some(d) ==> selected_hunk_readable(*d) && d.selected_hunk != Some(usize::MAX),
    ensures
        lines_view(lines@) == compare_rows(
            match diff {
                Some(d) => Some(*d),
                None => None,
            },
            match comparison_base {
                Some(b) => Some(*b),
                None => None,
            },
            match comparison_target {
                Some(t) => Some(*t),
                None => None,
            },
            merge_clean,
            scroll as nat,
            viewport_lines as nat,
        ),
{
    let mut lines: Vec<StyledLine> = Vec::new();
    let mut heading = String::from_str("Comparing ");
    match comparison_base {
        Some(b) => heading.append(comparison_target_label(b).as_str()),
        None => heading.append("-"),
    }
    heading.append(" -> ");
    match comparison_target {
        Some(t) => heading.append(comparison_target_label(t).as_str()),
        None => heading.append("-"),
    }
    push_line(&mut lines, heading, LineTone::Heading);
    push_line(&mut lines, String::from_str("x clears compare and returns to history."), LineTone::Plain);
    let remaining: usize = if viewport_lines > 3 {
        viewport_lines - 2
    } else {
        1
    };
    let ghost head = lines_view(lines@);
    let body = repo_diff_lines(diff, None, None, merge_clean, scroll, remaining);
    let mut k: usize = 0;
    while k < body.len()
        invariant
            k <= body.len(),
            lines_view(lines@) == head + lines_view(body@).take(k as int),
        decreases body.len() - k,
    {
        push_line(&mut lines, body[k].text.clone(), body[k].tone);
        proof {
            assert(lines_view(body@).take(k + 1) =~= lines_view(body@).take(k as int).push(
                lines_view(body@)[k as int],
            ));
        }
        k = k + 1;
    }
    proof {
        assert(lines_view(body@).take(body.len() as int) =~= lines_view(body@));
    }
    let limit = if viewport_lines >= 1 {
        viewport_lines
    } else {
        1
    };
    truncate_lines(&mut lines, limit);
    lines
}

} // verus!
