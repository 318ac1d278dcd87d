use vstd::prelude::*;

use crate::diff::DiffLine;
use crate::labels::{rebase_kind_label, rebase_kind_text, RebaseKind};
use crate::panes::{or_text, push_or};
use crate::text::{decimal, lines_view, push_decimal, push_line, truncate_lines, truncated_lines, LineTone, StyledLine};

verus! {

/// The state of an ongoing rebase.
#[derive(Clone, Debug, PartialEq, Eq)]
pub struct RebaseState {
    pub kind: RebaseKind,
    pub step: usize,
    pub total: usize,
    pub head_name: Option<String>,
    pub onto: Option<String>,
    pub current_commit: Option<String>,
    pub current_summary: Option<String>,
    /// The upcoming todo lines.
    pub todo_preview: Vec<String>,
}

/// The larger of two numbers.
pub open spec fn larger(a: nat, b: nat) -> nat {
    if a >= b {
        a
    } else {
        b
    }
}

/// The body of the rebase subview: mode and step (at least 1, of at least the step), branch
/// and base, current commit, keys, the queued commands, and up to eight lines of diff.
pub open spec fn rebase_body(r: RebaseState, diff: Seq<DiffLine>) -> Seq<(Seq<char>, LineTone)> {
    let step = larger(r.step as nat, 1);
    let head = seq![
        (
            "Mode: "@ + rebase_kind_text(r.kind) + "  Step: "@ + decimal(step) + "/"@ + decimal(
                larger(r.total as nat, step),
            ),
            LineTone::Plain,
        ),
        ("Branch: "@ + or_text(r.head_name, "detached"@) + "  Onto: "@ + or_text(r.onto, "-"@), LineTone::Plain),
        (
            "Current: "@ + or_text(r.current_commit, "-"@) + "  "@ + or_text(
                r.current_summary,
                "waiting for git metadata"@,
            ),
            LineTone::Plain,
        ),
        ("c continue  s skip  A abort  j/k scroll"@, LineTone::Plain),
        ("Older-commit amend: switch to Status, press A to amend, then continue."@, LineTone::Plain),
    ];
    let todo = if r.todo_preview.len() == 0 {
        seq![("Todo: no queued rebase commands remain."@, LineTone::Plain)]
    } else {
        seq![("Upcoming commands:"@, LineTone::Plain)] + Seq::new(
            r.todo_preview.len() as nat,
            |i: int| ("  "@ + r.todo_preview@[i]@, LineTone::Plain),
        )
    };
    let preview = if diff.len() == 0 {
        seq![("Diff preview: no working tree diff for the current rebase step."@, LineTone::Plain)]
    } else {
        let shown: nat = if diff.len() < 8 {
            diff.len()
        } else {
            8
        };
        seq![("Diff preview:"@, LineTone::Plain)] + Seq::new(
            shown,
            |i: int| (diff[i].content@, LineTone::Diff(diff[i].kind)),
        )
    };
    head + todo + preview
}

/// The rebase subview: a loading note, a note that no rebase runs, or the heading and the
/// body scrolled by at most as much as keeps the window full, cut to the viewport.
pub open spec fn rebase_rows(
    loaded: bool,
    rebase: Option<RebaseState>,
    diff: Seq<DiffLine>,
    scroll: nat,
    viewport: nat,
) -> Seq<(Seq<char>, LineTone)> {
    if !loaded {
        seq![("Rebase"@, LineTone::Heading), ("Repository detail is still loading."@, LineTone::Plain)]
    } else {
        match rebase {
            None => seq![
                ("Rebase"@, LineTone::Heading),
                ("No rebase is currently active."@, LineTone::Plain),
                ("Use i from Commits to start an interactive rebase."@, LineTone::Plain),
            ],
            Some(r) => {
                let body = rebase_body(r, diff);
                let cap: nat = if viewport > 2 {
                    (viewport - 1) as nat
                } else {
                    1
                };
                let max_scroll: nat = if body.len() > cap {
                    (body.len() - cap) as nat
                } else {
                    0
                };
                let s: nat = if scroll < max_scroll {
                    scroll
                } else {
                    max_scroll
                };
                let end: nat = if s + cap < body.len() {
                    s + cap
                } else {
                    body.len()
                };
                truncated_lines(
                    seq![("Interactive rebase control"@, LineTone::Heading)] + body.subrange(s as int, end as int),
                    if viewport >= 1 {
                        viewport
                    } else {
                        1
                    },
                )
            },
        }
    }
}

#[verifier::rlimit(50)]
fn rebase_body_lines(r: &RebaseState, diff: &Vec<DiffLine>) -> (lines: Vec<StyledLine>)
    ensures
        lines_view(lines@) == rebase_body(*r, diff@),
{
    let step: usize = if r.step >= 1 {
        r.step
    } else {
        1
    };
    let total: usize = if r.total >= step {
        r.total
    } else {
        step
    };
    let mut lines: Vec<StyledLine> = Vec::new();
    let mut mode = String::from_str("Mode: ");
    mode.append(rebase_kind_label(r.kind));
    mode.append("  Step: ");
    push_decimal(&mut mode, step as u64);
    mode.append("/");
    push_decimal(&mut mode, total as u64);
    push_line(&mut lines, mode, LineTone::Plain);
    let mut branch = String::from_str("Branch: ");
    push_or(&mut branch, &r.head_name, "detached");
    branch.append("  Onto: ");
    push_or(&mut branch, &r.onto, "-");
    push_line(&mut lines, branch, LineTone::Plain);
    let mut current = String::from_str("Current: ");
    push_or(&mut current, &r.current_commit, "-");
    current.append("  ");
    push_or(&mut current, &r.current_summary, "waiting for git metadata");
    push_line(&mut lines, current, LineTone::Plain);
    push_line(&mut lines, String::from_str("c continue  s skip  A abort  j/k scroll"), LineTone::Plain);
    push_line(
        &mut lines,
        String::from_str("Older-commit amend: switch to Status, press A to amend, then continue."),
        LineTone::Plain,
    );
    let ghost head = lines_view(lines@);
    if r.todo_preview.len() == 0 {
        push_line(&mut lines, String::from_str("Todo: no queued rebase commands remain."), LineTone::Plain);
    } else {
        push_line(&mut lines, String::from_str("Upcoming commands:"), LineTone::Plain);
        let ghost start = lines_view(lines@);
        let ghost f = |i: int| ("  "@ + r.todo_preview@[i]@, LineTone::Plain);
        let mut i: usize = 0;
        proof {
            assert(start + Seq::new(0, f) =~= start);
        }
        while i < r.todo_preview.len()
            invariant
                i <= r.todo_preview.len(),
                f == (|i: int| ("  "@ + r.todo_preview@[i]@, LineTone::Plain)),
                lines_view(lines@) == start + Seq::new(i as nat, f),
            decreases r.todo_preview.len() - i,
        {
            let mut t = String::from_str("  ");
            t.append(r.todo_preview[i].as_str());
            push_line(&mut lines, t, LineTone::Plain);
            proof {
                assert(start + Seq::new((i + 1) as nat, f) =~= (start + Seq::new(i as nat, f)).push(f(i as int)));
            }
            i = i + 1;
        }
    }
    let ghost with_todo = lines_view(lines@);
    if diff.len() == 0 {
        push_line(
            &mut lines,
            String::from_str("Diff preview: no working tree diff for the current rebase step."),
            LineTone::Plain,
        );
    } else {
        push_line(&mut lines, String::from_str("Diff preview:"), LineTone::Plain);
        let shown: usize = if diff.len() < 8 {
            diff.len()
        } else {
            8
        };
        let ghost start = lines_view(lines@);
        let ghost f = |i: int| (diff@[i].content@, LineTone::Diff(diff@[i].kind));
        let mut i: usize = 0;
        proof {
            assert(start + Seq::new(0, f) =~= start);
        }
        while i < shown
            invariant
                i <= shown,
                shown <= diff.len(),
                f == (|i: int| (diff@[i].content@, LineTone::Diff(diff@[i].kind))),
                lines_view(lines@) == start + Seq::new(i as nat, f),
            decreases shown - i,
        {
            push_line(&mut lines, diff[i].content.clone(), LineTone::Diff(diff[i].kind));
            proof {
                assert(start + Seq::new((i + 1) as nat, f) =~= (start + Seq::new(i as nat, f)).push(f(i as int)));
            }
            i = i + 1;
        }
    }
    proof {
        assert(lines_view(lines@) =~~= rebase_body(*r, diff@));
    }
    lines
}

/// The lines of the rebase subview (see `rebase_rows`); `loaded` says that the repository
/// detail has loaded, `diff` is the diff of the current step.
#[verifier::rlimit(50)]
pub fn repo_rebase_lines(
    loaded: bool,
    rebase: Option<&RebaseState>,
    diff: &Vec<DiffLine>,
    scroll: usize,
    viewport_lines: usize,
) -> (lines: Vec<StyledLine>)
    ensures
        lines_view(lines@) == rebase_rows(
            loaded,
            match rebase {
                Some(r) => Some(*r),
                None => None,
            },
            diff@,
            scroll as nat,
            viewport_lines as nat,
        ),
{
    let mut lines: Vec<StyledLine> = Vec::new();
    if !loaded {
        push_line(&mut lines, String::from_str("Rebase"), LineTone::Heading);
        push_line(&mut lines, String::from_str("Repository detail is still loading."), LineTone::Plain);
        proof {
            assert(lines_view(lines@) =~~= rebase_rows(
                loaded,
                match rebase {
                    Some(r) => Some(*r),
                    None => None,
                },
                diff@,
                scroll as nat,
                viewport_lines as nat,
            ));
        }
        return lines;
    }
    let r = match rebase {
        Some(r) => r,
        None => {
            push_line(&mut lines, String::from_str("Rebase"), LineTone::Heading);
            push_line(&mut lines, String::from_str("No rebase is currently active."), LineTone::Plain);
            push_line(
                &mut lines,
                String::from_str("Use i from Commits to start an interactive rebase."),
                LineTone::Plain,
            );
            proof {
                assert(lines_view(lines@) =~~= rebase_rows(loaded, None, diff@, scroll as nat, viewport_lines as nat));
            }
            return lines;
        },
    };
    let body = rebase_body_lines(r, diff);
    push_line(&mut lines, String::from_str("Interactive rebase control"), LineTone::Heading);
    let cap: usize = if viewport_lines > 2 {
        viewport_lines - 1
    } else {
        1
    };
    let max_scroll: usize = if body.len() > cap {
        body.len() - cap
    } else {
        0
    };
    let s: usize = if scroll < max_scroll {
        scroll
    } else {
        max_scroll
    };
    let end: usize = if body.len() - s > cap {
        s + cap
    } else {
        body.len()
    };
    let ghost head = lines_view(lines@);
    let ghost bv = lines_view(body@);
    let mut k: usize = s;
    proof {
        assert(head + bv.subrange(s as int, s as int) =~= head);
    }
    while k < end
        invariant
            s <= k <= end,
            end <= body.len(),
            bv == lines_view(body@),
            lines_view(lines@) == head + bv.subrange(s as int, k as int),
        decreases end - k,
    {
        push_line(&mut lines, body[k].text.clone(), body[k].tone);
        proof {
            assert(head + bv.subrange(s as int, k + 1) =~= (head + bv.subrange(s as int, k as int)).push(
                bv[k as int],
            ));
        }
        k = k + 1;
    }
    let limit = if viewport_lines >= 1 {
        viewport_lines
    } else {
        1
    };
    truncate_lines(&mut lines, limit);
    lines
}

} // verus!
