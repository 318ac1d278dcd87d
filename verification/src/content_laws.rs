use vstd::prelude::*;

use crate::cells::padded;
use crate::commits::{
    commit_body_rows, commit_lines_spec, selected_commit, valid_visible, CommitHistory, CommitPane,
};
use crate::copy::{confirmation_text, ConfirmableOperation};
use crate::diff::{first_pos, lemma_first_pos};
use crate::layout::WorkspaceTableLayout;
use crate::text::{decimal, row_cells_spec, RepoSummary};

verus! {

/// The confirmations for moving a commit name both commits and differ in exactly one
/// word: moving up puts the commit `above` its neighbour, moving down puts it `below`.
pub proof fn law_move_commit_confirmations_name_the_direction(summary: String, adjacent: String)
    ensures
        ({
            let up = confirmation_text(
                ConfirmableOperation::MoveCommitUp { summary, adjacent_summary: adjacent },
            );
            let down = confirmation_text(
                ConfirmableOperation::MoveCommitDown { summary, adjacent_summary: adjacent },
            );
            let head = "Move "@ + summary@ + " "@;
            let k = head.len() as int;
            &&& up.len() == down.len()
            &&& up.subrange(0, k) == head
            &&& down.subrange(0, k) == head
            &&& up.subrange(k, k + 5) == "above"@
            &&& down.subrange(k, k + 5) == "below"@
            &&& up.subrange(k + 5, k + 6 + adjacent@.len()) == " "@ + adjacent@
            &&& up.subrange(k + 5, up.len() as int) == down.subrange(k + 5, down.len() as int)
        }),
{
    reveal_strlit("Move ");
    reveal_strlit(" ");
    reveal_strlit(" above ");
    reveal_strlit(" below ");
    reveal_strlit("above");
    reveal_strlit("below");
    let tail = "? Git will rewrite the current branch and swap those adjacent commits."@;
    let up = confirmation_text(ConfirmableOperation::MoveCommitUp { summary, adjacent_summary: adjacent });
    let down = confirmation_text(ConfirmableOperation::MoveCommitDown { summary, adjacent_summary: adjacent });
    let head = "Move "@ + summary@ + " "@;
    let rest = " "@ + adjacent@ + tail;
    assert(" above "@ =~= " "@ + "above"@ + " "@);
    assert(" below "@ =~= " "@ + "below"@ + " "@);
    assert(up =~= head + "above"@ + rest);
    assert(down =~= head + "below"@ + rest);
    let k = head.len() as int;
    assert(up.subrange(0, k) =~= head);
    assert(down.subrange(0, k) =~= head);
    assert(up.subrange(k, k + 5) =~= "above"@);
    assert(down.subrange(k, k + 5) =~= "below"@);
    assert(up.subrange(k + 5, up.len() as int) =~= rest);
    assert(down.subrange(k + 5, down.len() as int) =~= rest);
    assert(up.subrange(k + 5, k + 6 + adjacent@.len()) =~= " "@ + adjacent@);
}

/// The branch cell of a workspace row shows the branch that is checked out, whatever its
/// upstream: a name that fits the column stands at its start followed by spaces, and
/// `detached` is shown only for a repository with no branch checked out.
pub proof fn law_workspace_branch_cell_shows_the_checked_out_branch(
    repo_id: Seq<char>,
    summary: RepoSummary,
    is_selected: bool,
    layout: WorkspaceTableLayout,
    tracking: Option<String>,
)
    ensures
        ({
            let cell = row_cells_spec(repo_id, Some(summary), is_selected, layout).2;
            let other = RepoSummary { tracking_branch: tracking, ..summary };
            let w = layout.branch_width as nat;
            &&& cell == row_cells_spec(repo_id, Some(other), is_selected, layout).2
            &&& cell.len() == w
            &&& (summary.branch is Some && summary.branch->0@.len() <= w ==> {
                let b = summary.branch->0@;
                &&& cell.subrange(0, b.len() as int) == b
                &&& forall|i: int| b.len() <= i < w ==> cell[i] == ' '
            })
            &&& (summary.branch is None ==> cell == padded("detached"@, w))
        }),
{
    let w = layout.branch_width as nat;
    match summary.branch {
        Some(b) => {
            let cell = padded(b@, w);
            if b@.len() <= w {
                assert(cell.subrange(0, b@.len() as int) =~= b@);
            } else {
                reveal_strlit("...");
            }
            assert(cell.len() == w);
        },
        None => {
            reveal_strlit("detached");
            assert(padded("detached"@, w).len() == w);
        },
    }
}

/// The commits subview follows the selection: while the filter keeps the selected index,
/// that commit is the one whose files open and whose line heads the view, with its
/// place among the kept commits; a selection the filter hides falls back to the first
/// kept commit, and the selection never moves when the filter keeps more or fewer others.
pub proof fn law_commit_selection_follows_the_selected_index(
    pane: CommitPane,
    h: CommitHistory,
    visible: Seq<usize>,
    other: Seq<usize>,
    viewport: nat,
    i: usize,
)
    requires
        valid_visible(visible, h.commits.len() as nat),
        visible.len() > 0,
    ensures
        pane.selected_index == Some(i) && visible.contains(i) ==> {
            let pos = first_pos(visible, i);
            &&& selected_commit(pane, visible) == i
            &&& 0 <= pos < visible.len() && visible[pos] == i
            &&& commit_body_rows(pane, h, visible, viewport)[0].0 == "Selected "@ + decimal(
                (pos + 1) as nat,
            ) + "/"@ + decimal(visible.len()) + "  "@ + h.commits@[i as int].short_oid@ + "  "@
                + h.commits@[i as int].summary@
            &&& commit_lines_spec(pane, Some(h), visible, viewport)[0] == commit_body_rows(
                pane,
                h,
                visible,
                viewport,
            )[0]
            &&& (other.contains(i) ==> selected_commit(pane, other) == i)
        },
        pane.selected_index is None || !visible.contains(pane.selected_index->0) ==> selected_commit(
            pane,
            visible,
        ) == visible[0],
        visible.contains(selected_commit(pane, visible)),
{
    lemma_first_pos(visible, i);
    assert(visible.contains(visible[0]));
    let body = commit_body_rows(pane, h, visible, viewport);
    assert(body.len() > 0);
}

} // verus!
