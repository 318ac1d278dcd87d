use vstd::prelude::*;

use crate::model::{BranchEntry, RemoteBranchEntry, RemoteEntry, RepoDetailSnapshot, StashEntry};

verus! {

pub open spec fn deref_detail(d: Option<&RepoDetailSnapshot>) -> Option<RepoDetailSnapshot> {
    match d {
        Some(x) => Some(*x),
        None => None,
    }
}

/// The position a selection points at in a list of `len` entries: the selected index
/// where it is in range, else the first entry.
pub open spec fn pick_index(len: int, selected: Option<usize>) -> int {
    match selected {
        Some(i) => if i < len {
            i as int
        } else {
            0
        },
        None => 0,
    }
}

/// The position of the first branch that is the checked-out head, or -1.
pub open spec fn first_head(bs: Seq<BranchEntry>) -> int
    decreases bs.len(),
{
    if bs.len() == 0 {
        -1
    } else if bs[0].is_head {
        0
    } else {
        let r = first_head(bs.drop_first());
        if r < 0 {
            -1
        } else {
            r + 1
        }
    }
}

/// The branch a selection points at: the selected index where it is in range, else the
/// checked-out head, else the first branch; none when the detail is not loaded or the
/// list is empty.
pub open spec fn selected_branch_of(
    detail: Option<RepoDetailSnapshot>,
    selected: Option<usize>,
) -> Option<BranchEntry> {
    match detail {
        Some(d) => {
            let bs = d.branches@;
            let i = match selected {
                Some(s) => if s < bs.len() {
                    s as int
                } else if first_head(bs) >= 0 {
                    first_head(bs)
                } else {
                    0
                },
                None => if first_head(bs) >= 0 {
                    first_head(bs)
                } else {
                    0
                },
            };
            if 0 <= i < bs.len() {
                Some(bs[i])
            } else {
                None
            }
        },
        None => None,
    }
}

pub open spec fn selected_remote_of(
    detail: Option<RepoDetailSnapshot>,
    selected: Option<usize>,
) -> Option<RemoteEntry> {
    match detail {
        Some(d) => {
            let i = pick_index(d.remotes@.len() as int, selected);
            if i < d.remotes@.len() {
                Some(d.remotes@[i])
            } else {
                None
            }
        },
        None => None,
    }
}

pub open spec fn selected_remote_branch_of(
    detail: Option<RepoDetailSnapshot>,
    selected: Option<usize>,
) -> Option<RemoteBranchEntry> {
    match detail {
        Some(d) => {
            let i = pick_index(d.remote_branches@.len() as int, selected);
            if i < d.remote_branches@.len() {
                Some(d.remote_branches@[i])
            } else {
                None
            }
        },
        None => None,
    }
}

pub open spec fn selected_stash_of(
    detail: Option<RepoDetailSnapshot>,
    selected: Option<usize>,
) -> Option<StashEntry> {
    match detail {
        Some(d) => {
            let i = pick_index(d.stashes@.len() as int, selected);
            if i < d.stashes@.len() {
                Some(d.stashes@[i])
            } else {
                None
            }
        },
        None => None,
    }
}

/// The tag a selection points at, by position.
pub open spec fn selected_tag_of(detail: Option<RepoDetailSnapshot>, selected: Option<usize>) -> Option<int> {
    match detail {
        Some(d) => {
            let i = pick_index(d.tag_count as int, selected);
            if i < d.tag_count {
                Some(i)
            } else {
                None
            }
        },
        None => None,
    }
}

proof fn lemma_first_head(bs: Seq<BranchEntry>, i: int)
    requires
        0 <= i <= bs.len(),
        forall|j: int| 0 <= j < i ==> !(#[trigger] bs[j]).is_head,
    ensures
        i < bs.len() && bs[i].is_head ==> first_head(bs) == i,
        i == bs.len() ==> first_head(bs) == -1,
    decreases i,
{
    if i > 0 {
        let t = bs.drop_first();
        assert forall|j: int| 0 <= j < i - 1 implies !(#[trigger] t[j]).is_head by {
            assert(t[j] == bs[j + 1]);
        }
        lemma_first_head(t, i - 1);
        if i < bs.len() {
            assert(t[i - 1] == bs[i]);
        }
    }
}

fn pick(len: usize, selected: Option<usize>) -> (i: usize)
    ensures
        i == pick_index(len as int, selected),
{
    match selected {
        Some(i) => if i < len {
            i
        } else {
            0
        },
        None => 0,
    }
}

/// The position of the first checked-out head branch.
fn head_position(bs: &Vec<BranchEntry>) -> (res: Option<usize>)
    ensures
        match res {
            Some(i) => first_head(bs@) == i as int && i < bs@.len(),
            None => first_head(bs@) == -1,
        },
{
    let mut i: usize = 0;
    while i < bs.len()
        invariant
            i <= bs.len(),
            forall|j: int| 0 <= j < i ==> !(#[trigger] bs@[j]).is_head,
        decreases bs.len() - i,
    {
        if bs[i].is_head {
            proof {
                lemma_first_head(bs@, i as int);
            }
            return Some(i);
        }
        i = i + 1;
    }
    proof {
        lemma_first_head(bs@, i as int);
    }
    None
}

/// The branch that branch actions apply to (see `selected_branch_of`).
pub fn selected_branch(detail: Option<&RepoDetailSnapshot>, selected_index: Option<usize>) -> (res: Option<
    &BranchEntry,
>)
    ensures
        match res {
            Some(b) => selected_branch_of(deref_detail(detail), selected_index) == Some(*b),
            None => selected_branch_of(deref_detail(detail), selected_index) is None,
        },
{
    let d = match detail {
        Some(d) => d,
        None => return None,
    };
    let len = d.branches.len();
    let index = match selected_index {
        Some(s) if s < len => s,
        _ => match head_position(&d.branches) {
            Some(h) => h,
            None => 0,
        },
    };
    if index < len {
        Some(&d.branches[index])
    } else {
        None
    }
}

/// The remote that remote actions apply to.
pub fn selected_remote(detail: Option<&RepoDetailSnapshot>, selected_index: Option<usize>) -> (res: Option<
    &RemoteEntry,
>)
    ensures
        match res {
            Some(r) => selected_remote_of(deref_detail(detail), selected_index) == Some(*r),
            None => selected_remote_of(deref_detail(detail), selected_index) is None,
        },
{
    let d = match detail {
        Some(d) => d,
        None => return None,
    };
    let i = pick(d.remotes.len(), selected_index);
    if i < d.remotes.len() {
        Some(&d.remotes[i])
    } else {
        None
    }
}

/// The remote-tracking branch that remote-branch actions apply to.
pub fn selected_remote_branch(
    detail: Option<&RepoDetailSnapshot>,
    selected_index: Option<usize>,
) -> (res: Option<&RemoteBranchEntry>)
    ensures
        match res {
            Some(r) => selected_remote_branch_of(deref_detail(detail), selected_index) == Some(*r),
            None => selected_remote_branch_of(deref_detail(detail), selected_index) is None,
        },
{
    let d = match detail {
        Some(d) => d,
        None => return None,
    };
    let i = pick(d.remote_branches.len(), selected_index);
    if i < d.remote_branches.len() {
        Some(&d.remote_branches[i])
    } else {
        None
    }
}

/// The stash entry that stash actions apply to.
pub fn selected_stash(detail: Option<&RepoDetailSnapshot>, selected_index: Option<usize>) -> (res: Option<
    &StashEntry,
>)
    ensures
        match res {
            Some(s) => selected_stash_of(deref_detail(detail), selected_index) == Some(*s),
            None => selected_stash_of(deref_detail(detail), selected_index) is None,
        },
{
    let d = match detail {
        Some(d) => d,
        None => return None,
    };
    let i = pick(d.stashes.len(), selected_index);
    if i < d.stashes.len() {
        Some(&d.stashes[i])
    } else {
        None
    }
}

/// The position of the tag that tag actions apply to.
pub fn selected_tag(detail: Option<&RepoDetailSnapshot>, selected_index: Option<usize>) -> (res: Option<usize>)
    ensures
        match res {
            Some(i) => selected_tag_of(deref_detail(detail), selected_index) == Some(i as int),
            None => selected_tag_of(deref_detail(detail), selected_index) is None,
        },
{
    let d = match detail {
        Some(d) => d,
        None => return None,
    };
    let i = pick(d.tag_count, selected_index);
    if i < d.tag_count {
        Some(i)
    } else {
        None
    }
}

} // verus!
