use vstd::prelude::*;
use vstd::string::*;

use crate::chars::{char_count, lower_seq, str_eq, to_lower, trim, trim_str};
use crate::keys::{action_matches, space_seq, strs_view, KeyBindings};
use crate::repo_keys::{repo_rules, repo_rules_exec};
use crate::model::{
    opt_action_view, Action, AppMode, ModalKind, PaneId, RepoSubview, RouteContext,
    SubviewFilter,
};

verus! {

/// One entry of a key map: the action id that overrides are keyed by, the keys that
/// trigger it by default, and what routing answers when it triggers (`None`: the key
/// is consumed without an action).
pub struct KeyRule {
    pub action_id: &'static str,
    pub defaults: Vec<&'static str>,
    pub outcome: Option<Action<String>>,
}

/// A key-map entry in contracts.
pub struct RuleSpec {
    pub id: Seq<char>,
    pub defaults: Seq<Seq<char>>,
    pub outcome: Option<Action<Seq<char>>>,
}

pub open spec fn rule_view(r: KeyRule) -> RuleSpec {
    RuleSpec { id: r.action_id@, defaults: strs_view(r.defaults@), outcome: opt_action_view(r.outcome) }
}

pub open spec fn rules_view(v: Seq<KeyRule>) -> Seq<RuleSpec> {
    v.map_values(|r: KeyRule| rule_view(r))
}

/// A key-map entry, written with the literals that the key map uses.
pub open spec fn rs(id: &str, defaults: Seq<&str>, outcome: Option<Action<Seq<char>>>) -> RuleSpec {
    RuleSpec { id: id@, defaults: strs_view(defaults), outcome }
}

/// What the first entry of a key map that the key press triggers answers, or `None`
/// when no entry triggers.
pub open spec fn first_rule(
    m: Map<Seq<char>, Seq<Seq<char>>>,
    rules: Seq<RuleSpec>,
    raw: Seq<char>,
    normalized: Seq<char>,
) -> Option<Option<Action<Seq<char>>>>
    decreases rules.len(),
{
    if rules.len() == 0 {
        None
    } else if action_matches(m, rules[0].id, raw, normalized, rules[0].defaults) {
        Some(rules[0].outcome)
    } else {
        first_rule(m, rules.drop_first(), raw, normalized)
    }
}

/// A key map with one more entry where a condition holds.
pub open spec fn when(s: Seq<RuleSpec>, c: bool, r: RuleSpec) -> Seq<RuleSpec> {
    if c {
        s.push(r)
    } else {
        s
    }
}

/// The answer of a key map, or `fallback` when no entry triggers.
pub open spec fn or_else(
    found: Option<Option<Action<Seq<char>>>>,
    fallback: Option<Action<Seq<char>>>,
) -> Option<Action<Seq<char>>> {
    match found {
        Some(o) => o,
        None => fallback,
    }
}

/// The text that a key press types into a text input: a space for `space` or `" "`,
/// the character itself for a single character, nothing for a named key.
pub open spec fn text_entry(raw: Seq<char>) -> Option<Seq<char>> {
    if raw == space_seq() || raw == seq![' '] {
        Some(seq![' '])
    } else if raw.len() == 1 {
        Some(raw)
    } else {
        None
    }
}

proof fn lemma_first_rule_skip(
    m: Map<Seq<char>, Seq<Seq<char>>>,
    rules: Seq<RuleSpec>,
    raw: Seq<char>,
    normalized: Seq<char>,
    i: int,
)
    requires
        0 <= i <= rules.len(),
        forall|j: int|
            0 <= j < i ==> !action_matches(
                m,
                #[trigger] rules[j].id,
                raw,
                normalized,
                rules[j].defaults,
            ),
    ensures
        first_rule(m, rules, raw, normalized) == first_rule(m, rules.skip(i), raw, normalized),
    decreases i,
{
    if i > 0 {
        let t = rules.drop_first();
        assert forall|j: int| 0 <= j < i - 1 implies !action_matches(
            m,
            #[trigger] t[j].id,
            raw,
            normalized,
            t[j].defaults,
        ) by {
            assert(t[j] == rules[j + 1]);
        }
        lemma_first_rule_skip(m, t, raw, normalized, i - 1);
        assert(t.skip(i - 1) =~= rules.skip(i));
        assert(rules.skip(0) =~= rules);
    } else {
        assert(rules.skip(0) =~= rules);
    }
}

/// The index of the first rule that the key press triggers.
pub fn first_rule_index(
    keys: &KeyBindings,
    rules: &Vec<KeyRule>,
    raw: &str,
    normalized: &str,
) -> (res: Option<usize>)
    ensures
        match res {
            Some(i) => i < rules@.len() && first_rule(keys@, rules_view(rules@), raw@, normalized@)
                == Some(rule_view(rules@[i as int]).outcome),
            None => first_rule(keys@, rules_view(rules@), raw@, normalized@) is None,
        },
{
    let ghost rv = rules_view(rules@);
    let mut i: usize = 0;
    while i < rules.len()
        invariant
            rv == rules_view(rules@),
            i <= rules.len(),
            forall|j: int|
                0 <= j < i ==> !action_matches(
                    keys@,
                    #[trigger] rv[j].id,
                    raw@,
                    normalized@,
                    rv[j].defaults,
                ),
        decreases rules.len() - i,
    {
        let hit = keys.binding_matches_action(
            rules[i].action_id,
            raw,
            normalized,
            rules[i].defaults.as_slice(),
        );
        if hit {
            proof {
                lemma_first_rule_skip(keys@, rv, raw@, normalized@, i as int);
                assert(rv[i as int] == rule_view(rules@[i as int]));
                assert(rv.skip(i as int)[0] == rv[i as int]);
            }
            return Some(i);
        }
        i = i + 1;
    }
    proof {
        lemma_first_rule_skip(keys@, rv, raw@, normalized@, i as int);
        assert(rv.skip(i as int).len() == 0);
    }
    None
}

/// The outcome of the rule at an index, taken out of the key map.
pub fn outcome_at(rules: Vec<KeyRule>, i: usize) -> (res: Option<Action<String>>)
    requires
        i < rules@.len(),
    ensures
        opt_action_view(res) == rule_view(rules@[i as int]).outcome,
{
    let mut v = rules;
    let r = v.remove(i);
    r.outcome
}

/// The text that a key press types into a text input (see `text_entry`).
pub fn text_entry_exec(raw: &str) -> (res: Option<String>)
    ensures
        match res {
            Some(t) => text_entry(raw@) == Some(t@),
            None => text_entry(raw@) is None,
        },
{
    proof {
        reveal_strlit("space");
        reveal_strlit(" ");
    }
    assert("space"@ =~= space_seq());
    assert(" "@ =~= seq![' ']);
    if str_eq(raw, "space") || str_eq(raw, " ") {
        Some(String::from_str(" "))
    } else if char_count(raw) == 1 {
        Some(String::from_str(raw))
    } else {
        None
    }
}

} // verus!

verus! {

pub open spec fn repo_subview_is(ctx: RouteContext, s: RepoSubview) -> bool {
    ctx.repo_mode matches Some(r) && r.active_subview == s
}

/// The workspace search box has the focus.
pub open spec fn workspace_search_active(ctx: RouteContext) -> bool {
    ctx.mode == AppMode::Workspace && ctx.workspace_search_focused
}

/// The commit message box has the focus.
pub open spec fn commit_box_active(ctx: RouteContext) -> bool {
    ctx.repo_mode matches Some(r) && r.commit_box_focused
}

/// An input prompt is open on top of the modal stack.
pub open spec fn prompt_input_active(ctx: RouteContext) -> bool {
    ctx.has_pending_input_prompt && ctx.top_modal == Some(ModalKind::InputPrompt)
}

/// The filter of the active detail subview has the focus.
pub open spec fn filter_active(ctx: RouteContext) -> bool {
    ctx.repo_mode matches Some(r) && r.subview_filter == SubviewFilter::Focused
}

pub open spec fn next_repo_pane(p: PaneId) -> PaneId {
    match p {
        PaneId::RepoUnstaged => PaneId::RepoStaged,
        PaneId::RepoStaged => PaneId::RepoDetail,
        _ => PaneId::RepoUnstaged,
    }
}

pub open spec fn previous_repo_pane(p: PaneId) -> PaneId {
    match p {
        PaneId::RepoDetail => PaneId::RepoStaged,
        PaneId::RepoStaged => PaneId::RepoUnstaged,
        _ => PaneId::RepoDetail,
    }
}

/// What `Tab` does: swap the workspace panes, or cycle the three repository panes.
pub open spec fn next_focus(ctx: RouteContext) -> Action<Seq<char>> {
    match ctx.mode {
        AppMode::Workspace => Action::SetFocusedPane(
            if ctx.focused_pane == PaneId::WorkspaceList {
                PaneId::WorkspacePreview
            } else {
                PaneId::WorkspaceList
            },
        ),
        AppMode::Repository => Action::SetFocusedPane(next_repo_pane(ctx.focused_pane)),
    }
}

/// What `Shift+Tab` does: the same swap in the workspace, the reverse cycle in a repository.
pub open spec fn previous_focus(ctx: RouteContext) -> Action<Seq<char>> {
    match ctx.mode {
        AppMode::Workspace => next_focus(ctx),
        AppMode::Repository => Action::SetFocusedPane(previous_repo_pane(ctx.focused_pane)),
    }
}

/// What `Esc` does in repository mode: leave a focused filter, else go back from the
/// status detail to the main panes, else leave repository mode.
pub open spec fn repo_escape(ctx: RouteContext) -> Action<Seq<char>> {
    if filter_active(ctx) {
        Action::CancelRepoSubviewFilter
    } else if ctx.focused_pane == PaneId::RepoDetail && repo_subview_is(ctx, RepoSubview::Status) {
        Action::FocusRepoMainPane
    } else {
        Action::LeaveRepoMode
    }
}

pub open spec fn focus_left(p: PaneId) -> Action<Seq<char>> {
    Action::SetFocusedPane(
        match p {
            PaneId::RepoDetail => PaneId::RepoStaged,
            PaneId::RepoStaged => PaneId::RepoUnstaged,
            _ => PaneId::RepoUnstaged,
        },
    )
}

pub open spec fn focus_right(p: PaneId) -> Action<Seq<char>> {
    Action::SetFocusedPane(
        match p {
            PaneId::RepoUnstaged => PaneId::RepoStaged,
            PaneId::RepoStaged => PaneId::RepoDetail,
            _ => PaneId::RepoDetail,
        },
    )
}

/// The key map of the modal on top of the stack.
pub open spec fn modal_rules(kind: ModalKind) -> Seq<RuleSpec> {
    match kind {
        ModalKind::Confirm => seq![
            rs("confirm_pending_operation", seq!["enter", "y"], Some(Action::ConfirmPendingOperation)),
            rs("close_top_modal", seq!["esc", "q", "n"], Some(Action::CloseTopModal)),
        ],
        ModalKind::InputPrompt => seq![
            rs("close_top_modal", seq!["esc", "q"], Some(Action::CloseTopModal)),
            rs("submit_prompt_input", seq!["enter"], Some(Action::SubmitPromptInput)),
            rs("backspace_prompt_input", seq!["backspace"], Some(Action::BackspacePromptInput)),
        ],
        ModalKind::Menu => seq![
            rs("close_top_modal", seq!["esc", "q"], Some(Action::CloseTopModal)),
            rs("submit_menu_selection", seq!["enter"], Some(Action::SubmitMenuSelection)),
            rs("select_next_menu_item", seq!["j", "down"], Some(Action::SelectNextMenuItem)),
            rs("select_previous_menu_item", seq!["k", "up"], Some(Action::SelectPreviousMenuItem)),
        ],
        ModalKind::Help => seq![rs("close_top_modal", seq!["esc", "q"], Some(Action::CloseTopModal))],
    }
}

/// A key press while a modal is open: only the modal's keys count, and an input
/// prompt takes typed text.
pub open spec fn route_modal(
    m: Map<Seq<char>, Seq<Seq<char>>>,
    kind: ModalKind,
    raw: Seq<char>,
    normalized: Seq<char>,
) -> Option<Action<Seq<char>>> {
    or_else(
        first_rule(m, modal_rules(kind), raw, normalized),
        if kind == ModalKind::InputPrompt {
            match text_entry(raw) {
                Some(t) => Some(Action::AppendPromptInput { text: t }),
                None => None,
            }
        } else {
            None
        },
    )
}

pub open spec fn commit_box_rules() -> Seq<RuleSpec> {
    seq![
        rs("cancel_commit_box", seq!["esc"], Some(Action::CancelCommitBox)),
        rs("submit_commit_box", seq!["enter"], Some(Action::SubmitCommitBox)),
        rs("backspace_commit_input", seq!["backspace"], Some(Action::BackspaceCommitInput)),
    ]
}

/// A key press while the commit box has the focus: its keys, else typed text.
pub open spec fn route_commit_box(
    m: Map<Seq<char>, Seq<Seq<char>>>,
    raw: Seq<char>,
    normalized: Seq<char>,
) -> Option<Action<Seq<char>>> {
    or_else(
        first_rule(m, commit_box_rules(), raw, normalized),
        match text_entry(raw) {
            Some(t) => Some(Action::AppendCommitInput { text: t }),
            None => None,
        },
    )
}

/// The keys that work everywhere outside modals and the commit box.
pub open spec fn global_rules(ctx: RouteContext) -> Seq<RuleSpec> {
    when(
        seq![
            rs("open_help", seq!["?"], Some(Action::OpenModal { kind: ModalKind::Help, title: "Help"@ })),
            rs("next_focus", seq!["tab"], Some(next_focus(ctx))),
            rs("previous_focus", seq!["shift+tab"], Some(previous_focus(ctx))),
        ],
        ctx.mode == AppMode::Repository,
        rs("leave_repo_mode", seq!["esc"], Some(repo_escape(ctx))),
    )
}

pub open spec fn workspace_search_rules() -> Seq<RuleSpec> {
    seq![
        rs("cancel_workspace_search", seq!["esc"], Some(Action::CancelWorkspaceSearch)),
        rs("blur_workspace_search", seq!["enter"], Some(Action::BlurWorkspaceSearch)),
        rs("backspace_workspace_search", seq!["backspace"], Some(Action::BackspaceWorkspaceSearch)),
    ]
}

/// The key map of the workspace list.
pub open spec fn workspace_rules(ctx: RouteContext) -> Seq<RuleSpec> {
    when(seq![
        rs("focus_workspace_search", seq!["/"], Some(Action::FocusWorkspaceSearch)),
        rs("select_next_repo", seq!["j", "down"], Some(Action::SelectNextRepo)),
        rs("select_previous_repo", seq!["k", "up"], Some(Action::SelectPreviousRepo)),
        rs("focus_workspace_preview", seq!["l", "right"], Some(Action::SetFocusedPane(PaneId::WorkspacePreview))),
        rs("focus_workspace_list", seq!["h", "left"], Some(Action::SetFocusedPane(PaneId::WorkspaceList))),
        rs("cycle_workspace_filter", seq!["f"], Some(Action::CycleWorkspaceFilter)),
        rs("cycle_workspace_sort", seq!["s"], Some(Action::CycleWorkspaceSort)),
    ], ctx.workspace_search_query@.len() != 0,
        rs("cancel_workspace_search", seq!["esc"], Some(Action::CancelWorkspaceSearch)),
    ).push(rs("enter_repo_mode", seq!["enter"], match ctx.selected_repo_id {
        Some(id) => Some(Action::EnterRepoMode { repo_id: id@ }),
        None => None,
    })).push(rs("open_in_editor", seq!["e"], Some(Action::OpenInEditor)))
        .push(rs("refresh_visible_repos", seq!["r"], Some(Action::RefreshVisibleRepos)))
}

/// A key press in workspace mode.
pub open spec fn route_workspace(
    m: Map<Seq<char>, Seq<Seq<char>>>,
    ctx: RouteContext,
    raw: Seq<char>,
    normalized: Seq<char>,
) -> Option<Action<Seq<char>>> {
    if workspace_search_active(ctx) {
        or_else(
            first_rule(m, workspace_search_rules(), raw, normalized),
            match text_entry(raw) {
                Some(t) => Some(Action::AppendWorkspaceSearch { text: t }),
                None => None,
            },
        )
    } else {
        or_else(first_rule(m, workspace_rules(ctx), raw, normalized), None)
    }
}

fn push_entry(v: &mut Vec<KeyRule>, action_id: &'static str, defaults: Vec<&'static str>, outcome: Option<Action<String>>)
    ensures
        rules_view(final(v)@) == rules_view(old(v)@).push(rs(action_id, defaults@, opt_action_view(outcome))),
{
    let ghost before = v@;
    v.push(KeyRule { action_id, defaults, outcome });
    assert(rules_view(v@) =~= rules_view(before).push(rs(action_id, defaults@, opt_action_view(outcome))));
}

/// Appends an entry with one default key to a key map under construction.
pub fn push1(v: &mut Vec<KeyRule>, action_id: &'static str, k1: &'static str, outcome: Option<Action<String>>)
    ensures
        rules_view(final(v)@) == rules_view(old(v)@).push(rs(action_id, seq![k1], opt_action_view(outcome))),
{
    let mut d: Vec<&'static str> = Vec::new();
    d.push(k1);
    assert(d@ =~= seq![k1]);
    push_entry(v, action_id, d, outcome);
}

/// Appends an entry with two default keys to a key map under construction.
pub fn push2(
    v: &mut Vec<KeyRule>,
    action_id: &'static str,
    k1: &'static str,
    k2: &'static str,
    outcome: Option<Action<String>>,
)
    ensures
        rules_view(final(v)@) == rules_view(old(v)@).push(rs(action_id, seq![k1, k2], opt_action_view(outcome))),
{
    let mut d: Vec<&'static str> = Vec::new();
    d.push(k1);
    d.push(k2);
    assert(d@ =~= seq![k1, k2]);
    push_entry(v, action_id, d, outcome);
}

/// Appends an entry with three default keys to a key map under construction.
pub fn push3(
    v: &mut Vec<KeyRule>,
    action_id: &'static str,
    k1: &'static str,
    k2: &'static str,
    k3: &'static str,
    outcome: Option<Action<String>>,
)
    ensures
        rules_view(final(v)@) == rules_view(old(v)@).push(rs(action_id, seq![k1, k2, k3], opt_action_view(outcome))),
{
    let mut d: Vec<&'static str> = Vec::new();
    d.push(k1);
    d.push(k2);
    d.push(k3);
    assert(d@ =~= seq![k1, k2, k3]);
    push_entry(v, action_id, d, outcome);
}

pub fn empty_rules() -> (v: Vec<KeyRule>)
    ensures
        rules_view(v@) == Seq::<RuleSpec>::empty(),
{
    let v: Vec<KeyRule> = Vec::new();
    assert(rules_view(v@) =~= Seq::<RuleSpec>::empty());
    v
}

pub fn modal_rules_exec(kind: ModalKind) -> (v: Vec<KeyRule>)
    ensures
        rules_view(v@) == modal_rules(kind),
{
    let mut v = empty_rules();
    match kind {
        ModalKind::Confirm => {
            push2(&mut v, "confirm_pending_operation", "enter", "y", Some(Action::ConfirmPendingOperation));
            push3(&mut v, "close_top_modal", "esc", "q", "n", Some(Action::CloseTopModal));
        },
        ModalKind::InputPrompt => {
            push2(&mut v, "close_top_modal", "esc", "q", Some(Action::CloseTopModal));
            push1(&mut v, "submit_prompt_input", "enter", Some(Action::SubmitPromptInput));
            push1(&mut v, "backspace_prompt_input", "backspace", Some(Action::BackspacePromptInput));
        },
        ModalKind::Menu => {
            push2(&mut v, "close_top_modal", "esc", "q", Some(Action::CloseTopModal));
            push1(&mut v, "submit_menu_selection", "enter", Some(Action::SubmitMenuSelection));
            push2(&mut v, "select_next_menu_item", "j", "down", Some(Action::SelectNextMenuItem));
            push2(&mut v, "select_previous_menu_item", "k", "up", Some(Action::SelectPreviousMenuItem));
        },
        ModalKind::Help => {
            push2(&mut v, "close_top_modal", "esc", "q", Some(Action::CloseTopModal));
        },
    }
    v
}

pub open spec fn repo_filter_rules() -> Seq<RuleSpec> {
    seq![
        rs("cancel_repo_subview_filter", seq!["esc"], Some(Action::CancelRepoSubviewFilter)),
        rs("blur_repo_subview_filter", seq!["enter"], Some(Action::BlurRepoSubviewFilter)),
        rs("backspace_repo_subview_filter", seq!["backspace"], Some(Action::BackspaceRepoSubviewFilter)),
    ]
}

/// A key press in repository mode (`raw` already trimmed).
pub open spec fn route_repo(
    m: Map<Seq<char>, Seq<Seq<char>>>,
    ctx: RouteContext,
    page_size: usize,
    raw: Seq<char>,
    normalized: Seq<char>,
) -> Option<Action<Seq<char>>> {
    if filter_active(ctx) {
        or_else(
            first_rule(m, repo_filter_rules(), raw, normalized),
            match text_entry(raw) {
                Some(t) => Some(Action::AppendRepoSubviewFilter { text: t }),
                None => None,
            },
        )
    } else {
        or_else(first_rule(m, repo_rules(ctx, page_size), raw, normalized), None)
    }
}

/// What a key press asks for: a modal takes every key, then the commit box, then the
/// keys that work everywhere, then the key map of the current mode.
pub open spec fn route_key(
    m: Map<Seq<char>, Seq<Seq<char>>>,
    ctx: RouteContext,
    page_size: usize,
    raw: Seq<char>,
) -> Option<Action<Seq<char>>> {
    let normalized = lower_seq(trim(raw));
    if ctx.top_modal is Some {
        route_modal(m, ctx.top_modal->0, raw, normalized)
    } else if commit_box_active(ctx) {
        route_commit_box(m, raw, normalized)
    } else {
        or_else(
            first_rule(m, global_rules(ctx), raw, normalized),
            match ctx.mode {
                AppMode::Workspace => route_workspace(m, ctx, raw, normalized),
                AppMode::Repository => route_repo(m, ctx, page_size, trim(raw), normalized),
            },
        )
    }
}

fn is_repository(ctx: &RouteContext) -> (r: bool)
    ensures
        r == (ctx.mode == AppMode::Repository),
{
    match ctx.mode {
        AppMode::Repository => true,
        AppMode::Workspace => false,
    }
}

pub fn subview_is(ctx: &RouteContext, s: RepoSubview) -> (r: bool)
    ensures
        r == repo_subview_is(*ctx, s),
{
    match &ctx.repo_mode {
        Some(r) => same_subview(r.active_subview, s),
        None => false,
    }
}

pub fn same_subview(a: RepoSubview, b: RepoSubview) -> (r: bool)
    ensures
        r == (a == b),
{
    match (a, b) {
        (RepoSubview::Status, RepoSubview::Status) => true,
        (RepoSubview::Branches, RepoSubview::Branches) => true,
        (RepoSubview::Remotes, RepoSubview::Remotes) => true,
        (RepoSubview::RemoteBranches, RepoSubview::RemoteBranches) => true,
        (RepoSubview::Tags, RepoSubview::Tags) => true,
        (RepoSubview::Commits, RepoSubview::Commits) => true,
        (RepoSubview::Compare, RepoSubview::Compare) => true,
        (RepoSubview::Rebase, RepoSubview::Rebase) => true,
        (RepoSubview::Stash, RepoSubview::Stash) => true,
        (RepoSubview::Reflog, RepoSubview::Reflog) => true,
        (RepoSubview::Worktrees, RepoSubview::Worktrees) => true,
        (RepoSubview::Submodules, RepoSubview::Submodules) => true,
        _ => false,
    }
}

pub fn same_pane(a: PaneId, b: PaneId) -> (r: bool)
    ensures
        r == (a == b),
{
    match (a, b) {
        (PaneId::WorkspaceList, PaneId::WorkspaceList) => true,
        (PaneId::WorkspacePreview, PaneId::WorkspacePreview) => true,
        (PaneId::RepoUnstaged, PaneId::RepoUnstaged) => true,
        (PaneId::RepoStaged, PaneId::RepoStaged) => true,
        (PaneId::RepoDetail, PaneId::RepoDetail) => true,
        (PaneId::Modal, PaneId::Modal) => true,
        _ => false,
    }
}

/// Whether the workspace search box has the focus.
pub fn workspace_search_focused(ctx: &RouteContext) -> (r: bool)
    ensures
        r == workspace_search_active(*ctx),
{
    !is_repository(ctx) && ctx.workspace_search_focused
}

/// Whether the commit message box has the focus.
pub fn commit_box_focused(ctx: &RouteContext) -> (r: bool)
    ensures
        r == commit_box_active(*ctx),
{
    match &ctx.repo_mode {
        Some(r) => r.commit_box_focused,
        None => false,
    }
}

/// Whether an input prompt is open on top of the modal stack.
pub fn prompt_input_focused(ctx: &RouteContext) -> (r: bool)
    ensures
        r == prompt_input_active(*ctx),
{
    ctx.has_pending_input_prompt && match ctx.top_modal {
        Some(ModalKind::InputPrompt) => true,
        _ => false,
    }
}

/// Whether the filter of the active detail subview has the focus.
pub fn repo_subview_filter_focused(ctx: &RouteContext) -> (r: bool)
    ensures
        r == filter_active(*ctx),
{
    match &ctx.repo_mode {
        Some(r) => match r.subview_filter {
            SubviewFilter::Focused => true,
            _ => false,
        },
        None => false,
    }
}

pub fn next_repo_pane_exec(p: PaneId) -> (r: PaneId)
    ensures
        r == next_repo_pane(p),
{
    match p {
        PaneId::RepoUnstaged => PaneId::RepoStaged,
        PaneId::RepoStaged => PaneId::RepoDetail,
        _ => PaneId::RepoUnstaged,
    }
}

pub fn previous_repo_pane_exec(p: PaneId) -> (r: PaneId)
    ensures
        r == previous_repo_pane(p),
{
    match p {
        PaneId::RepoDetail => PaneId::RepoStaged,
        PaneId::RepoStaged => PaneId::RepoUnstaged,
        _ => PaneId::RepoDetail,
    }
}

/// The focus change that `Tab` asks for.
pub fn next_focus_action(ctx: &RouteContext) -> (r: Action<String>)
    ensures
        r@ == next_focus(*ctx),
{
    match ctx.mode {
        AppMode::Workspace => Action::SetFocusedPane(
            match ctx.focused_pane {
                PaneId::WorkspaceList => PaneId::WorkspacePreview,
                _ => PaneId::WorkspaceList,
            },
        ),
        AppMode::Repository => Action::SetFocusedPane(next_repo_pane_exec(ctx.focused_pane)),
    }
}

/// The focus change that `Shift+Tab` asks for.
pub fn previous_focus_action(ctx: &RouteContext) -> (r: Action<String>)
    ensures
        r@ == previous_focus(*ctx),
{
    match ctx.mode {
        AppMode::Workspace => next_focus_action(ctx),
        AppMode::Repository => Action::SetFocusedPane(previous_repo_pane_exec(ctx.focused_pane)),
    }
}

/// What `Esc` asks for in repository mode.
pub fn repo_escape_action(ctx: &RouteContext) -> (r: Action<String>)
    ensures
        r@ == repo_escape(*ctx),
{
    if repo_subview_filter_focused(ctx) {
        return Action::CancelRepoSubviewFilter;
    }
    if same_pane(ctx.focused_pane, PaneId::RepoDetail) && subview_is(ctx, RepoSubview::Status) {
        return Action::FocusRepoMainPane;
    }
    Action::LeaveRepoMode
}

/// The focus change that `h` / `Left` asks for in repository mode.
pub fn repo_focus_left_action(p: PaneId) -> (r: Action<String>)
    ensures
        r@ == focus_left(p),
{
    Action::SetFocusedPane(
        match p {
            PaneId::RepoDetail => PaneId::RepoStaged,
            PaneId::RepoStaged => PaneId::RepoUnstaged,
            _ => PaneId::RepoUnstaged,
        },
    )
}

/// The focus change that `l` / `Right` asks for in repository mode.
pub fn repo_focus_right_action(p: PaneId) -> (r: Action<String>)
    ensures
        r@ == focus_right(p),
{
    Action::SetFocusedPane(
        match p {
            PaneId::RepoUnstaged => PaneId::RepoStaged,
            PaneId::RepoStaged => PaneId::RepoDetail,
            _ => PaneId::RepoDetail,
        },
    )
}

fn global_rules_exec(ctx: &RouteContext) -> (v: Vec<KeyRule>)
    ensures
        rules_view(v@) == global_rules(*ctx),
{
    proof {
        reveal_strlit("Help");
    }
    let mut v = empty_rules();
    push1(&mut v, "open_help", "?", Some(Action::OpenModal { kind: ModalKind::Help, title: String::from_str("Help") }));
    push1(&mut v, "next_focus", "tab", Some(next_focus_action(ctx)));
    push1(&mut v, "previous_focus", "shift+tab", Some(previous_focus_action(ctx)));
    if is_repository(ctx) {
        push1(&mut v, "leave_repo_mode", "esc", Some(repo_escape_action(ctx)));
    }
    v
}

fn workspace_search_rules_exec() -> (v: Vec<KeyRule>)
    ensures
        rules_view(v@) == workspace_search_rules(),
{
    let mut v = empty_rules();
    push1(&mut v, "cancel_workspace_search", "esc", Some(Action::CancelWorkspaceSearch));
    push1(&mut v, "blur_workspace_search", "enter", Some(Action::BlurWorkspaceSearch));
    push1(&mut v, "backspace_workspace_search", "backspace", Some(Action::BackspaceWorkspaceSearch));
    v
}

fn workspace_rules_exec(ctx: &RouteContext) -> (v: Vec<KeyRule>)
    ensures
        rules_view(v@) == workspace_rules(*ctx),
{
    let mut v = empty_rules();
    push1(&mut v, "focus_workspace_search", "/", Some(Action::FocusWorkspaceSearch));
    push2(&mut v, "select_next_repo", "j", "down", Some(Action::SelectNextRepo));
    push2(&mut v, "select_previous_repo", "k", "up", Some(Action::SelectPreviousRepo));
    push2(&mut v, "focus_workspace_preview", "l", "right", Some(Action::SetFocusedPane(PaneId::WorkspacePreview)));
    push2(&mut v, "focus_workspace_list", "h", "left", Some(Action::SetFocusedPane(PaneId::WorkspaceList)));
    push1(&mut v, "cycle_workspace_filter", "f", Some(Action::CycleWorkspaceFilter));
    push1(&mut v, "cycle_workspace_sort", "s", Some(Action::CycleWorkspaceSort));
    if char_count(ctx.workspace_search_query.as_str()) != 0 {
        push1(&mut v, "cancel_workspace_search", "esc", Some(Action::CancelWorkspaceSearch));
    }
    let enter = match &ctx.selected_repo_id {
        Some(id) => Some(Action::EnterRepoMode { repo_id: id.clone() }),
        None => None,
    };
    push1(&mut v, "enter_repo_mode", "enter", enter);
    push1(&mut v, "open_in_editor", "e", Some(Action::OpenInEditor));
    push1(&mut v, "refresh_visible_repos", "r", Some(Action::RefreshVisibleRepos));
    v
}

fn commit_box_rules_exec() -> (v: Vec<KeyRule>)
    ensures
        rules_view(v@) == commit_box_rules(),
{
    let mut v = empty_rules();
    push1(&mut v, "cancel_commit_box", "esc", Some(Action::CancelCommitBox));
    push1(&mut v, "submit_commit_box", "enter", Some(Action::SubmitCommitBox));
    push1(&mut v, "backspace_commit_input", "backspace", Some(Action::BackspaceCommitInput));
    v
}

fn repo_filter_rules_exec() -> (v: Vec<KeyRule>)
    ensures
        rules_view(v@) == repo_filter_rules(),
{
    let mut v = empty_rules();
    push1(&mut v, "cancel_repo_subview_filter", "esc", Some(Action::CancelRepoSubviewFilter));
    push1(&mut v, "blur_repo_subview_filter", "enter", Some(Action::BlurRepoSubviewFilter));
    push1(&mut v, "backspace_repo_subview_filter", "backspace", Some(Action::BackspaceRepoSubviewFilter));
    v
}

/// The answer of a key map, with what a text input types as the fallback.
fn route_text_input(
    keys: &KeyBindings,
    rules: Vec<KeyRule>,
    raw: &str,
    normalized: &str,
    field: u8,
) -> (res: Option<Action<String>>)
    requires
        field < 4,
    ensures
        opt_action_view(res) == or_else(
            first_rule(keys@, rules_view(rules@), raw@, normalized@),
            match text_entry(raw@) {
                Some(t) => Some(typed(field, t)),
                None => None,
            },
        ),
{
    match first_rule_index(keys, &rules, raw, normalized) {
        Some(i) => outcome_at(rules, i),
        None => match text_entry_exec(raw) {
            Some(t) => Some(typed_exec(field, t)),
            None => None,
        },
    }
}

/// The action that types text into one of the four text inputs.
pub open spec fn typed(field: u8, t: Seq<char>) -> Action<Seq<char>> {
    if field == 0 {
        Action::AppendPromptInput { text: t }
    } else if field == 1 {
        Action::AppendCommitInput { text: t }
    } else if field == 2 {
        Action::AppendWorkspaceSearch { text: t }
    } else {
        Action::AppendRepoSubviewFilter { text: t }
    }
}

fn typed_exec(field: u8, t: String) -> (r: Action<String>)
    ensures
        r@ == typed(field, t@),
{
    if field == 0 {
        Action::AppendPromptInput { text: t }
    } else if field == 1 {
        Action::AppendCommitInput { text: t }
    } else if field == 2 {
        Action::AppendWorkspaceSearch { text: t }
    } else {
        Action::AppendRepoSubviewFilter { text: t }
    }
}

fn route_rules(keys: &KeyBindings, rules: Vec<KeyRule>, raw: &str, normalized: &str) -> (res: Option<
    Option<Action<String>>,
>)
    ensures
        match res {
            Some(o) => first_rule(keys@, rules_view(rules@), raw@, normalized@) == Some(opt_action_view(o)),
            None => first_rule(keys@, rules_view(rules@), raw@, normalized@) is None,
        },
{
    match first_rule_index(keys, &rules, raw, normalized) {
        Some(i) => Some(outcome_at(rules, i)),
        None => None,
    }
}

/// Routes a key press while a modal is open.
pub fn route_modal_key(keys: &KeyBindings, kind: ModalKind, raw: &str, normalized: &str) -> (res: Option<Action<String>>)
    ensures
        opt_action_view(res) == route_modal(keys@, kind, raw@, normalized@),
{
    match kind {
        ModalKind::InputPrompt => route_text_input(keys, modal_rules_exec(kind), raw, normalized, 0),
        _ => match route_rules(keys, modal_rules_exec(kind), raw, normalized) {
            Some(o) => o,
            None => None,
        },
    }
}

/// Routes a key press while the commit box has the focus.
pub fn route_commit_box_key(keys: &KeyBindings, raw: &str, normalized: &str) -> (res: Option<Action<String>>)
    ensures
        opt_action_view(res) == route_commit_box(keys@, raw@, normalized@),
{
    route_text_input(keys, commit_box_rules_exec(), raw, normalized, 1)
}

/// Routes a key press in workspace mode.
pub fn route_workspace_key(keys: &KeyBindings, ctx: &RouteContext, raw: &str, normalized: &str) -> (res: Option<
    Action<String>,
>)
    ensures
        opt_action_view(res) == route_workspace(keys@, *ctx, raw@, normalized@),
{
    if workspace_search_focused(ctx) {
        route_text_input(keys, workspace_search_rules_exec(), raw, normalized, 2)
    } else {
        match route_rules(keys, workspace_rules_exec(ctx), raw, normalized) {
            Some(o) => o,
            None => None,
        }
    }
}

/// Routes a key press in repository mode (`raw` already trimmed).
pub fn route_repo_key(
    keys: &KeyBindings,
    ctx: &RouteContext,
    page_size: usize,
    raw: &str,
    normalized: &str,
) -> (res: Option<Action<String>>)
    ensures
        opt_action_view(res) == route_repo(keys@, *ctx, page_size, raw@, normalized@),
{
    if repo_subview_filter_focused(ctx) {
        route_text_input(keys, repo_filter_rules_exec(), raw, normalized, 3)
    } else {
        match route_rules(keys, repo_rules_exec(ctx, page_size), raw, normalized) {
            Some(o) => o,
            None => None,
        }
    }
}

/// Routes a key press (see `route_key`).
pub fn route_key_exec(keys: &KeyBindings, ctx: &RouteContext, page_size: usize, key: &str) -> (res: Option<
    Action<String>,
>)
    ensures
        opt_action_view(res) == route_key(keys@, *ctx, page_size, key@),
{
    let trimmed = trim_str(key);
    let normalized = to_lower(trimmed);
    match ctx.top_modal {
        Some(kind) => {
            return route_modal_key(keys, kind, key, normalized.as_str());
        },
        None => {},
    }
    if commit_box_focused(ctx) {
        return route_commit_box_key(keys, key, normalized.as_str());
    }
    match route_rules(keys, global_rules_exec(ctx), key, normalized.as_str()) {
        Some(o) => o,
        None => if is_repository(ctx) {
            route_repo_key(keys, ctx, page_size, trimmed, normalized.as_str())
        } else {
            route_workspace_key(keys, ctx, key, normalized.as_str())
        },
    }
}

} // verus!
