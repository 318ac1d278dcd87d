use vstd::prelude::*;

use crate::chars::{is_alnum, is_ws, lower, lower_seq, trim, trim_end, trim_start};
use crate::keys::{
    action_matches, add_keys, any_key_matches, canon_id, canon_key, compile, key_matches,
    space_seq, strs_view,
};
use crate::model::{Action, AppMode, ModalKind, PaneId, RouteContext};
use crate::routing::{
    commit_box_active, commit_box_rules, first_rule, global_rules, modal_rules, next_focus,
    next_repo_pane, previous_focus, previous_repo_pane, repo_escape, route_key, rs, workspace_rules, RuleSpec,
};

use crate::commits::{commit_lines_spec, file_list_spec, CommitFilesPane, CommitHistory, CommitItem, CommitPane};
use crate::diff::{compare_rows, diff_window, status_diff_rows, DiffModel};
use crate::lists::{lemma_key_facts_pub, name_key_lt, sorted_by_name};
use crate::rebase::{rebase_rows, RebaseState};
use crate::text::{truncated_lines, ComparisonTarget, LineTone};

verus! {

proof fn lemma_canon_id_chars(s: Seq<char>)
    ensures
        forall|i: int| 0 <= i < canon_id(s).len() ==> is_alnum(#[trigger] canon_id(s)[i]) && lower(
            canon_id(s)[i],
        ) == canon_id(s)[i],
    decreases s.len(),
{
    if s.len() > 0 {
        let r = canon_id(s.drop_last());
        lemma_canon_id_chars(s.drop_last());
        lemma_lower_alnum(s.last());
        assert forall|i: int| 0 <= i < canon_id(s).len() implies is_alnum(#[trigger] canon_id(s)[i])
            && lower(canon_id(s)[i]) == canon_id(s)[i] by {
            if i < r.len() {
                assert(canon_id(s)[i] == r[i]);
            }
        }
    }
}

proof fn lemma_lower_alnum(c: char)
    ensures
        is_alnum(c) ==> is_alnum(lower(c)),
        lower(lower(c)) == lower(c),
{
    let u = c as u32;
    if 65 <= u <= 90 {
        let x = (u + 32) as u8;
        assert(x as u32 == u + 32);
        assert((x as char) as u32 == x as u32);
    }
}

proof fn lemma_canon_id_of_canonical(s: Seq<char>)
    requires
        forall|i: int| 0 <= i < s.len() ==> is_alnum(#[trigger] s[i]) && lower(s[i]) == s[i],
    ensures
        canon_id(s) == s,
    decreases s.len(),
{
    if s.len() > 0 {
        let t = s.drop_last();
        assert forall|i: int| 0 <= i < t.len() implies is_alnum(#[trigger] t[i]) && lower(t[i])
            == t[i] by {
            assert(t[i] == s[i]);
        }
        lemma_canon_id_of_canonical(t);
        assert(t.push(s.last()) =~= s);
    }
}

/// Canonicalizing an action id twice gives what canonicalizing it once gives.
pub proof fn law_canonical_action_id_is_stable(action_id: Seq<char>)
    ensures
        canon_id(canon_id(action_id)) == canon_id(action_id),
{
    lemma_canon_id_chars(action_id);
    lemma_canon_id_of_canonical(canon_id(action_id));
}

/// Two spellings of an action id with the same canonical form (`enter_repo_mode`,
/// `enter-repo-mode`, `EnterRepoMode`) are bound to the same keys.
pub proof fn law_action_spellings_are_interchangeable(
    overrides: Map<Seq<char>, Seq<Seq<char>>>,
    a: Seq<char>,
    b: Seq<char>,
    raw: Seq<char>,
    normalized: Seq<char>,
    defaults: Seq<Seq<char>>,
)
    requires
        canon_id(a) == canon_id(b),
    ensures
        action_matches(overrides, a, raw, normalized, defaults) == action_matches(
            overrides,
            b,
            raw,
            normalized,
            defaults,
        ),
{
}

/// An action that the overrides name is triggered by its override keys alone: its
/// default keys no longer count, whatever they are.
pub proof fn law_overrides_replace_defaults(
    overrides: Map<Seq<char>, Seq<Seq<char>>>,
    action_id: Seq<char>,
    raw: Seq<char>,
    normalized: Seq<char>,
    defaults: Seq<Seq<char>>,
)
    requires
        overrides.contains_key(canon_id(action_id)),
    ensures
        action_matches(overrides, action_id, raw, normalized, defaults) == any_key_matches(
            overrides[canon_id(action_id)],
            raw,
            normalized,
        ),
{
}

/// An action that the overrides do not name keeps its default keys.
pub proof fn law_unnamed_actions_keep_defaults(
    overrides: Map<Seq<char>, Seq<Seq<char>>>,
    action_id: Seq<char>,
    raw: Seq<char>,
    normalized: Seq<char>,
    defaults: Seq<Seq<char>>,
)
    requires
        !overrides.contains_key(canon_id(action_id)),
    ensures
        action_matches(overrides, action_id, raw, normalized, defaults) == any_key_matches(
            defaults,
            raw,
            normalized,
        ),
{
}

proof fn lemma_lower_idempotent(s: Seq<char>)
    ensures
        lower_seq(lower_seq(s)) == lower_seq(s),
{
    assert(lower_seq(lower_seq(s)) =~= lower_seq(s));
}

proof fn lemma_lower_ws(c: char)
    ensures
        is_ws(lower(c)) == is_ws(c),
{
}

pub(crate) proof fn lemma_trim_fixed(s: Seq<char>)
    requires
        s.len() > 0,
        !is_ws(s[0]),
        !is_ws(s.last()),
    ensures
        trim(s) == s,
{
    assert(trim_start(s) == s);
    assert(trim_end(s) == s);
}

proof fn lemma_trim_start_props(s: Seq<char>)
    ensures
        trim_start(s).len() <= s.len(),
        trim_start(s).len() > 0 ==> !is_ws(trim_start(s)[0]),
        trim_start(s).len() > 0 ==> trim_start(s).last() == s.last(),
    decreases s.len(),
{
    if s.len() > 0 && is_ws(s[0]) {
        lemma_trim_start_props(s.drop_first());
    }
}

proof fn lemma_trim_end_props(s: Seq<char>)
    ensures
        trim_end(s).len() <= s.len(),
        trim_end(s).len() > 0 ==> !is_ws(trim_end(s).last()),
        trim_end(s).len() > 0 ==> trim_end(s)[0] == s[0],
    decreases s.len(),
{
    if s.len() > 0 && is_ws(s.last()) {
        lemma_trim_end_props(s.drop_last());
    }
}

/// The trimmed text has no whitespace at either end and is no longer than the text.
pub proof fn lemma_trim_props(s: Seq<char>)
    ensures
        trim(s).len() <= s.len(),
        trim(s).len() > 0 ==> !is_ws(trim(s)[0]) && !is_ws(trim(s).last()),
{
    lemma_trim_start_props(s);
    lemma_trim_end_props(trim_start(s));
}

/// A canonical key binding is its own canonical form: canonicalizing twice changes nothing.
pub proof fn law_canonical_key_is_stable(key: Seq<char>)
    ensures
        canon_key(key) matches Some(c) ==> canon_key(c) == Some(c),
{
    reveal_with_fuel(trim_start, 2);
    reveal_with_fuel(trim_end, 2);
    let sp = space_seq();
    assert(!is_ws('s') && !is_ws('e'));
    lemma_trim_fixed(sp);
    lemma_lower_idempotent(sp);
    assert(lower_seq(sp) =~= sp);
    if let Some(c) = canon_key(key) {
        if c != sp {
            let t = trim(key);
            lemma_trim_props(key);
            assert(key != seq![' ']);
            assert(t.len() > 0);
            if t.len() == 1 {
                assert(c == t);
                lemma_trim_fixed(c);
                assert(c != seq![' ']) by {
                    if c == seq![' '] {
                        assert(is_ws(c[0]));
                    }
                }
                assert(lower_seq(c) != sp) by {
                    assert(lower_seq(c).len() == 1);
                }
            } else {
                assert(c == lower_seq(t));
                lemma_lower_ws(t[0]);
                lemma_lower_ws(t.last());
                assert(c[0] == lower(t[0]));
                assert(c.last() == lower(t.last()));
                lemma_trim_fixed(c);
                lemma_lower_idempotent(t);
                assert(c != seq![' ']) by {
                    assert(c.len() == t.len());
                }
                assert(lower_seq(c) != sp);
            }
        }
    }
}

} // verus!

verus! {

/// A name made of characters that are neither whitespace nor upper-case letters, at
/// least two long, other than `space`: the form of named keys such as `esc` or `ctrl+r`.
pub open spec fn plain_key_name(k: Seq<char>) -> bool {
    &&& k.len() >= 2
    &&& k != space_seq()
    &&& forall|i: int| 0 <= i < k.len() ==> !is_ws(#[trigger] k[i]) && !(65 <= (k[i] as u32) <= 90)
}

/// A plain key name is its own canonical form and matches exactly the key presses
/// whose normalized name it is.
pub proof fn lemma_plain_key_name(k: Seq<char>, raw: Seq<char>, normalized: Seq<char>)
    requires
        plain_key_name(k),
    ensures
        canon_key(k) == Some(k),
        key_matches(k, raw, normalized) == (normalized == k),
        trim(k) == k,
        lower_seq(k) == k,
{
    lemma_trim_fixed(k);
    assert(lower_seq(k) =~= k);
    assert(k != seq![' ']) by {
        if k == seq![' '] {
            assert(k.len() == 1);
        }
    }
}

/// The normalized form of a key press is no longer than the key press.
pub proof fn lemma_normalized_len(raw: Seq<char>)
    ensures
        lower_seq(trim(raw)).len() <= raw.len(),
{
    lemma_trim_props(raw);
}

} // verus!

verus! {

proof fn lemma_first_rule_outcome(
    m: Map<Seq<char>, Seq<Seq<char>>>,
    rules: Seq<RuleSpec>,
    raw: Seq<char>,
    normalized: Seq<char>,
)
    ensures
        first_rule(m, rules, raw, normalized) matches Some(o) ==> exists|i: int|
            0 <= i < rules.len() && (#[trigger] rules[i]).outcome == o,
    decreases rules.len(),
{
    if rules.len() > 0 {
        lemma_first_rule_outcome(m, rules.drop_first(), raw, normalized);
        if !action_matches(m, rules[0].id, raw, normalized, rules[0].defaults) {
            if let Some(o) = first_rule(m, rules, raw, normalized) {
                let i = choose|i: int|
                    0 <= i < rules.drop_first().len() && (#[trigger] rules.drop_first()[i]).outcome
                        == o;
                assert(rules[i + 1] == rules.drop_first()[i]);
            }
        } else {
            assert(rules[0].outcome == first_rule(m, rules, raw, normalized)->0);
        }
    }
}

/// The actions that a modal's keys ask for.
pub open spec fn modal_action(a: Action<Seq<char>>) -> bool {
    match a {
        Action::CloseTopModal => true,
        Action::ConfirmPendingOperation => true,
        Action::SubmitPromptInput => true,
        Action::BackspacePromptInput => true,
        Action::AppendPromptInput { .. } => true,
        Action::SubmitMenuSelection => true,
        Action::SelectNextMenuItem => true,
        Action::SelectPreviousMenuItem => true,
        _ => false,
    }
}

/// While a modal is open it takes every key: no key press reaches the commit box, the
/// global keys or the keys of the workspace or repository views.
pub proof fn law_open_modal_captures_keys(
    overrides: Map<Seq<char>, Seq<Seq<char>>>,
    ctx: RouteContext,
    page_size: usize,
    raw: Seq<char>,
)
    requires
        ctx.top_modal is Some,
    ensures
        route_key(overrides, ctx, page_size, raw) matches Some(a) ==> modal_action(a),
        ctx.top_modal == Some(ModalKind::Help) ==> (route_key(overrides, ctx, page_size, raw) matches Some(a)
            ==> a == Action::<Seq<char>>::CloseTopModal),
{
    let kind = ctx.top_modal->0;
    let normalized = lower_seq(trim(raw));
    lemma_first_rule_outcome(overrides, modal_rules(kind), raw, normalized);
    if let Some(o) = first_rule(overrides, modal_rules(kind), raw, normalized) {
        let i = choose|i: int| 0 <= i < modal_rules(kind).len() && (#[trigger] modal_rules(
            kind,
        )[i]).outcome == o;
        assert(0 <= i < modal_rules(kind).len());
    }
}

/// `Tab` cycles the three repository panes and `Shift+Tab` undoes it.
pub proof fn law_tab_cycles_repository_panes(p: PaneId)
    requires
        p == PaneId::RepoUnstaged || p == PaneId::RepoStaged || p == PaneId::RepoDetail,
    ensures
        next_repo_pane(next_repo_pane(next_repo_pane(p))) == p,
        previous_repo_pane(next_repo_pane(p)) == p,
        next_repo_pane(previous_repo_pane(p)) == p,
        next_repo_pane(p) != p,
{
}

/// In the workspace, `Tab` and `Shift+Tab` both swap the list and the preview.
pub proof fn law_tab_swaps_workspace_panes(ctx: RouteContext)
    requires
        ctx.mode == AppMode::Workspace,
    ensures
        next_focus(ctx) == previous_focus(ctx),
        ctx.focused_pane == PaneId::WorkspaceList ==> next_focus(ctx) == Action::<Seq<char>>::SetFocusedPane(
            PaneId::WorkspacePreview,
        ),
        ctx.focused_pane == PaneId::WorkspacePreview ==> next_focus(ctx) == Action::<Seq<char>>::SetFocusedPane(
            PaneId::WorkspaceList,
        ),
{
}

proof fn lemma_literal_keys()
    ensures
        plain_key_name("esc"@),
        plain_key_name("enter"@),
        plain_key_name("backspace"@),
        plain_key_name("tab"@),
        plain_key_name("shift+tab"@),
        "esc"@ == seq!['e', 's', 'c'],
        "?"@ == seq!['?'],
{
    reveal_strlit("esc");
    reveal_strlit("enter");
    reveal_strlit("backspace");
    reveal_strlit("tab");
    reveal_strlit("shift+tab");
    reveal_strlit("?");
    assert("enter"@ != space_seq());
    assert("backspace"@ != space_seq());
    assert("esc"@ != space_seq());
    assert("tab"@ != space_seq());
    assert("shift+tab"@ != space_seq());
}

/// With no overrides configured, every single character typed while the commit box has
/// the focus goes into the commit message.
pub proof fn law_commit_box_takes_typed_characters(
    ctx: RouteContext,
    page_size: usize,
    raw: Seq<char>,
)
    requires
        ctx.top_modal is None,
        commit_box_active(ctx),
        raw.len() == 1,
    ensures
        route_key(Map::empty(), ctx, page_size, raw) == Some(
            Action::<Seq<char>>::AppendCommitInput { text: raw },
        ),
{
    let normalized = lower_seq(trim(raw));
    lemma_normalized_len(raw);
    lemma_literal_keys();
    lemma_plain_key_name("esc"@, raw, normalized);
    lemma_plain_key_name("enter"@, raw, normalized);
    lemma_plain_key_name("backspace"@, raw, normalized);
    let rules = commit_box_rules();
    assert(strs_view(seq!["esc"]) =~= seq!["esc"@]);
    assert(strs_view(seq!["enter"]) =~= seq!["enter"@]);
    assert(strs_view(seq!["backspace"]) =~= seq!["backspace"@]);
    assert(!any_key_matches(seq!["esc"@], raw, normalized));
    assert(!any_key_matches(seq!["enter"@], raw, normalized));
    assert(!any_key_matches(seq!["backspace"@], raw, normalized));
    reveal_with_fuel(first_rule, 4);
    assert(rules.drop_first().drop_first().drop_first().len() == 0);
    assert(first_rule(Map::empty(), rules, raw, normalized) is None);
    assert(raw != space_seq());
}

} // verus!

verus! {

/// A single non-whitespace character is its own canonical binding and matches the key
/// presses that are that character, give or take surrounding whitespace.
pub proof fn lemma_single_key(c: char, raw: Seq<char>, normalized: Seq<char>)
    requires
        !is_ws(c),
    ensures
        canon_key(seq![c]) == Some(seq![c]),
        key_matches(seq![c], raw, normalized) == (trim(raw) == seq![c]),
{
    lemma_trim_fixed(seq![c]);
    assert(seq![c] != seq![' ']) by {
        if seq![c] == seq![' '] {
            assert(seq![c][0] == ' ');
        }
    }
    assert(lower_seq(seq![c]).len() == 1);
}

/// With no overrides configured, `Esc` in repository mode (no modal, commit box not
/// focused) does what `repo_escape` says: it first leaves a focused filter, then goes
/// back from the status detail, and only then leaves repository mode.
pub proof fn law_escape_in_repository_mode(ctx: RouteContext, page_size: usize)
    requires
        ctx.top_modal is None,
        !commit_box_active(ctx),
        ctx.mode == AppMode::Repository,
    ensures
        route_key(Map::empty(), ctx, page_size, "esc"@) == Some(repo_escape(ctx)),
{
    lemma_literal_keys();
    let raw = "esc"@;
    lemma_plain_key_name(raw, raw, raw);
    let normalized = lower_seq(trim(raw));
    assert(normalized == raw);
    lemma_plain_key_name("tab"@, raw, normalized);
    lemma_plain_key_name("shift+tab"@, raw, normalized);
    lemma_single_key('?', raw, normalized);
    assert("tab"@ != raw) by {
        reveal_strlit("tab");
    }
    assert("shift+tab"@ != raw) by {
        reveal_strlit("shift+tab");
    }
    assert(strs_view(seq!["?"]) =~= seq!["?"@]);
    assert(strs_view(seq!["tab"]) =~= seq!["tab"@]);
    assert(strs_view(seq!["shift+tab"]) =~= seq!["shift+tab"@]);
    assert(strs_view(seq!["esc"]) =~= seq!["esc"@]);
    assert(!any_key_matches(seq!["?"@], raw, normalized));
    assert(!any_key_matches(seq!["tab"@], raw, normalized));
    assert(!any_key_matches(seq!["shift+tab"@], raw, normalized));
    assert(key_matches("esc"@, raw, normalized));
    assert(key_matches(seq!["esc"@][0], raw, normalized));
    assert(any_key_matches(seq!["esc"@], raw, normalized));
    reveal_with_fuel(first_rule, 4);
    let rules = global_rules(ctx);
    assert(rules[3] == rs("leave_repo_mode", seq!["esc"], Some(repo_escape(ctx))));
    assert(first_rule(Map::empty(), rules, raw, normalized) == Some(Some(repo_escape(ctx))));
}

proof fn lemma_add_keys_canonical(prev: Seq<Seq<char>>, keys: Seq<Seq<char>>)
    requires
        prev.no_duplicates(),
        forall|i: int| 0 <= i < prev.len() ==> canon_key(#[trigger] prev[i]) == Some(prev[i]),
    ensures
        add_keys(prev, keys).no_duplicates(),
        forall|i: int|
            0 <= i < add_keys(prev, keys).len() ==> canon_key(#[trigger] add_keys(prev, keys)[i])
                == Some(add_keys(prev, keys)[i]),
    decreases keys.len(),
{
    if keys.len() > 0 {
        let acc = add_keys(prev, keys.drop_last());
        lemma_add_keys_canonical(prev, keys.drop_last());
        if let Some(k) = canon_key(keys.last()) {
            if !acc.contains(k) {
                law_canonical_key_is_stable(keys.last());
                let r = acc.push(k);
                assert forall|i: int| 0 <= i < r.len() implies canon_key(#[trigger] r[i]) == Some(r[i]) by {
                    if i < acc.len() {
                        assert(r[i] == acc[i]);
                    }
                }
                assert forall|a: int, b: int| 0 <= a < r.len() && 0 <= b < r.len() && a != b implies r[a]
                    != r[b] by {
                    if a == acc.len() {
                        assert(r[b] == acc[b]);
                    } else if b == acc.len() {
                        assert(r[a] == acc[a]);
                    } else {
                        assert(r[a] == acc[a] && r[b] == acc[b]);
                    }
                }
            }
        }
    }
}

/// Every action id of the compiled overrides is canonical and not empty, and its keys
/// are canonical bindings with none repeated.
pub proof fn law_compiled_overrides_are_canonical(ovs: Seq<(Seq<char>, Seq<Seq<char>>)>, id: Seq<char>)
    requires
        compile(ovs).contains_key(id),
    ensures
        id.len() > 0,
        canon_id(id) == id,
        compile(ovs)[id].no_duplicates(),
        forall|i: int|
            0 <= i < compile(ovs)[id].len() ==> canon_key(#[trigger] compile(ovs)[id][i])
                == Some(compile(ovs)[id][i]),
    decreases ovs.len(),
{
    if ovs.len() > 0 {
        let m = compile(ovs.drop_last());
        let cid = canon_id(ovs.last().0);
        if cid.len() == 0 || cid != id {
            law_compiled_overrides_are_canonical(ovs.drop_last(), id);
        } else {
            law_canonical_action_id_is_stable(ovs.last().0);
            if m.contains_key(id) {
                law_compiled_overrides_are_canonical(ovs.drop_last(), id);
                lemma_add_keys_canonical(m[id], ovs.last().1);
            } else {
                lemma_add_keys_canonical(Seq::empty(), ovs.last().1);
            }
        }
    }
}

/// The compiled overrides hold an entry for exactly the canonical action ids of the
/// configured overrides that have a letter or digit.
pub proof fn law_compiled_overrides_cover_configured_actions(
    ovs: Seq<(Seq<char>, Seq<Seq<char>>)>,
    id: Seq<char>,
)
    ensures
        compile(ovs).contains_key(id) <==> (id.len() > 0 && exists|i: int|
            0 <= i < ovs.len() && canon_id((#[trigger] ovs[i]).0) == id),
    decreases ovs.len(),
{
    if ovs.len() > 0 {
        let t = ovs.drop_last();
        law_compiled_overrides_cover_configured_actions(t, id);
        if exists|i: int| 0 <= i < t.len() && canon_id((#[trigger] t[i]).0) == id {
            let i = choose|i: int| 0 <= i < t.len() && canon_id((#[trigger] t[i]).0) == id;
            assert(ovs[i] == t[i]);
        }
        if exists|i: int| 0 <= i < ovs.len() && canon_id((#[trigger] ovs[i]).0) == id {
            let i = choose|i: int| 0 <= i < ovs.len() && canon_id((#[trigger] ovs[i]).0) == id;
            if i < t.len() {
                assert(t[i] == ovs[i]);
            }
        }
    }
}

} // verus!

verus! {

/// With no overrides configured, `Esc` in the workspace clears the search while the
/// search box has the focus or a search query is set.
pub proof fn law_escape_clears_workspace_search(ctx: RouteContext, page_size: usize)
    requires
        ctx.top_modal is None,
        !commit_box_active(ctx),
        ctx.mode == AppMode::Workspace,
        ctx.workspace_search_focused || ctx.workspace_search_query@.len() > 0,
    ensures
        route_key(Map::empty(), ctx, page_size, "esc"@) == Some(
            Action::<Seq<char>>::CancelWorkspaceSearch,
        ),
{
    lemma_literal_keys();
    reveal_strlit("down");
    reveal_strlit("up");
    reveal_strlit("right");
    reveal_strlit("left");
    reveal_strlit("tab");
    reveal_strlit("shift+tab");
    let raw = "esc"@;
    lemma_plain_key_name(raw, raw, raw);
    let n = lower_seq(trim(raw));
    assert(n == raw);
    assert(plain_key_name("down"@) && "down"@ != space_seq());
    assert(plain_key_name("up"@) && "up"@ != space_seq());
    assert(plain_key_name("right"@) && "right"@ != space_seq());
    assert(plain_key_name("left"@) && "left"@ != space_seq());
    lemma_plain_key_name("tab"@, raw, n);
    lemma_plain_key_name("shift+tab"@, raw, n);
    lemma_plain_key_name("down"@, raw, n);
    lemma_plain_key_name("up"@, raw, n);
    lemma_plain_key_name("right"@, raw, n);
    lemma_plain_key_name("left"@, raw, n);
    reveal_strlit("/");
    reveal_strlit("j");
    reveal_strlit("k");
    reveal_strlit("l");
    reveal_strlit("h");
    reveal_strlit("f");
    reveal_strlit("s");
    lemma_single_key('?', raw, n);
    lemma_single_key('/', raw, n);
    lemma_single_key('j', raw, n);
    lemma_single_key('k', raw, n);
    lemma_single_key('l', raw, n);
    lemma_single_key('h', raw, n);
    lemma_single_key('f', raw, n);
    lemma_single_key('s', raw, n);
    assert(key_matches(seq!["esc"@][0], raw, n));
    assert(any_key_matches(seq!["esc"@], raw, n));
    assert(strs_view(seq!["esc"]) =~= seq!["esc"@]);
    reveal_with_fuel(first_rule, 10);
    assert(first_rule(Map::empty(), global_rules(ctx), raw, n) is None) by {
        assert(strs_view(seq!["?"]) =~= seq!["?"@]);
        assert(strs_view(seq!["tab"]) =~= seq!["tab"@]);
        assert(strs_view(seq!["shift+tab"]) =~= seq!["shift+tab"@]);
        assert(!any_key_matches(seq!["?"@], raw, n));
        assert(!any_key_matches(seq!["tab"@], raw, n));
        assert(!any_key_matches(seq!["shift+tab"@], raw, n));
        assert(global_rules(ctx).len() == 3);
    }
    if !ctx.workspace_search_focused {
        assert(strs_view(seq!["/"]) =~= seq!["/"@]);
        assert(strs_view(seq!["j", "down"]) =~= seq!["j"@, "down"@]);
        assert(strs_view(seq!["k", "up"]) =~= seq!["k"@, "up"@]);
        assert(strs_view(seq!["l", "right"]) =~= seq!["l"@, "right"@]);
        assert(strs_view(seq!["h", "left"]) =~= seq!["h"@, "left"@]);
        assert(strs_view(seq!["f"]) =~= seq!["f"@]);
        assert(strs_view(seq!["s"]) =~= seq!["s"@]);
        assert(!any_key_matches(seq!["/"@], raw, n));
        assert(!any_key_matches(seq!["j"@, "down"@], raw, n));
        assert(!any_key_matches(seq!["k"@, "up"@], raw, n));
        assert(!any_key_matches(seq!["l"@, "right"@], raw, n));
        assert(!any_key_matches(seq!["h"@, "left"@], raw, n));
        assert(!any_key_matches(seq!["f"@], raw, n));
        assert(!any_key_matches(seq!["s"@], raw, n));
        let rules = workspace_rules(ctx);
        assert(rules[7] == rs("cancel_workspace_search", seq!["esc"], Some(Action::CancelWorkspaceSearch)));
    }
}

proof fn lemma_truncated_len<T>(s: Seq<T>, n: nat)
    ensures
        truncated_lines(s, n).len() <= n || truncated_lines(s, n) == s,
        truncated_lines(s, n).len() <= s.len(),
{
}

/// The commits subview never draws more lines than the viewport holds (at least one) once
/// the filter keeps a commit.
pub proof fn law_commit_history_fits_viewport(
    pane: CommitPane,
    history: CommitHistory,
    visible: Seq<usize>,
    viewport: nat,
)
    requires
        visible.len() > 0,
    ensures
        commit_lines_spec(pane, Some(history), visible, viewport).len() <= if viewport >= 1 {
            viewport
        } else {
            1
        },
{
    let limit: nat = if viewport >= 1 {
        viewport
    } else {
        1
    };
    let body = crate::commits::commit_body_rows(pane, history, visible, viewport);
    lemma_truncated_len(body, limit);
}

/// The file list of a commit never draws more lines than the viewport holds (at least one).
pub proof fn law_commit_file_list_fits_viewport(
    pane: CommitPane,
    files: CommitFilesPane,
    c: CommitItem,
    visible: Seq<usize>,
    viewport: nat,
)
    ensures
        file_list_spec(pane, files, c, visible, viewport).len() <= if viewport >= 1 {
            viewport
        } else {
            1
        },
{
}

/// The compare subview never draws more lines than the viewport holds (at least one).
pub proof fn law_compare_fits_viewport(
    diff: Option<DiffModel>,
    base: Option<ComparisonTarget>,
    target: Option<ComparisonTarget>,
    merge_clean: bool,
    scroll: nat,
    viewport: nat,
)
    ensures
        compare_rows(diff, base, target, merge_clean, scroll, viewport).len() <= if viewport >= 1 {
            viewport
        } else {
            1
        },
{
}

/// The rebase subview never draws more lines than the viewport holds (at least one) while a
/// rebase runs.
pub proof fn law_rebase_fits_viewport(
    rebase: RebaseState,
    diff: Seq<crate::diff::DiffLine>,
    scroll: nat,
    viewport: nat,
)
    ensures
        rebase_rows(true, Some(rebase), diff, scroll, viewport).len() <= if viewport >= 1 {
            viewport
        } else {
            1
        },
{
}

/// The window of a non-empty diff starts within it, ends after its start and within it, and
/// holds at most what the viewport leaves below the three header lines (at least one line);
/// scrolling further than the last full window shows the last full window.
pub proof fn law_diff_window_stays_in_range(len: nat, scroll: nat, viewport: nat)
    requires
        len > 0,
    ensures
        ({
            let (s, end) = diff_window(len, scroll, viewport);
            let cap: nat = if viewport > 4 {
                (viewport - 3) as nat
            } else {
                1
            };
            &&& s < end <= len
            &&& end - s <= cap
            &&& (end - s == cap || end - s == len)
            &&& s <= scroll
        }),
{
}

/// The status detail of a non-empty diff shows its three header lines and then exactly the
/// lines of its window.
pub proof fn law_status_diff_shows_the_window(
    d: DiffModel,
    cursor: Option<usize>,
    anchor: Option<usize>,
    merge_clean: bool,
    scroll: nat,
    viewport: nat,
)
    requires
        d.lines.len() > 0,
    ensures
        ({
            let (s, end) = diff_window(d.lines.len() as nat, scroll, viewport);
            let rows = status_diff_rows(Some(d), cursor, anchor, merge_clean, scroll, viewport);
            &&& rows.len() == 3 + end - s
            &&& forall|o: int| 0 <= o < end - s ==> #[trigger] rows[3 + o].0 == d.lines@[s + o].content@
        }),
{
}

/// A name sort has one outcome: two orderings of the same indices that are both sorted by
/// name (ties by index) are the same ordering.
pub proof fn law_name_sort_is_unique(names: Seq<String>, a: Seq<usize>, b: Seq<usize>)
    requires
        a.len() == b.len(),
        forall|x: usize| a.contains(x) <==> b.contains(x),
        sorted_by_name(names, a),
        sorted_by_name(names, b),
    ensures
        a == b,
    decreases a.len(),
{
    if a.len() > 0 {
        // The first element of each is the least of the common elements.
        assert(a.contains(a[0]));
        assert(b.contains(b[0]));
        let ia = choose|i: int| 0 <= i < b.len() && b[i] == a[0];
        let ib = choose|i: int| 0 <= i < a.len() && a[i] == b[0];
        if a[0] != b[0] {
            assert(ib > 0);
            assert(ia > 0);
            assert(name_key_lt(names, a[0], a[ib]));
            assert(name_key_lt(names, b[0], b[ia]));
            lemma_key_facts_pub(names, a[0], b[0], a[0]);
        }
        let ta = a.drop_first();
        let tb = b.drop_first();
        assert forall|x: usize| ta.contains(x) <==> tb.contains(x) by {
            if ta.contains(x) {
                let j = choose|j: int| 0 <= j < ta.len() && ta[j] == x;
                assert(a[j + 1] == x);
                assert(a.contains(x));
                let k = choose|k: int| 0 <= k < b.len() && b[k] == x;
                if k == 0 {
                    assert(name_key_lt(names, a[0], a[j + 1]));
                    lemma_key_facts_pub(names, a[0], x, a[0]);
                }
                assert(tb[k - 1] == x);
            }
            if tb.contains(x) {
                let j = choose|j: int| 0 <= j < tb.len() && tb[j] == x;
                assert(b[j + 1] == x);
                assert(b.contains(x));
                let k = choose|k: int| 0 <= k < a.len() && a[k] == x;
                if k == 0 {
                    assert(name_key_lt(names, b[0], b[j + 1]));
                    lemma_key_facts_pub(names, b[0], x, b[0]);
                }
                assert(ta[k - 1] == x);
            }
        }
        assert(sorted_by_name(names, ta)) by {
            assert forall|p: int, q: int| 0 <= p < q < ta.len() implies name_key_lt(names, #[trigger] ta[p], #[trigger] ta[q]) by {
                assert(ta[p] == a[p + 1] && ta[q] == a[q + 1]);
            }
        }
        assert(sorted_by_name(names, tb)) by {
            assert forall|p: int, q: int| 0 <= p < q < tb.len() implies name_key_lt(names, #[trigger] tb[p], #[trigger] tb[q]) by {
                assert(tb[p] == b[p + 1] && tb[q] == b[q + 1]);
            }
        }
        law_name_sort_is_unique(names, ta, tb);
        assert(a =~= seq![a[0]] + ta);
        assert(b =~= seq![b[0]] + tb);
    } else {
        assert(a =~= b);
    }
}

} // verus!
