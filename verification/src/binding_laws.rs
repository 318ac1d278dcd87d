use vstd::prelude::*;

use crate::chars::{lower_seq, trim};
use crate::diff::diff_help_text;
use crate::keys::{action_matches, add_keys, any_key_matches, canon_id, canon_key, compile, key_matches, space_seq, strs_view};
use crate::laws::{lemma_plain_key_name, lemma_single_key, lemma_trim_fixed, plain_key_name};
use crate::model::{Action, AppMode, DiffPresentation, PaneId, RepoRouteState, RepoSubview, RouteContext, SubviewFilter};
use crate::repo_keys::{repo_global_keys, repo_rules, selected_lines_action, status_detail_keys};
use crate::routing::{first_rule, global_rules, route_key, RuleSpec};

verus! {

/// Adding an override's keys keeps every key already bound and binds the canonical form
/// of each of its keys that has one.
proof fn lemma_add_keys_keeps_and_adds(prev: Seq<Seq<char>>, keys: Seq<Seq<char>>)
    ensures
        forall|x: Seq<char>| prev.contains(x) ==> #[trigger] add_keys(prev, keys).contains(x),
        forall|j: int|
            0 <= j < keys.len() && canon_key(#[trigger] keys[j]) is Some ==> add_keys(prev, keys).contains(
                canon_key(keys[j])->0,
            ),
    decreases keys.len(),
{
    if keys.len() > 0 {
        let t = keys.drop_last();
        lemma_add_keys_keeps_and_adds(prev, t);
        let acc = add_keys(prev, t);
        let r = add_keys(prev, keys);
        assert forall|x: Seq<char>| acc.contains(x) implies r.contains(x) by {
            if r != acc {
                let k = choose|k: int| 0 <= k < acc.len() && acc[k] == x;
                assert(r[k] == x);
            }
        }
        assert forall|j: int| 0 <= j < keys.len() && canon_key(#[trigger] keys[j]) is Some implies r.contains(
            canon_key(keys[j])->0,
        ) by {
            if j < t.len() {
                assert(t[j] == keys[j]);
                assert(acc.contains(canon_key(t[j])->0));
            } else {
                let k = canon_key(keys.last())->0;
                if !acc.contains(k) {
                    assert(r[acc.len() as int] == k);
                }
            }
        }
    }
}

/// Every key configured for an action is bound to it: for each override whose action
/// has a canonical id, the compiled keys of that id hold the canonical form of each of
/// its keys that has one, whatever other overrides come before or after it.
pub proof fn law_compiled_overrides_keep_every_configured_key(
    ovs: Seq<(Seq<char>, Seq<Seq<char>>)>,
    i: int,
    j: int,
)
    requires
        0 <= i < ovs.len(),
        0 <= j < ovs[i].1.len(),
        canon_id(ovs[i].0).len() > 0,
        canon_key(ovs[i].1[j]) is Some,
    ensures
        compile(ovs).contains_key(canon_id(ovs[i].0)),
        compile(ovs)[canon_id(ovs[i].0)].contains(canon_key(ovs[i].1[j])->0),
    decreases ovs.len(),
{
    let id = canon_id(ovs[i].0);
    let key = canon_key(ovs[i].1[j])->0;
    let t = ovs.drop_last();
    let m = compile(t);
    let last_id = canon_id(ovs.last().0);
    if i == ovs.len() - 1 {
        let prev = if m.contains_key(id) {
            m[id]
        } else {
            Seq::empty()
        };
        lemma_add_keys_keeps_and_adds(prev, ovs.last().1);
    } else {
        assert(t[i] == ovs[i]);
        law_compiled_overrides_keep_every_configured_key(t, i, j);
        if last_id.len() > 0 && last_id == id {
            lemma_add_keys_keeps_and_adds(m[id], ovs.last().1);
        }
    }
}

/// Adding a rule at the end of a key map changes nothing for a key press that an earlier
/// rule takes; otherwise the new rule answers when it takes the press.
proof fn lemma_first_rule_push(
    m: Map<Seq<char>, Seq<Seq<char>>>,
    s: Seq<RuleSpec>,
    r: RuleSpec,
    raw: Seq<char>,
    n: Seq<char>,
)
    ensures
        first_rule(m, s.push(r), raw, n) == match first_rule(m, s, raw, n) {
            Some(o) => Some(o),
            None => if action_matches(m, r.id, raw, n, r.defaults) {
                Some(r.outcome)
            } else {
                None
            },
        },
    decreases s.len(),
{
    if s.len() == 0 {
        assert(s.push(r).drop_first() =~= s);
    } else {
        assert(s.push(r).drop_first() =~= s.drop_first().push(r));
        assert(s.push(r)[0] == s[0]);
        lemma_first_rule_push(m, s.drop_first(), r, raw, n);
    }
}

/// The key press `L`, raw and normalized.
spec fn press_l() -> Seq<char> {
    seq!['L']
}

spec fn press_l_normalized() -> Seq<char> {
    lower_seq(trim(press_l()))
}

/// A binding takes the key press `L` only when its canonical form is `L` itself.
proof fn lemma_press_l(d: Seq<char>)
    ensures
        key_matches(d, press_l(), press_l_normalized()) ==> canon_key(d) == Some(press_l()),
        press_l_normalized().len() == 1,
{
    lemma_trim_fixed(press_l());
    let n = press_l_normalized();
    assert(n.len() == 1);
    assert(n != space_seq());
    assert(press_l() != seq![' ']);
}

proof fn lemma_one_skips_l(a: &str)
    requires
        canon_key(a@) is Some,
        canon_key(a@) != Some(press_l()),
    ensures
        !any_key_matches(strs_view(seq![a]), press_l(), press_l_normalized()),
{
    assert(strs_view(seq![a]) =~= seq![a@]);
    lemma_press_l(a@);
}

proof fn lemma_two_skip_l(a: &str, b: &str)
    requires
        canon_key(a@) is Some,
        canon_key(a@) != Some(press_l()),
        canon_key(b@) is Some,
        canon_key(b@) != Some(press_l()),
    ensures
        !any_key_matches(strs_view(seq![a, b]), press_l(), press_l_normalized()),
{
    assert(strs_view(seq![a, b]) =~= seq![a@, b@]);
    lemma_press_l(a@);
    lemma_press_l(b@);
}

/// A named key such as `ctrl+r` is not `L`.
proof fn lemma_name(k: Seq<char>)
    requires
        plain_key_name(k),
    ensures
        canon_key(k) == Some(k),
        canon_key(k) != Some(press_l()),
{
    lemma_plain_key_name(k, k, k);
}

/// A single character other than `L` is not `L`.
proof fn lemma_char(c: char)
    requires
        !crate::chars::is_ws(c),
        c != 'L',
    ensures
        canon_key(seq![c]) == Some(seq![c]),
        canon_key(seq![c]) != Some(press_l()),
{
    lemma_single_key(c, press_l(), press_l_normalized());
    assert(seq![c][0] == c);
}

proof fn lemma_push_facts()
    ensures
        forall|s: Seq<RuleSpec>, r: RuleSpec|
            #[trigger] first_rule(Map::empty(), s.push(r), press_l(), press_l_normalized()) == match first_rule(
                Map::empty(),
                s,
                press_l(),
                press_l_normalized(),
            ) {
                Some(o) => Some(o),
                None => if action_matches(Map::empty(), r.id, press_l(), press_l_normalized(), r.defaults) {
                    Some(r.outcome)
                } else {
                    None
                },
            },
{
    assert forall|s: Seq<RuleSpec>, r: RuleSpec|
        #[trigger] first_rule(Map::empty(), s.push(r), press_l(), press_l_normalized()) == match first_rule(
            Map::empty(),
            s,
            press_l(),
            press_l_normalized(),
        ) {
            Some(o) => Some(o),
            None => if action_matches(Map::empty(), r.id, press_l(), press_l_normalized(), r.defaults) {
                Some(r.outcome)
            } else {
                None
            },
        } by {
        lemma_first_rule_push(Map::empty(), s, r, press_l(), press_l_normalized());
    }
}

/// No key that works everywhere is `L`.
proof fn lemma_global_rules_skip_l(ctx: RouteContext)
    ensures
        first_rule(Map::empty(), global_rules(ctx), press_l(), press_l_normalized()) is None,
{
    lemma_push_facts();
    reveal_strlit("?");
    reveal_strlit("tab");
    reveal_strlit("shift+tab");
    reveal_strlit("esc");
    lemma_char('?');
    lemma_name("tab"@);
    lemma_name("shift+tab"@);
    lemma_name("esc"@);
    lemma_one_skips_l("?");
    lemma_one_skips_l("tab");
    lemma_one_skips_l("shift+tab");
    lemma_one_skips_l("esc");
    let e = Seq::<RuleSpec>::empty();
    let r0 = crate::routing::rs("open_help", seq!["?"], Some(Action::OpenModal { kind: crate::model::ModalKind::Help, title: "Help"@ }));
    let r1 = crate::routing::rs("next_focus", seq!["tab"], Some(crate::routing::next_focus(ctx)));
    let r2 = crate::routing::rs("previous_focus", seq!["shift+tab"], Some(crate::routing::previous_focus(ctx)));
    let r3 = crate::routing::rs("leave_repo_mode", seq!["esc"], Some(crate::routing::repo_escape(ctx)));
    assert(first_rule(Map::empty(), e, press_l(), press_l_normalized()) is None);
    assert(!action_matches(Map::empty(), r0.id, press_l(), press_l_normalized(), r0.defaults));
    assert(first_rule(Map::empty(), e.push(r0), press_l(), press_l_normalized()) is None);
    assert(first_rule(Map::empty(), e.push(r0).push(r1), press_l(), press_l_normalized()) is None);
    assert(first_rule(Map::empty(), e.push(r0).push(r1).push(r2), press_l(), press_l_normalized()) is None);
    assert(seq![r0, r1, r2] =~= e.push(r0).push(r1).push(r2));
    assert(first_rule(Map::empty(), e.push(r0).push(r1).push(r2).push(r3), press_l(), press_l_normalized()) is None);
}

/// None of the repository-wide keys is `L`.
#[verifier::rlimit(50)]
proof fn lemma_repo_global_keys_skip_l(s: Seq<RuleSpec>, ctx: RouteContext, page_size: usize)
    ensures
        first_rule(Map::empty(), repo_global_keys(s, ctx, page_size), press_l(), press_l_normalized())
            == first_rule(Map::empty(), s, press_l(), press_l_normalized()),
{
    lemma_push_facts();
    reveal_strlit("ctrl+r");
    reveal_strlit("pagedown");
    reveal_strlit("pageup");
    reveal_strlit("home");
    reveal_strlit("end");
    reveal_strlit("ctrl+s");
    reveal_strlit("ctrl+e");
    reveal_strlit("ctrl+w");
    reveal_strlit("ctrl+p");
    reveal_strlit("@");
    reveal_strlit("+");
    reveal_strlit("_");
    reveal_strlit(":");
    reveal_strlit(".");
    reveal_strlit(",");
    reveal_strlit("<");
    reveal_strlit(">");
    reveal_strlit("[");
    reveal_strlit("]");
    reveal_strlit("W");
    reveal_strlit("}");
    reveal_strlit("{");
    reveal_strlit(")");
    reveal_strlit("(");
    reveal_strlit("m");
    reveal_strlit("P");
    reveal_strlit("A");
    lemma_name("ctrl+r"@);
    lemma_name("pagedown"@);
    lemma_name("pageup"@);
    lemma_name("home"@);
    lemma_name("end"@);
    lemma_name("ctrl+s"@);
    lemma_name("ctrl+e"@);
    lemma_name("ctrl+w"@);
    lemma_name("ctrl+p"@);
    lemma_char('@');
    lemma_char('+');
    lemma_char('_');
    lemma_char(':');
    lemma_char('.');
    lemma_char(',');
    lemma_char('<');
    lemma_char('>');
    lemma_char('[');
    lemma_char(']');
    lemma_char('W');
    lemma_char('}');
    lemma_char('{');
    lemma_char(')');
    lemma_char('(');
    lemma_char('m');
    lemma_char('P');
    lemma_char('A');
    lemma_one_skips_l("ctrl+r");
    lemma_one_skips_l("@");
    lemma_one_skips_l("+");
    lemma_one_skips_l("_");
    lemma_one_skips_l(":");
    lemma_one_skips_l("[");
    lemma_one_skips_l("]");
    lemma_one_skips_l("ctrl+s");
    lemma_one_skips_l("ctrl+w");
    lemma_one_skips_l("}");
    lemma_one_skips_l("{");
    lemma_one_skips_l(")");
    lemma_one_skips_l("(");
    lemma_one_skips_l("m");
    lemma_one_skips_l("ctrl+p");
    lemma_one_skips_l("P");
    lemma_one_skips_l("A");
    lemma_two_skip_l(".", "pagedown");
    lemma_two_skip_l(",", "pageup");
    lemma_two_skip_l("<", "home");
    lemma_two_skip_l(">", "end");
    lemma_two_skip_l("W", "ctrl+e");
}

/// The binding `space` is not `L`.
proof fn lemma_space_name()
    ensures
        canon_key("space"@) == Some(space_seq()),
{
    reveal_strlit("space");
    assert("space"@ =~= space_seq());
    lemma_trim_fixed(space_seq());
    assert(lower_seq(space_seq()) =~= space_seq());
    assert(space_seq() != seq![' ']);
}

/// In the key map of the status diff, `L` is taken by the rule that applies the selected
/// lines, unless a rule before the map takes it.
#[verifier::rlimit(50)]
proof fn lemma_status_detail_keys_l(s: Seq<RuleSpec>, r: RepoRouteState)
    requires
        first_rule(Map::empty(), s, press_l(), press_l_normalized()) is None,
    ensures
        first_rule(Map::empty(), status_detail_keys(s, r), press_l(), press_l_normalized()) == Some(
            selected_lines_action(r),
        ),
{
    lemma_push_facts();
    reveal_strlit("J");
    reveal_strlit("K");
    reveal_strlit("j");
    reveal_strlit("k");
    reveal_strlit("v");
    reveal_strlit("down");
    reveal_strlit("up");
    reveal_strlit("enter");
    reveal_strlit("L");
    lemma_char('J');
    lemma_char('K');
    lemma_char('j');
    lemma_char('k');
    lemma_char('v');
    lemma_name("down"@);
    lemma_name("up"@);
    lemma_name("enter"@);
    lemma_space_name();
    lemma_one_skips_l("J");
    lemma_one_skips_l("K");
    lemma_one_skips_l("j");
    lemma_one_skips_l("k");
    lemma_one_skips_l("v");
    lemma_one_skips_l("down");
    lemma_one_skips_l("up");
    lemma_two_skip_l("enter", "space");
    lemma_press_l("L"@);
    lemma_single_key('L', press_l(), press_l_normalized());
    lemma_trim_fixed(press_l());
    assert("L"@ =~= press_l());
    assert(strs_view(seq!["L"]) =~= seq![press_l()]);
    assert(key_matches(strs_view(seq!["L"])[0], press_l(), press_l_normalized()));
    assert(any_key_matches(strs_view(seq!["L"]), press_l(), press_l_normalized()));
}

/// With no overrides, `L` in the status diff of repository mode (no modal, commit box
/// and filter not focused) applies the selected lines in the direction of the diff on
/// show: it stages them from a working-tree diff, unstages them from a staged diff, and
/// does nothing in a comparison diff or before a diff is loaded.
#[verifier::rlimit(50)]
pub proof fn law_l_applies_selected_lines_by_diff_side(ctx: RouteContext, page_size: usize, r: RepoRouteState)
    requires
        ctx.top_modal is None,
        ctx.mode == AppMode::Repository,
        ctx.focused_pane == PaneId::RepoDetail,
        ctx.repo_mode == Some(r),
        r.active_subview == RepoSubview::Status,
        !r.commit_box_focused,
        r.subview_filter != SubviewFilter::Focused,
    ensures
        r.detail matches Some(d) && d.diff_presentation == DiffPresentation::Unstaged ==> route_key(
            Map::empty(),
            ctx,
            page_size,
            "L"@,
        ) == Some(Action::<Seq<char>>::StageSelectedLines),
        r.detail matches Some(d) && d.diff_presentation == DiffPresentation::Staged ==> route_key(
            Map::empty(),
            ctx,
            page_size,
            "L"@,
        ) == Some(Action::<Seq<char>>::UnstageSelectedLines),
        r.detail matches Some(d) && d.diff_presentation == DiffPresentation::Comparison ==> route_key(
            Map::empty(),
            ctx,
            page_size,
            "L"@,
        ) is None,
        r.detail is None ==> route_key(Map::empty(), ctx, page_size, "L"@) is None,
{
    reveal_strlit("L");
    assert("L"@ =~= press_l());
    lemma_trim_fixed(press_l());
    lemma_push_facts();
    lemma_global_rules_skip_l(ctx);
    let e = Seq::<RuleSpec>::empty();
    assert(first_rule(Map::empty(), e, press_l(), press_l_normalized()) is None);
    let a = repo_global_keys(e, ctx, page_size);
    lemma_repo_global_keys_skip_l(e, ctx, page_size);
    lemma_status_detail_keys_l(a, r);
    let t = status_detail_keys(a, r);
    let c = crate::repo_keys::comparison_keys(t, r);
    assert(first_rule(Map::empty(), c, press_l(), press_l_normalized()) == Some(selected_lines_action(r)));
    assert(first_rule(Map::empty(), repo_rules(ctx, page_size), press_l(), press_l_normalized()) == Some(
        selected_lines_action(r),
    ));
}

/// What `L` does in the status diff agrees with the help line over that diff: where the
/// help line says `L stage lines` the key stages the selected lines, where it says
/// `L unstage lines` it unstages them, and over a comparison the help line offers no `L`
/// and the key does nothing.
pub proof fn law_l_agrees_with_the_diff_help_line(
    ctx: RouteContext,
    page_size: usize,
    r: RepoRouteState,
    d: crate::model::RepoDetailSnapshot,
    merge_clean: bool,
    range: Seq<char>,
)
    requires
        ctx.top_modal is None,
        ctx.mode == AppMode::Repository,
        ctx.focused_pane == PaneId::RepoDetail,
        ctx.repo_mode == Some(r),
        r.active_subview == RepoSubview::Status,
        !r.commit_box_focused,
        r.subview_filter != SubviewFilter::Focused,
        r.detail == Some(d),
    ensures
        ({
            let help = diff_help_text(d.diff_presentation, merge_clean, range);
            let action = route_key(Map::empty(), ctx, page_size, "L"@);
            &&& (action == Some(Action::<Seq<char>>::StageSelectedLines) <==> help.subrange(34, 47)
                == "L stage lines"@)
            &&& (action == Some(Action::<Seq<char>>::UnstageSelectedLines) <==> help.subrange(34, 49)
                == "L unstage lines"@)
            &&& (action is None <==> help.subrange(0, 15) == "Read-only diff:"@)
        }),
{
    law_l_applies_selected_lines_by_diff_side(ctx, page_size, r);
    reveal_strlit("L stage lines");
    reveal_strlit("L unstage lines");
    reveal_strlit("Read-only diff:");
    reveal_strlit("Line select: J/K cursor  v range  L stage lines  Enter/Space stage hunk  Mode: ");
    reveal_strlit(
        "Line select: J/K cursor  v range  L unstage lines  Enter/Space unstage hunk  Mode: staged changes  Range: ",
    );
    reveal_strlit("Read-only diff: j/k hunks  Down/Up scroll  Mode: comparison  Range: ");
    let help = diff_help_text(d.diff_presentation, merge_clean, range);
    match d.diff_presentation {
        DiffPresentation::Unstaged => {
            assert(help.subrange(34, 47) =~= "L stage lines"@);
            assert(help.subrange(34, 49) != "L unstage lines"@) by {
                assert(help.subrange(34, 49)[2] == 's');
                assert("L unstage lines"@[2] == 'u');
            }
            assert(help.subrange(0, 15) != "Read-only diff:"@) by {
                assert(help.subrange(0, 15)[0] == 'L');
            }
        },
        DiffPresentation::Staged => {
            assert(help.subrange(34, 49) =~= "L unstage lines"@);
            assert(help.subrange(34, 47) != "L stage lines"@) by {
                assert(help.subrange(34, 47)[2] == 'u');
            }
            assert(help.subrange(0, 15) != "Read-only diff:"@) by {
                assert(help.subrange(0, 15)[0] == 'L');
            }
        },
        DiffPresentation::Comparison => {
            assert(help.subrange(0, 15) =~= "Read-only diff:"@);
            assert(help.subrange(34, 47) != "L stage lines"@) by {
                assert(help.subrange(34, 47)[0] != 'L');
            }
            assert(help.subrange(34, 49) != "L unstage lines"@) by {
                assert(help.subrange(34, 49)[0] != 'L');
            }
        },
    }
}

} // verus!
