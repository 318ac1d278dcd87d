use vstd::prelude::*;
use vstd::string::*;

use crate::chars::{
    char_count, eq_ignore_ascii_case, is_alnum, is_ascii_alnum, lower, lower_char, lower_seq, push_char,
    str_eq, to_lower, trim, trim_str,
};
use vstd::pervasive::VecAdditionalExecFns;

verus! {

/// The canonical form of an action id: its ASCII letters and digits, in lower case.
pub open spec fn canon_id(s: Seq<char>) -> Seq<char>
    decreases s.len(),
{
    if s.len() == 0 {
        Seq::empty()
    } else {
        let rest = canon_id(s.drop_last());
        if is_alnum(s.last()) {
            rest.push(lower(s.last()))
        } else {
            rest
        }
    }
}

pub open spec fn space_seq() -> Seq<char> {
    seq!['s', 'p', 'a', 'c', 'e']
}

/// The canonical form of a key binding, or `None` for a blank one.
pub open spec fn canon_key(k: Seq<char>) -> Option<Seq<char>> {
    if k == seq![' '] {
        Some(space_seq())
    } else {
        let t = trim(k);
        if t.len() == 0 {
            None
        } else if lower_seq(t) == space_seq() {
            Some(space_seq())
        } else if t.len() == 1 {
            Some(t)
        } else {
            Some(lower_seq(t))
        }
    }
}

/// Whether a binding matches a key press given raw and in normalized form.
pub open spec fn key_matches(binding: Seq<char>, raw: Seq<char>, normalized: Seq<char>) -> bool {
    match canon_key(binding) {
        None => false,
        Some(b) => if b == space_seq() {
            raw == seq![' '] || normalized == space_seq()
        } else if b.len() == 1 {
            trim(raw) == b
        } else {
            normalized == b
        },
    }
}

/// Whether some binding of a list matches the key press.
pub open spec fn any_key_matches(
    bindings: Seq<Seq<char>>,
    raw: Seq<char>,
    normalized: Seq<char>,
) -> bool {
    exists|i: int| 0 <= i < bindings.len() && key_matches(#[trigger] bindings[i], raw, normalized)
}

/// Whether the key press triggers the action: through its overrides where the
/// action has any, else through its default bindings.
pub open spec fn action_matches(
    overrides: Map<Seq<char>, Seq<Seq<char>>>,
    action_id: Seq<char>,
    raw: Seq<char>,
    normalized: Seq<char>,
    defaults: Seq<Seq<char>>,
) -> bool {
    let id = canon_id(action_id);
    if overrides.contains_key(id) {
        any_key_matches(overrides[id], raw, normalized)
    } else {
        any_key_matches(defaults, raw, normalized)
    }
}

/// The key list after the keys of one override are added: each canonical key
/// that is not yet there, in order.
pub open spec fn add_keys(prev: Seq<Seq<char>>, keys: Seq<Seq<char>>) -> Seq<Seq<char>>
    decreases keys.len(),
{
    if keys.len() == 0 {
        prev
    } else {
        let acc = add_keys(prev, keys.drop_last());
        match canon_key(keys.last()) {
            None => acc,
            Some(k) => if acc.contains(k) {
                acc
            } else {
                acc.push(k)
            },
        }
    }
}

/// The override table that a list of configured overrides (action, keys) compiles to.
pub open spec fn compile(ovs: Seq<(Seq<char>, Seq<Seq<char>>)>) -> Map<Seq<char>, Seq<Seq<char>>>
    decreases ovs.len(),
{
    if ovs.len() == 0 {
        Map::empty()
    } else {
        let m = compile(ovs.drop_last());
        let id = canon_id(ovs.last().0);
        if id.len() == 0 {
            m
        } else {
            let prev = if m.contains_key(id) {
                m[id]
            } else {
                Seq::empty()
            };
            m.insert(id, add_keys(prev, ovs.last().1))
        }
    }
}

pub open spec fn strings_view(v: Seq<String>) -> Seq<Seq<char>> {
    v.map_values(|s: String| s@)
}

pub open spec fn strs_view(v: Seq<&str>) -> Seq<Seq<char>> {
    v.map_values(|s: &str| s@)
}

/// The map that parallel lists of ids and key lists stand for.
pub open spec fn entries_map(
    ids: Seq<Seq<char>>,
    ks: Seq<Seq<Seq<char>>>,
) -> Map<Seq<char>, Seq<Seq<char>>>
    decreases ids.len(),
{
    if ids.len() == 0 || ks.len() == 0 {
        Map::empty()
    } else {
        entries_map(ids.drop_last(), ks.drop_last()).insert(ids.last(), ks.last())
    }
}

proof fn lemma_entries_map_contains(ids: Seq<Seq<char>>, ks: Seq<Seq<Seq<char>>>, id: Seq<char>)
    requires
        ids.len() == ks.len(),
    ensures
        entries_map(ids, ks).contains_key(id) <==> ids.contains(id),
    decreases ids.len(),
{
    if ids.len() > 0 {
        lemma_entries_map_contains(ids.drop_last(), ks.drop_last(), id);
        if ids.drop_last().contains(id) {
            let k = choose|k: int| 0 <= k < ids.drop_last().len() && ids.drop_last()[k] == id;
            assert(ids[k] == id);
        }
        if ids.contains(id) && id != ids.last() {
            let k = choose|k: int| 0 <= k < ids.len() && ids[k] == id;
            assert(ids.drop_last()[k] == id);
        }
    }
}

proof fn lemma_entries_map_index(ids: Seq<Seq<char>>, ks: Seq<Seq<Seq<char>>>, i: int)
    requires
        ids.len() == ks.len(),
        ids.no_duplicates(),
        0 <= i < ids.len(),
    ensures
        entries_map(ids, ks).contains_key(ids[i]),
        entries_map(ids, ks)[ids[i]] == ks[i],
    decreases ids.len(),
{
    if i < ids.len() - 1 {
        lemma_entries_map_index(ids.drop_last(), ks.drop_last(), i);
        assert(ids[i] != ids.last());
    }
}

proof fn lemma_entries_map_update(
    ids: Seq<Seq<char>>,
    ks: Seq<Seq<Seq<char>>>,
    i: int,
    v: Seq<Seq<char>>,
)
    requires
        ids.len() == ks.len(),
        ids.no_duplicates(),
        0 <= i < ids.len(),
    ensures
        entries_map(ids, ks.update(i, v)) == entries_map(ids, ks).insert(ids[i], v),
    decreases ids.len(),
{
    let ks2 = ks.update(i, v);
    if i == ids.len() - 1 {
        assert(ks2.drop_last() =~= ks.drop_last());
        assert(entries_map(ids, ks2) =~= entries_map(ids, ks).insert(ids[i], v));
    } else {
        lemma_entries_map_update(ids.drop_last(), ks.drop_last(), i, v);
        assert(ks2.drop_last() =~= ks.drop_last().update(i, v));
        assert(ids[i] != ids.last());
        assert(entries_map(ids, ks2) =~= entries_map(ids, ks).insert(ids[i], v));
    }
}

/// One configured override: an action name and the keys meant to trigger it.
pub struct KeybindingOverride {
    pub action: String,
    pub keys: Vec<String>,
}

impl KeybindingOverride {
    pub open spec fn view_pair(&self) -> (Seq<char>, Seq<Seq<char>>) {
        (self.action@, strings_view(self.keys@))
    }
}

pub open spec fn overrides_view(v: Seq<KeybindingOverride>) -> Seq<(Seq<char>, Seq<Seq<char>>)> {
    v.map_values(|o: KeybindingOverride| o.view_pair())
}

/// The compiled keybinding overrides: for each canonical action id that the
/// configuration names, the canonical keys that replace its default bindings.
pub struct KeyBindings {
    ids: Vec<String>,
    keys: Vec<Vec<String>>,
}

impl KeyBindings {
    pub closed spec fn ids_view(&self) -> Seq<Seq<char>> {
        strings_view(self.ids@)
    }

    pub closed spec fn keys_view(&self) -> Seq<Seq<Seq<char>>> {
        self.keys@.map_values(|v: Vec<String>| strings_view(v@))
    }

    #[verifier::type_invariant]
    closed spec fn inv(&self) -> bool {
        &&& self.ids@.len() == self.keys@.len()
        &&& self.ids_view().no_duplicates()
    }
}

impl View for KeyBindings {
    type V = Map<Seq<char>, Seq<Seq<char>>>;

    closed spec fn view(&self) -> Map<Seq<char>, Seq<Seq<char>>> {
        entries_map(self.ids_view(), self.keys_view())
    }
}

/// The canonical form of an action id: only its ASCII letters and digits, lower-cased,
/// so that `enter_repo_mode`, `enter-repo-mode` and `EnterRepoMode` name one action.
pub fn canonicalize_action_id(action_id: &str) -> (res: String)
    ensures
        res@ == canon_id(action_id@),
{
    let n = action_id.unicode_len();
    let mut res = String::new();
    let mut i: usize = 0;
    while i < n
        invariant
            n == action_id@.len(),
            i <= n,
            res@ == canon_id(action_id@.take(i as int)),
        decreases n - i,
    {
        let c = action_id.get_char(i);
        assert(action_id@.take(i + 1).drop_last() =~= action_id@.take(i as int));
        if is_ascii_alnum(c) {
            push_char(&mut res, lower_char(c));
        }
        i = i + 1;
    }
    assert(action_id@.take(n as int) =~= action_id@);
    res
}

/// The canonical form of a key binding: a single space and any spelling of "space"
/// become `space`, a single character stays as it is, a longer name is lower-cased;
/// a blank binding has none.
pub fn canonicalize_keybinding(key: &str) -> (res: Option<String>)
    ensures
        match res {
            Some(s) => canon_key(key@) == Some(s@),
            None => canon_key(key@) is None,
        },
{
    proof {
        reveal_strlit(" ");
        reveal_strlit("space");
    }
    assert(" "@ =~= seq![' ']);
    assert("space"@ =~= space_seq());
    if str_eq(key, " ") {
        return Some(String::from_str("space"));
    }
    let trimmed = trim_str(key);
    if char_count(trimmed) == 0 {
        return None;
    }
    if eq_ignore_ascii_case(trimmed, "space") {
        assert(lower_seq("space"@) =~= space_seq());
        return Some(String::from_str("space"));
    }
    assert(lower_seq("space"@) =~= space_seq());
    if char_count(trimmed) == 1 {
        return Some(String::from_str(trimmed));
    }
    Some(to_lower(trimmed))
}

/// Whether a configured binding matches a key press (`raw` as the terminal named it,
/// `normalized` trimmed and lower-cased).
pub fn binding_matches_key(binding: &str, raw: &str, normalized: &str) -> (res: bool)
    ensures
        res == key_matches(binding@, raw@, normalized@),
{
    proof {
        reveal_strlit(" ");
        reveal_strlit("space");
    }
    assert(" "@ =~= seq![' ']);
    assert("space"@ =~= space_seq());
    let binding = match canonicalize_keybinding(binding) {
        Some(b) => b,
        None => return false,
    };
    if str_eq(binding.as_str(), "space") {
        return str_eq(raw, " ") || str_eq(normalized, "space");
    }
    if char_count(binding.as_str()) == 1 {
        return str_eq(trim_str(raw), binding.as_str());
    }
    str_eq(normalized, binding.as_str())
}

fn any_binding_matches(bindings: &Vec<String>, raw: &str, normalized: &str) -> (res: bool)
    ensures
        res == any_key_matches(strings_view(bindings@), raw@, normalized@),
{
    let ghost bv = strings_view(bindings@);
    let mut i: usize = 0;
    while i < bindings.len()
        invariant
            bv == strings_view(bindings@),
            i <= bindings.len(),
            forall|j: int| 0 <= j < i ==> !key_matches(#[trigger] bv[j], raw@, normalized@),
        decreases bindings.len() - i,
    {
        if binding_matches_key(bindings[i].as_str(), raw, normalized) {
            assert(key_matches(bv[i as int], raw@, normalized@));
            return true;
        }
        i = i + 1;
    }
    false
}

fn any_default_matches(defaults: &[&str], raw: &str, normalized: &str) -> (res: bool)
    ensures
        res == any_key_matches(strs_view(defaults@), raw@, normalized@),
{
    let ghost dv = strs_view(defaults@);
    let mut i: usize = 0;
    while i < defaults.len()
        invariant
            dv == strs_view(defaults@),
            i <= defaults.len(),
            forall|j: int| 0 <= j < i ==> !key_matches(#[trigger] dv[j], raw@, normalized@),
        decreases defaults.len() - i,
    {
        if binding_matches_key(defaults[i], raw, normalized) {
            assert(key_matches(dv[i as int], raw@, normalized@));
            return true;
        }
        i = i + 1;
    }
    false
}

fn position_of(v: &Vec<String>, s: &String) -> (res: Option<usize>)
    ensures
        match res {
            Some(i) => i < v@.len() && strings_view(v@)[i as int] == s@,
            None => !strings_view(v@).contains(s@),
        },
{
    let ghost sv = strings_view(v@);
    let mut i: usize = 0;
    while i < v.len()
        invariant
            sv == strings_view(v@),
            i <= v.len(),
            forall|j: int| 0 <= j < i ==> sv[j] != s@,
        decreases v.len() - i,
    {
        if v[i] == *s {
            return Some(i);
        }
        i = i + 1;
    }
    None
}

fn contains_string(v: &Vec<String>, s: &String) -> (res: bool)
    ensures
        res == strings_view(v@).contains(s@),
{
    let ghost sv = strings_view(v@);
    let mut i: usize = 0;
    while i < v.len()
        invariant
            sv == strings_view(v@),
            i <= v.len(),
            forall|j: int| 0 <= j < i ==> sv[j] != s@,
        decreases v.len() - i,
    {
        if v[i] == *s {
            assert(sv[i as int] == s@);
            return true;
        }
        i = i + 1;
    }
    false
}

impl KeyBindings {
    /// A table with no overrides.
    pub fn new() -> (res: KeyBindings)
        ensures
            res@ == Map::<Seq<char>, Seq<Seq<char>>>::empty(),
    {
        let res = KeyBindings { ids: Vec::new(), keys: Vec::new() };
        assert(res.ids_view() =~= Seq::empty());
        assert(res@ =~= Map::<Seq<char>, Seq<Seq<char>>>::empty());
        res
    }

    fn find(&self, id: &String) -> (res: Option<usize>)
        ensures
            match res {
                Some(i) => i < self.ids_view().len() && self.ids_view()[i as int] == id@,
                None => !self.ids_view().contains(id@),
            },
    {
        proof {
            use_type_invariant(self);
        }
        position_of(&self.ids, id)
    }

    /// Whether the key press triggers the action: the override keys decide for an
    /// action the configuration names (its default keys then no longer count), the
    /// default keys decide for any other.
    pub fn binding_matches_action(
        &self,
        action_id: &str,
        raw: &str,
        normalized: &str,
        defaults: &[&str],
    ) -> (res: bool)
        ensures
            res == action_matches(self@, action_id@, raw@, normalized@, strs_view(defaults@)),
    {
        proof {
            use_type_invariant(self);
        }
        let canonical = canonicalize_action_id(action_id);
        match self.find(&canonical) {
            Some(i) => {
                proof {
                    lemma_entries_map_index(self.ids_view(), self.keys_view(), i as int);
                }
                any_binding_matches(&self.keys[i], raw, normalized)
            },
            None => {
                proof {
                    lemma_entries_map_contains(self.ids_view(), self.keys_view(), canonical@);
                }
                any_default_matches(defaults, raw, normalized)
            },
        }
    }
}

fn add_override_keys(list: &mut Vec<String>, keys: &Vec<String>)
    ensures
        strings_view(final(list)@) == add_keys(strings_view(old(list)@), strings_view(keys@)),
{
    let ghost prev = strings_view(list@);
    let ghost kv = strings_view(keys@);
    let mut i: usize = 0;
    assert(kv.take(0) =~= Seq::empty());
    while i < keys.len()
        invariant
            kv == strings_view(keys@),
            i <= keys.len(),
            strings_view(list@) == add_keys(prev, kv.take(i as int)),
        decreases keys.len() - i,
    {
        assert(kv.take(i + 1).drop_last() =~= kv.take(i as int));
        assert(kv.take(i + 1).last() == keys@[i as int]@);
        match canonicalize_keybinding(keys[i].as_str()) {
            Some(key) => {
                if !contains_string(list, &key) {
                    let ghost before = strings_view(list@);
                    list.push(key);
                    assert(strings_view(list@) =~= before.push(key@));
                }
            },
            None => {},
        }
        i = i + 1;
    }
    assert(kv.take(keys.len() as int) =~= kv);
}

/// Compiles the configured overrides into a table keyed by canonical action id;
/// overrides of one action merge, keys are canonicalized, blank and repeated keys are
/// dropped, and an override whose action id has no letter or digit is ignored.
pub fn compile_keybinding_overrides(overrides: &Vec<KeybindingOverride>) -> (res: KeyBindings)
    ensures
        res@ == compile(overrides_view(overrides@)),
{
    let ghost ov = overrides_view(overrides@);
    let mut ids: Vec<String> = Vec::new();
    let mut keys: Vec<Vec<String>> = Vec::new();
    let mut i: usize = 0;
    assert(strings_view(ids@) =~= Seq::empty());
    assert(ov.take(0) =~= Seq::empty());
    while i < overrides.len()
        invariant
            ov == overrides_view(overrides@),
            i <= overrides.len(),
            ids@.len() == keys@.len(),
            strings_view(ids@).no_duplicates(),
            entries_map(strings_view(ids@), keys@.map_values(|v: Vec<String>| strings_view(v@)))
                == compile(ov.take(i as int)),
        decreases overrides.len() - i,
    {
        let ghost ids_v = strings_view(ids@);
        let ghost keys_v = keys@.map_values(|v: Vec<String>| strings_view(v@));
        let ghost m = compile(ov.take(i as int));
        assert(ov.take(i + 1).drop_last() =~= ov.take(i as int));
        assert(ov.take(i + 1).last() == ov[i as int]);
        let ov_i = &overrides[i];
        let id = canonicalize_action_id(ov_i.action.as_str());
        if id.unicode_len() != 0 {
            let found = position_of(&ids, &id);
            proof {
                lemma_entries_map_contains(ids_v, keys_v, id@);
            }
            match found {
                Some(k) => {
                    proof {
                        lemma_entries_map_index(ids_v, keys_v, k as int);
                    }
                    let mut list: Vec<String> = Vec::new();
                    keys.set_and_swap(k, &mut list);
                    add_override_keys(&mut list, &ov_i.keys);
                    keys.set(k, list);
                    proof {
                        lemma_entries_map_update(ids_v, keys_v, k as int, strings_view(list@));
                        assert(keys@.map_values(|v: Vec<String>| strings_view(v@))
                            =~= keys_v.update(k as int, strings_view(list@)));
                    }
                },
                None => {
                    proof {
                    }
                    let mut list: Vec<String> = Vec::new();
                    assert(strings_view(list@) =~= Seq::empty());
                    add_override_keys(&mut list, &ov_i.keys);
                    ids.push(id);
                    keys.push(list);
                    proof {
                        let ids2 = strings_view(ids@);
                        let keys2 = keys@.map_values(|v: Vec<String>| strings_view(v@));
                        assert(ids2.drop_last() =~= ids_v);
                        assert(keys2.drop_last() =~= keys_v);
                        assert(ids2 =~= ids_v.push(id@));
                        assert(ids2.no_duplicates()) by {
                            assert forall|a: int, b: int| 0 <= a < ids2.len() && 0 <= b < ids2.len() && a != b
                                implies ids2[a] != ids2[b] by {
                                if a == ids2.len() - 1 {
                                    assert(ids_v[b] != id@);
                                } else if b == ids2.len() - 1 {
                                    assert(ids_v[a] != id@);
                                }
                            }
                        }
                    }
                },
            }
        }
        i = i + 1;
    }
    assert(ov.take(overrides.len() as int) =~= ov);
    KeyBindings { ids, keys }
}

} // verus!
