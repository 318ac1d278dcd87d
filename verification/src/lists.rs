use vstd::prelude::*;

verus! {

/// How a list of branches is ordered: as git reports it, or by name.
#[derive(Clone, Copy, Debug, PartialEq, Eq)]
pub enum BranchSortMode {
    Natural,
    Name,
}

/// Lexicographic order of texts, character by character (the order of `str::cmp`,
/// since UTF-8 keeps the order of code points).
pub open spec fn text_lt(a: Seq<char>, b: Seq<char>) -> bool
    decreases a.len(),
{
    if a.len() == 0 {
        b.len() > 0
    } else if b.len() == 0 {
        false
    } else if a[0] != b[0] {
        (a[0] as int) < (b[0] as int)
    } else {
        text_lt(a.drop_first(), b.drop_first())
    }
}

/// No text comes before itself, and of two texts at most one comes first.
pub proof fn lemma_text_lt_asymmetric(a: Seq<char>, b: Seq<char>)
    ensures
        !(text_lt(a, b) && text_lt(b, a)),
        !text_lt(a, a),
    decreases a.len(),
{
    if a.len() > 0 && b.len() > 0 && a[0] == b[0] {
        lemma_text_lt_asymmetric(a.drop_first(), b.drop_first());
    }
    if a.len() > 0 {
        lemma_text_lt_asymmetric(a.drop_first(), a.drop_first());
    }
}

/// Of two different texts one comes first.
pub proof fn lemma_text_lt_total(a: Seq<char>, b: Seq<char>)
    requires
        a != b,
    ensures
        text_lt(a, b) || text_lt(b, a),
    decreases a.len(),
{
    if a.len() > 0 && b.len() > 0 && a[0] == b[0] {
        if a.drop_first() == b.drop_first() {
            assert(a =~= seq![a[0]] + a.drop_first());
            assert(b =~= seq![b[0]] + b.drop_first());
        }
        lemma_text_lt_total(a.drop_first(), b.drop_first());
    } else if a.len() == 0 && b.len() == 0 {
        assert(a =~= b);
    }
}

/// The order of texts is transitive.
pub proof fn lemma_text_lt_transitive(a: Seq<char>, b: Seq<char>, c: Seq<char>)
    requires
        text_lt(a, b),
        text_lt(b, c),
    ensures
        text_lt(a, c),
    decreases a.len(),
{
    if a.len() > 0 && b.len() > 0 && c.len() > 0 && a[0] == b[0] && b[0] == c[0] {
        lemma_text_lt_transitive(a.drop_first(), b.drop_first(), c.drop_first());
    }
}

/// The order in which a name sort puts two item indices: by name, then by index.
pub open spec fn name_key_lt(names: Seq<String>, i: usize, j: usize) -> bool {
    text_lt(names[i as int]@, names[j as int]@) || (names[i as int]@ == names[j as int]@ && i < j)
}

/// The name-sort order is a strict total order on item indices.
pub proof fn lemma_key_facts_pub(names: Seq<String>, i: usize, j: usize, k: usize)
    ensures
        !(name_key_lt(names, i, j) && name_key_lt(names, j, i)),
        i != j ==> name_key_lt(names, i, j) || name_key_lt(names, j, i),
        name_key_lt(names, i, j) && name_key_lt(names, j, k) ==> name_key_lt(names, i, k),
{
    lemma_key_facts(names, i, j, k);
}

proof fn lemma_key_facts(names: Seq<String>, i: usize, j: usize, k: usize)
    ensures
        !(name_key_lt(names, i, j) && name_key_lt(names, j, i)),
        i != j ==> name_key_lt(names, i, j) || name_key_lt(names, j, i),
        name_key_lt(names, i, j) && name_key_lt(names, j, k) ==> name_key_lt(names, i, k),
{
    lemma_text_lt_asymmetric(names[i as int]@, names[j as int]@);
    lemma_text_lt_asymmetric(names[i as int]@, names[i as int]@);
    if names[i as int]@ != names[j as int]@ {
        lemma_text_lt_total(names[i as int]@, names[j as int]@);
    }
    if text_lt(names[i as int]@, names[j as int]@) && text_lt(names[j as int]@, names[k as int]@) {
        lemma_text_lt_transitive(names[i as int]@, names[j as int]@, names[k as int]@);
    }
}

/// The indices below `k` of the items that a filter keeps: all of them while the query is
/// empty, else those that match it.
pub open spec fn kept_indices(matches: Seq<bool>, query_is_empty: bool, k: int) -> Seq<usize>
    decreases k,
{
    if k <= 0 {
        Seq::empty()
    } else {
        let p = kept_indices(matches, query_is_empty, k - 1);
        if query_is_empty || matches[k - 1] {
            p.push((k - 1) as usize)
        } else {
            p
        }
    }
}

/// The indices of the items that a filter keeps, in list order (see `kept_indices`);
/// `matches[i]` says whether item `i` matches the query.
pub fn visible_indices(matches: &Vec<bool>, query_is_empty: bool) -> (res: Vec<usize>)
    ensures
        res@ == kept_indices(matches@, query_is_empty, matches.len() as int),
{
    let mut res: Vec<usize> = Vec::new();
    let mut k: usize = 0;
    while k < matches.len()
        invariant
            k <= matches.len(),
            res@ == kept_indices(matches@, query_is_empty, k as int),
        decreases matches.len() - k,
    {
        if query_is_empty || matches[k] {
            res.push(k);
        }
        k = k + 1;
    }
    res
}

proof fn lemma_kept_bounds(matches: Seq<bool>, q: bool, k: int)
    requires
        0 <= k <= matches.len(),
        matches.len() <= usize::MAX,
    ensures
        forall|a: int| 0 <= a < kept_indices(matches, q, k).len() ==> kept_indices(matches, q, k)[a] < k,
        forall|a: int, b: int|
            0 <= a < b < kept_indices(matches, q, k).len() ==> kept_indices(matches, q, k)[a]
                < kept_indices(matches, q, k)[b],
    decreases k,
{
    if k > 0 {
        lemma_kept_bounds(matches, q, k - 1);
        let p = kept_indices(matches, q, k - 1);
        let s = kept_indices(matches, q, k);
        if q || matches[k - 1] {
            assert(s == p.push((k - 1) as usize));
            assert forall|a: int| 0 <= a < s.len() implies s[a] < k by {
                if a < p.len() {
                    assert(s[a] == p[a]);
                }
            }
            assert forall|a: int, b: int| 0 <= a < b < s.len() implies s[a] < s[b] by {
                assert(s[a] == p[a]);
                assert(p[a] < k - 1);
                if b < p.len() {
                    assert(s[b] == p[b]);
                    assert(p[a] < p[b]);
                } else {
                    assert(s[b] == k - 1);
                }
            }
        }
    }
}

/// Whether `compare` puts the text `a` before `b`.
fn text_less(a: &str, b: &str) -> (res: bool)
    ensures
        res == text_lt(a@, b@),
{
    let la = a.unicode_len();
    let lb = b.unicode_len();
    let mut k: usize = 0;
    proof {
        assert(a@.skip(0) =~= a@);
        assert(b@.skip(0) =~= b@);
    }
    while k < la && k < lb
        invariant
            la == a@.len(),
            lb == b@.len(),
            k <= la,
            k <= lb,
            text_lt(a@, b@) == text_lt(a@.skip(k as int), b@.skip(k as int)),
        decreases la - k,
    {
        let ca = a.get_char(k);
        let cb = b.get_char(k);
        proof {
            assert(a@.skip(k as int)[0] == ca);
            assert(b@.skip(k as int)[0] == cb);
        }
        if ca != cb {
            return (ca as u32) < (cb as u32);
        }
        proof {
            assert(a@.skip(k as int).drop_first() =~= a@.skip(k + 1));
            assert(b@.skip(k as int).drop_first() =~= b@.skip(k + 1));
        }
        k = k + 1;
    }
    lb > k
}

/// Sorted by name, ties kept in index order: each index before every later one.
pub open spec fn sorted_by_name(names: Seq<String>, s: Seq<usize>) -> bool {
    forall|a: int, b: int| 0 <= a < b < s.len() ==> name_key_lt(names, #[trigger] s[a], #[trigger] s[b])
}

proof fn lemma_insert_keeps_sorted(names: Seq<String>, s: Seq<usize>, p: int, x: usize)
    requires
        0 <= p <= s.len(),
        sorted_by_name(names, s),
        forall|a: int| 0 <= a < p ==> name_key_lt(names, #[trigger] s[a], x),
        p < s.len() ==> name_key_lt(names, x, s[p]),
    ensures
        sorted_by_name(names, s.insert(p, x)),
        forall|y: usize| s.insert(p, x).contains(y) <==> (s.contains(y) || y == x),
{
    s.insert_ensures(p, x);
    let t = s.insert(p, x);
    assert forall|a: int, b: int| 0 <= a < b < t.len() implies name_key_lt(names, #[trigger] t[a], #[trigger] t[b]) by {
        if b < p {
            assert(t[a] == s[a] && t[b] == s[b]);
        } else if b == p {
            assert(t[a] == s[a]);
        } else if a < p {
            assert(t[a] == s[a] && t[b] == s[b - 1]);
            lemma_key_facts(names, s[a], s[p], s[b - 1]);
            if p < b - 1 {
                assert(name_key_lt(names, s[p], s[b - 1]));
            }
            lemma_key_facts(names, s[a], x, s[p]);
            lemma_key_facts(names, x, s[p], s[b - 1]);
        } else if a == p {
            assert(t[b] == s[b - 1]);
            if p < b - 1 {
                assert(name_key_lt(names, s[p], s[b - 1]));
                lemma_key_facts(names, x, s[p], s[b - 1]);
            }
        } else {
            assert(t[a] == s[a - 1] && t[b] == s[b - 1]);
        }
    }
    assert forall|y: usize| t.contains(y) <==> (s.contains(y) || y == x) by {
        if t.contains(y) {
            let j = choose|j: int| 0 <= j < t.len() && t[j] == y;
            if j < p {
                assert(s[j] == y);
            } else if j > p {
                assert(s[j - 1] == y);
            }
        }
        if s.contains(y) {
            let j = choose|j: int| 0 <= j < s.len() && s[j] == y;
            if j < p {
                assert(t[j] == y);
            } else {
                assert(t[j + 1] == y);
            }
        }
        if y == x {
            assert(t[p] == y);
        }
    }
}

/// The indices ordered by the names they point to, ties in index order: the same indices,
/// each before every later one by `name_key_lt`.
pub fn sort_by_name(indices: &Vec<usize>, names: &Vec<String>) -> (res: Vec<usize>)
    requires
        forall|a: int| 0 <= a < indices.len() ==> indices@[a] < names.len(),
        forall|a: int, b: int| 0 <= a < b < indices.len() ==> indices@[a] != indices@[b],
    ensures
        res.len() == indices.len(),
        forall|x: usize| res@.contains(x) <==> indices@.contains(x),
        sorted_by_name(names@, res@),
{
    let mut res: Vec<usize> = Vec::new();
    let mut k: usize = 0;
    while k < indices.len()
        invariant
            k <= indices.len(),
            res.len() == k,
            forall|a: int| 0 <= a < indices.len() ==> indices@[a] < names.len(),
            forall|a: int, b: int| 0 <= a < b < indices.len() ==> indices@[a] != indices@[b],
            forall|x: usize| res@.contains(x) <==> indices@.take(k as int).contains(x),
            sorted_by_name(names@, res@),
        decreases indices.len() - k,
    {
        let x = indices[k];
        proof {
            assert forall|a: int| 0 <= a < res.len() implies #[trigger] res@[a] < names.len() && res@[a] != x by {
                assert(res@.contains(res@[a]));
                let j = choose|j: int| 0 <= j < k && indices@.take(k as int)[j] == res@[a];
                assert(indices@[j] == res@[a]);
            }
        }
        let mut p: usize = 0;
        while p < res.len()
            invariant_except_break
                p <= res.len(),
                res.len() == k,
                k < indices.len(),
                x == indices@[k as int],
                x < names.len(),
                forall|a: int| 0 <= a < res.len() ==> #[trigger] res@[a] < names.len() && res@[a] != x,
                forall|a: int| 0 <= a < p ==> name_key_lt(names@, #[trigger] res@[a], x),
            ensures
                p <= res.len(),
                forall|a: int| 0 <= a < p ==> name_key_lt(names@, #[trigger] res@[a], x),
                p < res.len() ==> name_key_lt(names@, x, res@[p as int]),
            decreases res.len() - p,
        {
            let y = res[p];
            let before = text_less(names[x].as_str(), names[y].as_str()) || (!text_less(
                names[y].as_str(),
                names[x].as_str(),
            ) && x < y);
            proof {
                lemma_text_lt_asymmetric(names@[x as int]@, names@[y as int]@);
                if names@[x as int]@ != names@[y as int]@ {
                    lemma_text_lt_total(names@[x as int]@, names@[y as int]@);
                }
                lemma_key_facts(names@, x, y, x);
            }
            if before {
                break;
            }
            p = p + 1;
        }
        proof {
            lemma_insert_keeps_sorted(names@, res@, p as int, x);
            let t = indices@.take(k as int);
            assert(indices@.take(k + 1) =~= t.push(x));
            assert forall|y: usize| t.push(x).contains(y) <==> (t.contains(y) || y == x) by {
                if t.push(x).contains(y) {
                    let j = choose|j: int| 0 <= j < t.push(x).len() && t.push(x)[j] == y;
                    if j < t.len() {
                        assert(t[j] == y);
                    }
                }
                if t.contains(y) {
                    let j = choose|j: int| 0 <= j < t.len() && t[j] == y;
                    assert(t.push(x)[j] == y);
                }
                if y == x {
                    assert(t.push(x)[t.len() as int] == y);
                }
            }
        }
        let ghost old_res = res@;
        res.insert(p, x);
        proof {
            let t = indices@.take(k as int);
            assert forall|y: usize| res@.contains(y) <==> indices@.take(k + 1).contains(y) by {
                assert(res@.contains(y) <==> (old_res.contains(y) || y == x));
                assert(old_res.contains(y) <==> t.contains(y));
                assert(t.push(x).contains(y) <==> (t.contains(y) || y == x));
                assert(indices@.take(k + 1) == t.push(x));
            }
        }
        k = k + 1;
    }
    proof {
        assert(indices@.take(indices.len() as int) =~= indices@);
    }
    res
}

/// The branches (or remote branches) that a filter keeps, in list order or sorted by name
/// (see `visible_indices` and `sort_by_name`); `matches[i]` says whether branch `i`
/// matches the query.
pub fn visible_branch_indices(
    names: &Vec<String>,
    matches: &Vec<bool>,
    query_is_empty: bool,
    sort_mode: BranchSortMode,
) -> (res: Vec<usize>)
    requires
        names.len() == matches.len(),
    ensures
        sort_mode == BranchSortMode::Natural ==> res@ == kept_indices(
            matches@,
            query_is_empty,
            matches.len() as int,
        ),
        sort_mode == BranchSortMode::Name ==> {
            &&& res.len() == kept_indices(matches@, query_is_empty, matches.len() as int).len()
            &&& forall|x: usize|
                res@.contains(x) <==> kept_indices(matches@, query_is_empty, matches.len() as int).contains(x)
            &&& sorted_by_name(names@, res@)
        },
{
    let kept = visible_indices(matches, query_is_empty);
    match sort_mode {
        BranchSortMode::Natural => kept,
        BranchSortMode::Name => {
            proof {
                lemma_kept_bounds(matches@, query_is_empty, matches.len() as int);
            }
            sort_by_name(&kept, names)
        },
    }
}

} // verus!
