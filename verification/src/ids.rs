//! Snippet ids: picking the id of a new snippet, and repairing duplicate ids
//! in a library read from hand-editable data.
use vstd::prelude::*;
use vstd::set_lib::{lemma_int_range, lemma_len_subset, set_int_range};

use crate::model::Snippet;

verus! {

broadcast use vstd::seq_lib::seq_to_set_is_finite;

/// Some snippet in `s` has id `id`.
pub open spec fn has_id(s: Seq<Snippet>, id: u64) -> bool {
    exists|i: int| 0 <= i < s.len() && s[i].id == id
}

/// `r` is the smallest positive id no snippet in `s` has.
pub open spec fn is_smallest_free(s: Seq<Snippet>, r: u64) -> bool {
    &&& r >= 1
    &&& !has_id(s, r)
    &&& forall|j: u64| 1 <= j < r ==> has_id(s, j)
}

/// The smallest positive id not in use, or 0 when every positive id is taken.
pub open spec fn free_id(s: Seq<Snippet>) -> u64 {
    if exists|r: u64| is_smallest_free(s, r) {
        choose|r: u64| is_smallest_free(s, r)
    } else {
        0
    }
}

/// The largest id in use (0 for an empty list).
pub open spec fn max_id(s: Seq<Snippet>) -> u64
    decreases s.len(),
{
    if s.len() == 0 {
        0
    } else {
        let m = max_id(s.drop_last());
        if s.last().id > m {
            s.last().id
        } else {
            m
        }
    }
}

/// The id a new snippet gets: one more than the largest id, or, when the
/// largest id is `u64::MAX`, the smallest free positive id.
pub open spec fn next_id(s: Seq<Snippet>) -> u64 {
    if max_id(s) == u64::MAX {
        free_id(s)
    } else {
        (max_id(s) + 1) as u64
    }
}

proof fn lemma_smallest_free_unique(s: Seq<Snippet>, a: u64, b: u64)
    requires
        is_smallest_free(s, a),
        is_smallest_free(s, b),
    ensures
        a == b,
{
    if a < b {
        assert(has_id(s, a));
    } else if b < a {
        assert(has_id(s, b));
    }
}

proof fn lemma_max_id(s: Seq<Snippet>)
    ensures
        forall|i: int| 0 <= i < s.len() ==> #[trigger] s[i].id <= max_id(s),
        s.len() > 0 ==> has_id(s, max_id(s)),
    decreases s.len(),
{
    if s.len() > 0 {
        lemma_max_id(s.drop_last());
        assert forall|i: int| 0 <= i < s.len() implies #[trigger] s[i].id <= max_id(s) by {
            if i < s.len() - 1 {
                assert(s[i] == s.drop_last()[i]);
            }
        }
        if s.drop_last().len() > 0 && s.last().id <= max_id(s.drop_last()) {
            let k = choose|k: int| 0 <= k < s.drop_last().len() && s.drop_last()[k].id == max_id(s.drop_last());
            assert(s[k] == s.drop_last()[k]);
        } else {
            assert(s[s.len() - 1].id == s.last().id);
        }
    }
}

/// Fewer than `c - 1` snippets can't hold all of the ids `1..c`.
proof fn lemma_pigeonhole(s: Seq<Snippet>, c: int)
    requires
        1 <= c <= u64::MAX + 1,
        forall|j: u64| 1 <= j < c ==> has_id(s, j),
    ensures
        c - 1 <= s.len(),
{
    let ids = s.map_values(|x: Snippet| x.id as int);
    let range = set_int_range(1, c);
    assert forall|j: int| range.contains(j) implies ids.to_set().contains(j) by {
        let ju = j as u64;
        assert(1 <= ju < c);
        assert(has_id(s, ju));
        let i = choose|i: int| 0 <= i < s.len() && s[i].id == ju;
        assert(ids[i] == s[i].id as int);
    }
    lemma_int_range(1, c);
    lemma_len_subset(range, ids.to_set());
    ids.lemma_cardinality_of_set();
}

fn contains_id(snippets: &Vec<Snippet>, id: u64) -> (r: bool)
    ensures
        r == has_id(snippets@, id),
{
    let mut i: usize = 0;
    while i < snippets.len()
        invariant
            i <= snippets.len(),
            forall|k: int| 0 <= k < i ==> snippets@[k].id != id,
        decreases snippets.len() - i,
    {
        if snippets[i].id == id {
            return true;
        }
        i = i + 1;
    }
    false
}

/// The smallest positive id no snippet has; 0 only when every positive id is
/// taken, which needs at least `u64::MAX` snippets.
pub fn next_free_id_from_1(snippets: &Vec<Snippet>) -> (r: u64)
    ensures
        r == free_id(snippets@),
        r != 0 ==> is_smallest_free(snippets@, r),
        snippets@.len() < u64::MAX ==> r != 0,
{
    let mut c: u64 = 1;
    loop
        invariant
            1 <= c,
            forall|j: u64| 1 <= j < c ==> has_id(snippets@, j),
        decreases snippets@.len() + 1 - c,
    {
        proof {
            lemma_pigeonhole(snippets@, c as int);
        }
        if !contains_id(snippets, c) {
            proof {
                assert(is_smallest_free(snippets@, c));
                let w = choose|r: u64| is_smallest_free(snippets@, r);
                lemma_smallest_free_unique(snippets@, c, w);
            }
            return c;
        }
        if c == u64::MAX {
            proof {
                assert forall|r: u64| !is_smallest_free(snippets@, r) by {
                    if r >= 1 {
                        if r < c {
                        } else {
                            assert(r == c);
                        }
                    }
                }
                lemma_pigeonhole(snippets@, u64::MAX as int);
                if snippets@.len() < u64::MAX {
                    assert forall|j: u64| 1 <= j < u64::MAX + 1 implies has_id(snippets@, j) by {
                        if j < c {
                        } else {
                            assert(j == c);
                        }
                    }
                    lemma_pigeonhole(snippets@, u64::MAX + 1);
                }
            }
            return 0;
        }
        proof {
            assert forall|j: u64| 1 <= j < c + 1 implies has_id(snippets@, j) by {
                if j == c {
                }
            }
            lemma_pigeonhole(snippets@, c + 1);
        }
        c = c + 1;
    }
}

/// Picks the id of a brand-new snippet: the largest id plus one. When the
/// largest id is `u64::MAX`, one more would wrap to 0 (or saturate back to an
/// id in use), so the smallest free positive id is taken instead.
pub fn next_snippet_id(snippets: &Vec<Snippet>) -> (r: u64)
    ensures
        r == next_id(snippets@),
        snippets@.len() < u64::MAX ==> r != 0 && !has_id(snippets@, r),
{
    let mut m: u64 = 0;
    let mut i: usize = 0;
    while i < snippets.len()
        invariant
            i <= snippets.len(),
            m == max_id(snippets@.take(i as int)),
        decreases snippets.len() - i,
    {
        assert(snippets@.take(i + 1).drop_last() =~= snippets@.take(i as int));
        if snippets[i].id > m {
            m = snippets[i].id;
        }
        i = i + 1;
    }
    assert(snippets@.take(snippets.len() as int) =~= snippets@);
    proof {
        lemma_max_id(snippets@);
    }
    if m == u64::MAX {
        next_free_id_from_1(snippets)
    } else {
        m + 1
    }
}

/// The library after repairing duplicate ids in its first `n` entries: going
/// front to back, an entry whose id already occurs earlier gets the id a new
/// snippet would get at that point.
pub open spec fn dedup_ids(s: Seq<Snippet>, n: nat) -> Seq<Snippet>
    decreases n,
{
    if n == 0 {
        s
    } else {
        let prev = dedup_ids(s, (n - 1) as nat);
        let i = n - 1;
        if exists|j: int| 0 <= j < i && prev[j].id == prev[i].id {
            prev.update(i, Snippet { id: next_id(prev), ..prev[i] })
        } else {
            prev
        }
    }
}

/// `a` and `b` differ at most in their ids.
pub open spec fn same_but_id(a: Snippet, b: Snippet) -> bool {
    a == (Snippet { id: a.id, ..b })
}

/// No two of the first `n` entries of `s` share an id.
pub open spec fn distinct_ids(s: Seq<Snippet>, n: int) -> bool {
    forall|a: int, b: int| 0 <= a < b < n ==> #[trigger] s[a].id != #[trigger] s[b].id
}

/// Repairing duplicates changes nothing but the repaired ids.
pub proof fn lemma_dedup_ids_shape(s: Seq<Snippet>, n: nat)
    requires
        n <= s.len(),
    ensures
        dedup_ids(s, n).len() == s.len(),
        forall|k: int| 0 <= k < s.len() ==> same_but_id(#[trigger] dedup_ids(s, n)[k], s[k]),
        forall|k: int| n <= k < s.len() ==> #[trigger] dedup_ids(s, n)[k] == s[k],
    decreases n,
{
    if n > 0 {
        lemma_dedup_ids_shape(s, (n - 1) as nat);
    }
}

/// After repairing, no two of the first `n` entries share an id.
pub proof fn lemma_dedup_ids_unique(s: Seq<Snippet>, n: nat)
    requires
        n <= s.len(),
        s.len() < u64::MAX,
    ensures
        distinct_ids(dedup_ids(s, n), n as int),
    decreases n,
{
    if n > 0 {
        lemma_dedup_ids_unique(s, (n - 1) as nat);
        lemma_dedup_ids_shape(s, (n - 1) as nat);
        let prev = dedup_ids(s, (n - 1) as nat);
        let i = n - 1;
        if exists|j: int| 0 <= j < i && prev[j].id == prev[i].id {
            let nid = next_id(prev);
            lemma_max_id(prev);
            if max_id(prev) == u64::MAX {
                assert(free_id(prev) != 0 && !has_id(prev, free_id(prev))) by {
                    lemma_free_id(prev);
                }
            }
            assert(!has_id(prev, nid));
            let cur = dedup_ids(s, n);
            assert forall|a: int, b: int| 0 <= a < b < n implies #[trigger] cur[a].id
                != #[trigger] cur[b].id by {
                if b == i {
                    assert(cur[a] == prev[a]);
                    assert(cur[b].id == nid);
                } else {
                    assert(cur[a] == prev[a]);
                    assert(cur[b] == prev[b]);
                }
            }
        } else {
            let cur = dedup_ids(s, n);
            assert forall|a: int, b: int| 0 <= a < b < n implies #[trigger] cur[a].id
                != #[trigger] cur[b].id by {
                if b == i {
                    if cur[a].id == cur[b].id {
                        assert(prev[a].id == prev[i].id);
                    }
                }
            }
        }
    }
}

/// Repairing keeps the first occurrence of every id: an entry whose id no
/// earlier entry had keeps its id (later duplicates never take it, and fresh
/// ids are never one already in the list).
pub proof fn lemma_dedup_keeps_first_occurrences(s: Seq<Snippet>, k: int)
    requires
        0 <= k < s.len() < u64::MAX,
        forall|j: int| 0 <= j < k ==> s[j].id != s[k].id,
    ensures
        dedup_ids(s, s.len())[k].id == s[k].id,
{
    lemma_dedup_before_avoids(s, k, k as nat);
    lemma_dedup_ids_shape(s, k as nat);
    let prev = dedup_ids(s, k as nat);
    assert(!exists|j: int| 0 <= j < k && prev[j].id == prev[k].id);
    assert(dedup_ids(s, (k + 1) as nat) == prev);
    lemma_dedup_settled(s, (k + 1) as nat, s.len());
}

/// Entries before `n` are settled: later steps never change them.
proof fn lemma_dedup_settled(s: Seq<Snippet>, n: nat, m: nat)
    requires
        n <= m <= s.len(),
    ensures
        forall|k: int| 0 <= k < n ==> dedup_ids(s, m)[k] == dedup_ids(s, n)[k],
    decreases m - n,
{
    if m > n {
        lemma_dedup_settled(s, n, (m - 1) as nat);
        lemma_dedup_ids_shape(s, (m - 1) as nat);
    }
}

/// A fresh id is not one the list already has.
pub proof fn lemma_fresh_id_is_unused(prev: Seq<Snippet>)
    requires
        prev.len() < u64::MAX,
    ensures
        !has_id(prev, next_id(prev)),
{
    lemma_max_id(prev);
    if max_id(prev) == u64::MAX {
        lemma_free_id(prev);
    }
}

/// Before entry `k` is reached, no repaired entry in front of it takes its
/// id, and it is untouched.
proof fn lemma_dedup_before_avoids(s: Seq<Snippet>, k: int, n: nat)
    requires
        0 <= k < s.len() < u64::MAX,
        n <= k,
        forall|j: int| 0 <= j < k ==> s[j].id != s[k].id,
    ensures
        forall|j: int| 0 <= j < k ==> dedup_ids(s, n)[j].id != s[k].id,
        dedup_ids(s, n)[k] == s[k],
    decreases n,
{
    lemma_dedup_ids_shape(s, n);
    if n > 0 {
        lemma_dedup_before_avoids(s, k, (n - 1) as nat);
        lemma_dedup_ids_shape(s, (n - 1) as nat);
        let prev = dedup_ids(s, (n - 1) as nat);
        let i = n - 1;
        if exists|j: int| 0 <= j < i && prev[j].id == prev[i].id {
            lemma_fresh_id_is_unused(prev);
            assert(prev[k] == s[k]);
            assert(has_id(prev, s[k].id)) by {
                assert(prev[k].id == s[k].id);
            }
        }
    }
}

/// When fewer than `u64::MAX` snippets exist, a free positive id exists.
proof fn lemma_free_id(s: Seq<Snippet>)
    requires
        s.len() < u64::MAX,
    ensures
        free_id(s) != 0,
        is_smallest_free(s, free_id(s)),
{
    lemma_first_free_exists(s, 1);
}

proof fn lemma_first_free_exists(s: Seq<Snippet>, c: u64)
    requires
        s.len() < u64::MAX,
        1 <= c,
        forall|j: u64| 1 <= j < c ==> has_id(s, j),
    ensures
        free_id(s) != 0,
        is_smallest_free(s, free_id(s)),
    decreases u64::MAX - c,
{
    lemma_pigeonhole(s, c as int);
    if !has_id(s, c) {
        assert(is_smallest_free(s, c));
    } else {
        if c == u64::MAX {
            assert forall|j: u64| 1 <= j < u64::MAX + 1 implies has_id(s, j) by {
                if j == c {
                }
            }
            lemma_pigeonhole(s, u64::MAX + 1);
        } else {
            assert forall|j: u64| 1 <= j < c + 1 implies has_id(s, j) by {
                if j == c {
                }
            }
            lemma_first_free_exists(s, (c + 1) as u64);
        }
    }
    let w = choose|r: u64| is_smallest_free(s, r);
    assert(w != 0);
}

/// Repairs duplicate ids in a library read from hand-editable data: the first
/// occurrence of each id is kept and every later duplicate gets a fresh id, so
/// deleting by id can never remove two snippets at once.
pub fn dedup_snippet_ids(snippets: &mut Vec<Snippet>)
    ensures
        final(snippets)@ == dedup_ids(old(snippets)@, old(snippets)@.len()),
        old(snippets)@.len() < u64::MAX ==> distinct_ids(final(snippets)@, old(snippets)@.len() as int),
{
    let ghost orig = snippets@;
    let n = snippets.len();
    let mut i: usize = 0;
    while i < n
        invariant
            i <= n,
            n == orig.len(),
            snippets@ == dedup_ids(orig, i as nat),
        decreases n - i,
    {
        proof {
            lemma_dedup_ids_shape(orig, i as nat);
        }
        let id = snippets[i].id;
        let mut seen = false;
        let mut j: usize = 0;
        while j < i
            invariant
                j <= i < n,
                snippets@.len() == n,
                !seen ==> forall|k: int| 0 <= k < j ==> snippets@[k].id != id,
                seen ==> exists|k: int| 0 <= k < i && snippets@[k].id == id,
            decreases i - j,
        {
            if snippets[j].id == id {
                seen = true;
            }
            j = j + 1;
        }
        if seen {
            let nid = next_snippet_id(snippets);
            let mut x = snippets[i].clone();
            x.id = nid;
            snippets.set(i, x);
        }
        i = i + 1;
    }
    proof {
        if orig.len() < u64::MAX {
            lemma_dedup_ids_unique(orig, orig.len());
            lemma_dedup_ids_shape(orig, orig.len());
        }
    }
}

} // verus!
