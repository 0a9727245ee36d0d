//! The order `String`s sort in (lexicographic by code point, which is the
//! byte order of their UTF-8 encoding), and a sort for lists of strings.
use vstd::prelude::*;
use vstd::relations::*;
use vstd::seq_lib::*;

use crate::text::chars_of;

verus! {

/// Lexicographic `<=` on char sequences, comparing chars by code point.
pub open spec fn lex_le(a: Seq<char>, b: Seq<char>) -> bool
    decreases a.len(),
{
    if a.len() == 0 {
        true
    } else if b.len() == 0 {
        false
    } else if a[0] != b[0] {
        (a[0] as u32) < (b[0] as u32)
    } else {
        lex_le(a.drop_first(), b.drop_first())
    }
}

pub open spec fn lex_leq() -> spec_fn(Seq<char>, Seq<char>) -> bool {
    |a: Seq<char>, b: Seq<char>| lex_le(a, b)
}

/// The views of a list of strings.
pub open spec fn views(v: Seq<String>) -> Seq<Seq<char>> {
    v.map_values(|s: String| s@)
}

proof fn lemma_char_u32_injective(a: char, b: char)
    ensures
        (a as u32) == (b as u32) ==> a == b,
{
    vstd::utf8::char_u32_cast(a, a as u32);
    vstd::utf8::char_u32_cast(b, b as u32);
}

pub proof fn lemma_lex_reflexive(a: Seq<char>)
    ensures
        lex_le(a, a),
    decreases a.len(),
{
    if a.len() > 0 {
        lemma_lex_reflexive(a.drop_first());
    }
}

pub proof fn lemma_lex_antisymmetric(a: Seq<char>, b: Seq<char>)
    requires
        lex_le(a, b),
        lex_le(b, a),
    ensures
        a == b,
    decreases a.len(),
{
    if a.len() == 0 {
        assert(b.len() == 0);
        assert(a =~= b);
    } else {
        assert(b.len() > 0);
        if a[0] != b[0] {
            lemma_char_u32_injective(a[0], b[0]);
        } else {
            lemma_lex_antisymmetric(a.drop_first(), b.drop_first());
            assert(a =~= seq![a[0]] + a.drop_first());
            assert(b =~= seq![b[0]] + b.drop_first());
        }
    }
}

pub proof fn lemma_lex_transitive(a: Seq<char>, b: Seq<char>, c: Seq<char>)
    requires
        lex_le(a, b),
        lex_le(b, c),
    ensures
        lex_le(a, c),
    decreases a.len(),
{
    if a.len() > 0 {
        assert(b.len() > 0);
        assert(c.len() > 0);
        lemma_char_u32_injective(a[0], b[0]);
        lemma_char_u32_injective(b[0], c[0]);
        lemma_char_u32_injective(a[0], c[0]);
        if a[0] == b[0] && b[0] == c[0] {
            lemma_lex_transitive(a.drop_first(), b.drop_first(), c.drop_first());
        }
    }
}

pub proof fn lemma_lex_total(a: Seq<char>, b: Seq<char>)
    ensures
        lex_le(a, b) || lex_le(b, a),
    decreases a.len(),
{
    if a.len() > 0 && b.len() > 0 {
        lemma_char_u32_injective(a[0], b[0]);
        if a[0] == b[0] {
            lemma_lex_total(a.drop_first(), b.drop_first());
        }
    }
}

pub proof fn lemma_lex_total_ordering()
    ensures
        total_ordering(lex_leq()),
{
    assert forall|a: Seq<char>| #[trigger] lex_leq()(a, a) by {
        lemma_lex_reflexive(a);
    }
    assert forall|a: Seq<char>, b: Seq<char>| #[trigger]
        lex_leq()(a, b) && #[trigger] lex_leq()(b, a) implies a == b by {
        lemma_lex_antisymmetric(a, b);
    }
    assert forall|a: Seq<char>, b: Seq<char>, c: Seq<char>| #[trigger]
        lex_leq()(a, b) && #[trigger] lex_leq()(b, c) implies lex_leq()(a, c) by {
        lemma_lex_transitive(a, b, c);
    }
    assert forall|a: Seq<char>, b: Seq<char>| #[trigger]
        lex_leq()(a, b) || #[trigger] lex_leq()(b, a) by {
        lemma_lex_total(a, b);
    }
}

proof fn lemma_lex_skip(a: Seq<char>, b: Seq<char>, i: int)
    requires
        0 <= i <= a.len(),
        i <= b.len(),
        forall|j: int| 0 <= j < i ==> a[j] == b[j],
    ensures
        lex_le(a, b) == lex_le(a.skip(i), b.skip(i)),
    decreases i,
{
    if i > 0 {
        assert(a.len() > 0 && b.len() > 0);
        lemma_lex_skip(a.drop_first(), b.drop_first(), i - 1);
        assert(a.drop_first().skip(i - 1) =~= a.skip(i));
        assert(b.drop_first().skip(i - 1) =~= b.skip(i));
    } else {
        assert(a.skip(0) =~= a);
        assert(b.skip(0) =~= b);
    }
}

/// `a <= b` in the order `String`s compare in.
pub fn chars_le(a: &Vec<char>, b: &Vec<char>) -> (r: bool)
    ensures
        r == lex_le(a@, b@),
{
    let mut i: usize = 0;
    while i < a.len() && i < b.len() && a[i] == b[i]
        invariant
            i <= a.len(),
            i <= b.len(),
            forall|j: int| 0 <= j < i ==> a@[j] == b@[j],
        decreases a.len() - i,
    {
        i = i + 1;
    }
    proof {
        lemma_lex_skip(a@, b@, i as int);
    }
    if i == a.len() {
        true
    } else if i == b.len() {
        false
    } else {
        (a[i] as u32) < (b[i] as u32)
    }
}

/// `a <= b` for two strings.
pub fn str_le(a: &str, b: &str) -> (r: bool)
    ensures
        r == lex_le(a@, b@),
{
    let ca = chars_of(a);
    let cb = chars_of(b);
    chars_le(&ca, &cb)
}

/// Sorts `v` in string order; equal strings keep their relative order.
pub fn sort_strings(v: Vec<String>) -> (r: Vec<String>)
    ensures
        views(r@) == views(v@).sort_by(lex_leq()),
        views(r@).to_multiset() == views(v@).to_multiset(),
        sorted_by(views(r@), lex_leq()),
{
    broadcast use group_to_multiset_ensures;

    proof {
        lemma_lex_total_ordering();
    }
    let ghost orig = views(v@);
    let mut rest = v;
    let mut out: Vec<String> = Vec::new();
    let mut k: usize = 0;
    let n = rest.len();
    while rest.len() > 0
        invariant
            total_ordering(lex_leq()),
            k + rest.len() == n,
            n == orig.len(),
            views(rest@) == orig.skip(k as int),
            sorted_by(views(out@), lex_leq()),
            views(out@).to_multiset() == orig.take(k as int).to_multiset(),
        decreases rest.len(),
    {
        let ghost old_rest = rest@;
        let x = rest.remove(0);
        proof {
            assert(views(old_rest)[0] == orig.skip(k as int)[0]);
            assert(views(rest@) =~= views(old_rest).drop_first());
            assert(views(rest@) =~= orig.skip(k + 1));
            assert(x@ == orig[k as int]);
            assert(orig.take(k + 1) =~= orig.take(k as int).push(orig[k as int]));
        }
        let xc = chars_of(x.as_str());
        let mut pos: usize = 0;
        while pos < out.len() && str_le(out[pos].as_str(), x.as_str())
            invariant
                pos <= out.len(),
                forall|j: int| 0 <= j < pos ==> lex_le(#[trigger] views(out@)[j], x@),
            decreases out.len() - pos,
        {
            pos = pos + 1;
        }
        let ghost before = views(out@);
        out.insert(pos, x);
        proof {
            assert(views(out@) =~= before.insert(pos as int, x@));
            to_multiset_insert(before, pos as int, x@);
            to_multiset_build(orig.take(k as int), orig[k as int]);
            assert(views(out@).to_multiset() == orig.take(k + 1).to_multiset());
            assert forall|i: int, j: int| 0 <= i < j < views(out@).len() implies #[trigger]
                lex_leq()(views(out@)[i], views(out@)[j]) by {
                if j < pos {
                } else if j == pos {
                    assert(lex_le(before[i], x@));
                } else if i < pos {
                    assert(lex_leq()(before[i], before[j - 1]));
                } else if i == pos {
                    if pos < before.len() {
                        assert(!lex_le(before[pos as int], x@));
                        lemma_lex_total(before[pos as int], x@);
                        if j - 1 != pos {
                            assert(lex_leq()(before[pos as int], before[j - 1]));
                        }
                        if j - 1 != pos {
                            lemma_lex_transitive(x@, before[pos as int], before[j - 1]);
                        }
                    }
                } else {
                    assert(lex_leq()(before[i - 1], before[j - 1]));
                }
            }
        }
        k = k + 1;
    }
    proof {
        assert(orig.take(n as int) =~= orig);
        orig.lemma_sort_by_ensures(lex_leq());
        lemma_sorted_unique(views(out@), orig.sort_by(lex_leq()), lex_leq());
    }
    out
}

} // verus!
