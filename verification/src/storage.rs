//! Category normalization, the reserved names, the user config, and the
//! `Loaded`/`Missing`/`Corrupt` outcome of reading a data file.
use vstd::prelude::*;
use vstd::relations::*;

use crate::model::Snippet;
use crate::order::{lex_le, lex_leq, sort_strings, views};
use crate::text::{
    all_ascii, ascii_lower, ascii_lower_char, ascii_upper_char, is_ascii_char, char_to_uppercase, chars_of, eq_ignore_ascii_case, is_all_ascii,
    is_ws_spec, join_words, join_with_spaces, lowercase, split_state, split_words, string_of,
    to_lowercase, trim, trim_chars, uppercase_char, vviews, words, decimal, u64_to_decimal,
};
use crate::vault::VaultMeta;

verus! {

/// Category given to snippets whose own category is unusable (blank, or the
/// reserved "All" filter label).
pub const UNCATEGORIZED: &'static str = "Uncategorized";

pub open spec fn uncategorized_chars() -> Seq<char> {
    seq!['U', 'n', 'c', 'a', 't', 'e', 'g', 'o', 'r', 'i', 'z', 'e', 'd']
}

pub open spec fn all_chars() -> Seq<char> {
    seq!['A', 'l', 'l']
}

/// One word in title case: its first char uppercased, the rest lowercased.
pub open spec fn title_word(w: Seq<char>) -> Seq<char> {
    uppercase_char(w[0]) + lowercase(w.drop_first())
}

/// The canonical form of a category name: whitespace trimmed and collapsed to
/// single spaces, each word title-cased.
pub open spec fn normalized(s: Seq<char>) -> Seq<char> {
    join_words(words(s).map_values(|w: Seq<char>| title_word(w)))
}

/// Two category names match when their lowercase forms are equal.
pub open spec fn same_cat(a: Seq<char>, b: Seq<char>) -> bool {
    lowercase(a) == lowercase(b)
}

/// Names that can't be stored as a category: blank, or "All".
pub open spec fn reserved(s: Seq<char>) -> bool {
    trim(s).len() == 0 || same_cat(trim(s), all_chars())
}

/// The category a snippet read from disk ends up with.
pub open spec fn canonical(raw: Seq<char>) -> Seq<char> {
    if reserved(normalized(raw)) {
        uncategorized_chars()
    } else {
        normalized(raw)
    }
}

/// Normalizes a category name for canonical storage: trims whitespace,
/// collapses runs of whitespace into single spaces and title-cases each word,
/// so "  git ", "GIT", "Git" and "gIt" all become "Git".
pub fn normalize_category(s: &str) -> (r: String)
    ensures
        r@ == normalized(s@),
{
    let cs = chars_of(s);
    let ws = split_words(&cs);
    let mut titles: Vec<String> = Vec::new();
    let mut i: usize = 0;
    while i < ws.len()
        invariant
            i <= ws.len(),
            vviews(ws@) == words(cs@),
            cs@ == s@,
            titles@.map_values(|t: String| t@) == vviews(ws@).take(i as int).map_values(
                |w: Seq<char>| title_word(w),
            ),
        decreases ws.len() - i,
    {
        let w = &ws[i];
        proof {
            lemma_words_nonempty(cs@);
            assert(vviews(ws@)[i as int] == w@);
        }
        let mut t = char_to_uppercase(w[0]);
        let mut rest: Vec<char> = Vec::new();
        let mut j: usize = 1;
        while j < w.len()
            invariant
                1 <= j <= w.len(),
                rest@ == w@.subrange(1, j as int),
            decreases w.len() - j,
        {
            rest.push(w[j]);
            assert(w@.subrange(1, j + 1) =~= w@.subrange(1, j as int).push(w@[j as int]));
            j = j + 1;
        }
        assert(rest@ =~= w@.drop_first());
        let rs = string_of(&rest);
        let low = to_lowercase(rs.as_str());
        t.append(low.as_str());
        assert(t@ == title_word(w@));
        let ghost old_titles = titles@;
        let ghost tv = t@;
        titles.push(t);
        proof {
            assert(titles@.map_values(|t: String| t@) =~= old_titles.map_values(|t: String| t@).push(tv));
            assert(vviews(ws@).take(i + 1) =~= vviews(ws@).take(i as int).push(w@));
            assert(titles@.map_values(|t: String| t@) =~= vviews(ws@).take(i + 1).map_values(
                |w: Seq<char>| title_word(w),
            ));
        }
        i = i + 1;
    }
    assert(vviews(ws@).take(ws.len() as int) =~= vviews(ws@));
    join_with_spaces(&titles)
}

/// True when `a` and `b` name the same category, ignoring case. All-ASCII
/// names are compared without allocating; other names go through full Unicode
/// lowercasing.
pub fn same_category(a: &str, b: &str) -> (r: bool)
    ensures
        r == same_cat(a@, b@),
{
    let ca = chars_of(a);
    let cb = chars_of(b);
    if is_all_ascii(&ca) && is_all_ascii(&cb) {
        eq_ignore_ascii_case(&ca, &cb)
    } else {
        let la = to_lowercase(a);
        let lb = to_lowercase(b);
        la == lb
    }
}

/// True for names that can't be stored as a category: blank, or "All", which
/// is reserved for the "show everything" entry of the category filter.
pub fn is_reserved_category(cat: &str) -> (r: bool)
    ensures
        r == reserved(cat@),
{
    let cs = chars_of(cat);
    let t = trim_chars(&cs);
    if t.len() == 0 {
        return true;
    }
    let ts = string_of(&t);
    let all = String::from_str("All");
    proof {
        reveal_strlit("All");
        assert(all@ =~= all_chars());
    }
    same_category(ts.as_str(), all.as_str())
}

/// Normalizes a category read from disk into one the app can filter on: blank
/// categories and the reserved "All" become `UNCATEGORIZED`.
pub fn canonical_category(raw: &str) -> (r: String)
    ensures
        r@ == canonical(raw@),
{
    let cat = normalize_category(raw);
    if is_reserved_category(cat.as_str()) {
        let u = String::from_str(UNCATEGORIZED);
        proof {
            reveal_strlit("Uncategorized");
            assert(u@ =~= uncategorized_chars());
        }
        u
    } else {
        cat
    }
}

/// Every word `split_whitespace` yields is non-empty and holds no whitespace.
pub proof fn lemma_words_nonempty(s: Seq<char>)
    ensures
        forall|i: int| 0 <= i < words(s).len() ==> #[trigger] words(s)[i].len() > 0,
        forall|i: int, j: int|
            0 <= i < words(s).len() && 0 <= j < words(s)[i].len() ==> !is_ws_spec(
                #[trigger] words(s)[i][j],
            ),
{
    lemma_split_state_words(s);
}

proof fn lemma_split_state_words(s: Seq<char>)
    ensures
        forall|i: int| 0 <= i < split_state(s).0.len() ==> #[trigger] split_state(s).0[i].len() > 0,
        forall|i: int, j: int|
            0 <= i < split_state(s).0.len() && 0 <= j < split_state(s).0[i].len() ==> !is_ws_spec(
                #[trigger] split_state(s).0[i][j],
            ),
        forall|j: int| 0 <= j < split_state(s).1.len() ==> !is_ws_spec(#[trigger] split_state(s).1[j]),
    decreases s.len(),
{
    if s.len() > 0 {
        let prev = split_state(s.drop_last());
        lemma_split_state_words(s.drop_last());
        if is_ws_spec(s.last()) && prev.1.len() > 0 {
            let now = split_state(s);
            assert(now.0 == prev.0.push(prev.1));
            assert forall|i: int| 0 <= i < now.0.len() implies #[trigger] now.0[i].len() > 0 by {
                if i < prev.0.len() {
                    assert(now.0[i] == prev.0[i]);
                }
            }
            assert forall|i: int, j: int|
                0 <= i < now.0.len() && 0 <= j < now.0[i].len() implies !is_ws_spec(
                #[trigger] now.0[i][j],
            ) by {
                if i < prev.0.len() {
                    assert(now.0[i] == prev.0[i]);
                } else {
                    assert(now.0[i] == prev.1);
                }
            }
        } else if !is_ws_spec(s.last()) {
            let now = split_state(s);
            assert forall|j: int| 0 <= j < now.1.len() implies !is_ws_spec(#[trigger] now.1[j]) by {
                if j < prev.1.len() {
                    assert(now.1[j] == prev.1[j]);
                }
            }
        }
    }
}


proof fn lemma_split_state_ascii(s: Seq<char>)
    requires
        all_ascii(s),
    ensures
        forall|i: int| 0 <= i < split_state(s).0.len() ==> all_ascii(#[trigger] split_state(s).0[i]),
        all_ascii(split_state(s).1),
    decreases s.len(),
{
    if s.len() > 0 {
        let prev = split_state(s.drop_last());
        assert(all_ascii(s.drop_last())) by {
            assert forall|k: int| 0 <= k < s.drop_last().len() implies is_ascii_char(
                #[trigger] s.drop_last()[k],
            ) by {
                assert(s.drop_last()[k] == s[k]);
            }
        }
        lemma_split_state_ascii(s.drop_last());
        let now = split_state(s);
        if is_ws_spec(s.last()) && prev.1.len() > 0 {
            assert forall|i: int| 0 <= i < now.0.len() implies all_ascii(#[trigger] now.0[i]) by {
                if i < prev.0.len() {
                    assert(now.0[i] == prev.0[i]);
                }
            }
        } else if !is_ws_spec(s.last()) {
            assert(is_ascii_char(s[s.len() - 1]));
            assert forall|j: int| 0 <= j < now.1.len() implies is_ascii_char(#[trigger] now.1[j]) by {
                if j < prev.1.len() {
                    assert(now.1[j] == prev.1[j]);
                }
            }
        }
    }
}

proof fn lemma_words_ascii(s: Seq<char>)
    requires
        all_ascii(s),
    ensures
        forall|i: int| 0 <= i < words(s).len() ==> all_ascii(#[trigger] words(s)[i]),
{
    lemma_split_state_ascii(s);
}

/// A word (non-empty, no whitespace) appended to a text extends the word
/// being read.
proof fn lemma_split_append_word(x: Seq<char>, w: Seq<char>)
    requires
        forall|j: int| 0 <= j < w.len() ==> !is_ws_spec(#[trigger] w[j]),
    ensures
        split_state(x + w) == (split_state(x).0, split_state(x).1 + w),
    decreases w.len(),
{
    if w.len() == 0 {
        assert(x + w =~= x);
        assert(split_state(x).1 + w =~= split_state(x).1);
    } else {
        lemma_split_append_word(x, w.drop_last());
        assert((x + w).drop_last() =~= x + w.drop_last());
        assert((x + w).last() == w.last());
        assert(split_state(x).1 + w.drop_last() + seq![w.last()] =~= split_state(x).1 + w);
        assert((split_state(x).1 + w.drop_last()).push(w.last()) =~= split_state(x).1 + w);
    }
}

/// Splitting words that were joined with single spaces gives the words back.
pub proof fn lemma_words_of_join(ws: Seq<Seq<char>>)
    requires
        forall|i: int| 0 <= i < ws.len() ==> #[trigger] ws[i].len() > 0,
        forall|i: int, j: int|
            0 <= i < ws.len() && 0 <= j < ws[i].len() ==> !is_ws_spec(#[trigger] ws[i][j]),
    ensures
        words(join_words(ws)) == ws,
    decreases ws.len(),
{
    if ws.len() == 0 {
        assert(split_state(seq![]) == (Seq::<Seq<char>>::empty(), Seq::<char>::empty()));
        assert(words(join_words(ws)) =~= ws);
    } else if ws.len() == 1 {
        let w = ws[0];
        assert forall|j: int| 0 <= j < w.len() implies !is_ws_spec(#[trigger] w[j]) by {
            assert(ws[0][j] == w[j]);
        }
        lemma_split_append_word(seq![], w);
        assert(Seq::<char>::empty() + w =~= w);
        assert(split_state(Seq::<char>::empty()) == (Seq::<Seq<char>>::empty(), Seq::<char>::empty()));
        assert(Seq::<char>::empty() + w =~= w);
        assert(words(w) =~= ws);
    } else {
        let init = ws.drop_last();
        let last = ws.last();
        assert forall|i: int| 0 <= i < init.len() implies #[trigger] init[i].len() > 0 by {
            assert(init[i] == ws[i]);
        }
        assert forall|i: int, j: int|
            0 <= i < init.len() && 0 <= j < init[i].len() implies !is_ws_spec(
            #[trigger] init[i][j],
        ) by {
            assert(init[i] == ws[i]);
        }
        lemma_words_of_join(init);
        let x = join_words(init).push(' ');
        assert(split_state(x) == (words(join_words(init)), Seq::<char>::empty())) by {
            assert(x.drop_last() =~= join_words(init));
        }
        assert forall|j: int| 0 <= j < last.len() implies !is_ws_spec(#[trigger] last[j]) by {
            assert(ws[ws.len() - 1][j] == last[j]);
        }
        lemma_split_append_word(x, last);
        assert(join_words(ws) =~= x + last);
        assert(Seq::<char>::empty() + last =~= last);
        assert(words(join_words(ws)) =~= init.push(last));
        assert(init.push(last) =~= ws);
    }
}

proof fn lemma_ascii_case_char(c: char)
    requires
        is_ascii_char(c),
    ensures
        is_ascii_char(ascii_upper_char(c)),
        is_ascii_char(ascii_lower_char(c)),
        is_ws_spec(ascii_upper_char(c)) == is_ws_spec(c),
        is_ws_spec(ascii_lower_char(c)) == is_ws_spec(c),
        ascii_upper_char(ascii_upper_char(c)) == ascii_upper_char(c),
        ascii_lower_char(ascii_lower_char(c)) == ascii_lower_char(c),
{
    vstd::utf8::char_u32_cast(c, c as u32);
    let u = c as u32;
    if 97 <= u && u <= 122 {
        let d = ascii_upper_char(c);
        assert(d as u32 == u - 32) by {
            vstd::utf8::char_u32_cast(d, (u - 32) as u32);
        }
        vstd::utf8::char_u32_cast(d, d as u32);
    }
    if 65 <= u && u <= 90 {
        let d = ascii_lower_char(c);
        assert(d as u32 == u + 32) by {
            vstd::utf8::char_u32_cast(d, (u + 32) as u32);
        }
        vstd::utf8::char_u32_cast(d, d as u32);
    }
}

/// Title-casing an ASCII word gives an ASCII word without whitespace, and
/// title-casing it again changes nothing.
proof fn lemma_title_word_ascii(w: Seq<char>)
    requires
        w.len() > 0,
        all_ascii(w),
        forall|j: int| 0 <= j < w.len() ==> !is_ws_spec(#[trigger] w[j]),
    ensures
        title_word(w).len() > 0,
        all_ascii(title_word(w)),
        forall|j: int| 0 <= j < title_word(w).len() ==> !is_ws_spec(#[trigger] title_word(w)[j]),
        title_word(title_word(w)) == title_word(w),
{
    let rest = w.drop_first();
    assert(all_ascii(rest)) by {
        assert forall|k: int| 0 <= k < rest.len() implies is_ascii_char(#[trigger] rest[k]) by {
            assert(rest[k] == w[k + 1]);
        }
    }
    lemma_ascii_case_char(w[0]);
    let lr = ascii_lower(rest);
    assert forall|k: int| 0 <= k < lr.len() implies is_ascii_char(#[trigger] lr[k]) && !is_ws_spec(
        lr[k],
    ) && ascii_lower_char(lr[k]) == lr[k] by {
        assert(rest[k] == w[k + 1]);
        lemma_ascii_case_char(rest[k]);
    }
    let t = title_word(w);
    assert(t =~= seq![ascii_upper_char(w[0])] + lr);
    assert forall|k: int| 0 <= k < t.len() implies is_ascii_char(#[trigger] t[k]) && !is_ws_spec(t[k]) by {
        if k > 0 {
            assert(t[k] == lr[k - 1]);
        }
    }
    assert(t.drop_first() =~= lr);
    assert(all_ascii(lr));
    assert(ascii_lower(lr) =~= lr);
}

/// Normalizing an ASCII category name a second time changes nothing.
pub proof fn lemma_normalize_idempotent_ascii(s: Seq<char>)
    requires
        all_ascii(s),
    ensures
        normalized(normalized(s)) == normalized(s),
{
    let ws = words(s);
    lemma_words_nonempty(s);
    lemma_words_ascii(s);
    let ts = ws.map_values(|w: Seq<char>| title_word(w));
    assert forall|i: int| 0 <= i < ts.len() implies #[trigger] ts[i].len() > 0 && all_ascii(ts[i])
        && (forall|j: int| 0 <= j < ts[i].len() ==> !is_ws_spec(#[trigger] ts[i][j]))
        && title_word(ts[i]) == ts[i] by {
        assert forall|j: int| 0 <= j < ws[i].len() implies !is_ws_spec(#[trigger] ws[i][j]) by {}
        lemma_title_word_ascii(ws[i]);
    }
    lemma_words_of_join(ts);
    assert(words(normalized(s)) == ts);
    assert(ts.map_values(|w: Seq<char>| title_word(w)) =~= ts);
}


/// Matching category names is an equivalence: reflexive, symmetric and
/// transitive.
pub proof fn lemma_same_category_is_equivalence(a: Seq<char>, b: Seq<char>, c: Seq<char>)
    ensures
        same_cat(a, a),
        same_cat(a, b) == same_cat(b, a),
        same_cat(a, b) && same_cat(b, c) ==> same_cat(a, c),
{
}

/// Outcome of reading one of the data files.
///
/// `Missing` (first launch: seed the defaults) and `Corrupt` (there is user
/// data here that could not be understood) stay distinct, so an unreadable
/// file is never silently replaced by the seeded defaults.
#[derive(Debug, PartialEq)]
pub enum Load<T> {
    /// The file was read and parsed.
    Loaded(T),
    /// The file doesn't exist yet, or holds nothing but whitespace.
    Missing,
    /// The file exists but couldn't be read or parsed; the message says why.
    Corrupt(String),
}

/// User configuration: the canonical category list, the selected theme, and
/// the vault metadata backing protected snippets (`None` until the first
/// snippet is protected).
#[derive(Debug)]
pub struct Config {
    pub categories: Vec<String>,
    pub theme: String,
    pub vault: Option<VaultMeta>,
}

impl Default for Config {
    fn default() -> (r: Self)
        ensures
            r.categories@.len() == 0,
            r.theme@.len() == 0,
            r.vault is None,
    {
        Config { categories: Vec::new(), theme: String::new(), vault: None }
    }
}

pub open spec fn dark_chars() -> Seq<char> {
    seq!['D', 'a', 'r', 'k']
}

/// Strictly increasing in string order: sorted, no name twice.
pub open spec fn strictly_sorted(v: Seq<Seq<char>>) -> bool {
    forall|i: int, j: int| 0 <= i < j < v.len() ==> lex_le(v[i], v[j]) && v[i] != v[j]
}

/// The usable normalized categories of a snippet list, in list order.
pub open spec fn category_pool(snips: Seq<Snippet>) -> Seq<Seq<char>> {
    snips.map_values(|s: Snippet| normalized(s.category@)).filter(|c: Seq<char>| !reserved(c))
}

/// Removes adjacent repeats from a sorted list (`Vec::dedup`).
fn dedup_sorted(v: Vec<String>) -> (r: Vec<String>)
    requires
        sorted_by(views(v@), lex_leq()),
    ensures
        strictly_sorted(views(r@)),
        views(r@).to_set() == views(v@).to_set(),
{
    proof {
        crate::order::lemma_lex_total_ordering();
    }
    let ghost s = views(v@);
    let mut out: Vec<String> = Vec::new();
    let mut i: usize = 0;
    while i < v.len()
        invariant
            i <= v.len(),
            s == views(v@),
            sorted_by(s, lex_leq()),
            total_ordering(lex_leq()),
            strictly_sorted(views(out@)),
            views(out@).to_set() == s.take(i as int).to_set(),
            i > 0 ==> out@.len() > 0 && views(out@).last() == s[i - 1],
            i == 0 ==> out@.len() == 0,
        decreases v.len() - i,
    {
        let ghost before = views(out@);
        assert(s.take(i + 1) =~= s.take(i as int).push(s[i as int]));
        if i > 0 && out[out.len() - 1] == v[i] {
            assert(s.take(i + 1).to_set() =~= s.take(i as int).to_set());
        } else {
            let x = v[i].clone();
            out.push(x);
            proof {
                assert(views(out@) =~= before.push(s[i as int]));
                if i > 0 {
                    assert(lex_leq()(s[i - 1], s[i as int]));
                    let last = before.last();
                    assert(lex_le(last, s[i as int]) && last != s[i as int]);
                    assert forall|a: int, b: int| 0 <= a < b < views(out@).len() implies lex_le(
                        views(out@)[a],
                        views(out@)[b],
                    ) && views(out@)[a] != views(out@)[b] by {
                        if b < before.len() {
                            assert(views(out@)[a] == before[a]);
                            assert(views(out@)[b] == before[b]);
                        } else {
                            assert(views(out@)[b] == s[i as int]);
                            assert(views(out@)[a] == before[a]);
                            if a < before.len() - 1 {
                                assert(lex_le(before[a], last) && before[a] != last);
                                crate::order::lemma_lex_transitive(before[a], last, s[i as int]);
                                if before[a] == s[i as int] {
                                    crate::order::lemma_lex_antisymmetric(last, s[i as int]);
                                }
                            }
                        }
                    }
                }
                before.lemma_push_to_set_commute(s[i as int]);
                s.take(i as int).lemma_push_to_set_commute(s[i as int]);
                assert(views(out@).to_set() =~= s.take(i + 1).to_set());
            }
        }
        i = i + 1;
    }
    assert(s.take(v.len() as int) =~= s);
    out
}

impl Config {
    /// Builds the config for an existing snippet library: every usable
    /// normalized category, sorted and without repeats, the "Dark" theme, and
    /// no vault (it is created on the first protect).
    pub fn from_snippets(snippets: &[Snippet]) -> (r: Config)
        ensures
            strictly_sorted(views(r.categories@)),
            views(r.categories@).to_set() == category_pool(snippets@).to_set(),
            r.theme@ == dark_chars(),
            r.vault is None,
    {
        let ghost all = snippets@.map_values(|s: Snippet| normalized(s.category@));
        let mut pool: Vec<String> = Vec::new();
        let mut i: usize = 0;
        while i < snippets.len()
            invariant
                i <= snippets.len(),
                all == snippets@.map_values(|s: Snippet| normalized(s.category@)),
                views(pool@) == all.take(i as int).filter(|c: Seq<char>| !reserved(c)),
            decreases snippets.len() - i,
        {
            let c = normalize_category(snippets[i].category.as_str());
            proof {
                assert(all.take(i + 1) =~= all.take(i as int).push(all[i as int]));
                all.take(i as int).lemma_filter_push(all[i as int], |c: Seq<char>| !reserved(c));
            }
            if !is_reserved_category(c.as_str()) {
                let ghost before = views(pool@);
                pool.push(c);
                assert(views(pool@) =~= before.push(all[i as int]));
            }
            i = i + 1;
        }
        assert(all.take(snippets.len() as int) =~= all);
        let sorted = sort_strings(pool);
        proof {
            broadcast use vstd::seq_lib::group_to_multiset_ensures;
            assert(views(sorted@).to_set() =~= category_pool(snippets@).to_set()) by {
                assert forall|x: Seq<char>| views(sorted@).contains(x) <==> category_pool(
                    snippets@,
                ).contains(x) by {
                    assert(views(sorted@).to_multiset().count(x) > 0 <==> views(sorted@).contains(
                        x,
                    ));
                    assert(category_pool(snippets@).to_multiset().count(x) > 0 <==> category_pool(
                        snippets@,
                    ).contains(x));
                }
            }
        }
        let cats = dedup_sorted(sorted);
        let theme = String::from_str("Dark");
        proof {
            reveal_strlit("Dark");
            assert(theme@ =~= dark_chars());
        }
        Config { categories: cats, theme, vault: None }
    }

    /// Adds categories to the canonical list: each name is normalized, and
    /// skipped when reserved or already present (ignoring case). The list is
    /// sorted once at the end, and only when something was added.
    pub fn add_categories(&mut self, raws: &[&str])
        ensures
            ({
                let added = admit_all(views(old(self).categories@), raws@.map_values(|r: &str| r@));
                &&& added.len() == old(self).categories@.len() ==> final(self).categories@ == old(
                    self,
                ).categories@
                &&& added.len() != old(self).categories@.len() ==> views(final(self).categories@)
                    == added.sort_by(lex_leq())
            }),
            views(final(self).categories@) == categories_after_adding(
                views(old(self).categories@),
                raws@.map_values(|r: &str| r@),
            ),
            final(self).theme == old(self).theme,
            final(self).vault == old(self).vault,
    {
        let ghost rs = raws@.map_values(|r: &str| r@);
        let ghost start = views(self.categories@);
        let before = self.categories.len();
        let mut i: usize = 0;
        while i < raws.len()
            invariant
                i <= raws.len(),
                rs == raws@.map_values(|r: &str| r@),
                views(self.categories@) == admit_all(start, rs.take(i as int)),
                start.len() == before,
                self.theme == old(self).theme,
                self.vault == old(self).vault,
                start == views(old(self).categories@),
                admit_all(start, rs.take(i as int)).len() == before ==> self.categories@ == old(
                    self,
                ).categories@,
            decreases raws.len() - i,
        {
            assert(rs.take(i + 1).drop_last() =~= rs.take(i as int));
            assert(rs.take(i + 1).last() == raws@[i as int]@);
            proof {
                lemma_admit_all_grows(start, rs.take(i as int));
            }
            let cat = normalize_category(raws[i]);
            if !is_reserved_category(cat.as_str()) {
                let mut found = false;
                let mut k: usize = 0;
                while k < self.categories.len()
                    invariant
                        k <= self.categories.len(),
                        found ==> exists|m: int|
                            0 <= m < self.categories@.len() && same_cat(
                                #[trigger] views(self.categories@)[m],
                                cat@,
                            ),
                        !found ==> forall|m: int|
                            0 <= m < k ==> !same_cat(#[trigger] views(self.categories@)[m], cat@),
                    decreases self.categories.len() - k,
                {
                    if same_category(self.categories[k].as_str(), cat.as_str()) {
                        assert(same_cat(views(self.categories@)[k as int], cat@));
                        found = true;
                    }
                    k = k + 1;
                }
                if !found {
                    let ghost prev = views(self.categories@);
                    self.categories.push(cat);
                    assert(views(self.categories@) =~= prev.push(cat@));
                }
            }
            i = i + 1;
        }
        assert(rs.take(raws.len() as int) =~= rs);
        if self.categories.len() != before {
            let mut cats: Vec<String> = Vec::new();
            std::mem::swap(&mut cats, &mut self.categories);
            self.categories = sort_strings(cats);
        }
    }
}

/// The categories after admitting `raws` one by one: each is normalized and
/// appended unless it is reserved or already present (ignoring case).
pub open spec fn admit_all(cats: Seq<Seq<char>>, raws: Seq<Seq<char>>) -> Seq<Seq<char>>
    decreases raws.len(),
{
    if raws.len() == 0 {
        cats
    } else {
        let acc = admit_all(cats, raws.drop_last());
        let c = normalized(raws.last());
        if reserved(c) || (exists|k: int| 0 <= k < acc.len() && same_cat(#[trigger] acc[k], c)) {
            acc
        } else {
            acc.push(c)
        }
    }
}

pub(crate) proof fn lemma_admit_all_grows(cats: Seq<Seq<char>>, raws: Seq<Seq<char>>)
    ensures
        admit_all(cats, raws).len() >= cats.len(),
        admit_all(cats, raws).subrange(0, cats.len() as int) == cats,
    decreases raws.len(),
{
    if raws.len() > 0 {
        lemma_admit_all_grows(cats, raws.drop_last());
        let acc = admit_all(cats, raws.drop_last());
        assert(acc.push(normalized(raws.last())).subrange(0, cats.len() as int) =~= acc.subrange(
            0,
            cats.len() as int,
        ));
    }
}

/// The category list `add_categories(raws)` leaves behind: unchanged when
/// nothing was admitted, else everything admitted, sorted.
pub open spec fn categories_after_adding(cats: Seq<Seq<char>>, raws: Seq<Seq<char>>) -> Seq<
    Seq<char>,
> {
    let added = admit_all(cats, raws);
    if added.len() == cats.len() {
        cats
    } else {
        added.sort_by(lex_leq())
    }
}

proof fn lemma_admit_all_append(cats: Seq<Seq<char>>, xs: Seq<Seq<char>>, ys: Seq<Seq<char>>)
    ensures
        admit_all(cats, xs + ys) == admit_all(admit_all(cats, xs), ys),
    decreases ys.len(),
{
    if ys.len() == 0 {
        assert(xs + ys =~= xs);
    } else {
        lemma_admit_all_append(cats, xs, ys.drop_last());
        assert((xs + ys).drop_last() =~= xs + ys.drop_last());
        assert((xs + ys).last() == ys.last());
    }
}

/// Admitting the same names into two lists holding the same entries admits
/// the same entries into both.
proof fn lemma_admit_all_same_entries(a: Seq<Seq<char>>, b: Seq<Seq<char>>, ys: Seq<Seq<char>>)
    requires
        a.to_multiset() == b.to_multiset(),
    ensures
        admit_all(a, ys).to_multiset() == admit_all(b, ys).to_multiset(),
        admit_all(a, ys).len() == admit_all(b, ys).len(),
    decreases ys.len(),
{
    broadcast use vstd::seq_lib::group_to_multiset_ensures;

    assert(a.to_multiset().len() == a.len() && b.to_multiset().len() == b.len());
    if ys.len() > 0 {
        lemma_admit_all_same_entries(a, b, ys.drop_last());
        let acc_a = admit_all(a, ys.drop_last());
        let acc_b = admit_all(b, ys.drop_last());
        let c = normalized(ys.last());
        let in_a = exists|k: int| 0 <= k < acc_a.len() && same_cat(#[trigger] acc_a[k], c);
        let in_b = exists|k: int| 0 <= k < acc_b.len() && same_cat(#[trigger] acc_b[k], c);
        if in_a {
            let k = choose|k: int| 0 <= k < acc_a.len() && same_cat(#[trigger] acc_a[k], c);
            assert(acc_a.to_multiset().count(acc_a[k]) > 0);
            assert(acc_b.contains(acc_a[k]));
            let j = choose|j: int| 0 <= j < acc_b.len() && acc_b[j] == acc_a[k];
            assert(same_cat(acc_b[j], c));
        }
        if in_b {
            let k = choose|k: int| 0 <= k < acc_b.len() && same_cat(#[trigger] acc_b[k], c);
            assert(acc_b.to_multiset().count(acc_b[k]) > 0);
            assert(acc_a.contains(acc_b[k]));
            let j = choose|j: int| 0 <= j < acc_a.len() && acc_a[j] == acc_b[k];
            assert(same_cat(acc_a[j], c));
        }
    }
}

/// Adding a batch of names leaves the same category list as adding its first
/// part and then the rest: sorting once at the end is only a shortcut.
pub proof fn lemma_batched_adding_matches_stepwise(
    cats: Seq<Seq<char>>,
    xs: Seq<Seq<char>>,
    ys: Seq<Seq<char>>,
)
    ensures
        categories_after_adding(categories_after_adding(cats, xs), ys) == categories_after_adding(
            cats,
            xs + ys,
        ),
{
    broadcast use vstd::seq_lib::group_to_multiset_ensures;

    crate::order::lemma_lex_total_ordering();
    lemma_admit_all_append(cats, xs, ys);
    lemma_admit_all_grows(cats, xs);
    let c1 = admit_all(cats, xs);
    lemma_admit_all_grows(c1, ys);
    if c1.len() == cats.len() {
        assert(c1 =~= c1.subrange(0, cats.len() as int));
    } else {
        let s1 = c1.sort_by(lex_leq());
        c1.lemma_sort_by_ensures(lex_leq());
        lemma_admit_all_same_entries(s1, c1, ys);
        lemma_admit_all_grows(s1, ys);
        let d1 = admit_all(s1, ys);
        let d2 = admit_all(c1, ys);
        assert(s1.to_multiset().len() == s1.len() && c1.to_multiset().len() == c1.len());
        if d1.len() == s1.len() {
            assert(d2 =~= d2.subrange(0, c1.len() as int));
        } else {
            d1.lemma_sort_by_ensures(lex_leq());
            d2.lemma_sort_by_ensures(lex_leq());
            vstd::seq_lib::lemma_sorted_unique(
                d1.sort_by(lex_leq()),
                d2.sort_by(lex_leq()),
                lex_leq(),
            );
        }
    }
}


/// Largest data file accepted (256 MiB); anything larger is reported as
/// corrupt rather than read into memory.
pub const MAX_DATA_FILE_BYTES: usize = 268435456;

/// What reading a data file from disk produced.
#[derive(Debug)]
pub enum DataFileRead {
    /// No file at that path.
    NotFound,
    /// The file is larger than the limit; `bytes` is its size when the file
    /// system reported one up front.
    Oversized { bytes: Option<u64> },
    /// Opening or reading failed, or the bytes are not UTF-8; the message says why.
    Unreadable(String),
    /// The whole file, read within the limit.
    Text(String),
}

pub open spec fn too_large_message(bytes: Option<u64>, limit: usize) -> Seq<char> {
    match bytes {
        Some(b) => "file is too large ("@ + decimal(b as nat) + " bytes, limit "@ + decimal(
            limit as nat,
        ) + ")"@,
        None => "file is too large (limit "@ + decimal(limit as nat) + ")"@,
    }
}

/// Decides what a data file holds before it is parsed: `Missing` when there
/// is no file or nothing but whitespace in it (no data that could be lost),
/// `Corrupt` when it is too large or unreadable, and `Loaded(text)` with the
/// text to parse otherwise.
pub fn data_file_text(read: DataFileRead, limit: usize) -> (r: Load<String>)
    ensures
        match read {
            DataFileRead::NotFound => r is Missing,
            DataFileRead::Oversized { bytes } => r matches Load::Corrupt(m) && m@
                == too_large_message(bytes, limit),
            DataFileRead::Unreadable(e) => r matches Load::Corrupt(m) && m@ == e@,
            DataFileRead::Text(t) => if trim(t@).len() == 0 {
                r is Missing
            } else {
                r matches Load::Loaded(x) && x@ == t@
            },
        },
{
    match read {
        DataFileRead::NotFound => Load::Missing,
        DataFileRead::Oversized { bytes } => {
            let lim = u64_to_decimal(limit as u64);
            let mut m;
            match bytes {
                Some(b) => {
                    m = String::from_str("file is too large (");
                    let d = u64_to_decimal(b);
                    m.append(d.as_str());
                    m.append(" bytes, limit ");
                    m.append(lim.as_str());
                    m.append(")");
                },
                None => {
                    m = String::from_str("file is too large (limit ");
                    m.append(lim.as_str());
                    m.append(")");
                },
            }
            Load::Corrupt(m)
        },
        DataFileRead::Unreadable(e) => Load::Corrupt(e),
        DataFileRead::Text(t) => {
            let cs = chars_of(t.as_str());
            let tr = trim_chars(&cs);
            if tr.len() == 0 {
                Load::Missing
            } else {
                Load::Loaded(t)
            }
        },
    }
}

/// The name a corrupt data file is moved aside under: `<name>.corrupt` on the
/// first attempt, then `<name>.corrupt.1`, `<name>.corrupt.2`, ... while the
/// earlier names are taken, so an old backup is never overwritten.
pub open spec fn backup_name(name: Seq<char>, attempt: nat) -> Seq<char> {
    if attempt == 0 {
        name + ".corrupt"@
    } else {
        name + ".corrupt."@ + decimal(attempt)
    }
}

pub fn corrupt_backup_name(name: &str, attempt: u64) -> (r: String)
    ensures
        r@ == backup_name(name@, attempt as nat),
{
    let mut m = String::from_str(name);
    if attempt == 0 {
        m.append(".corrupt");
    } else {
        m.append(".corrupt.");
        let d = u64_to_decimal(attempt);
        m.append(d.as_str());
    }
    m
}

} // verus!
