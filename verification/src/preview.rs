//! The one-line card preview: a body's words joined with single spaces and
//! clipped to a number of chars with an ellipsis.
use vstd::prelude::*;

use crate::text::{chars_of, join_words, push_char, split_words, string_of, vviews, words};

verus! {

/// Characters of a snippet body shown in a card's preview line.
pub const PREVIEW_CHARS: usize = 220;

/// At most `max` chars: longer text keeps its first `max - 1` chars (none when
/// `max` is 0) followed by an ellipsis.
pub open spec fn truncated(s: Seq<char>, max: nat) -> Seq<char> {
    if s.len() > max {
        s.take(if max >= 1 { max - 1 } else { 0 }).push('\u{2026}')
    } else {
        s
    }
}

/// The preview of a body: its words joined with single spaces, truncated.
pub open spec fn preview_spec(body: Seq<char>, max: nat) -> Seq<char> {
    truncated(join_words(words(body)), max)
}

/// Truncates a string to at most `max` chars, adding an ellipsis when it was
/// longer. Counts chars, not bytes.
pub fn truncate_chars(s: &str, max: usize) -> (r: String)
    ensures
        r@ == truncated(s@, max as nat),
{
    let cs = chars_of(s);
    if cs.len() > max {
        let keep = if max >= 1 {
            max - 1
        } else {
            0
        };
        let mut out = String::new();
        let mut i: usize = 0;
        while i < keep
            invariant
                keep < cs.len(),
                i <= keep,
                out@ == cs@.take(i as int),
            decreases keep - i,
        {
            push_char(&mut out, cs[i]);
            assert(cs@.take(i + 1) =~= cs@.take(i as int).push(cs@[i as int]));
            i = i + 1;
        }
        push_char(&mut out, '\u{2026}');
        out
    } else {
        String::from_str(s)
    }
}

/// Joining the first `k` words gives a prefix of joining them all.
proof fn lemma_join_prefix(ws: Seq<Seq<char>>, k: int)
    requires
        0 <= k <= ws.len(),
    ensures
        join_words(ws.take(k)).len() <= join_words(ws).len(),
        join_words(ws).take(join_words(ws.take(k)).len() as int) == join_words(ws.take(k)),
        k < ws.len() ==> (k == 0 ==> join_words(ws.take(k + 1)) == ws[k]),
        k < ws.len() ==> (k > 0 ==> join_words(ws.take(k + 1)) == join_words(ws.take(k))
            + seq![' '] + ws[k]),
    decreases ws.len() - k,
{
    if k < ws.len() {
        assert(ws.take(k + 1).drop_last() =~= ws.take(k));
        assert(ws.take(k + 1).last() == ws[k]);
        if k == 0 {
            assert(ws.take(1) =~= seq![ws[0]]);
        }
        lemma_join_prefix(ws, k + 1);
        let a = join_words(ws.take(k));
        let b = join_words(ws.take(k + 1));
        let full = join_words(ws);
        assert(b.take(a.len() as int) =~= a);
        assert(full.take(a.len() as int) =~= b.take(a.len() as int));
    } else {
        assert(ws.take(k) =~= ws);
        assert(join_words(ws).take(join_words(ws).len() as int) =~= join_words(ws));
    }
}

/// Collapses a body into a single-line preview of at most `max` chars: the
/// words joined with single spaces, clipped with an ellipsis. The collapsed
/// text is built only up to the first word that overflows the preview, and
/// only a prefix of that word is copied into it, so a single gigantic token
/// never ends up in the preview buffer in full.
pub fn preview_text(body: &str, max: usize) -> (r: String)
    ensures
        r@ == preview_spec(body@, max as nat),
{
    let cs = chars_of(body);
    let ws = split_words(&cs);
    let ghost wv = vviews(ws@);
    let ghost full = join_words(wv);
    let mut collapsed: Vec<char> = Vec::new();
    let mut chars: usize = 0;
    let mut k: usize = 0;
    let mut overflowed = false;
    while k < ws.len() && !overflowed
        invariant
            k <= ws.len(),
            wv == vviews(ws@),
            wv == words(cs@),
            cs@ == body@,
            full == join_words(wv),
            chars == collapsed@.len(),
            !overflowed ==> collapsed@ == join_words(wv.take(k as int)),
            !overflowed ==> chars <= max,
            overflowed ==> collapsed@.len() == max + 1 && collapsed@ == full.take(max + 1),
            overflowed ==> full.len() > max,
        decreases ws.len() - k + (if overflowed { 0int } else { 1int }),
    {
        proof {
            lemma_join_prefix(wv, k as int);
            crate::storage::lemma_words_nonempty(cs@);
        }
        let w = &ws[k];
        assert(w@ == wv[k as int]);
        let sep: usize = if k > 0 {
            1
        } else {
            0
        };
        if chars == max && sep == 1 {
            // The separating space alone reaches past the preview.
            let ghost before = collapsed@;
            collapsed.push(' ');
            chars = collapsed.len();
            proof {
                lemma_join_prefix(wv, (k + 1) as int);
                assert(collapsed@ =~= join_words(wv.take(k + 1)).take(max + 1));
                assert(full.take(max + 1) =~= join_words(wv.take(k + 1)).take(max + 1));
            }
            overflowed = true;
        } else {
            let ghost before = collapsed@;
            if sep == 1 {
                collapsed.push(' ');
                chars = collapsed.len();
            }
            let ghost with_sep = collapsed@;
            if w.len() > max - chars {
                let room = max - chars + 1;
                let mut j: usize = 0;
                while j < room
                    invariant
                        j <= room,
                        room <= w@.len(),
                        collapsed@ == with_sep + w@.take(j as int),
                    decreases room - j,
                {
                    collapsed.push(w[j]);
                    assert(w@.take(j + 1) =~= w@.take(j as int).push(w@[j as int]));
                    j = j + 1;
                }
                chars = collapsed.len();
                proof {
                    lemma_join_prefix(wv, (k + 1) as int);
                    let next = join_words(wv.take(k + 1));
                    if k == 0 {
                        assert(with_sep =~= seq![]);
                        assert(next == w@);
                    } else {
                        assert(with_sep =~= before + seq![' ']);
                    }
                    assert(collapsed@ =~= next.take(max + 1));
                    assert(full.take(max + 1) =~= next.take(max + 1));
                }
                overflowed = true;
            } else {
                let mut j: usize = 0;
                while j < w.len()
                    invariant
                        j <= w@.len(),
                        collapsed@ == with_sep + w@.take(j as int),
                    decreases w@.len() - j,
                {
                    collapsed.push(w[j]);
                    assert(w@.take(j + 1) =~= w@.take(j as int).push(w@[j as int]));
                    j = j + 1;
                }
                chars = collapsed.len();
                proof {
                    lemma_join_prefix(wv, (k + 1) as int);
                    assert(w@.take(w@.len() as int) =~= w@);
                    if k == 0 {
                        assert(with_sep =~= seq![]);
                    } else {
                        assert(with_sep =~= before + seq![' ']);
                    }
                    assert(collapsed@ =~= join_words(wv.take(k + 1)));
                }
                k = k + 1;
            }
        }
    }
    proof {
        if !overflowed {
            assert(wv.take(ws.len() as int) =~= wv);
        }
    }
    let text = string_of(&collapsed);
    let r = truncate_chars(text.as_str(), max);
    proof {
        if overflowed {
            let keep: int = if max >= 1 {
                max - 1
            } else {
                0
            };
            assert(collapsed@.take(keep) =~= full.take(keep));
        }
    }
    r
}

} // verus!
