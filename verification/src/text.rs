//! Character-level text helpers shared by the category, hint and preview rules:
//! the Unicode `White_Space` set, ASCII case mapping, the word splitting that
//! `split_whitespace` performs, and the conversions between `String` and
//! `Vec<char>` the verified loops work on.
use vstd::prelude::*;

verus! {

/// The Unicode `White_Space` property, which `char::is_whitespace` (and with it
/// `str::trim` and `str::split_whitespace`) tests.
pub open spec fn is_ws_spec(c: char) -> bool {
    let u = c as u32;
    ||| (0x09 <= u && u <= 0x0D)
    ||| u == 0x20
    ||| u == 0x85
    ||| u == 0xA0
    ||| u == 0x1680
    ||| (0x2000 <= u && u <= 0x200A)
    ||| u == 0x2028
    ||| u == 0x2029
    ||| u == 0x202F
    ||| u == 0x205F
    ||| u == 0x3000
}

pub fn is_ws(c: char) -> (r: bool)
    ensures
        r == is_ws_spec(c),
{
    let u = c as u32;
    (0x09 <= u && u <= 0x0D) || u == 0x20 || u == 0x85 || u == 0xA0 || u == 0x1680 || (0x2000
        <= u && u <= 0x200A) || u == 0x2028 || u == 0x2029 || u == 0x202F || u == 0x205F || u
        == 0x3000
}

pub open spec fn is_ascii_char(c: char) -> bool {
    (c as u32) < 128
}

pub open spec fn all_ascii(s: Seq<char>) -> bool {
    forall|i: int| 0 <= i < s.len() ==> is_ascii_char(#[trigger] s[i])
}

pub open spec fn ascii_lower_char(c: char) -> char {
    if 65 <= (c as u32) && (c as u32) <= 90 {
        ((c as u32) + 32) as char
    } else {
        c
    }
}

pub open spec fn ascii_upper_char(c: char) -> char {
    if 97 <= (c as u32) && (c as u32) <= 122 {
        ((c as u32) - 32) as char
    } else {
        c
    }
}

/// ASCII lowercasing of every char; non-ASCII chars are left as they are.
pub open spec fn ascii_lower(s: Seq<char>) -> Seq<char> {
    s.map_values(|c: char| ascii_lower_char(c))
}

pub fn to_ascii_lower_char(c: char) -> (r: char)
    ensures
        r == ascii_lower_char(c),
{
    if 'A' <= c && c <= 'Z' {
        let u = (c as u32) + 32;
        assert(97 <= u <= 122);
        let b = u as u8;
        b as char
    } else {
        c
    }
}

pub fn to_ascii_upper_char(c: char) -> (r: char)
    ensures
        r == ascii_upper_char(c),
{
    if 'a' <= c && c <= 'z' {
        let u = (c as u32) - 32;
        let b = u as u8;
        b as char
    } else {
        c
    }
}

/// Collects the chars of `s`.
pub fn chars_of(s: &str) -> (r: Vec<char>)
    ensures
        r@ == s@,
{
    let mut out: Vec<char> = Vec::new();
    for c in it: s.chars()
        invariant
            it.seq() == s@,
            out@ == it.seq().take(it.index() as int),
    {
        out.push(c);
    }
    out
}

/// Appends one char to a `String` (`String::push`).
#[verifier::external_body]
pub(crate) fn push_char(s: &mut String, c: char)
    ensures
        final(s)@ == old(s)@.push(c),
{
    s.push(c);
}

/// Builds a `String` from the chars in `v`.
pub fn string_of(v: &Vec<char>) -> (r: String)
    ensures
        r@ == v@,
{
    let mut out = String::new();
    let mut i: usize = 0;
    while i < v.len()
        invariant
            i <= v.len(),
            out@ == v@.subrange(0, i as int),
        decreases v.len() - i,
    {
        push_char(&mut out, v[i]);
        assert(v@.subrange(0, i + 1) =~= v@.subrange(0, i as int).push(v@[i as int]));
        i = i + 1;
    }
    assert(v@.subrange(0, v.len() as int) =~= v@);
    out
}


/// What `str::to_lowercase` yields for a string whose chars are not all ASCII.
pub uninterp spec fn unicode_lower(s: Seq<char>) -> Seq<char>;

/// What `char::to_uppercase` yields for a non-ASCII char.
pub uninterp spec fn unicode_upper(c: char) -> Seq<char>;

/// `str::to_lowercase`: the plain ASCII mapping on an all-ASCII string,
/// the Unicode mapping otherwise.
pub open spec fn lowercase(s: Seq<char>) -> Seq<char> {
    if all_ascii(s) {
        ascii_lower(s)
    } else {
        unicode_lower(s)
    }
}

/// `char::to_uppercase`, collected into a string.
pub open spec fn uppercase_char(c: char) -> Seq<char> {
    if is_ascii_char(c) {
        seq![ascii_upper_char(c)]
    } else {
        unicode_upper(c)
    }
}

/// `str::to_lowercase`. The contract says that an all-ASCII string is mapped
/// char by char with `A..=Z` -> `a..=z` (std takes exactly that path for
/// ASCII input); for other strings the result is the Unicode lowercase
/// mapping, named by `unicode_lower`.
#[verifier::external_body]
pub(crate) fn to_lowercase(s: &str) -> (r: String)
    ensures
        all_ascii(s@) ==> r@ == ascii_lower(s@),
        !all_ascii(s@) ==> r@ == unicode_lower(s@),
{
    s.to_lowercase()
}

/// `char::to_uppercase`, collected into a `String`. The contract says that an
/// ASCII char maps to the single char `a..=z` -> `A..=Z` (other ASCII chars
/// unchanged); a non-ASCII char maps to its Unicode uppercase, named by
/// `unicode_upper`.
#[verifier::external_body]
pub(crate) fn char_to_uppercase(c: char) -> (r: String)
    ensures
        is_ascii_char(c) ==> r@ == seq![ascii_upper_char(c)],
        !is_ascii_char(c) ==> r@ == unicode_upper(c),
{
    c.to_uppercase().collect()
}

pub fn is_all_ascii(v: &Vec<char>) -> (r: bool)
    ensures
        r == all_ascii(v@),
{
    let mut i: usize = 0;
    while i < v.len()
        invariant
            i <= v.len(),
            forall|j: int| 0 <= j < i ==> is_ascii_char(#[trigger] v@[j]),
        decreases v.len() - i,
    {
        if (v[i] as u32) >= 128 {
            return false;
        }
        i = i + 1;
    }
    true
}

/// `str::eq_ignore_ascii_case`, on chars: equal after ASCII lowercasing.
pub fn eq_ignore_ascii_case(a: &Vec<char>, b: &Vec<char>) -> (r: bool)
    ensures
        r == (ascii_lower(a@) == ascii_lower(b@)),
{
    if a.len() != b.len() {
        assert(ascii_lower(a@).len() != ascii_lower(b@).len());
        return false;
    }
    let mut i: usize = 0;
    while i < a.len()
        invariant
            a.len() == b.len(),
            i <= a.len(),
            forall|j: int| 0 <= j < i ==> ascii_lower_char(#[trigger] a@[j]) == ascii_lower_char(b@[j]),
        decreases a.len() - i,
    {
        if to_ascii_lower_char(a[i]) != to_ascii_lower_char(b[i]) {
            assert(ascii_lower(a@)[i as int] != ascii_lower(b@)[i as int]);
            return false;
        }
        i = i + 1;
    }
    assert(ascii_lower(a@) =~= ascii_lower(b@));
    true
}

/// Leading whitespace removed (`str::trim_start`).
pub open spec fn trim_start(s: Seq<char>) -> Seq<char>
    decreases s.len(),
{
    if s.len() > 0 && is_ws_spec(s[0]) {
        trim_start(s.drop_first())
    } else {
        s
    }
}

/// Trailing whitespace removed (`str::trim_end`).
pub open spec fn trim_end(s: Seq<char>) -> Seq<char>
    decreases s.len(),
{
    if s.len() > 0 && is_ws_spec(s.last()) {
        trim_end(s.drop_last())
    } else {
        s
    }
}

/// `str::trim`.
pub open spec fn trim(s: Seq<char>) -> Seq<char> {
    trim_end(trim_start(s))
}

/// Index of the first non-whitespace char (or the length).
pub open spec fn lead_ws(s: Seq<char>) -> int
    decreases s.len(),
{
    if s.len() > 0 && is_ws_spec(s[0]) {
        1 + lead_ws(s.drop_first())
    } else {
        0
    }
}

pub proof fn lemma_trim_start_skip(s: Seq<char>)
    ensures
        0 <= lead_ws(s) <= s.len(),
        trim_start(s) == s.skip(lead_ws(s)),
        forall|j: int| 0 <= j < lead_ws(s) ==> is_ws_spec(#[trigger] s[j]),
        lead_ws(s) < s.len() ==> !is_ws_spec(s[lead_ws(s)]),
    decreases s.len(),
{
    if s.len() > 0 && is_ws_spec(s[0]) {
        lemma_trim_start_skip(s.drop_first());
        assert(s.drop_first().skip(lead_ws(s.drop_first())) =~= s.skip(lead_ws(s)));
        assert forall|j: int| 0 <= j < lead_ws(s) implies is_ws_spec(#[trigger] s[j]) by {
            if j > 0 {
                assert(s[j] == s.drop_first()[j - 1]);
            }
        }
        if lead_ws(s) < s.len() {
            assert(s[lead_ws(s)] == s.drop_first()[lead_ws(s.drop_first())]);
        }
    } else {
        assert(s.skip(0) =~= s);
    }
}

/// Number of trailing whitespace chars.
pub open spec fn trail_ws(s: Seq<char>) -> int
    decreases s.len(),
{
    if s.len() > 0 && is_ws_spec(s.last()) {
        1 + trail_ws(s.drop_last())
    } else {
        0
    }
}

pub proof fn lemma_trim_end_take(s: Seq<char>)
    ensures
        0 <= trail_ws(s) <= s.len(),
        trim_end(s) == s.take(s.len() - trail_ws(s)),
        forall|j: int| s.len() - trail_ws(s) <= j < s.len() ==> is_ws_spec(#[trigger] s[j]),
        trail_ws(s) < s.len() ==> !is_ws_spec(s[s.len() - trail_ws(s) - 1]),
    decreases s.len(),
{
    if s.len() > 0 && is_ws_spec(s.last()) {
        lemma_trim_end_take(s.drop_last());
        assert(s.drop_last().take(s.drop_last().len() - trail_ws(s.drop_last())) =~= s.take(
            s.len() - trail_ws(s),
        ));
        assert forall|j: int| s.len() - trail_ws(s) <= j < s.len() implies is_ws_spec(
            #[trigger] s[j],
        ) by {
            if j < s.len() - 1 {
                assert(s[j] == s.drop_last()[j]);
            }
        }
        if trail_ws(s) < s.len() {
            assert(s[s.len() - trail_ws(s) - 1] == s.drop_last()[s.drop_last().len() - trail_ws(
                s.drop_last(),
            ) - 1]);
        }
    } else {
        assert(s.take(s.len() as int) =~= s);
    }
}

/// `str::trim`, on chars.
pub fn trim_chars(v: &Vec<char>) -> (r: Vec<char>)
    ensures
        r@ == trim(v@),
{
    proof {
        lemma_trim_start_skip(v@);
    }
    let mut start: usize = 0;
    while start < v.len() && is_ws(v[start])
        invariant
            start <= v.len(),
            start <= lead_ws(v@),
            0 <= lead_ws(v@) <= v@.len(),
            forall|j: int| 0 <= j < lead_ws(v@) ==> is_ws_spec(#[trigger] v@[j]),
            lead_ws(v@) < v@.len() ==> !is_ws_spec(v@[lead_ws(v@)]),
        decreases v.len() - start,
    {
        start = start + 1;
    }
    assert(start == lead_ws(v@));
    let ghost ts = v@.skip(start as int);
    proof {
        lemma_trim_end_take(ts);
    }
    let mut end: usize = v.len();
    while end > start && is_ws(v[end - 1])
        invariant
            start <= end <= v.len(),
            ts == v@.skip(start as int),
            end - start >= ts.len() - trail_ws(ts),
            0 <= trail_ws(ts) <= ts.len(),
            forall|j: int| ts.len() - trail_ws(ts) <= j < ts.len() ==> is_ws_spec(#[trigger] ts[j]),
            trail_ws(ts) < ts.len() ==> !is_ws_spec(ts[ts.len() - trail_ws(ts) - 1]),
        decreases end,
    {
        assert(v@[end - 1] == ts[end - 1 - start]);
        end = end - 1;
    }
    if end > start {
        assert(v@[end - 1] == ts[end - 1 - start]);
    }
    assert(end - start == ts.len() - trail_ws(ts));
    let mut out: Vec<char> = Vec::new();
    let mut i: usize = start;
    while i < end
        invariant
            start <= i <= end <= v.len(),
            out@ == v@.subrange(start as int, i as int),
        decreases end - i,
    {
        out.push(v[i]);
        assert(v@.subrange(start as int, i + 1) =~= v@.subrange(start as int, i as int).push(
            v@[i as int],
        ));
        i = i + 1;
    }
    assert(out@ =~= ts.take(ts.len() - trail_ws(ts)));
    out
}


/// The views of a list of char vectors.
pub open spec fn vviews(v: Seq<Vec<char>>) -> Seq<Seq<char>> {
    v.map_values(|w: Vec<char>| w@)
}

/// Scanning state of `split_whitespace` after reading `s`: the finished words
/// and the word being read.
pub open spec fn split_state(s: Seq<char>) -> (Seq<Seq<char>>, Seq<char>)
    decreases s.len(),
{
    if s.len() == 0 {
        (seq![], seq![])
    } else {
        let prev = split_state(s.drop_last());
        if is_ws_spec(s.last()) {
            if prev.1.len() > 0 {
                (prev.0.push(prev.1), seq![])
            } else {
                prev
            }
        } else {
            (prev.0, prev.1.push(s.last()))
        }
    }
}

/// `str::split_whitespace`: the maximal runs of non-whitespace chars.
pub open spec fn words(s: Seq<char>) -> Seq<Seq<char>> {
    let st = split_state(s);
    if st.1.len() > 0 {
        st.0.push(st.1)
    } else {
        st.0
    }
}

/// `split_whitespace`, on chars.
pub fn split_words(v: &Vec<char>) -> (r: Vec<Vec<char>>)
    ensures
        vviews(r@) == words(v@),
{
    let mut done: Vec<Vec<char>> = Vec::new();
    let mut cur: Vec<char> = Vec::new();
    let mut i: usize = 0;
    while i < v.len()
        invariant
            i <= v.len(),
            (vviews(done@), cur@) == split_state(v@.take(i as int)),
        decreases v.len() - i,
    {
        assert(v@.take(i + 1).drop_last() =~= v@.take(i as int));
        let c = v[i];
        if is_ws(c) {
            if cur.len() > 0 {
                let w = cur;
                done.push(w);
                cur = Vec::new();
                assert(vviews(done@) =~= split_state(v@.take(i as int)).0.push(w@));
            }
        } else {
            cur.push(c);
        }
        i = i + 1;
    }
    assert(v@.take(v.len() as int) =~= v@);
    if cur.len() > 0 {
        let w = cur;
        done.push(w);
        assert(vviews(done@) =~= split_state(v@).0.push(w@));
    }
    done
}

/// The words joined with single spaces (`[..].join(" ")`).
pub open spec fn join_words(ws: Seq<Seq<char>>) -> Seq<char>
    decreases ws.len(),
{
    if ws.len() == 0 {
        seq![]
    } else if ws.len() == 1 {
        ws[0]
    } else {
        join_words(ws.drop_last()) + seq![' '] + ws.last()
    }
}

/// `join(" ")` over strings.
pub fn join_with_spaces(ws: &Vec<String>) -> (r: String)
    ensures
        r@ == join_words(ws@.map_values(|w: String| w@)),
{
    let ghost vs = ws@.map_values(|w: String| w@);
    let mut out = String::new();
    let mut i: usize = 0;
    while i < ws.len()
        invariant
            i <= ws.len(),
            vs == ws@.map_values(|w: String| w@),
            out@ == join_words(vs.take(i as int)),
        decreases ws.len() - i,
    {
        assert(vs.take(i + 1).drop_last() =~= vs.take(i as int));
        if i > 0 {
            push_char(&mut out, ' ');
        }
        out.append(ws[i].as_str());
        proof {
            if i == 0 {
                assert(out@ =~= vs.take(1)[0]);
            } else {
                assert(out@ =~= join_words(vs.take(i as int)) + seq![' '] + vs[i as int]);
            }
        }
        i = i + 1;
    }
    assert(vs.take(ws.len() as int) =~= vs);
    out
}


pub open spec fn digit_char(d: nat) -> char {
    ((d + 48) as u8) as char
}

/// The decimal digits of `n` (what `Display` prints for an unsigned integer).
pub open spec fn decimal(n: nat) -> Seq<char>
    decreases n,
{
    if n < 10 {
        seq![digit_char(n)]
    } else {
        decimal(n / 10).push(digit_char(n % 10))
    }
}

/// `n.to_string()` for an unsigned integer.
pub fn u64_to_decimal(n: u64) -> (r: String)
    ensures
        r@ == decimal(n as nat),
    decreases n,
{
    if n < 10 {
        let b: u8 = (n as u8) + 48;
        let mut s = String::new();
        push_char(&mut s, b as char);
        assert(s@ =~= seq![digit_char(n as nat)]);
        s
    } else {
        let mut s = u64_to_decimal(n / 10);
        let b: u8 = ((n % 10) as u8) + 48;
        push_char(&mut s, b as char);
        s
    }
}

/// String equality on `&str`.
pub fn str_eq(a: &str, b: &str) -> (r: bool)
    ensures
        r == (a@ == b@),
{
    let ca = chars_of(a);
    let cb = chars_of(b);
    if ca.len() != cb.len() {
        return false;
    }
    let mut i: usize = 0;
    while i < ca.len()
        invariant
            i <= ca.len() == cb.len(),
            ca@ == a@,
            cb@ == b@,
            forall|j: int| 0 <= j < i ==> ca@[j] == cb@[j],
        decreases ca.len() - i,
    {
        if ca[i] != cb[i] {
            assert(ca@[i as int] != cb@[i as int]);
            return false;
        }
        i = i + 1;
    }
    assert(ca@ =~= cb@);
    true
}

} // verus!
