//! The snippet library as the desktop front end drives it: the snippets with
//! their cached search text, the memoized search filter, the category list,
//! and the warning banner. Writes to disk are requested through two flags
//! that the front end flushes; everything it decides stands here.
use vstd::prelude::*;
use vstd::relations::sorted_by;

use crate::editor::Editor;
use crate::model::Snippet;
use crate::order::{lex_leq, sort_strings, views};
use crate::preview::{preview_spec, preview_text, PREVIEW_CHARS};
use crate::storage::{
    Config, admit_all, categories_after_adding, lemma_admit_all_grows, all_chars, is_reserved_category, normalize_category, normalized, reserved,
    same_cat, same_category,
};
use crate::text::{chars_of, lowercase, str_eq, to_lowercase, trim, trim_chars, string_of};
use crate::theme::{name_spec, theme_for, Theme};
use crate::vault::{bullets, masked_preview, VaultMeta, VaultState};
use crate::session::{ProtectedCopyGuard, VaultPrompt, VaultWork};

verus! {

/// Prefix of the banner message for a failed snippet-library write.
pub const SNIPPETS_SAVE_ERROR: &'static str = "Couldn't save snippets";

/// Prefix of the banner message for a failed settings write.
pub const CONFIG_SAVE_ERROR: &'static str = "Couldn't save settings";

/// `needle` occurs in `hay` at index `i`.
pub open spec fn occurs_at(hay: Seq<char>, needle: Seq<char>, i: int) -> bool {
    0 <= i && i + needle.len() <= hay.len() && hay.subrange(i, i + needle.len()) == needle
}

/// `needle` is a substring of `hay` (`str::contains`; the empty string is a
/// substring of every string).
pub open spec fn has_substring(hay: Seq<char>, needle: Seq<char>) -> bool {
    exists|i: int| occurs_at(hay, needle, i)
}

fn occurs_at_exec(hay: &Vec<char>, needle: &Vec<char>, i: usize) -> (r: bool)
    requires
        i + needle@.len() <= hay@.len(),
    ensures
        r == occurs_at(hay@, needle@, i as int),
{
    let hl = hay.len();
    let mut k: usize = 0;
    while k < needle.len()
        invariant
            hl == hay@.len(),
            k <= needle@.len(),
            i + needle@.len() <= hay@.len(),
            forall|j: int| 0 <= j < k ==> hay@[i + j] == needle@[j],
        decreases needle.len() - k,
    {
        assert(i + k < hay@.len());
        if hay[i + k] != needle[k] {
            assert(hay@.subrange(i as int, i + needle@.len())[k as int] != needle@[k as int]);
            return false;
        }
        k = k + 1;
    }
    assert(hay@.subrange(i as int, i + needle@.len()) =~= needle@);
    true
}

/// `str::contains` for a string pattern.
pub fn contains_str(hay: &str, needle: &str) -> (r: bool)
    ensures
        r == has_substring(hay@, needle@),
{
    let h = chars_of(hay);
    let n = chars_of(needle);
    if n.len() > h.len() {
        assert forall|i: int| !occurs_at(hay@, needle@, i) by {}
        return false;
    }
    let last = h.len() - n.len();
    let mut i: usize = 0;
    loop
        invariant
            n@.len() <= h@.len(),
            last == h@.len() - n@.len(),
            i <= last,
            h@ == hay@,
            n@ == needle@,
            forall|j: int| 0 <= j < i ==> !occurs_at(hay@, needle@, j),
        ensures
            forall|j: int| 0 <= j <= last ==> !occurs_at(hay@, needle@, j),
        decreases last - i,
    {
        if occurs_at_exec(&h, &n, i) {
            assert(occurs_at(hay@, needle@, i as int));
            return true;
        }
        if i == last {
            break;
        }
        i = i + 1;
    }
    assert forall|j: int| !occurs_at(hay@, needle@, j) by {
        if 0 <= j <= last {
        }
    }
    false
}

/// Per-snippet text derived from the snippet itself: the lowercase forms the
/// search filter matches against, and the card's one-line preview.
#[derive(Debug)]
pub struct Derived {
    pub title_lower: String,
    pub category_lower: String,
    pub body_lower: String,
    pub preview: String,
}

/// The preview a card shows: a protected card always shows its masked hint,
/// never body content; a plain card shows its collapsed body.
pub open spec fn card_preview(s: Snippet) -> Seq<char> {
    match s.protection {
        Some(p) => p.hint@ + bullets(),
        None => preview_spec(s.body@, PREVIEW_CHARS as nat),
    }
}

impl Derived {
    /// `self` is the derived text of `s`. A protected snippet contributes no
    /// body text to search, whatever its body field holds.
    pub open spec fn of(self, s: Snippet) -> bool {
        &&& self.title_lower@ == lowercase(s.title@)
        &&& self.category_lower@ == lowercase(s.category@)
        &&& self.body_lower@ == (if s.protection is Some {
            Seq::<char>::empty()
        } else {
            lowercase(s.body@)
        })
        &&& self.preview@ == card_preview(s)
    }

    /// The text search looks at matches `q`.
    pub open spec fn matches_spec(self, q: Seq<char>) -> bool {
        has_substring(self.title_lower@, q) || has_substring(self.body_lower@, q)
            || has_substring(self.category_lower@, q)
    }

    pub fn new(s: &Snippet) -> (r: Derived)
        ensures
            r.of(*s),
    {
        let body_lower = match &s.protection {
            Some(_) => String::new(),
            None => to_lowercase(s.body.as_str()),
        };
        let preview = match &s.protection {
            Some(p) => masked_preview(p.hint.as_str()),
            None => preview_text(s.body.as_str(), PREVIEW_CHARS),
        };
        Derived {
            title_lower: to_lowercase(s.title.as_str()),
            category_lower: to_lowercase(s.category.as_str()),
            body_lower,
            preview,
        }
    }

    /// True when the snippet matches an already lowercased, already trimmed
    /// query: in its title, its (unprotected) body, or its category.
    pub fn matches(&self, query_lower: &str) -> (r: bool)
        ensures
            r == self.matches_spec(query_lower@),
    {
        contains_str(self.title_lower.as_str(), query_lower) || contains_str(
            self.body_lower.as_str(),
            query_lower,
        ) || contains_str(self.category_lower.as_str(), query_lower)
    }
}

/// `ds` is index-aligned with `ss` and holds the derived text of each snippet.
pub open spec fn derived_all(ds: Seq<Derived>, ss: Seq<Snippet>) -> bool {
    ds.len() == ss.len() && forall|i: int| 0 <= i < ss.len() ==> (#[trigger] ds[i]).of(ss[i])
}

/// Memoized result of the search and category filter: the indices of the
/// visible cards, with the inputs they were computed from.
#[derive(Debug)]
pub struct FilterCache {
    pub indices: Vec<usize>,
    pub search: String,
    pub category: String,
    pub generation: u64,
    pub valid: bool,
}

impl Default for FilterCache {
    fn default() -> (r: Self)
        ensures
            r.indices@.len() == 0,
            r.search@.len() == 0,
            r.category@.len() == 0,
            r.generation == 0,
            !r.valid,
    {
        FilterCache {
            indices: Vec::new(),
            search: String::new(),
            category: String::new(),
            generation: 0,
            valid: false,
        }
    }
}

impl FilterCache {
    /// True when the cached indices still describe these inputs.
    pub fn is_current(&self, search: &str, category: &str, generation: u64) -> (r: bool)
        ensures
            r == (self.valid && self.generation == generation && self.search@ == search@
                && self.category@ == category@),
    {
        self.valid && self.generation == generation && str_eq(self.search.as_str(), search)
            && str_eq(self.category.as_str(), category)
    }
}

/// The query the filter matches with: the search text trimmed, then lowercased.
pub open spec fn query_of(search: Seq<char>) -> Seq<char> {
    lowercase(trim(search))
}

/// A card passes the filter: its category is the selected one (or "All" is
/// selected), and the query is empty or matches its derived text.
pub open spec fn shown(s: Snippet, d: Derived, category: Seq<char>, q: Seq<char>) -> bool {
    (category == all_chars() || s.category@ == category) && (q.len() == 0 || d.matches_spec(q))
}

/// The indices, in order, of the first `n` cards that pass the filter.
pub open spec fn filtered_upto(
    ss: Seq<Snippet>,
    ds: Seq<Derived>,
    category: Seq<char>,
    q: Seq<char>,
    n: nat,
) -> Seq<usize>
    decreases n,
{
    if n == 0 {
        Seq::empty()
    } else {
        let prev = filtered_upto(ss, ds, category, q, (n - 1) as nat);
        if shown(ss[n - 1], ds[n - 1], category, q) {
            prev.push((n - 1) as usize)
        } else {
            prev
        }
    }
}

/// Normalizes a freshly loaded category list into the canonical form: each
/// entry normalized, reserved names dropped, later case-insensitive repeats
/// dropped, the result sorted.
pub open spec fn sanitized(cats: Seq<Seq<char>>) -> Seq<Seq<char>> {
    admit_all(Seq::empty(), cats).sort_by(lex_leq())
}

pub fn sanitize_categories(categories: &[String]) -> (r: Vec<String>)
    ensures
        views(r@) == sanitized(views(categories@)),
{
    let ghost rs = views(categories@);
    let mut out: Vec<String> = Vec::new();
    let mut i: usize = 0;
    while i < categories.len()
        invariant
            i <= categories@.len(),
            rs == views(categories@),
            views(out@) == admit_all(Seq::empty(), rs.take(i as int)),
        decreases categories.len() - i,
    {
        assert(rs.take(i + 1).drop_last() =~= rs.take(i as int));
        assert(rs.take(i + 1).last() == categories@[i as int]@);
        let cat = normalize_category(categories[i].as_str());
        if !is_reserved_category(cat.as_str()) {
            let mut found = false;
            let mut k: usize = 0;
            while k < out.len()
                invariant
                    k <= out@.len(),
                    found ==> exists|m: int|
                        0 <= m < out@.len() && same_cat(#[trigger] views(out@)[m], cat@),
                    !found ==> forall|m: int|
                        0 <= m < k ==> !same_cat(#[trigger] views(out@)[m], cat@),
                decreases out.len() - k,
            {
                if same_category(out[k].as_str(), cat.as_str()) {
                    assert(same_cat(views(out@)[k as int], cat@));
                    found = true;
                }
                k = k + 1;
            }
            if !found {
                let ghost prev = views(out@);
                out.push(cat);
                assert(views(out@) =~= prev.push(cat@));
            }
        }
        i = i + 1;
    }
    assert(rs.take(categories.len() as int) =~= rs);
    sort_strings(out)
}


/// Number of colors category badges are drawn from.
pub const CATEGORY_PALETTE_LEN: usize = 6;

/// The category badge hash: over the name's UTF-8 bytes, `h = h * 31 + b`
/// with `usize` wrap-around.
pub open spec fn palette_hash(bs: Seq<u8>) -> usize
    decreases bs.len(),
{
    if bs.len() == 0 {
        0
    } else {
        vstd::wrapping::usize_specs::wrapping_add(
            vstd::wrapping::usize_specs::wrapping_mul(palette_hash(bs.drop_last()), 31),
            bs.last() as usize,
        )
    }
}

/// Which palette color a category's badge gets: the same name always gets
/// the same color.
pub fn category_color_index(cat: &str) -> (r: usize)
    ensures
        r == palette_hash(vstd::utf8::encode_utf8(cat@)) % 6,
        r < CATEGORY_PALETTE_LEN,
{
    let bytes = cat.as_bytes();
    let ghost bs = bytes@;
    let mut h: usize = 0;
    let mut i: usize = 0;
    while i < bytes.len()
        invariant
            i <= bs.len(),
            bs == bytes@,
            h == palette_hash(bs.take(i as int)),
        decreases bytes.len() - i,
    {
        assert(bs.take(i + 1).drop_last() =~= bs.take(i as int));
        h = h.wrapping_mul(31).wrapping_add(bytes[i] as usize);
        i = i + 1;
    }
    assert(bs.take(bytes.len() as int) =~= bs);
    h % CATEGORY_PALETTE_LEN
}

/// `s` starts with `p`.
pub open spec fn starts_with(s: Seq<char>, p: Seq<char>) -> bool {
    p.len() <= s.len() && s.subrange(0, p.len() as int) == p
}

pub fn starts_with_str(s: &str, p: &str) -> (r: bool)
    ensures
        r == starts_with(s@, p@),
{
    let cs = chars_of(s);
    let cp = chars_of(p);
    if cp.len() > cs.len() {
        return false;
    }
    let mut k: usize = 0;
    while k < cp.len()
        invariant
            k <= cp@.len() <= cs@.len(),
            cs@ == s@,
            cp@ == p@,
            forall|j: int| 0 <= j < k ==> cs@[j] == cp@[j],
        decreases cp.len() - k,
    {
        if cs[k] != cp[k] {
            assert(s@.subrange(0, p@.len() as int)[k as int] != p@[k as int]);
            return false;
        }
        k = k + 1;
    }
    assert(s@.subrange(0, p@.len() as int) =~= p@);
    true
}

/// A banner message: the kind of failure, a colon, and what went wrong.
pub open spec fn prefixed(prefix: Seq<char>, e: Seq<char>) -> Seq<char> {
    prefix + ": "@ + e
}

pub fn prefixed_message(prefix: &str, e: &str) -> (r: String)
    ensures
        r@ == prefixed(prefix@, e@),
{
    let mut m = String::from_str(prefix);
    m.append(": ");
    m.append(e);
    m
}

/// Why a data file that could not be backed up is never written over.
pub open spec fn refusal(filename: Seq<char>) -> Seq<char> {
    filename + " is corrupt and could not be backed up; copy it elsewhere before making changes"@
}

/// The error a write to a corrupt data file that could not be moved aside
/// is refused with: keeping the original bytes is safer than letting an
/// automatic save replace the only remaining copy of the user's data.
pub fn refuse_overwrite_error(filename: &str) -> (r: String)
    ensures
        r@ == refusal(filename@),
{
    let mut m = String::from_str(filename);
    m.append(" is corrupt and could not be backed up; copy it elsewhere before making changes");
    m
}

/// The banner after pushing `m` unless an identical entry is already shown.
pub open spec fn pushed_once(errs: Seq<Seq<char>>, m: Seq<char>) -> Seq<Seq<char>> {
    if errs.contains(m) {
        errs
    } else {
        errs.push(m)
    }
}

/// The banner after retiring every entry that starts with `prefix`.
pub open spec fn retired(errs: Seq<Seq<char>>, prefix: Seq<char>) -> Seq<Seq<char>> {
    errs.filter(|e: Seq<char>| !starts_with(e, prefix))
}

pub fn clone_strings(v: &Vec<String>) -> (r: Vec<String>)
    ensures
        views(r@) == views(v@),
{
    let mut out: Vec<String> = Vec::new();
    let mut i: usize = 0;
    while i < v.len()
        invariant
            i <= v@.len(),
            views(out@) == views(v@).take(i as int),
        decreases v.len() - i,
    {
        let ghost prev = views(out@);
        out.push(v[i].clone());
        assert(views(out@) =~= prev.push(v@[i as int]@));
        assert(views(v@).take(i + 1) =~= views(v@).take(i as int).push(v@[i as int]@));
        i = i + 1;
    }
    assert(views(v@).take(v.len() as int) =~= views(v@));
    out
}

/// The application state the front end drives, without its widgets: the
/// library itself, what is derived from it, the search and category filter,
/// the open editor and prompts, the vault session and the warning banner.
/// The front end performs the writes that `snippets_save_due` and
/// `config_save_due` request and reports how they went.
pub struct Library {
    /// The full library; order is preserved and user-draggable.
    pub snippets: Vec<Snippet>,
    /// Cached search text and preview, one entry per snippet, same order.
    pub derived: Vec<Derived>,
    /// Bumped whenever `snippets` or `derived` change; invalidates the filter.
    pub generation: u64,
    pub filter: FilterCache,
    /// The id the next new snippet gets.
    pub next_id: u64,
    /// Sorted, deduplicated list of the known categories.
    pub categories: Vec<String>,
    pub search: String,
    /// "All" or one category.
    pub category_filter: String,
    pub theme: Theme,
    /// The stored theme name as it was read, kept when it names no theme.
    pub theme_raw: Option<String>,
    pub editor: Option<Editor>,
    /// The card that was just copied and when (milliseconds).
    pub copied: Option<(u64, u64)>,
    pub adding_header_category: bool,
    pub new_header_category: String,
    pub category_error: Option<String>,
    /// The warning banner, one message per entry.
    pub save_error: Vec<String>,
    pub vault: VaultState,
    /// The vault's salt and canary; `None` until the first protect.
    pub vault_meta: Option<VaultMeta>,
    pub vault_prompt: Option<VaultPrompt>,
    pub any_protected: bool,
    pub vault_work: Option<VaultWork>,
    pub vault_work_gen: u64,
    /// A corrupt snippet file that could not be backed up is never written over.
    pub refuse_snippets_overwrite: bool,
    /// A corrupt config file that could not be backed up is never written over.
    pub refuse_config_overwrite: bool,
    pub protected_copy: Option<ProtectedCopyGuard>,
    /// The snippet library must be written to disk.
    pub snippets_save_due: bool,
    /// The config must be written to disk.
    pub config_save_due: bool,
}

/// Some snippet in `ss` is protected.
pub open spec fn any_protected_in(ss: Seq<Snippet>) -> bool {
    exists|i: int| 0 <= i < ss.len() && (#[trigger] ss[i]).protection is Some
}

/// What requesting a snippet save does: a refused file gets its refusal in
/// the banner (once); otherwise the write becomes due.
pub open spec fn snippets_save_requested(a: Library, b: Library) -> bool {
    if a.refuse_snippets_overwrite {
        &&& views(b.save_error@) == pushed_once(
            views(a.save_error@),
            prefixed(SNIPPETS_SAVE_ERROR@, refusal("snippets.json"@)),
        )
        &&& b.snippets_save_due == a.snippets_save_due
    } else {
        &&& b.save_error == a.save_error
        &&& b.snippets_save_due
    }
}

/// What requesting a config save does, as `snippets_save_requested`.
pub open spec fn config_save_requested(a: Library, b: Library) -> bool {
    if a.refuse_config_overwrite {
        &&& views(b.save_error@) == pushed_once(
            views(a.save_error@),
            prefixed(CONFIG_SAVE_ERROR@, refusal("config.json"@)),
        )
        &&& b.config_save_due == a.config_save_due
    } else {
        &&& b.save_error == a.save_error
        &&& b.config_save_due
    }
}

impl Library {
    /// `derived` is index-aligned with `snippets` and up to date.
    pub open spec fn aligned(&self) -> bool {
        derived_all(self.derived@, self.snippets@)
    }

    /// The cards, in order, that pass the filter the cache recorded (its
    /// search and category) over the current library.
    pub open spec fn cached_filter_scan(&self) -> Seq<usize> {
        filtered_upto(
            self.snippets@,
            self.derived@,
            self.filter.category@,
            query_of(self.filter.search@),
            self.snippets@.len(),
        )
    }

    /// The cards, in order, that pass the current search and category filter.
    pub open spec fn fresh_filter(&self) -> Seq<usize> {
        filtered_upto(
            self.snippets@,
            self.derived@,
            self.category_filter@,
            query_of(self.search@),
            self.snippets@.len(),
        )
    }

    /// The search cache tells the truth: marked valid for the current
    /// generation, it holds exactly the cards its recorded search and
    /// category select from the current library.
    pub open spec fn filter_sound(&self) -> bool {
        self.filter.valid && self.filter.generation == self.generation ==> self.filter.indices@
            == self.cached_filter_scan()
    }

    /// Retires the banner entries reporting a failure of the kind that just
    /// succeeded, and no others.
    pub fn clear_save_error(&mut self, prefix: &str)
        ensures
            old(self).filter_sound() ==> final(self).filter_sound(),
            views(final(self).save_error@) == retired(views(old(self).save_error@), prefix@),
            *final(self) == (Library { save_error: final(self).save_error, ..*old(self) }),
    {
        let ghost es = views(self.save_error@);
        let mut kept: Vec<String> = Vec::new();
        let mut old_errs: Vec<String> = Vec::new();
        std::mem::swap(&mut old_errs, &mut self.save_error);
        assert(views(old_errs@) == es);
        let mut i: usize = 0;
        while i < old_errs.len()
            invariant
                i <= old_errs@.len(),
                views(old_errs@) == es,
                views(kept@) == retired(es.take(i as int), prefix@),
            decreases old_errs.len() - i,
        {
            proof {
                assert(es.take(i + 1) =~= es.take(i as int).push(es[i as int]));
                es.take(i as int).lemma_filter_push(
                    es[i as int],
                    |e: Seq<char>| !starts_with(e, prefix@),
                );
            }
            if !starts_with_str(old_errs[i].as_str(), prefix) {
                let ghost prev = views(kept@);
                kept.push(old_errs[i].clone());
                assert(views(kept@) =~= prev.push(es[i as int]));
            }
            i = i + 1;
        }
        assert(es.take(old_errs.len() as int) =~= es);
        self.save_error = kept;
    }

    /// Adds `message` to the banner unless an identical entry is already shown,
    /// so a repeated failure never grows duplicate entries.
    pub fn push_save_error_once(&mut self, message: String)
        ensures
            old(self).filter_sound() ==> final(self).filter_sound(),
            views(final(self).save_error@) == pushed_once(views(old(self).save_error@), message@),
            *final(self) == (Library { save_error: final(self).save_error, ..*old(self) }),
    {
        let ghost es = views(self.save_error@);
        let mut i: usize = 0;
        while i < self.save_error.len()
            invariant
                i <= self.save_error@.len(),
                es == views(self.save_error@),
                forall|j: int| 0 <= j < i ==> es[j] != message@,
            decreases self.save_error.len() - i,
        {
            if str_eq(self.save_error[i].as_str(), message.as_str()) {
                assert(es[i as int] == message@);
                return;
            }
            i = i + 1;
        }
        assert(!es.contains(message@));
        let ghost m = message@;
        self.save_error.push(message);
        assert(views(self.save_error@) =~= es.push(m));
    }

    /// Requests that the snippet library be written. A corrupt snippet file
    /// that could not be backed up is never written over: the refusal goes to
    /// the banner instead.
    pub fn save_snippets(&mut self)
        ensures
            old(self).filter_sound() ==> final(self).filter_sound(),
            snippets_save_requested(*old(self), *final(self)),
            *final(self) == (Library {
                save_error: final(self).save_error,
                snippets_save_due: final(self).snippets_save_due,
                ..*old(self)
            }),
    {
        if self.refuse_snippets_overwrite {
            let e = refuse_overwrite_error("snippets.json");
            let m = prefixed_message(SNIPPETS_SAVE_ERROR, e.as_str());
            self.push_save_error_once(m);
            return;
        }
        self.snippets_save_due = true;
    }

    /// Records how the requested snippet write went: success retires the
    /// snippet-save banner entry, failure reports it (once).
    pub fn snippets_saved(&mut self, outcome: Result<(), String>)
        ensures
            old(self).filter_sound() ==> final(self).filter_sound(),
            !final(self).snippets_save_due,
            match outcome {
                Ok(()) => views(final(self).save_error@) == retired(
                    views(old(self).save_error@),
                    SNIPPETS_SAVE_ERROR@,
                ),
                Err(e) => views(final(self).save_error@) == pushed_once(
                    views(old(self).save_error@),
                    prefixed(SNIPPETS_SAVE_ERROR@, e@),
                ),
            },
            *final(self) == (Library {
                save_error: final(self).save_error,
                snippets_save_due: false,
                ..*old(self)
            }),
    {
        self.snippets_save_due = false;
        match outcome {
            Ok(()) => self.clear_save_error(SNIPPETS_SAVE_ERROR),
            Err(e) => {
                let m = prefixed_message(SNIPPETS_SAVE_ERROR, e.as_str());
                self.push_save_error_once(m);
            },
        }
    }

    /// Requests that the config be written. A corrupt config file that could
    /// not be backed up is never written over: the refusal goes to the banner
    /// and comes back as the error.
    pub fn save_config(&mut self) -> (r: Result<(), String>)
        ensures
            old(self).filter_sound() ==> final(self).filter_sound(),
            config_save_requested(*old(self), *final(self)),
            old(self).refuse_config_overwrite <==> r is Err,
            r matches Err(e) ==> e@ == refusal("config.json"@),
            *final(self) == (Library {
                save_error: final(self).save_error,
                config_save_due: final(self).config_save_due,
                ..*old(self)
            }),
    {
        if self.refuse_config_overwrite {
            let e = refuse_overwrite_error("config.json");
            let m = prefixed_message(CONFIG_SAVE_ERROR, e.as_str());
            self.push_save_error_once(m);
            return Err(e);
        }
        self.config_save_due = true;
        Ok(())
    }

    /// Records how the requested config write went: success retires the
    /// settings-save banner entry; a failure is handed back to the caller.
    pub fn config_saved(&mut self, outcome: Result<(), String>) -> (r: Result<(), String>)
        ensures
            old(self).filter_sound() ==> final(self).filter_sound(),
            r == outcome,
            !final(self).config_save_due,
            match outcome {
                Ok(()) => views(final(self).save_error@) == retired(
                    views(old(self).save_error@),
                    CONFIG_SAVE_ERROR@,
                ),
                Err(_) => final(self).save_error == old(self).save_error,
            },
            *final(self) == (Library {
                save_error: final(self).save_error,
                config_save_due: false,
                ..*old(self)
            }),
    {
        self.config_save_due = false;
        if outcome.is_ok() {
            self.clear_save_error(CONFIG_SAVE_ERROR);
        }
        outcome
    }
}


/// `k` is the first index of a known category matching `c` (ignoring case).
pub open spec fn first_same(cats: Seq<Seq<char>>, c: Seq<char>, k: int) -> bool {
    0 <= k < cats.len() && same_cat(cats[k], c) && forall|j: int|
        0 <= j < k ==> !same_cat(#[trigger] cats[j], c)
}

/// What registering `raw` answers: the empty string for a reserved name, the
/// first known category matching it, or its normalized form.
pub open spec fn category_added(cats: Seq<Seq<char>>, raw: Seq<char>) -> Seq<char> {
    let c = normalized(raw);
    if reserved(c) {
        Seq::empty()
    } else if exists|k: int| first_same(cats, c, k) {
        cats[choose|k: int| first_same(cats, c, k)]
    } else {
        c
    }
}

/// The category list after registering `raw`.
pub open spec fn categories_after(cats: Seq<Seq<char>>, raw: Seq<char>) -> Seq<Seq<char>> {
    let c = normalized(raw);
    if reserved(c) || exists|k: int| 0 <= k < cats.len() && same_cat(#[trigger] cats[k], c) {
        cats
    } else {
        cats.push(c).sort_by(lex_leq())
    }
}

proof fn lemma_first_same_unique(cats: Seq<Seq<char>>, c: Seq<char>, a: int, b: int)
    requires
        first_same(cats, c, a),
        first_same(cats, c, b),
    ensures
        a == b,
{
    if a < b {
        assert(!same_cat(cats[a], c));
    } else if b < a {
        assert(!same_cat(cats[b], c));
    }
}

/// What search looks at in a card: for a non-empty query, the card matches
/// when the query occurs in the lowercased title, the lowercased category,
/// or, for a card that is not protected, the lowercased body.
pub proof fn lemma_search_text_is_the_lowercased_card(s: Snippet, d: Derived, q: Seq<char>)
    requires
        d.of(s),
        q.len() > 0,
    ensures
        d.matches_spec(q) <==> (has_substring(lowercase(s.title@), q) || has_substring(
            lowercase(s.category@),
            q,
        ) || (s.protection is None && has_substring(lowercase(s.body@), q))),
{
    if s.protection is Some {
        assert(!has_substring(d.body_lower@, q)) by {
            assert forall|i: int| !occurs_at(d.body_lower@, q, i) by {}
        }
    }
}

proof fn lemma_filtered_upto_members(
    ss: Seq<Snippet>,
    ds: Seq<Derived>,
    category: Seq<char>,
    q: Seq<char>,
    n: nat,
)
    requires
        n <= usize::MAX,
    ensures
        ({
            let r = filtered_upto(ss, ds, category, q, n);
            &&& forall|k: int| 0 <= k < r.len() ==> (r[k] as int) < n && shown(
                ss[r[k] as int],
                ds[r[k] as int],
                category,
                q,
            )
            &&& forall|i: int|
                0 <= i < n && shown(ss[i], ds[i], category, q) ==> r.contains(i as usize)
            &&& forall|j: int, k: int| 0 <= j < k < r.len() ==> r[j] < r[k]
        }),
    decreases n,
{
    if n > 0 {
        let m = (n - 1) as nat;
        lemma_filtered_upto_members(ss, ds, category, q, m);
        let prev = filtered_upto(ss, ds, category, q, m);
        let r = filtered_upto(ss, ds, category, q, n);
        if shown(ss[m as int], ds[m as int], category, q) {
            assert(r == prev.push(m as usize));
            assert forall|i: int|
                0 <= i < n && shown(ss[i], ds[i], category, q) implies r.contains(i as usize) by {
                if i < m {
                    let k = choose|k: int| 0 <= k < prev.len() && prev[k] == i as usize;
                    assert(r[k] == i as usize);
                } else {
                    assert(r[prev.len() as int] == i as usize);
                }
            }
        }
    }
}

/// The visible cards are exactly the cards in the selected category (any
/// card when "All" is selected) that match the query, the trimmed and
/// lowercased search text, in library order. A card matches an empty query;
/// a non-empty one must occur in its lowercased title, category or (when it
/// is not protected) body.
pub proof fn lemma_visible_cards_are_the_category_and_query_matches(lib: Library)
    requires
        lib.aligned(),
    ensures
        ({
            let r = lib.fresh_filter();
            let ss = lib.snippets@;
            let q = lowercase(trim(lib.search@));
            &&& forall|k: int| 0 <= k < r.len() ==> (r[k] as int) < ss.len()
            &&& forall|j: int, k: int| 0 <= j < k < r.len() ==> r[j] < r[k]
            &&& forall|i: int|
                0 <= i < ss.len() ==> (r.contains(i as usize) <==> ((lib.category_filter@
                    == all_chars() || ss[i].category@ == lib.category_filter@) && (q.len() == 0
                    || has_substring(lowercase(ss[i].title@), q) || has_substring(
                    lowercase(ss[i].category@),
                    q,
                ) || (ss[i].protection is None && has_substring(lowercase(ss[i].body@), q)))))
        }),
{
    let ss = lib.snippets@;
    let ds = lib.derived@;
    let q = query_of(lib.search@);
    let cat = lib.category_filter@;
    assert(ss.len() == lib.snippets.len());
    lemma_filtered_upto_members(ss, ds, cat, q, ss.len());
    let r = lib.fresh_filter();
    assert forall|i: int| 0 <= i < ss.len() implies (r.contains(i as usize) <==> shown(
        ss[i],
        ds[i],
        cat,
        q,
    )) by {
        if r.contains(i as usize) {
            let k = choose|k: int| 0 <= k < r.len() && r[k] == i as usize;
            assert(r[k] as int == i);
        }
    }
    assert forall|i: int| 0 <= i < ss.len() && q.len() > 0 implies (ds[i].matches_spec(q) <==> (
    has_substring(lowercase(ss[i].title@), q) || has_substring(lowercase(ss[i].category@), q) || (
    ss[i].protection is None && has_substring(lowercase(ss[i].body@), q)))) by {
        assert(ds[i].of(ss[i]));
        lemma_search_text_is_the_lowercased_card(ss[i], ds[i], q);
    }
}

/// A sound cache that is current for the search, the category and the
/// generation holds exactly the cards a fresh scan would show.
pub proof fn lemma_current_cache_is_a_fresh_scan(lib: Library)
    requires
        lib.filter_sound(),
        cache_current(lib.filter, lib.search@, lib.category_filter@, lib.generation),
    ensures
        lib.filter.indices@ == lib.fresh_filter(),
{
}

/// The generation after a change (`wrapping_add(1)`).
pub open spec fn bumped(g: u64) -> u64 {
    if g == u64::MAX {
        0
    } else {
        (g + 1) as u64
    }
}

/// The cached indices still describe these inputs.
pub open spec fn cache_current(f: FilterCache, search: Seq<char>, category: Seq<char>, gen: u64) -> bool {
    f.valid && f.generation == gen && f.search@ == search && f.category@ == category
}

/// The theme name the config stores: the selected theme's name, except that
/// a stored name that names no theme is kept as it was read.
pub open spec fn theme_string(theme: Theme, raw: Option<String>) -> Seq<char> {
    match raw {
        Some(r) => if theme_for(r@) is None {
            r@
        } else {
            name_spec(theme)
        },
        None => name_spec(theme),
    }
}

/// The search text trimmed, then lowercased.
pub fn search_query(search: &str) -> (r: String)
    ensures
        r@ == query_of(search@),
{
    let cs = chars_of(search);
    let t = trim_chars(&cs);
    let ts = string_of(&t);
    to_lowercase(ts.as_str())
}

impl Library {
    /// Recomputes the derived text of every snippet and invalidates the
    /// filter cache; keeps `derived` index-aligned with `snippets`.
    pub fn rebuild_derived(&mut self)
        ensures
            final(self).filter_sound(),
            final(self).aligned(),
            final(self).any_protected == any_protected_in(old(self).snippets@),
            *final(self) == (Library {
                derived: final(self).derived,
                any_protected: final(self).any_protected,
                generation: bumped(old(self).generation),
                filter: FilterCache { valid: false, ..old(self).filter },
                ..*old(self)
            }),
    {
        let mut ds: Vec<Derived> = Vec::new();
        let mut any = false;
        let mut i: usize = 0;
        while i < self.snippets.len()
            invariant
                i <= self.snippets@.len(),
                ds@.len() == i,
                forall|k: int| 0 <= k < i ==> (#[trigger] ds@[k]).of(self.snippets@[k]),
                any <==> exists|k: int| 0 <= k < i && (#[trigger] self.snippets@[k]).protection is Some,
            decreases self.snippets.len() - i,
        {
            let d = Derived::new(&self.snippets[i]);
            ds.push(d);
            if self.snippets[i].protection.is_some() {
                any = true;
            }
            i = i + 1;
        }
        self.derived = ds;
        self.any_protected = any;
        self.generation = self.generation.wrapping_add(1);
        self.filter.valid = false;
    }

    /// The single entry point for "the library changed": refreshes the
    /// derived text and requests a save.
    pub fn snippets_changed(&mut self)
        ensures
            final(self).filter_sound(),
            final(self).aligned(),
            final(self).any_protected == any_protected_in(old(self).snippets@),
            snippets_save_requested(*old(self), *final(self)),
            *final(self) == (Library {
                derived: final(self).derived,
                any_protected: final(self).any_protected,
                generation: bumped(old(self).generation),
                filter: FilterCache { valid: false, ..old(self).filter },
                save_error: final(self).save_error,
                snippets_save_due: final(self).snippets_save_due,
                ..*old(self)
            }),
    {
        self.rebuild_derived();
        self.save_snippets();
    }

    /// The indices of the cards visible under the current search and category
    /// filter, recomputed only when the query, the category or the library
    /// changed. The buffer is handed out until `restore_filtered` puts it back;
    /// meanwhile the cache is not trusted, so taking it twice recomputes.
    pub fn take_filtered(&mut self) -> (r: Vec<usize>)
        requires
            old(self).derived@.len() == old(self).snippets@.len(),
        ensures
            cache_current(old(self).filter, old(self).search@, old(self).category_filter@, old(self).generation)
                ==> r@ == old(self).filter.indices@ && final(self).filter == (FilterCache {
                indices: final(self).filter.indices,
                valid: false,
                ..old(self).filter
            }),
            !cache_current(old(self).filter, old(self).search@, old(self).category_filter@, old(self).generation)
                ==> r@ == filtered_upto(
                old(self).snippets@,
                old(self).derived@,
                old(self).category_filter@,
                query_of(old(self).search@),
                old(self).snippets@.len(),
            ) && final(self).filter.search@ == old(self).search@ && final(self).filter.category@
                == old(self).category_filter@ && final(self).filter.generation == old(self).generation
                && !final(self).filter.valid,
            final(self).filter.indices@.len() == 0,
            *final(self) == (Library { filter: final(self).filter, ..*old(self) }),
            old(self).filter_sound() ==> r@ == old(self).fresh_filter(),
            final(self).filter.search@ == old(self).search@,
            final(self).filter.category@ == old(self).category_filter@,
            final(self).filter.generation == old(self).generation,
            final(self).filter_sound(),
    {
        if !self.filter.is_current(self.search.as_str(), self.category_filter.as_str(), self.generation) {
            let query = search_query(self.search.as_str());
            let all = str_eq(self.category_filter.as_str(), "All");
            proof {
                reveal_strlit("All");
                assert("All"@ =~= all_chars());
            }
            let ghost q = query@;
            let ghost ss = self.snippets@;
            let ghost ds = self.derived@;
            let ghost cat = self.category_filter@;
            let mut indices: Vec<usize> = Vec::new();
            let mut i: usize = 0;
            while i < self.derived.len()
                invariant
                    i <= self.derived@.len(),
                    self.derived@.len() == self.snippets@.len(),
                    ss == self.snippets@,
                    ds == self.derived@,
                    cat == self.category_filter@,
                    q == query@,
                    all == (cat == all_chars()),
                    indices@ == filtered_upto(ss, ds, cat, q, i as nat),
                decreases self.derived.len() - i,
            {
                let in_category = all || str_eq(
                    self.snippets[i].category.as_str(),
                    self.category_filter.as_str(),
                );
                if in_category && (query.as_str().is_empty() || self.derived[i].matches(
                    query.as_str(),
                )) {
                    indices.push(i);
                }
                i = i + 1;
            }
            self.filter.indices = indices;
            self.filter.search = self.search.clone();
            self.filter.category = self.category_filter.clone();
            self.filter.generation = self.generation;
        }
        self.filter.valid = false;
        let mut out: Vec<usize> = Vec::new();
        std::mem::swap(&mut out, &mut self.filter.indices);
        out
    }

    /// Puts back the buffer handed out by `take_filtered` (the cards its
    /// recorded inputs select, unless the library changed since); it is
    /// trusted again, subject to `is_current`'s check of the inputs.
    pub fn restore_filtered(&mut self, filtered: Vec<usize>)
        requires
            old(self).filter.generation == old(self).generation ==> filtered@ == old(
                self,
            ).cached_filter_scan(),
        ensures
            final(self).filter_sound(),
            final(self).filter == (FilterCache { indices: filtered, valid: true, ..old(self).filter }),
            *final(self) == (Library { filter: final(self).filter, ..*old(self) }),
    {
        self.filter.indices = filtered;
        self.filter.valid = true;
    }

    /// The config to write: the categories, the theme name (a stored name
    /// that names no theme is kept as read) and the vault metadata.
    pub fn config_to_save(&self) -> (r: Config)
        ensures
            views(r.categories@) == views(self.categories@),
            r.theme@ == theme_string(self.theme, self.theme_raw),
            r.vault == self.vault_meta,
    {
        let theme = match &self.theme_raw {
            Some(raw) => {
                if Theme::from_name(raw.as_str()).is_none() {
                    raw.clone()
                } else {
                    String::from_str(self.theme.name())
                }
            },
            None => String::from_str(self.theme.name()),
        };
        let vault = match &self.vault_meta {
            Some(m) => Some(m.clone()),
            None => None,
        };
        Config { categories: clone_strings(&self.categories), theme, vault }
    }

    /// Before a config write: a vault that exists on disk but not in memory
    /// is kept, so the write cannot drop it.
    pub fn adopt_disk_vault(&mut self, disk: Option<VaultMeta>)
        ensures
            old(self).filter_sound() ==> final(self).filter_sound(),
            final(self).vault_meta == (if old(self).vault_meta is None {
                disk
            } else {
                old(self).vault_meta
            }),
            *final(self) == (Library { vault_meta: final(self).vault_meta, ..*old(self) }),
    {
        if self.vault_meta.is_none() && disk.is_some() {
            self.vault_meta = disk;
        }
    }

    /// Clears the inline category warning once the input changed, so it
    /// doesn't linger while the user corrects it.
    pub fn clear_category_error_on_input_change(&mut self, previous: &str)
        ensures
            old(self).filter_sound() ==> final(self).filter_sound(),
            final(self).category_error == (if old(self).new_header_category@ != previous@ {
                None
            } else {
                old(self).category_error
            }),
            *final(self) == (Library { category_error: final(self).category_error, ..*old(self) }),
    {
        if !str_eq(self.new_header_category.as_str(), previous) {
            self.category_error = None;
        }
    }

    /// Normalizes `raw` and registers it unless it is reserved or already
    /// known (ignoring case); returns the canonical name, the known name it
    /// matched, or the empty string for a reserved name. Registering keeps
    /// the list sorted and requests a config save.
    pub fn add_category(&mut self, raw: &str) -> (r: String)
        ensures
            old(self).filter_sound() ==> final(self).filter_sound(),
            ({
                let c = normalized(raw@);
                let cats = views(old(self).categories@);
                if reserved(c) {
                    r@.len() == 0 && *final(self) == *old(self)
                } else if exists|k: int| 0 <= k < cats.len() && same_cat(#[trigger] cats[k], c) {
                    (exists|k: int|
                        0 <= k < cats.len() && same_cat(#[trigger] cats[k], c) && r@ == cats[k]
                            && forall|j: int| 0 <= j < k ==> !same_cat(#[trigger] cats[j], c))
                        && *final(self) == *old(self)
                } else {
                    &&& r@ == c
                    &&& views(final(self).categories@) == cats.push(c).sort_by(lex_leq())
                    &&& config_save_requested(*old(self), *final(self))
                    &&& *final(self) == (Library {
                        categories: final(self).categories,
                        save_error: final(self).save_error,
                        config_save_due: final(self).config_save_due,
                        ..*old(self)
                    })
                }
            }),
            r@ == category_added(views(old(self).categories@), raw@),
            views(final(self).categories@) == categories_after(views(old(self).categories@), raw@),
    {
        let cat = normalize_category(raw);
        if is_reserved_category(cat.as_str()) {
            return String::new();
        }
        let ghost cats = views(self.categories@);
        let mut k: usize = 0;
        while k < self.categories.len()
            invariant
                k <= self.categories@.len(),
                *self == *old(self),
                cats == views(old(self).categories@),
                cat@ == normalized(raw@),
                !reserved(cat@),
                forall|j: int| 0 <= j < k ==> !same_cat(#[trigger] cats[j], cat@),
            decreases self.categories.len() - k,
        {
            if same_category(self.categories[k].as_str(), cat.as_str()) {
                let found = self.categories[k].clone();
                assert(same_cat(cats[k as int], cat@) && found@ == cats[k as int]);
                assert(forall|j: int| 0 <= j < k ==> !same_cat(#[trigger] cats[j], cat@));
                proof {
                    assert(first_same(cats, cat@, k as int));
                    let w = choose|w: int| first_same(cats, cat@, w);
                    lemma_first_same_unique(cats, cat@, k as int, w);
                }
                return found;
            }
            k = k + 1;
        }
        assert(!exists|k: int| first_same(cats, cat@, k));
        let mut cs: Vec<String> = Vec::new();
        std::mem::swap(&mut cs, &mut self.categories);
        cs.push(cat.clone());
        assert(views(cs@) =~= cats.push(cat@));
        self.categories = sort_strings(cs);
        let _ = self.save_config();
        cat
    }
}

impl Library {
    /// Records how the launch-time config write went: a failure is reported
    /// in the banner (nothing else can have reported it yet).
    pub fn startup_config_saved(&mut self, outcome: Result<(), String>)
        ensures
            old(self).filter_sound() ==> final(self).filter_sound(),
            !final(self).config_save_due,
            match outcome {
                Ok(()) => final(self).save_error == old(self).save_error,
                Err(e) => views(final(self).save_error@) == views(old(self).save_error@).push(
                    prefixed(CONFIG_SAVE_ERROR@, e@),
                ),
            },
            *final(self) == (Library {
                save_error: final(self).save_error,
                config_save_due: false,
                ..*old(self)
            }),
    {
        self.config_save_due = false;
        match outcome {
            Ok(()) => {},
            Err(e) => {
                let m = prefixed_message(CONFIG_SAVE_ERROR, e.as_str());
                let ghost es = views(self.save_error@);
                let ghost mv = m@;
                self.save_error.push(m);
                assert(views(self.save_error@) =~= es.push(mv));
            },
        }
    }

    /// What the grid says when no card is shown: an empty library (no
    /// search, no category filter) invites a first snippet; otherwise nothing
    /// matched.
    pub fn empty_grid_message(&self) -> (r: &'static str)
        ensures
            (self.snippets@.len() == 0 && self.search@.len() == 0 && self.category_filter@
                == "All"@) ==> r@ == "Your library is empty. Click \"+ New\" to add your first snippet."@,
            !(self.snippets@.len() == 0 && self.search@.len() == 0 && self.category_filter@
                == "All"@) ==> r@ == "No snippets match your search or filter."@,
    {
        if self.snippets.len() == 0 && self.search.as_str().unicode_len() == 0 && str_eq(
            self.category_filter.as_str(),
            "All",
        ) {
            "Your library is empty. Click \"+ New\" to add your first snippet."
        } else {
            "No snippets match your search or filter."
        }
    }

    /// The recovery-mode notice shown while a blocked data file is never
    /// written: which files, what that means, and what to do.
    pub fn recovery_notice(&self) -> (r: Option<String>)
        ensures
            r is None <==> !self.refuse_snippets_overwrite && !self.refuse_config_overwrite,
            r matches Some(m) ==> m@ == recovery_text(
                self.refuse_snippets_overwrite,
                self.refuse_config_overwrite,
            ),
    {
        if !self.refuse_snippets_overwrite && !self.refuse_config_overwrite {
            return None;
        }
        let mut m = String::from_str("\u{26D4} Recovery mode:");
        if self.refuse_snippets_overwrite {
            m.append(
                " snippets.json couldn't be backed up while corrupt, so it was left untouched \u{2014} the cards below are a fallback library and changes to them are NOT saved.",
            );
        }
        if self.refuse_config_overwrite {
            if self.refuse_snippets_overwrite {
                m.append(" Also:");
            }
            m.append(
                " config.json couldn't be backed up while corrupt, so it was left untouched \u{2014} theme/category/vault changes will revert on restart.",
            );
        }
        m.append(" Copy the file elsewhere, fix or remove it, then restart CopyIt.");
        Some(m)
    }
}

/// The recovery-mode notice for the blocked files.
pub open spec fn recovery_text(snippets_blocked: bool, config_blocked: bool) -> Seq<char> {
    "\u{26D4} Recovery mode:"@ + (if snippets_blocked {
        " snippets.json couldn't be backed up while corrupt, so it was left untouched \u{2014} the cards below are a fallback library and changes to them are NOT saved."@
    } else {
        Seq::empty()
    }) + (if config_blocked {
        (if snippets_blocked {
            " Also:"@
        } else {
            Seq::empty()
        }) + " config.json couldn't be backed up while corrupt, so it was left untouched \u{2014} theme/category/vault changes will revert on restart."@
    } else {
        Seq::empty()
    }) + " Copy the file elsewhere, fix or remove it, then restart CopyIt."@
}

/// Repeated failures never grow duplicate banner entries: reporting the
/// same message again leaves the banner as it was, and the message is shown.
pub proof fn lemma_banner_reports_once(errs: Seq<Seq<char>>, m: Seq<char>)
    ensures
        pushed_once(pushed_once(errs, m), m) == pushed_once(errs, m),
        pushed_once(errs, m).contains(m),
{
    if !errs.contains(m) {
        assert(errs.push(m)[errs.len() as int] == m);
    }
}

/// A successful save retires exactly the entries of its own kind: every
/// entry that does not start with the prefix stays, and none that does.
pub proof fn lemma_retiring_keeps_other_entries(errs: Seq<Seq<char>>, prefix: Seq<char>)
    ensures
        forall|i: int|
            0 <= i < errs.len() && !starts_with(errs[i], prefix) ==> #[trigger] retired(
                errs,
                prefix,
            ).contains(errs[i]),
        forall|e: Seq<char>| #[trigger]
            retired(errs, prefix).contains(e) ==> errs.contains(e) && !starts_with(e, prefix),
{
    broadcast use vstd::seq_lib::group_filter_ensures;

    assert forall|i: int|
        0 <= i < errs.len() && !starts_with(errs[i], prefix) implies #[trigger] retired(
            errs,
            prefix,
        ).contains(errs[i]) by {
        errs.lemma_filter_contains(|e: Seq<char>| !starts_with(e, prefix), i);
    }
    assert forall|e: Seq<char>| #[trigger]
        retired(errs, prefix).contains(e) implies errs.contains(e) && !starts_with(e, prefix) by {
        errs.lemma_filter_contains_rev(|e: Seq<char>| !starts_with(e, prefix), e);
        let k = choose|k: int| 0 <= k < retired(errs, prefix).len() && retired(errs, prefix)[k] == e;
        assert((|e: Seq<char>| !starts_with(e, prefix))(retired(errs, prefix)[k]));
    }
}

/// A protected card's body never enters search, and its preview shows only
/// the hint: a non-empty query matches it only through its title or
/// category, and its preview is the same whatever its body field holds.
pub proof fn lemma_protected_card_stays_masked(s: Snippet, d: Derived, q: Seq<char>)
    requires
        d.of(s),
        s.protection is Some,
        q.len() > 0,
    ensures
        d.matches_spec(q) == (has_substring(d.title_lower@, q) || has_substring(
            d.category_lower@,
            q,
        )),
        d.preview@ == s.protection->0.hint@ + bullets(),
{
    assert(!has_substring(d.body_lower@, q)) by {
        assert forall|i: int| !occurs_at(d.body_lower@, q, i) by {}
    }
}

/// A data file that is blocked (corrupt and not moved aside) is never
/// written: no request to save it ever makes its write due.
pub proof fn lemma_blocked_files_stay_unwritten(a: Library, b: Library)
    ensures
        snippets_save_requested(a, b) && a.refuse_snippets_overwrite && !a.snippets_save_due
            ==> !b.snippets_save_due,
        config_save_requested(a, b) && a.refuse_config_overwrite && !a.config_save_due
            ==> !b.config_save_due,
{
}

/// Every name in the list is usable (not reserved) and no two names match
/// ignoring case.
pub open spec fn clean_categories(cats: Seq<Seq<char>>) -> bool {
    &&& forall|i: int| 0 <= i < cats.len() ==> !reserved(#[trigger] cats[i])
    &&& forall|i: int, j: int|
        0 <= i < cats.len() && 0 <= j < cats.len() && i != j ==> !same_cat(
            #[trigger] cats[i],
            #[trigger] cats[j],
        )
}

proof fn lemma_admit_all_clean(cats: Seq<Seq<char>>, raws: Seq<Seq<char>>)
    requires
        clean_categories(cats),
    ensures
        clean_categories(admit_all(cats, raws)),
    decreases raws.len(),
{
    if raws.len() > 0 {
        lemma_admit_all_clean(cats, raws.drop_last());
        let acc = admit_all(cats, raws.drop_last());
        let c = normalized(raws.last());
        if !(reserved(c) || (exists|k: int| 0 <= k < acc.len() && same_cat(#[trigger] acc[k], c))) {
            let r = acc.push(c);
            assert forall|i: int, j: int|
                0 <= i < r.len() && 0 <= j < r.len() && i != j implies !same_cat(
                    #[trigger] r[i],
                    #[trigger] r[j],
                ) by {
                if i == acc.len() {
                    assert(!same_cat(acc[j], c));
                } else if j == acc.len() {
                    assert(!same_cat(acc[i], c));
                } else {
                    assert(r[i] == acc[i] && r[j] == acc[j]);
                }
            }
        }
    }
}

proof fn lemma_sorted_clean(cats: Seq<Seq<char>>)
    requires
        clean_categories(cats),
    ensures
        clean_categories(cats.sort_by(lex_leq())),
{
    broadcast use vstd::seq_lib::group_to_multiset_ensures;
    broadcast use vstd::multiset::group_multiset_axioms;

    crate::order::lemma_lex_total_ordering();
    cats.lemma_sort_by_ensures(lex_leq());
    let r = cats.sort_by(lex_leq());
    assert(cats.no_duplicates()) by {
        assert forall|i: int, j: int|
            0 <= i < cats.len() && 0 <= j < cats.len() && i != j implies cats[i] != cats[j] by {
            assert(!same_cat(cats[i], cats[j]));
        }
    }
    cats.lemma_multiset_has_no_duplicates();
    assert forall|x: Seq<char>| r.to_multiset().contains(x) implies r.to_multiset().count(x)
        == 1 by {
        assert(cats.to_multiset().count(x) == r.to_multiset().count(x));
    }
    r.lemma_multiset_has_no_duplicates_conv();
    assert forall|i: int| 0 <= i < r.len() implies !reserved(#[trigger] r[i]) by {
        assert(r.contains(r[i]));
        assert(r.to_multiset().count(r[i]) > 0);
        assert(cats.to_multiset().count(r[i]) > 0);
        assert(cats.contains(r[i]));
    }
    assert forall|i: int, j: int|
        0 <= i < r.len() && 0 <= j < r.len() && i != j implies !same_cat(
            #[trigger] r[i],
            #[trigger] r[j],
        ) by {
        assert(r.contains(r[i]) && r.contains(r[j]));
        assert(r.to_multiset().count(r[i]) > 0 && r.to_multiset().count(r[j]) > 0);
        assert(cats.contains(r[i]) && cats.contains(r[j]));
        let p = choose|p: int| 0 <= p < cats.len() && cats[p] == r[i];
        let q = choose|q: int| 0 <= q < cats.len() && cats[q] == r[j];
        assert(r[i] != r[j]);
        assert(p != q);
    }
}

/// Every entry admitted beyond the starting list is the normalized form of
/// one of the names.
proof fn lemma_admit_all_origin(cats: Seq<Seq<char>>, raws: Seq<Seq<char>>)
    ensures
        forall|i: int|
            cats.len() <= i < admit_all(cats, raws).len() ==> exists|k: int|
                0 <= k < raws.len() && #[trigger] admit_all(cats, raws)[i] == normalized(raws[k]),
    decreases raws.len(),
{
    if raws.len() > 0 {
        let prev = raws.drop_last();
        lemma_admit_all_origin(cats, prev);
        let acc = admit_all(cats, prev);
        let r = admit_all(cats, raws);
        assert forall|i: int| cats.len() <= i < r.len() implies exists|k: int|
            0 <= k < raws.len() && #[trigger] r[i] == normalized(raws[k]) by {
            if i < acc.len() {
                assert(r[i] == acc[i]);
                let k = choose|k: int| 0 <= k < prev.len() && #[trigger] acc[i] == normalized(prev[k]);
                assert(prev[k] == raws[k]);
            } else {
                assert(r[i] == normalized(raws[raws.len() - 1]));
            }
        }
    }
}

/// Every name ends up present (ignoring case) in the admitted list, unless
/// it is reserved.
proof fn lemma_admit_all_present(cats: Seq<Seq<char>>, raws: Seq<Seq<char>>)
    ensures
        forall|k: int|
            0 <= k < raws.len() ==> reserved(normalized(#[trigger] raws[k])) || exists|i: int|
                0 <= i < admit_all(cats, raws).len() && same_cat(
                    admit_all(cats, raws)[i],
                    normalized(raws[k]),
                ),
    decreases raws.len(),
{
    if raws.len() > 0 {
        let prev = raws.drop_last();
        lemma_admit_all_present(cats, prev);
        let acc = admit_all(cats, prev);
        let r = admit_all(cats, raws);
        assert forall|k: int| 0 <= k < raws.len() && !reserved(normalized(#[trigger] raws[k]))
            implies exists|i: int| 0 <= i < r.len() && same_cat(r[i], normalized(raws[k])) by {
            if k < prev.len() {
                assert(prev[k] == raws[k]);
                let i = choose|i: int| 0 <= i < acc.len() && same_cat(acc[i], normalized(prev[k]));
                assert(r[i] == acc[i]);
            } else {
                let c = normalized(raws.last());
                if exists|j: int| 0 <= j < acc.len() && same_cat(#[trigger] acc[j], c) {
                    let j = choose|j: int| 0 <= j < acc.len() && same_cat(#[trigger] acc[j], c);
                    assert(r[j] == acc[j]);
                } else {
                    assert(r[acc.len() as int] == c);
                }
            }
        }
    }
}

/// Adding names to a sorted, clean category list (no reserved name, no two
/// names matching ignoring case) leaves it sorted and clean. It keeps every
/// name it had, each name it gains is the normalized form of an added name,
/// and every added name is present afterwards (ignoring case) unless it is
/// reserved.
pub proof fn lemma_adding_categories_keeps_the_list_clean(
    cats: Seq<Seq<char>>,
    raws: Seq<Seq<char>>,
)
    requires
        clean_categories(cats),
        sorted_by(cats, lex_leq()),
    ensures
        ({
            let r = categories_after_adding(cats, raws);
            &&& clean_categories(r)
            &&& sorted_by(r, lex_leq())
            &&& forall|i: int| 0 <= i < cats.len() ==> r.contains(#[trigger] cats[i])
            &&& forall|i: int|
                0 <= i < r.len() ==> cats.contains(#[trigger] r[i]) || exists|k: int|
                    0 <= k < raws.len() && r[i] == normalized(raws[k])
            &&& forall|k: int|
                0 <= k < raws.len() ==> reserved(normalized(#[trigger] raws[k])) || exists|i: int|
                    0 <= i < r.len() && same_cat(r[i], normalized(raws[k]))
        }),
{
    broadcast use vstd::seq_lib::group_to_multiset_ensures;

    crate::order::lemma_lex_total_ordering();
    lemma_admit_all_grows(cats, raws);
    lemma_admit_all_clean(cats, raws);
    lemma_admit_all_origin(cats, raws);
    lemma_admit_all_present(cats, raws);
    let added = admit_all(cats, raws);
    let r = categories_after_adding(cats, raws);
    if added.len() == cats.len() {
        assert(added =~= added.subrange(0, cats.len() as int));
        assert forall|i: int| 0 <= i < cats.len() implies r.contains(#[trigger] cats[i]) by {
            assert(r[i] == cats[i]);
        }
        assert forall|i: int| 0 <= i < r.len() implies cats.contains(#[trigger] r[i]) by {
            assert(cats[i] == r[i]);
        }
    } else {
        added.lemma_sort_by_ensures(lex_leq());
        lemma_sorted_clean(added);
        assert forall|i: int| 0 <= i < cats.len() implies r.contains(#[trigger] cats[i]) by {
            assert(added[i] == cats[i]);
            assert(added.to_multiset().count(cats[i]) > 0);
            assert(r.to_multiset().count(cats[i]) > 0);
        }
        assert forall|i: int| 0 <= i < r.len() implies cats.contains(#[trigger] r[i]) || exists|
            k: int,
        | 0 <= k < raws.len() && r[i] == normalized(raws[k]) by {
            assert(r.to_multiset().count(r[i]) > 0);
            assert(added.to_multiset().count(r[i]) > 0);
            assert(added.contains(r[i]));
            let j = choose|j: int| 0 <= j < added.len() && added[j] == r[i];
            if j < cats.len() {
                assert(cats[j] == added[j]);
            } else {
                assert(exists|k: int| 0 <= k < raws.len() && #[trigger] added[j] == normalized(raws[k]));
            }
        }
        assert forall|k: int| 0 <= k < raws.len() && !reserved(normalized(#[trigger] raws[k]))
            implies exists|i: int| 0 <= i < r.len() && same_cat(r[i], normalized(raws[k])) by {
            let j = choose|j: int| 0 <= j < added.len() && same_cat(added[j], normalized(raws[k]));
            assert(added.to_multiset().count(added[j]) > 0);
            assert(r.to_multiset().count(added[j]) > 0);
            assert(r.contains(added[j]));
            let i = choose|i: int| 0 <= i < r.len() && r[i] == added[j];
            assert(same_cat(r[i], normalized(raws[k])));
        }
    }
}

/// A sanitized category list is clean: no reserved name (so no entry can
/// pass for the "All" filter) and no two names that match ignoring case.
pub proof fn lemma_sanitized_categories_are_clean(cats: Seq<Seq<char>>)
    ensures
        clean_categories(sanitized(cats)),
{
    lemma_admit_all_clean(Seq::empty(), cats);
    lemma_sorted_clean(admit_all(Seq::empty(), cats));
}

} // verus!
