//! Changes to the library: registering a category from the editor, deleting
//! and reordering snippets, and saving the editor.
use vstd::prelude::*;

use crate::editor::{Editor, EditorOutcome};
use crate::library::{
    first_same, categories_after, category_added, snippets_save_requested, Derived, FilterCache,
    Library,
};
use crate::model::Snippet;
use crate::order::{lex_leq, views};
use crate::storage::{normalized, reserved, same_cat};
use crate::library::{any_protected_in, bumped};
use crate::ids::{distinct_ids, has_id, lemma_fresh_id_is_unused, next_id, next_snippet_id};
use crate::library::{
    config_save_requested, prefixed, pushed_once, refusal, CONFIG_SAVE_ERROR, SNIPPETS_SAVE_ERROR,
};
use crate::model::Protection;
use crate::session::{fresh_prompt, PendingVaultAction, VaultPrompt, VaultPromptMode};
use crate::text::{
    ascii_lower, chars_of, decimal, eq_ignore_ascii_case, str_eq, string_of, trim, trim_chars,
    u64_to_decimal,
};
use crate::theme::Theme;
use crate::vault::{body_outcome, encrypt_body, encryptable, hint_spec, VaultError, VaultErrorKind, VaultState};
use vstd::utf8::encode_utf8;

verus! {

/// The error the inline category form shows for a name it refused.
pub open spec fn category_refusal(name: Seq<char>) -> Seq<char> {
    if trim(name).len() == 0 {
        "Category can't be blank"@
    } else {
        "\"All\" is reserved and can't be used as a category"@
    }
}

/// `k` is the first index of a snippet with id `id`.
pub open spec fn first_with_id(ss: Seq<Snippet>, id: u64, k: int) -> bool {
    0 <= k < ss.len() && ss[k].id == id && forall|j: int| 0 <= j < k ==> (#[trigger] ss[j]).id != id
}

/// Where a dragged card lands in the full list (after its removal from
/// position `origin`, with `n` cards left): the gap `gap` of the visible
/// cards `filtered` is turned into an absolute index, shifted down by one
/// when it lay after the origin, clamped to the list.
pub open spec fn drop_target(origin: int, gap: int, filtered: Seq<usize>, n: int) -> int {
    let base = if gap < filtered.len() {
        filtered[gap] as int
    } else {
        filtered.last() as int
    };
    let adjusted = if base > origin {
        base - 1
    } else {
        base
    };
    let t = if gap < filtered.len() {
        adjusted
    } else {
        adjusted + 1
    };
    if t < n {
        t
    } else {
        n
    }
}

/// `x` moved from `origin` to `target`.
pub open spec fn moved<A>(s: Seq<A>, origin: int, target: int) -> Seq<A> {
    s.remove(origin).insert(target, s[origin])
}

/// Dropping a card into a gap of the visible cards puts it right where it was
/// dropped. With the dragged card at `origin` and the visible cards at the
/// (valid) indices `filtered`: dropped into gap `gap` before the visible card
/// at `filtered[gap]`, it ends up immediately before that card; dropped past
/// the last visible card, it ends up immediately after it. Every other card
/// keeps its relative order, and dropping a card onto its own place changes
/// nothing.
pub proof fn lemma_dropped_card_lands_in_its_gap<A>(
    ss: Seq<A>,
    origin: int,
    gap: int,
    filtered: Seq<usize>,
)
    requires
        0 <= origin < ss.len(),
        0 <= gap,
        filtered.len() > 0,
        forall|k: int| 0 <= k < filtered.len() ==> (#[trigger] filtered[k] as int) < ss.len(),
    ensures
        ({
            let r = moved(ss, origin, drop_target(origin, gap, filtered, ss.len() - 1));
            &&& r.len() == ss.len()
            &&& gap < filtered.len() && filtered[gap] as int != origin ==> exists|p: int|
                0 <= p && p + 1 < r.len() && r[p] == ss[origin] && r.remove(p) == ss.remove(origin)
                    && r[p + 1] == ss[filtered[gap] as int]
            &&& gap >= filtered.len() && filtered.last() as int != origin ==> exists|p: int|
                1 <= p < r.len() && r[p] == ss[origin] && r.remove(p) == ss.remove(origin) && r[p
                    - 1] == ss[filtered.last() as int]
            &&& gap < filtered.len() && filtered[gap] as int == origin ==> r == ss
        }),
{
    let n = ss.len() - 1;
    let t = drop_target(origin, gap, filtered, n);
    let rest = ss.remove(origin);
    let r = moved(ss, origin, t);
    assert(0 <= t <= n);
    assert(r.len() == ss.len());
    assert(r[t] == ss[origin]);
    assert(r.remove(t) =~= rest);
    if gap < filtered.len() {
        let b = filtered[gap] as int;
        assert(b < ss.len());
        if b == origin {
            assert(r =~= ss);
        } else if b > origin {
            assert(t == b - 1);
            assert(rest[b - 1] == ss[b]);
            assert(r[t + 1] == rest[t]);
        } else {
            assert(t == b);
            assert(rest[b] == ss[b]);
            assert(r[t + 1] == rest[t]);
        }
        if b != origin {
            assert(t + 1 < r.len());
        }
    } else {
        let b = filtered.last() as int;
        assert(filtered.last() == filtered[filtered.len() - 1]);
        assert(b < ss.len());
        if b != origin {
            if b > origin {
                assert(t == b);
                assert(rest[b - 1] == ss[b]);
                assert(r[t - 1] == rest[t - 1]);
            } else {
                assert(t == b + 1);
                assert(rest[b] == ss[b]);
                assert(r[t - 1] == rest[t - 1]);
            }
        }
    }
}

impl Library {
    /// Registers the category typed into the editor's inline form. A usable
    /// name is selected and closes the form; a refused one keeps the form
    /// open with the reason.
    pub fn apply_add_category(&mut self, name: String, ed: Editor) -> (r: Editor)
        ensures
            old(self).filter_sound() ==> final(self).filter_sound(),
            ({
                let added = category_added(views(old(self).categories@), name@);
                if added.len() > 0 {
                    &&& r == (Editor {
                        category: r.category,
                        new_category: r.new_category,
                        adding_category: false,
                        category_error: None,
                        ..ed
                    })
                    &&& r.category@ == added
                    &&& r.new_category@.len() == 0
                } else {
                    &&& r == (Editor {
                        adding_category: true,
                        category_error: r.category_error,
                        ..ed
                    })
                    &&& r.category_error matches Some(m) && m@ == category_refusal(name@)
                }
            }),
            views(final(self).categories@) == categories_after(views(old(self).categories@), name@),
            views(final(self).categories@) == views(old(self).categories@) ==> *final(self) == *old(self),
            views(final(self).categories@) != views(old(self).categories@) ==> config_save_requested(
                *old(self),
                *final(self),
            ),
            *final(self) == (Library {
                categories: final(self).categories,
                save_error: final(self).save_error,
                config_save_due: final(self).config_save_due,
                ..*old(self)
            }),
    {
        let ghost a = *self;
        let canonical = self.add_category(name.as_str());
        proof {
            lemma_registration_step(a, *self, name@);
        }
        let mut ed = ed;
        if !canonical.as_str().is_empty() {
            ed.category = canonical;
            ed.new_category = String::new();
            ed.adding_category = false;
            ed.category_error = None;
        } else {
            ed.adding_category = true;
            let cs = chars_of(name.as_str());
            let t = trim_chars(&cs);
            let m = if t.len() == 0 {
                String::from_str("Category can't be blank")
            } else {
                String::from_str("\"All\" is reserved and can't be used as a category")
            };
            ed.category_error = Some(m);
        }
        ed
    }

    /// Removes every snippet with id `id` (ids are unique, so at most one)
    /// and requests a save.
    pub fn delete_snippet(&mut self, id: u64)
        ensures
            old(self).filter_sound() ==> final(self).filter_sound(),
            final(self).snippets@ == old(self).snippets@.filter(|s: Snippet| s.id != id),
            final(self).aligned(),
            snippets_save_requested(*old(self), *final(self)),
            final(self).any_protected == any_protected_in(final(self).snippets@),
            *final(self) == (Library {
                snippets: final(self).snippets,
                derived: final(self).derived,
                any_protected: final(self).any_protected,
                save_error: final(self).save_error,
                snippets_save_due: final(self).snippets_save_due,
                generation: bumped(old(self).generation),
                filter: FilterCache { valid: false, ..old(self).filter },
                ..*old(self)
            }),
    {
        let ghost orig = self.snippets@;
        let mut kept: Vec<Snippet> = Vec::new();
        let mut all: Vec<Snippet> = Vec::new();
        std::mem::swap(&mut all, &mut self.snippets);
        let mut i: usize = 0;
        while i < all.len()
            invariant
                i <= all@.len(),
                all@ == orig,
                kept@ == orig.take(i as int).filter(|s: Snippet| s.id != id),
            decreases all.len() - i,
        {
            proof {
                assert(orig.take(i + 1) =~= orig.take(i as int).push(orig[i as int]));
                orig.take(i as int).lemma_filter_push(orig[i as int], |s: Snippet| s.id != id);
            }
            if all[i].id != id {
                kept.push(all[i].clone());
            }
            i = i + 1;
        }
        assert(orig.take(all.len() as int) =~= orig);
        self.snippets = kept;
        self.snippets_changed();
    }

    /// Moves the dragged card (found by id at drop time, so a library that
    /// changed mid-drag moves the right card or nothing) into the gap
    /// `target_filtered_gap` of the visible cards `filtered`, keeps the
    /// derived text in step, and requests a save. An empty view, or a card
    /// that is gone, changes nothing.
    pub fn reorder(&mut self, snippet_id: u64, target_filtered_gap: usize, filtered: &[usize])
        ensures
            old(self).filter_sound() ==> final(self).filter_sound(),
            (filtered@.len() == 0 || forall|k: int|
                0 <= k < old(self).snippets@.len() ==> (#[trigger] old(self).snippets@[k]).id
                    != snippet_id) ==> *final(self) == *old(self),
            forall|o: int|
                filtered@.len() > 0 && #[trigger] first_with_id(old(self).snippets@, snippet_id, o)
                    ==> {
                    let t = drop_target(
                        o,
                        target_filtered_gap as int,
                        filtered@,
                        old(self).snippets@.len() - 1,
                    );
                    &&& final(self).snippets@ == moved(old(self).snippets@, o, t)
                    &&& final(self).snippets@.to_multiset() == old(self).snippets@.to_multiset()
                    &&& old(self).aligned() ==> final(self).aligned()
                    &&& final(self).generation == bumped(old(self).generation)
                    &&& !final(self).filter.valid
                    &&& snippets_save_requested(*old(self), *final(self))
                    &&& *final(self) == (Library {
                        snippets: final(self).snippets,
                        derived: final(self).derived,
                        generation: bumped(old(self).generation),
                        filter: FilterCache { valid: false, ..old(self).filter },
                        save_error: final(self).save_error,
                        snippets_save_due: final(self).snippets_save_due,
                        ..*old(self)
                    })
                },
    {
        if filtered.len() == 0 {
            return;
        }
        let mut origin: usize = 0;
        while origin < self.snippets.len()
            invariant
                origin <= self.snippets@.len(),
                *self == *old(self),
                forall|j: int| 0 <= j < origin ==> (#[trigger] self.snippets@[j]).id != snippet_id,
            ensures
                origin <= self.snippets@.len(),
                *self == *old(self),
                forall|j: int| 0 <= j < origin ==> (#[trigger] self.snippets@[j]).id != snippet_id,
                origin < self.snippets@.len() ==> self.snippets@[origin as int].id == snippet_id,
            decreases self.snippets.len() - origin,
        {
            if self.snippets[origin].id == snippet_id {
                break;
            }
            origin = origin + 1;
        }
        if origin == self.snippets.len() {
            return;
        }
        assert(first_with_id(old(self).snippets@, snippet_id, origin as int));
        proof {
            assert forall|o: int| #[trigger] first_with_id(old(self).snippets@, snippet_id, o)
                implies o == origin by {
                if o < origin {
                } else if o > origin {
                    assert(old(self).snippets@[origin as int].id == snippet_id);
                }
            }
        }
        let ghost ss = self.snippets@;
        let ghost ds = self.derived@;
        let snippet = self.snippets.remove(origin);
        let n = self.snippets.len();
        let gap = target_filtered_gap;
        let base = if gap < filtered.len() {
            filtered[gap]
        } else {
            filtered[filtered.len() - 1]
        };
        let adjusted = if base > origin {
            base - 1
        } else {
            base
        };
        let t = if gap < filtered.len() {
            adjusted
        } else {
            adjusted + 1
        };
        let target = if t < n {
            t
        } else {
            n
        };
        assert(target == drop_target(origin as int, gap as int, filtered@, ss.len() - 1));
        self.snippets.insert(target, snippet);
        assert(self.snippets@ == moved(ss, origin as int, target as int));
        proof {
            let rem = ss.remove(origin as int);
            vstd::seq_lib::to_multiset_remove(ss, origin as int);
            vstd::seq_lib::to_multiset_insert(rem, target as int, ss[origin as int]);
            broadcast use vstd::multiset::group_multiset_axioms;
            broadcast use vstd::seq_lib::group_to_multiset_ensures;
            assert(ss.contains(ss[origin as int]));
            assert(ss.to_multiset().count(ss[origin as int]) > 0);
            assert(ss.to_multiset().remove(ss[origin as int]).insert(ss[origin as int])
                =~= ss.to_multiset());
        }
        if origin < self.derived.len() {
            let d = self.derived.remove(origin);
            let insert_at = if target < self.derived.len() {
                target
            } else {
                self.derived.len()
            };
            self.derived.insert(insert_at, d);
            proof {
                if derived_aligned_before(ds, ss) {
                    assert(insert_at == target);
                    lemma_moved_aligned(ds, ss, origin as int, target as int);
                }
            }
        }
        self.generation = self.generation.wrapping_add(1);
        self.filter.valid = false;
        self.save_snippets();
    }
}

/// The category a saved snippet gets: the editor's category, registered; or
/// "Uncategorized", registered, when the editor's is unusable.
pub open spec fn saved_category(cats: Seq<Seq<char>>, raw: Seq<char>) -> Seq<char> {
    let first = category_added(cats, raw);
    if first.len() > 0 {
        first
    } else {
        category_added(categories_after(cats, raw), "Uncategorized"@)
    }
}

/// The category list after a save registered its category.
pub open spec fn saved_categories(cats: Seq<Seq<char>>, raw: Seq<char>) -> Seq<Seq<char>> {
    let after = categories_after(cats, raw);
    if category_added(cats, raw).len() > 0 {
        after
    } else {
        categories_after(after, "Uncategorized"@)
    }
}

/// The banner after registering a save's category: a new category requests a
/// config save, which a refused config file answers in the banner.
pub open spec fn registration_banner(a: Library, changed: bool) -> Seq<Seq<char>> {
    if changed && a.refuse_config_overwrite {
        pushed_once(views(a.save_error@), prefixed(CONFIG_SAVE_ERROR@, refusal("config.json"@)))
    } else {
        views(a.save_error@)
    }
}

/// The banner after requesting a snippet save.
pub open spec fn snippet_request_banner(errs: Seq<Seq<char>>, refuse: bool) -> Seq<Seq<char>> {
    if refuse {
        pushed_once(errs, prefixed(SNIPPETS_SAVE_ERROR@, refusal("snippets.json"@)))
    } else {
        errs
    }
}

/// The stored snippet `s` holds what the editor saved: the trimmed title,
/// the saved category, and either the plain body or, when protected, an
/// empty body with a protection whose hint follows the hint rule and which
/// decrypts under the vault key to the body.
pub open spec fn holds_saved(s: Snippet, ed: Editor, cat: Seq<char>, key: Seq<u8>) -> bool {
    &&& s.title@ == trim(ed.title@)
    &&& s.category@ == cat
    &&& if ed.protect {
        &&& s.body@.len() == 0
        &&& s.protection matches Some(p) && p.hint@ == hint_spec(ed.body@) && body_outcome(key, p)
            == Ok::<Seq<char>, VaultErrorKind>(ed.body@)
    } else {
        &&& s.body@ == ed.body@
        &&& s.protection is None
    }
}

/// The vault key, when the vault is unlocked.
pub open spec fn key_of(v: VaultState) -> Seq<u8> {
    match v {
        VaultState::Unlocked(k) => k@,
        VaultState::Locked => Seq::empty(),
    }
}

/// A protected save refused: nothing is written and the editor stays open
/// with the draft; the banner (after the category registration's `banner`)
/// says why.
pub open spec fn save_refused(a: Library, b: Library, ed: Editor, banner: Seq<Seq<char>>) -> bool {
    &&& b.snippets == a.snippets
    &&& b.derived == a.derived
    &&& b.next_id == a.next_id
    &&& b.any_protected == a.any_protected
    &&& b.generation == a.generation
    &&& b.filter == a.filter
    &&& b.editor == Some(ed)
    &&& b.snippets_save_due == a.snippets_save_due
    &&& if a.vault is Locked {
        views(b.save_error@) == banner.push("Couldn't protect a snippet: the vault isn't unlocked"@)
    } else {
        exists|e: VaultError|
            e is Encryption && views(b.save_error@) == banner.push(
                "Couldn't protect a snippet: the vault failed ("@ + e.message_of() + ")"@,
            )
    }
}

/// The editor's fields stored under the category `cat` and a snippet save
/// requested; the banner (after the category registration's `banner`) gains
/// only what the save itself reports.
pub open spec fn save_stored(
    a: Library,
    b: Library,
    ed: Editor,
    cat: Seq<char>,
    banner: Seq<Seq<char>>,
) -> bool {
        &&& b.editor == a.editor
        &&& b.generation == bumped(a.generation)
        &&& b.filter == (FilterCache { valid: false, ..a.filter })
        &&& b.any_protected == any_protected_in(b.snippets@)
        &&& b.aligned()
        &&& b.snippets_save_due == (a.snippets_save_due || !a.refuse_snippets_overwrite)
        &&& match ed.id {
            Some(id) => if exists|k: int| first_with_id(a.snippets@, id, k) {
                &&& views(b.save_error@) == snippet_request_banner(banner, a.refuse_snippets_overwrite)
                &&& b.next_id == a.next_id
                &&& b.snippets@.len() == a.snippets@.len()
                &&& forall|k: int|
                    #[trigger] first_with_id(a.snippets@, id, k) ==> {
                        &&& holds_saved(b.snippets@[k], ed, cat, key_of(a.vault))
                        &&& b.snippets@[k].id == a.snippets@[k].id
                        &&& b.snippets@[k].description == a.snippets@[k].description
                        &&& forall|j: int|
                            0 <= j < a.snippets@.len() && j != k ==> #[trigger] b.snippets@[j]
                                == a.snippets@[j]
                    }
            } else {
                &&& views(b.save_error@) == snippet_request_banner(
                    banner.push(
                        "Snippet with id "@ + decimal(id as nat)
                            + " not found; it may have been deleted"@,
                    ),
                    a.refuse_snippets_overwrite,
                )
                &&& b.snippets@ == a.snippets@
                &&& b.next_id == a.next_id
            },
            None => {
                &&& views(b.save_error@) == snippet_request_banner(banner, a.refuse_snippets_overwrite)
                &&& b.snippets@.len() == a.snippets@.len() + 1
                &&& b.snippets@.drop_last() == a.snippets@
                &&& b.snippets@.last().id == a.next_id
                &&& b.snippets@.last().description@.len() == 0
                &&& holds_saved(b.snippets@.last(), ed, cat, key_of(a.vault))
                &&& b.next_id == next_id(b.snippets@)
            },
        }
}

/// What saving the editor `ed` does to the library `a`, giving `b`. A
/// protected save needs the unlocked vault and a body within the cipher's
/// limit; with both, it is stored unless the operating system's random
/// source fails, which refuses it like an encryption failure.
pub open spec fn save_applied(a: Library, b: Library, ed: Editor) -> bool {
    let cats0 = views(a.categories@);
    let cats1 = saved_categories(cats0, ed.category@);
    let cat = saved_category(cats0, ed.category@);
    let changed = cats1 != cats0;
    let banner = registration_banner(a, changed);
    let too_long = !encryptable(ed.body@);
    &&& b == (Library {
        categories: b.categories,
        config_save_due: b.config_save_due,
        save_error: b.save_error,
        snippets: b.snippets,
        derived: b.derived,
        next_id: b.next_id,
        snippets_save_due: b.snippets_save_due,
        editor: b.editor,
        any_protected: b.any_protected,
        generation: b.generation,
        filter: b.filter,
        ..a
    })
    &&& views(b.categories@) == cats1
    &&& b.config_save_due == (a.config_save_due || (changed && !a.refuse_config_overwrite))
    &&& b.vault == a.vault
    &&& b.vault_meta == a.vault_meta
    &&& b.vault_prompt == a.vault_prompt
    &&& b.refuse_snippets_overwrite == a.refuse_snippets_overwrite
    &&& b.refuse_config_overwrite == a.refuse_config_overwrite
    &&& if ed.protect && (a.vault is Locked || too_long) {
        save_refused(a, b, ed, banner)
    } else if ed.protect {
        save_refused(a, b, ed, banner) || save_stored(a, b, ed, cat, banner)
    } else {
        save_stored(a, b, ed, cat, banner)
    }
}

/// What storing the editor's fields does to the library `a` (category
/// already registered as `cat`), giving `b`.
pub open spec fn stored(a: Library, b: Library, ed: Editor, cat: Seq<char>) -> bool {
    &&& b == (Library {
        snippets: b.snippets,
        derived: b.derived,
        next_id: b.next_id,
        save_error: b.save_error,
        snippets_save_due: b.snippets_save_due,
        any_protected: b.any_protected,
        generation: b.generation,
        filter: b.filter,
        ..a
    })
    &&& b.generation == bumped(a.generation)
    &&& b.filter == (FilterCache { valid: false, ..a.filter })
    &&& b.any_protected == any_protected_in(b.snippets@)
    &&& b.categories == a.categories
    &&& b.config_save_due == a.config_save_due
    &&& b.vault == a.vault
    &&& b.vault_meta == a.vault_meta
    &&& b.vault_prompt == a.vault_prompt
    &&& b.refuse_snippets_overwrite == a.refuse_snippets_overwrite
    &&& b.refuse_config_overwrite == a.refuse_config_overwrite
    &&& b.editor == a.editor
    &&& b.aligned()
    &&& b.snippets_save_due == (a.snippets_save_due || !a.refuse_snippets_overwrite)
    &&& match ed.id {
        Some(id) => if exists|k: int| first_with_id(a.snippets@, id, k) {
            &&& views(b.save_error@) == snippet_request_banner(views(a.save_error@), a.refuse_snippets_overwrite)
            &&& b.next_id == a.next_id
            &&& b.snippets@.len() == a.snippets@.len()
            &&& forall|k: int|
                #[trigger] first_with_id(a.snippets@, id, k) ==> {
                    &&& holds_saved(b.snippets@[k], ed, cat, key_of(a.vault))
                    &&& b.snippets@[k].id == a.snippets@[k].id
                    &&& b.snippets@[k].description == a.snippets@[k].description
                    &&& forall|j: int|
                        0 <= j < a.snippets@.len() && j != k ==> #[trigger] b.snippets@[j]
                            == a.snippets@[j]
                }
        } else {
            &&& views(b.save_error@) == snippet_request_banner(
                views(a.save_error@).push(
                    "Snippet with id "@ + decimal(id as nat) + " not found; it may have been deleted"@,
                ),
                a.refuse_snippets_overwrite,
            )
            &&& b.snippets@ == a.snippets@
            &&& b.next_id == a.next_id
        },
        None => {
            &&& views(b.save_error@) == snippet_request_banner(views(a.save_error@), a.refuse_snippets_overwrite)
            &&& b.snippets@.len() == a.snippets@.len() + 1
            &&& b.snippets@.drop_last() == a.snippets@
            &&& b.snippets@.last().id == a.next_id
            &&& b.snippets@.last().description@.len() == 0
            &&& holds_saved(b.snippets@.last(), ed, cat, key_of(a.vault))
            &&& b.next_id == next_id(b.snippets@)
        },
    }
}

impl Library {
    /// Registers a saved snippet's category: the editor's, or
    /// "Uncategorized" when the editor's is unusable.
    fn register_save_category(&mut self, raw: &str) -> (r: String)
        ensures
            ({
                let cats0 = views(old(self).categories@);
                let cats1 = saved_categories(cats0, raw@);
                &&& r@ == saved_category(cats0, raw@)
                &&& views(final(self).categories@) == cats1
                &&& views(final(self).save_error@) == registration_banner(*old(self), cats1 != cats0)
                &&& final(self).config_save_due == (old(self).config_save_due || (cats1 != cats0
                    && !old(self).refuse_config_overwrite))
            }),
            *final(self) == (Library {
                categories: final(self).categories,
                save_error: final(self).save_error,
                config_save_due: final(self).config_save_due,
                ..*old(self)
            }),
    {
        let ghost a = *self;
        let ghost cats0 = views(self.categories@);
        let first = self.add_category(raw);
        let ghost m1 = *self;
        proof {
            lemma_registration_step(a, m1, raw@);
        }
        let category = if first.as_str().is_empty() {
            let u = self.add_category("Uncategorized");
            proof {
                lemma_registration_step(m1, *self, "Uncategorized"@);
            }
            u
        } else {
            first
        };
        proof {
            let c1 = category_added(cats0, raw@);
            if c1.len() == 0 {
                assert(m1 == a);
            }
        }
        category
    }

    /// Stores what the editor saved (the body already encrypted into
    /// `protection` when protected) and requests a save.
    fn store_saved(&mut self, ed: Editor, category: String, protection: Option<Protection>)
        requires
            ed.protect <==> protection is Some,
            protection matches Some(p) ==> p.hint@ == hint_spec(ed.body@) && body_outcome(
                key_of(old(self).vault),
                p,
            ) == Ok::<Seq<char>, VaultErrorKind>(ed.body@),
        ensures
            stored(*old(self), *final(self), ed, category@),
    {
        let ghost a = *self;
        let tcs = chars_of(ed.title.as_str());
        let tt = trim_chars(&tcs);
        let title = string_of(&tt);
        let mut ed = ed;
        let ghost ed0 = ed;
        let mut body = String::new();
        if protection.is_none() {
            std::mem::swap(&mut body, &mut ed.body);
        }
        assert(ed.protect ==> body@.len() == 0);
        assert(!ed.protect ==> body@ == ed0.body@);
        match ed.id {
            Some(id) => {
                let mut k: usize = 0;
                while k < self.snippets.len()
                    invariant
                        k <= self.snippets@.len(),
                        *self == a,
                        forall|j: int| 0 <= j < k ==> (#[trigger] self.snippets@[j]).id != id,
                    ensures
                        k <= self.snippets@.len(),
                        *self == a,
                        forall|j: int| 0 <= j < k ==> (#[trigger] self.snippets@[j]).id != id,
                        k < self.snippets@.len() ==> self.snippets@[k as int].id == id,
                    decreases self.snippets.len() - k,
                {
                    if self.snippets[k].id == id {
                        break;
                    }
                    k = k + 1;
                }
                if k < self.snippets.len() {
                    assert(first_with_id(a.snippets@, id, k as int));
                    proof {
                        assert forall|o: int| #[trigger] first_with_id(a.snippets@, id, o) implies o
                            == k by {
                            if o < k {
                            } else if o > k {
                                assert(a.snippets@[k as int].id == id);
                            }
                        }
                    }
                    let mut s = self.snippets[k].clone();
                    s.title = title;
                    s.category = category;
                    s.protection = protection;
                    s.body = body;
                    self.snippets.set(k, s);
                } else {
                    let mut m = String::from_str("Snippet with id ");
                    let d = u64_to_decimal(id);
                    m.append(d.as_str());
                    m.append(" not found; it may have been deleted");
                    let ghost mv = m@;
                    self.save_error.push(m);
                    assert(views(self.save_error@) =~= views(a.save_error@).push(mv));
                    assert(self.snippets@ =~= a.snippets@);
                }
            },
            None => {
                let id = self.next_id;
                self.snippets.push(
                    Snippet { id, title, description: String::new(), category, body, protection },
                );
                assert(self.snippets@.drop_last() =~= a.snippets@);
                self.next_id = next_snippet_id(&self.snippets);
            },
        }
        let ghost before_save = *self;
        self.snippets_changed();
        assert(self.snippets@ =~= before_save.snippets@);
        proof {
            if let Some(id) = ed0.id {
                if !exists|k: int| first_with_id(a.snippets@, id, k) {
                    assert(self.snippets@ =~= a.snippets@);
                }
            }
        }
    }

    /// Saves the editor: registers its category (falling back to
    /// "Uncategorized"), encrypts the body when "Protect this snippet" is
    /// checked, updates the edited snippet or adds a new one under the next
    /// free id, and requests a save. Protecting needs the unlocked vault;
    /// without it (or when encryption fails) the save is refused and the
    /// editor is kept, so plaintext meant to be protected is never written.
    pub fn apply_save(&mut self, ed: Editor)
        ensures
            old(self).filter_sound() ==> final(self).filter_sound(),
            save_applied(*old(self), *final(self), ed),
    {
        let ghost a = *self;
        let category = self.register_save_category(ed.category.as_str());
        let ghost mid = *self;
        let protection: Option<Protection> = if ed.protect {
            match self.vault.key() {
                Some(key) => match encrypt_body(key, ed.body.as_str()) {
                    Ok(p) => Some(p),
                    Err(e) => {
                        let mut m = String::from_str(
                            "Couldn't protect a snippet: the vault failed (",
                        );
                        let em = e.message();
                        m.append(em.as_str());
                        m.append(")");
                        let ghost mv = m@;
                        self.save_error.push(m);
                        assert(views(self.save_error@) =~= views(mid.save_error@).push(mv));
                        assert(e is Encryption);
                        self.editor = Some(ed);
                        return;
                    },
                },
                None => {
                    let m = String::from_str("Couldn't protect a snippet: the vault isn't unlocked");
                    let ghost mv = m@;
                    self.save_error.push(m);
                    assert(views(self.save_error@) =~= views(mid.save_error@).push(mv));
                    self.editor = Some(ed);
                    return;
                },
            }
        } else {
            None
        };
        self.store_saved(ed, category, protection);
    }

    /// Entrance for an editor Save. A protected save first needs the vault:
    /// with no vault yet the create-vault prompt opens, with the vault locked
    /// the unlock prompt opens, either holding the editor until the vault is
    /// ready. Plain saves never touch the vault.
    pub fn handle_editor_save(&mut self, ed: Editor)
        ensures
            old(self).filter_sound() ==> final(self).filter_sound(),
            !ed.protect || (old(self).vault_meta is Some && old(self).vault is Unlocked) ==> save_applied(
                *old(self),
                *final(self),
                ed,
            ),
            ed.protect && old(self).vault_meta is None ==> (final(self).vault_prompt matches Some(p)
                && fresh_prompt(
                p,
                VaultPromptMode::Create,
                Some(PendingVaultAction::ProtectSave(ed)),
            )),
            ed.protect && old(self).vault_meta is Some && old(self).vault is Locked ==> (final(self).vault_prompt matches Some(p) && fresh_prompt(
                p,
                VaultPromptMode::Unlock,
                Some(PendingVaultAction::ProtectSave(ed)),
            )),
            ed.protect && (old(self).vault_meta is None || old(self).vault is Locked) ==> *final(self)
                == (Library { vault_prompt: final(self).vault_prompt, ..*old(self) }),
    {
        if !ed.protect {
            self.apply_save(ed);
            return;
        }
        if self.vault_meta.is_none() {
            self.vault_prompt = Some(VaultPrompt::create_for(PendingVaultAction::ProtectSave(ed)));
        } else if self.vault.is_locked() {
            self.vault_prompt = Some(VaultPrompt::unlock_for(PendingVaultAction::ProtectSave(ed)));
        } else {
            self.apply_save(ed);
        }
    }
}

proof fn lemma_sorted_push_longer(cats: Seq<Seq<char>>, c: Seq<char>)
    ensures
        cats.push(c).sort_by(lex_leq()).len() == cats.len() + 1,
{
    broadcast use vstd::seq_lib::group_to_multiset_ensures;

    crate::order::lemma_lex_total_ordering();
    cats.push(c).lemma_sort_by_ensures(lex_leq());
    assert(cats.push(c).sort_by(lex_leq()).to_multiset().len() == cats.push(c).to_multiset().len());
}

proof fn lemma_nonreserved_nonempty(c: Seq<char>)
    requires
        !reserved(c),
    ensures
        c.len() > 0,
{
    if c.len() == 0 {
        crate::text::lemma_trim_start_skip(c);
        crate::text::lemma_trim_end_take(c);
        assert(trim(c).len() == 0);
    }
}

/// One registration of a category, as `add_category` states it: either
/// nothing changed, or the list grew by one and a config save was requested
/// (and the answer was not empty).
proof fn lemma_registration_step(a: Library, b: Library, raw: Seq<char>)
    requires
        ({
            let c = normalized(raw);
            let cats = views(a.categories@);
            if reserved(c) {
                b == a
            } else if exists|k: int| 0 <= k < cats.len() && same_cat(#[trigger] cats[k], c) {
                b == a
            } else {
                &&& views(b.categories@) == cats.push(c).sort_by(lex_leq())
                &&& config_save_requested(a, b)
                &&& b == (Library {
                    categories: b.categories,
                    save_error: b.save_error,
                    config_save_due: b.config_save_due,
                    ..a
                })
            }
        }),
        views(b.categories@) == categories_after(views(a.categories@), raw),
    ensures
        b == a || (views(b.categories@).len() == views(a.categories@).len() + 1
            && config_save_requested(a, b) && category_added(views(a.categories@), raw).len() > 0
            && b == (Library {
            categories: b.categories,
            save_error: b.save_error,
            config_save_due: b.config_save_due,
            ..a
        })),
{
    let c = normalized(raw);
    let cats = views(a.categories@);
    if !reserved(c) && !exists|k: int| 0 <= k < cats.len() && same_cat(#[trigger] cats[k], c) {
        lemma_sorted_push_longer(cats, c);
        lemma_nonreserved_nonempty(c);
        assert(!exists|k: int| first_same(cats, c, k));
    }
}

/// The top bar's category filter entry that opens the inline form.
pub open spec fn add_new_entry() -> Seq<char> {
    "+ Add new category"@
}

impl Library {
    /// Opens the top bar's inline "new category" form, empty.
    pub fn start_adding_category(&mut self)
        ensures
            old(self).filter_sound() ==> final(self).filter_sound(),
            final(self).adding_header_category,
            final(self).new_header_category@.len() == 0,
            final(self).category_error is None,
            *final(self) == (Library {
                adding_header_category: true,
                new_header_category: final(self).new_header_category,
                category_error: None,
                ..*old(self)
            }),
    {
        self.adding_header_category = true;
        self.new_header_category = String::new();
        self.category_error = None;
    }

    /// Selects a category filter entry; picking a different category closes
    /// the inline form.
    pub fn select_category_filter(&mut self, choice: String)
        ensures
            old(self).filter_sound() ==> final(self).filter_sound(),
            choice@ != old(self).category_filter@ && choice@ != add_new_entry() ==> {
                &&& final(self).category_filter == choice
                &&& !final(self).adding_header_category
                &&& final(self).new_header_category@.len() == 0
                &&& final(self).category_error is None
                &&& *final(self) == (Library {
                    category_filter: choice,
                    adding_header_category: false,
                    new_header_category: final(self).new_header_category,
                    category_error: None,
                    ..*old(self)
                })
            },
            choice@ == old(self).category_filter@ || choice@ == add_new_entry() ==> *final(self)
                == *old(self),
    {
        proof {
            reveal_strlit("+ Add new category");
        }
        if !str_eq(choice.as_str(), self.category_filter.as_str()) && !str_eq(
            choice.as_str(),
            "+ Add new category",
        ) {
            self.category_filter = choice;
            self.adding_header_category = false;
            self.new_header_category = String::new();
            self.category_error = None;
        }
    }

    /// Submits the top bar's inline form: "all" in any ASCII case is refused
    /// with an inline error; a usable name is registered and selected, closing
    /// the form; an empty input just closes it.
    pub fn submit_header_category(&mut self)
        ensures
            old(self).filter_sound() ==> final(self).filter_sound(),
            ({
                let raw = trim(old(self).new_header_category@);
                if ascii_lower(raw) == "all"@ {
                    (final(self).category_error matches Some(m) && m@
                        == "\"All\" is reserved and can't be used as a category"@) && *final(self)
                        == (Library { category_error: final(self).category_error, ..*old(self) })
                } else if raw.len() > 0 {
                    let added = category_added(views(old(self).categories@), raw);
                    &&& views(final(self).categories@) == categories_after(
                        views(old(self).categories@),
                        raw,
                    )
                    &&& added.len() > 0 ==> final(self).category_filter@ == added
                        && !final(self).adding_header_category
                        && final(self).new_header_category@.len() == 0
                        && final(self).category_error is None
                    &&& added.len() == 0 ==> final(self).category_filter == old(self).category_filter && final(self).adding_header_category == old(self).adding_header_category && final(self).new_header_category == old(self).new_header_category && final(self).category_error == old(self).category_error
                    &&& views(final(self).categories@) == views(old(self).categories@) ==> final(self).categories == old(self).categories && final(self).save_error == old(self).save_error && final(self).config_save_due == old(self).config_save_due
                    &&& views(final(self).categories@) != views(old(self).categories@)
                        ==> config_save_requested(*old(self), *final(self))
                    &&& *final(self) == (Library {
                        categories: final(self).categories,
                        save_error: final(self).save_error,
                        config_save_due: final(self).config_save_due,
                        category_filter: final(self).category_filter,
                        adding_header_category: final(self).adding_header_category,
                        new_header_category: final(self).new_header_category,
                        category_error: final(self).category_error,
                        ..*old(self)
                    })
                } else {
                    !final(self).adding_header_category && final(self).new_header_category@.len()
                        == 0 && final(self).category_error is None && *final(self) == (Library {
                        adding_header_category: false,
                        new_header_category: final(self).new_header_category,
                        category_error: None,
                        ..*old(self)
                    })
                }
            }),
    {
        let cs = chars_of(self.new_header_category.as_str());
        let t = trim_chars(&cs);
        let all: Vec<char> = vec!['a', 'l', 'l'];
        proof {
            reveal_strlit("all");
            assert(ascii_lower(all@) =~= "all"@);
        }
        if eq_ignore_ascii_case(&t, &all) {
            self.category_error = Some(
                String::from_str("\"All\" is reserved and can't be used as a category"),
            );
        } else if t.len() > 0 {
            let raw = string_of(&t);
            let ghost a = *self;
            let canonical = self.add_category(raw.as_str());
            proof {
                lemma_registration_step(a, *self, raw@);
            }
            if !canonical.as_str().is_empty() {
                self.category_filter = canonical;
                self.adding_header_category = false;
                self.new_header_category = String::new();
                self.category_error = None;
            }
        } else {
            self.adding_header_category = false;
            self.new_header_category = String::new();
            self.category_error = None;
        }
    }

    /// Picks a theme; a different theme is kept and the config save
    /// requested. Returns whether the theme changed (the visuals must be
    /// applied again).
    pub fn select_theme(&mut self, theme: Theme) -> (changed: bool)
        ensures
            old(self).filter_sound() ==> final(self).filter_sound(),
            changed == (theme != old(self).theme),
            changed ==> final(self).theme == theme && config_save_requested(
                *old(self),
                *final(self),
            ) && *final(self) == (Library {
                theme,
                save_error: final(self).save_error,
                config_save_due: final(self).config_save_due,
                ..*old(self)
            }),
            !changed ==> *final(self) == *old(self),
    {
        if theme == self.theme {
            return false;
        }
        self.theme = theme;
        let _ = self.save_config();
        true
    }

    /// "+ New": opens a blank editor unless one is open.
    pub fn open_new_editor(&mut self)
        ensures
            old(self).filter_sound() ==> final(self).filter_sound(),
            old(self).editor is Some ==> *final(self) == *old(self),
            old(self).editor is None ==> (final(self).editor matches Some(ed) && ed.id is None
                && ed.title@.len() == 0 && ed.body@.len() == 0 && !ed.protect) && *final(self) == (
            Library { editor: final(self).editor, ..*old(self) }),
    {
        if self.editor.is_none() {
            self.editor = Some(Editor::blank(self.categories.as_slice()));
        }
    }

    /// Applies what the editor modal decided: save, delete, keep editing, or
    /// register a category and keep editing. The editor was taken out of the
    /// library while it was shown.
    pub fn apply_editor_outcome(&mut self, outcome: EditorOutcome)
        ensures
            old(self).filter_sound() ==> final(self).filter_sound(),
            match outcome {
                EditorOutcome::Keep(ed) => *final(self) == (Library {
                    editor: Some(ed),
                    ..*old(self)
                }),
                EditorOutcome::Close => *final(self) == *old(self),
                EditorOutcome::Delete(id) => final(self).snippets@ == old(self).snippets@.filter(
                    |s: Snippet| s.id != id,
                ) && final(self).aligned() && snippets_save_requested(*old(self), *final(self)),
                EditorOutcome::AddCategory(name, _) => views(final(self).categories@)
                    == categories_after(views(old(self).categories@), name@) && final(self).editor is Some,
                EditorOutcome::Save(ed) => !ed.protect || (old(self).vault_meta is Some && old(self).vault is Unlocked) ==> save_applied(*old(self), *final(self), ed),
            },
    {
        match outcome {
            EditorOutcome::Keep(ed) => {
                self.editor = Some(ed);
            },
            EditorOutcome::Close => {},
            EditorOutcome::Delete(id) => {
                self.delete_snippet(id);
            },
            EditorOutcome::AddCategory(name, ed) => {
                let ed = self.apply_add_category(name, ed);
                self.editor = Some(ed);
            },
            EditorOutcome::Save(ed) => {
                self.handle_editor_save(ed);
            },
        }
    }
}

/// Saving a new snippet keeps ids unique: it gets the library's next id,
/// which no snippet had, and the next id after it is again one no snippet
/// has (a refused save changes neither). (So ids stay unique from launch on, where the next id is picked the
/// same way.)
pub proof fn lemma_new_snippet_keeps_ids_unique(a: Library, b: Library, ed: Editor)
    requires
        save_applied(a, b, ed),
        ed.id is None,
        distinct_ids(a.snippets@, a.snippets@.len() as int),
        !has_id(a.snippets@, a.next_id),
        a.snippets@.len() + 1 < u64::MAX,
    ensures
        distinct_ids(b.snippets@, b.snippets@.len() as int),
        !has_id(b.snippets@, b.next_id),
{
    let s = b.snippets@;
    let n = a.snippets@.len();
    if b.snippets != a.snippets {
        assert forall|x: int, y: int| 0 <= x < y < s.len() implies #[trigger] s[x].id != #[trigger] s[y].id by {
            if y == n {
                assert(s[x] == a.snippets@[x]) by {
                    assert(s.drop_last()[x] == s[x]);
                }
                if s[x].id == s[y].id {
                    assert(has_id(a.snippets@, a.next_id));
                }
            } else {
                assert(s.drop_last()[x] == s[x] && s.drop_last()[y] == s[y]);
            }
        }
        lemma_fresh_id_is_unused(s);
    }
}

/// `ds` holds the derived text of `ss`, index by index.
pub open spec fn derived_aligned_before(ds: Seq<Derived>, ss: Seq<Snippet>) -> bool {
    crate::library::derived_all(ds, ss)
}

proof fn lemma_moved_aligned(ds: Seq<Derived>, ss: Seq<Snippet>, o: int, t: int)
    requires
        crate::library::derived_all(ds, ss),
        0 <= o < ss.len(),
        0 <= t < ss.len(),
    ensures
        crate::library::derived_all(moved(ds, o, t), moved(ss, o, t)),
{
    let md = moved(ds, o, t);
    let ms = moved(ss, o, t);
    assert(md.len() == ms.len());
    assert forall|i: int| 0 <= i < ms.len() implies (#[trigger] md[i]).of(ms[i]) by {
        let rd = ds.remove(o);
        let rs = ss.remove(o);
        if i < t {
            assert(md[i] == rd[i]);
            assert(ms[i] == rs[i]);
            if i < o {
                assert(rd[i] == ds[i] && rs[i] == ss[i]);
            } else {
                assert(rd[i] == ds[i + 1] && rs[i] == ss[i + 1]);
            }
        } else if i == t {
            assert(md[i] == ds[o] && ms[i] == ss[o]);
        } else {
            assert(md[i] == rd[i - 1]);
            assert(ms[i] == rs[i - 1]);
            if i - 1 < o {
                assert(rd[i - 1] == ds[i - 1] && rs[i - 1] == ss[i - 1]);
            } else {
                assert(rd[i - 1] == ds[i] && rs[i - 1] == ss[i]);
            }
        }
    }
}

} // verus!
