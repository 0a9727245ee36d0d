//! Building the library at launch from what was read from disk, and the
//! banner notes about data files that could not be read or migrated.
use vstd::prelude::*;

use crate::ids::{dedup_ids, dedup_snippet_ids, distinct_ids, next_id, next_snippet_id};
use crate::library::{any_protected_in, sanitize_categories, sanitized, Derived, FilterCache, Library};
use crate::model::Snippet;
use crate::order::{lex_leq, views};
use crate::seed::{defaults, is_seed_library};
use crate::storage::{
    admit_all, canonical, canonical_category, category_pool, strictly_sorted, Config,
};
use crate::text::str_eq;
use crate::theme::{theme_for, Theme};
use crate::vault::{VaultMeta, VaultState};

verus! {

/// What reading one data file at launch produced.
#[derive(Debug)]
pub enum StartupLoad<T> {
    /// The file was read and parsed.
    Loaded(T),
    /// There is no file yet (first launch).
    Missing,
    /// The file exists but couldn't be read or parsed (`error` says why); it
    /// was then moved aside, giving the backup's path, or the move failed,
    /// giving why.
    Corrupt { error: String, backup: Result<String, String> },
}

/// The banner note for a data file that couldn't be read, given how moving
/// it aside went.
pub open spec fn corrupt_note(
    filename: Seq<char>,
    error: Seq<char>,
    backup: Result<String, String>,
) -> Seq<char> {
    match backup {
        Ok(b) => filename + " couldn't be read ("@ + error + "). It was kept as "@ + b@
            + " and the default library was loaded."@,
        Err(e) => filename + " couldn't be read ("@ + error + ") and couldn't be backed up ("@ + e@
            + "). The file was left in place \u{2014} copy it elsewhere before making changes."@,
    }
}

/// The banner text for a data file that exists but couldn't be read, and
/// whether it was moved aside. When it was not, the caller must never write
/// over it: it is the only remaining copy of the user's data.
pub fn describe_corrupt_file(filename: &str, error: &str, backup: &Result<String, String>) -> (r: (
    String,
    bool,
))
    ensures
        r.0@ == corrupt_note(filename@, error@, *backup),
        r.1 == backup is Ok,
{
    let mut m = String::from_str(filename);
    m.append(" couldn't be read (");
    m.append(error);
    match backup {
        Ok(b) => {
            m.append("). It was kept as ");
            m.append(b.as_str());
            m.append(" and the default library was loaded.");
            (m, true)
        },
        Err(e) => {
            m.append(") and couldn't be backed up (");
            m.append(e.as_str());
            m.append(
                "). The file was left in place \u{2014} copy it elsewhere before making changes.",
            );
            (m, false)
        },
    }
}

/// `b` is `a` with every category replaced by its canonical form.
pub open spec fn canonicalized(a: Seq<Snippet>, b: Seq<Snippet>) -> bool {
    &&& a.len() == b.len()
    &&& forall|i: int|
        0 <= i < a.len() ==> #[trigger] b[i] == (Snippet { category: b[i].category, ..a[i] })
            && b[i].category@ == canonical(a[i].category@)
}

fn canonicalize_categories(v: &mut Vec<Snippet>)
    ensures
        canonicalized(old(v)@, final(v)@),
{
    let ghost orig = v@;
    let mut i: usize = 0;
    while i < v.len()
        invariant
            i <= v@.len(),
            v@.len() == orig.len(),
            forall|k: int|
                0 <= k < i ==> #[trigger] v@[k] == (Snippet { category: v@[k].category, ..orig[k] })
                    && v@[k].category@ == canonical(orig[k].category@),
            forall|k: int| i <= k < v@.len() ==> #[trigger] v@[k] == orig[k],
        decreases v.len() - i,
    {
        let mut s = v[i].clone();
        s.category = canonical_category(v[i].category.as_str());
        v.set(i, s);
        i = i + 1;
    }
}

/// The categories of the snippets, in order.
pub open spec fn categories_of(ss: Seq<Snippet>) -> Seq<Seq<char>> {
    ss.map_values(|s: Snippet| s.category@)
}

/// The category list a launch ends with: the config's list sanitized, plus
/// every usable category of the snippets; sorted again only when that added
/// something.
pub open spec fn startup_categories(cfg: Seq<Seq<char>>, ss: Seq<Snippet>) -> Seq<Seq<char>> {
    let s0 = sanitized(cfg);
    let added = admit_all(s0, categories_of(ss));
    if added.len() == s0.len() {
        s0
    } else {
        added.sort_by(lex_leq())
    }
}

/// The banner a launch starts with: the notes about unreadable data files.
pub open spec fn startup_notes(
    sl: StartupLoad<Vec<Snippet>>,
    cl: StartupLoad<Config>,
) -> Seq<Seq<char>> {
    let first = match sl {
        StartupLoad::Corrupt { error, backup } => seq![
            corrupt_note("snippets.json"@, error@, backup),
        ],
        _ => Seq::empty(),
    };
    match cl {
        StartupLoad::Corrupt { error, backup } => first.push(
            corrupt_note("config.json"@, error@, backup),
        ),
        _ => first,
    }
}

/// The file may be (re)written at launch: it was missing, or its unreadable
/// copy was moved aside.
pub open spec fn writable<T>(l: StartupLoad<T>) -> bool {
    l is Missing || (l matches StartupLoad::Corrupt { backup, .. } && backup is Ok)
}

/// The file must never be written over: it is unreadable and couldn't be
/// moved aside.
pub open spec fn blocked<T>(l: StartupLoad<T>) -> bool {
    l matches StartupLoad::Corrupt { backup, .. } && backup is Err
}

/// The library a launch builds from what was read (`r`), as a relation:
/// the snippets are the loaded ones (or the starter library) with canonical
/// categories and repaired ids; the categories and config come from the
/// loaded config (or one built from the snippets); the writes that are safe
/// and needed are requested; unreadable files are noted in the banner.
pub open spec fn started(sl: StartupLoad<Vec<Snippet>>, cl: StartupLoad<Config>, r: Library) -> bool {
    &&& exists|base: Seq<Snippet>, canon: Seq<Snippet>|
        {
            &&& match sl {
                StartupLoad::Loaded(v) => base == v@,
                _ => is_seed_library(base),
            }
            &&& canonicalized(base, canon)
            &&& r.snippets@ == dedup_ids(canon, canon.len())
        }
    &&& r.aligned()
    &&& r.any_protected == any_protected_in(r.snippets@)
    &&& r.snippets@.len() < u64::MAX ==> distinct_ids(r.snippets@, r.snippets@.len() as int)
    &&& r.next_id == next_id(r.snippets@)
    &&& match cl {
        StartupLoad::Loaded(c) => {
            &&& views(r.categories@) == startup_categories(views(c.categories@), r.snippets@)
            &&& r.config_save_due == (views(c.categories@) != views(r.categories@))
            &&& r.vault_meta == c.vault
            &&& r.theme_raw == (if c.theme@.len() == 0 {
                None
            } else {
                Some(c.theme)
            })
            &&& r.theme == match theme_for(c.theme@) {
                Some(t) => t,
                None => Theme::Dark,
            }
        },
        _ => {
            &&& exists|c0: Seq<Seq<char>>|
                strictly_sorted(c0) && c0.to_set() == category_pool(r.snippets@).to_set()
                    && views(r.categories@) == startup_categories(c0, r.snippets@)
            &&& r.config_save_due == writable(cl)
            &&& r.vault_meta is None
            &&& r.theme_raw matches Some(t) && t@ == "Dark"@
            &&& r.theme == Theme::Dark
        },
    }
    &&& r.snippets_save_due == writable(sl)
    &&& r.refuse_snippets_overwrite == blocked(sl)
    &&& r.refuse_config_overwrite == blocked(cl)
    &&& views(r.save_error@) == startup_notes(sl, cl)
    &&& r.generation == 0
    &&& r.filter.indices@.len() == 0 && !r.filter.valid && r.filter.generation == 0
    &&& r.search@.len() == 0
    &&& r.category_filter@ == "All"@
    &&& r.editor is None
    &&& r.copied is None
    &&& !r.adding_header_category
    &&& r.new_header_category@.len() == 0
    &&& r.category_error is None
    &&& r.vault is Locked
    &&& r.vault_prompt is None
    &&& r.vault_work is None
    &&& r.vault_work_gen == 0
    &&& r.protected_copy is None
}

impl Library {
    /// Builds the library at launch from what reading the snippet file and
    /// the config file produced. An unreadable file is not a first launch:
    /// the starter library is seeded, the file is noted in the banner, and,
    /// when it couldn't be moved aside, it is never written over. Categories
    /// are made canonical, duplicate ids repaired, and the config's category
    /// list sanitized and completed from the snippets. The vault starts
    /// locked.
    pub fn from_loads(sl: StartupLoad<Vec<Snippet>>, cl: StartupLoad<Config>) -> (r: Library)
        ensures
            started(sl, cl, r),
            r.filter_sound(),
    {
        let ghost sl0 = sl;
        let ghost cl0 = cl;
        let mut save_error: Vec<String> = Vec::new();
        let (mut snippets, seeded, refuse_snippets) = match sl {
            StartupLoad::Loaded(v) => (v, false, false),
            StartupLoad::Missing => (defaults(), true, false),
            StartupLoad::Corrupt { error, backup } => {
                let (note, backed_up) = describe_corrupt_file(
                    "snippets.json",
                    error.as_str(),
                    &backup,
                );
                save_error.push(note);
                (defaults(), backed_up, !backed_up)
            },
        };
        let ghost base = snippets@;
        canonicalize_categories(&mut snippets);
        let ghost canon = snippets@;
        dedup_snippet_ids(&mut snippets);
        assert(snippets@ == dedup_ids(canon, canon.len()));
        proof {
            crate::ids::lemma_dedup_ids_shape(canon, canon.len());
        }
        let mut loaded_categories: Option<Vec<String>> = None;
        let (mut config, config_write_ok, refuse_config) = match cl {
            StartupLoad::Loaded(c) => {
                loaded_categories = Some(crate::library::clone_strings(&c.categories));
                (c, false, false)
            },
            StartupLoad::Missing => (Config::from_snippets(snippets.as_slice()), true, false),
            StartupLoad::Corrupt { error, backup } => {
                let (note, backed_up) = describe_corrupt_file(
                    "config.json",
                    error.as_str(),
                    &backup,
                );
                let ghost es = views(save_error@);
                let ghost nv = note@;
                save_error.push(note);
                assert(views(save_error@) =~= es.push(nv));
                (Config::from_snippets(snippets.as_slice()), backed_up, !backed_up)
            },
        };
        assert(views(save_error@) =~= startup_notes(sl0, cl0));
        let ghost c0 = views(config.categories@);
        config.categories = sanitize_categories(config.categories.as_slice());
        let names = snippet_category_names(&snippets);
        config.add_categories(names.as_slice());
        assert(views(config.categories@) == startup_categories(c0, snippets@)) by {
            assert(names@.map_values(|n: &str| n@) =~= categories_of(snippets@));
        }
        let config_changed = match &loaded_categories {
            Some(loaded) => !same_strings(loaded, &config.categories),
            None => false,
        };
        let theme_raw = if config.theme.as_str().is_empty() {
            None
        } else {
            Some(config.theme.clone())
        };
        let theme = match Theme::from_name(config.theme.as_str()) {
            Some(t) => t,
            None => Theme::Dark,
        };
        let vault_meta = match &config.vault {
            Some(m) => Some(m.clone()),
            None => None,
        };
        let next_id = next_snippet_id(&snippets);
        let mut lib = Library {
            snippets,
            derived: Vec::new(),
            generation: 0,
            filter: FilterCache::default(),
            next_id,
            categories: config.categories,
            search: String::new(),
            category_filter: String::from_str("All"),
            theme,
            theme_raw,
            editor: None,
            copied: None,
            adding_header_category: false,
            new_header_category: String::new(),
            category_error: None,
            save_error,
            vault: VaultState::new(),
            vault_meta,
            vault_prompt: None,
            any_protected: false,
            vault_work: None,
            vault_work_gen: 0,
            refuse_snippets_overwrite: refuse_snippets,
            refuse_config_overwrite: refuse_config,
            protected_copy: None,
            snippets_save_due: seeded,
            config_save_due: config_write_ok || config_changed,
        };
        lib.fill_derived();
        proof {
            reveal_strlit("Dark");
            assert("Dark"@ =~= crate::storage::dark_chars());
            crate::theme::lemma_theme_name_round_trip(Theme::Dark);
            assert(crate::theme::name_spec(Theme::Dark) =~= crate::storage::dark_chars());
        }
        lib
    }

    /// Fills in the derived text of a freshly built library.
    fn fill_derived(&mut self)
        ensures
            final(self).aligned(),
            final(self).any_protected == any_protected_in(old(self).snippets@),
            *final(self) == (Library {
                derived: final(self).derived,
                any_protected: final(self).any_protected,
                ..*old(self)
            }),
    {
        let mut ds: Vec<Derived> = Vec::new();
        let mut any = false;
        let mut i: usize = 0;
        while i < self.snippets.len()
            invariant
                i <= self.snippets@.len(),
                ds@.len() == i,
                forall|k: int| 0 <= k < i ==> (#[trigger] ds@[k]).of(self.snippets@[k]),
                any <==> exists|k: int|
                    0 <= k < i && (#[trigger] self.snippets@[k]).protection is Some,
            decreases self.snippets.len() - i,
        {
            let d = Derived::new(&self.snippets[i]);
            ds.push(d);
            if self.snippets[i].protection.is_some() {
                any = true;
            }
            i = i + 1;
        }
        self.derived = ds;
        self.any_protected = any;
    }
}

fn snippet_category_names(v: &Vec<Snippet>) -> (r: Vec<&str>)
    ensures
        r@.map_values(|n: &str| n@) == categories_of(v@),
{
    let mut out: Vec<&str> = Vec::new();
    let mut i: usize = 0;
    while i < v.len()
        invariant
            i <= v@.len(),
            out@.map_values(|n: &str| n@) == categories_of(v@).take(i as int),
        decreases v.len() - i,
    {
        let ghost prev = out@;
        out.push(v[i].category.as_str());
        assert(out@.map_values(|n: &str| n@) =~= prev.map_values(|n: &str| n@).push(
            v@[i as int].category@,
        ));
        assert(categories_of(v@).take(i + 1) =~= categories_of(v@).take(i as int).push(
            v@[i as int].category@,
        ));
        i = i + 1;
    }
    assert(categories_of(v@).take(v.len() as int) =~= categories_of(v@));
    out
}

fn same_strings(a: &Vec<String>, b: &Vec<String>) -> (r: bool)
    ensures
        r == (views(a@) == views(b@)),
{
    if a.len() != b.len() {
        assert(views(a@).len() != views(b@).len());
        return false;
    }
    let mut i: usize = 0;
    while i < a.len()
        invariant
            i <= a@.len() == b@.len(),
            forall|k: int| 0 <= k < i ==> a@[k]@ == b@[k]@,
        decreases a.len() - i,
    {
        if !str_eq(a[i].as_str(), b[i].as_str()) {
            assert(views(a@)[i as int] != views(b@)[i as int]);
            return false;
        }
        i = i + 1;
    }
    assert(views(a@) =~= views(b@));
    true
}

} // verus!
