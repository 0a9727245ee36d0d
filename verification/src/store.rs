//! The rules of the one-time migration from the legacy JSON files into the
//! SQLite store: when an import happens, what it brings in, and what each
//! legacy file's outcome is. The store itself (paths, SQLite, files) belongs
//! to the front end.
use vstd::prelude::*;

use crate::library::Library;
use crate::model::Snippet;
use crate::order::views;
use crate::storage::{category_pool, dark_chars, strictly_sorted, Config, Load};

verus! {

/// Outcome of migrating one legacy data file into the SQLite store.
#[derive(Debug, PartialEq)]
pub enum MigrationOutcome {
    /// The SQLite store already existed; the legacy file was ignored.
    NotNeeded,
    /// There was no legacy data to migrate.
    NoSource,
    /// The file at `source` was imported.
    Migrated { source: String },
    /// The file at `source` exists but couldn't be imported (`reason`).
    Blocked { source: String, reason: String },
}

impl MigrationOutcome {
    /// A clean outcome: nothing was left behind unmigrated.
    pub open spec fn clean(self) -> bool {
        self is NotNeeded || self is NoSource
    }
}

/// Per-file outcomes of the legacy migration, so a blocked migration cannot
/// pass for a clean first launch.
#[derive(Debug)]
pub struct LegacyMigration {
    pub snippets: MigrationOutcome,
    pub config: MigrationOutcome,
}

impl LegacyMigration {
    /// True when neither file was migrated nor blocked.
    pub fn all_clean(&self) -> (r: bool)
        ensures
            r == (self.snippets.clean() && self.config.clean()),
    {
        let s = match self.snippets {
            MigrationOutcome::NotNeeded | MigrationOutcome::NoSource => true,
            _ => false,
        };
        let c = match self.config {
            MigrationOutcome::NotNeeded | MigrationOutcome::NoSource => true,
            _ => false,
        };
        s && c
    }
}

/// Result of one attempt to import the legacy JSON files.
#[derive(Debug)]
pub enum ImportResult {
    Imported,
    NoSource,
    Corrupt(String),
}

/// What an import does with what was read from the legacy files.
#[derive(Debug)]
pub enum ImportPlan {
    /// Nothing to import.
    NoSource,
    /// A legacy file is corrupt and nothing else loaded: the store must not
    /// be created over it.
    Refuse(String),
    /// Write these snippets and this config into a new store.
    Import { snippets: Vec<Snippet>, config: Config },
}

/// Decides a legacy import from what the two legacy files held. A corrupt
/// source with nothing loaded refuses (naming the first corrupt file's
/// error); nothing at all means no source; otherwise what loaded is imported,
/// a missing config being built from the imported snippets.
pub fn plan_legacy_import(snippets_src: Load<Vec<Snippet>>, config_src: Load<Config>) -> (r:
    ImportPlan)
    ensures
        ({
            let any_loaded = snippets_src is Loaded || config_src is Loaded;
            let any_corrupt = snippets_src is Corrupt || config_src is Corrupt;
            if any_corrupt && !any_loaded {
                r matches ImportPlan::Refuse(m) && m@ == match snippets_src {
                    Load::Corrupt(e) => e@,
                    _ => match config_src {
                        Load::Corrupt(e) => e@,
                        _ => Seq::empty(),
                    },
                }
            } else if !any_loaded {
                r is NoSource
            } else {
                r matches ImportPlan::Import { snippets, config } && snippets@ == match snippets_src {
                    Load::Loaded(v) => v@,
                    _ => Seq::empty(),
                } && match config_src {
                    Load::Loaded(c) => config == c,
                    _ => strictly_sorted(views(config.categories@)) && views(
                        config.categories@,
                    ).to_set() == category_pool(snippets@).to_set() && config.theme@ == dark_chars()
                        && config.vault is None,
                }
            }
        }),
{
    let any_loaded = snippets_src.is_loaded() || config_src.is_loaded();
    let any_corrupt = snippets_src.is_corrupt() || config_src.is_corrupt();
    if any_corrupt && !any_loaded {
        let reason = match snippets_src {
            Load::Corrupt(e) => e,
            _ => match config_src {
                Load::Corrupt(e) => e,
                _ => String::new(),
            },
        };
        return ImportPlan::Refuse(reason);
    }
    if !any_loaded {
        return ImportPlan::NoSource;
    }
    let snippets = match snippets_src {
        Load::Loaded(v) => v,
        _ => Vec::new(),
    };
    let config = match config_src {
        Load::Loaded(c) => c,
        _ => Config::from_snippets(snippets.as_slice()),
    };
    ImportPlan::Import { snippets, config }
}

impl<T> Load<T> {
    pub fn is_loaded(&self) -> (r: bool)
        ensures
            r == self is Loaded,
    {
        match self {
            Load::Loaded(_) => true,
            _ => false,
        }
    }

    pub fn is_corrupt(&self) -> (r: bool)
        ensures
            r == self is Corrupt,
    {
        match self {
            Load::Corrupt(_) => true,
            _ => false,
        }
    }
}

/// The per-file outcomes of a migration that ran an import (the SQLite store
/// did not exist yet), given the two legacy files' locations.
pub fn migration_outcomes(result: ImportResult, snippets_source: String, config_source: String) -> (r:
    LegacyMigration)
    ensures
        match result {
            ImportResult::Imported => r.snippets == (MigrationOutcome::Migrated {
                source: snippets_source,
            }) && r.config == (MigrationOutcome::Migrated { source: config_source }),
            ImportResult::NoSource => r.snippets is NoSource && r.config is NoSource,
            ImportResult::Corrupt(reason) => (r.snippets matches MigrationOutcome::Blocked {
                source,
                reason: a,
            } && source == snippets_source && a@ == reason@) && (
            r.config matches MigrationOutcome::Blocked { source, reason: b } && source
                == config_source && b@ == reason@),
        },
{
    match result {
        ImportResult::Imported => LegacyMigration {
            snippets: MigrationOutcome::Migrated { source: snippets_source },
            config: MigrationOutcome::Migrated { source: config_source },
        },
        ImportResult::NoSource => LegacyMigration {
            snippets: MigrationOutcome::NoSource,
            config: MigrationOutcome::NoSource,
        },
        ImportResult::Corrupt(reason) => LegacyMigration {
            snippets: MigrationOutcome::Blocked { source: snippets_source, reason: reason.clone() },
            config: MigrationOutcome::Blocked { source: config_source, reason },
        },
    }
}

/// What a load answers without reading the store, once the import attempt
/// is known: a corrupt legacy source is `Corrupt`, no source is `Missing`;
/// `None` after an import, when the new store is to be read.
pub fn load_after_import<T>(result: &ImportResult) -> (r: Option<Load<T>>)
    ensures
        match *result {
            ImportResult::Imported => r is None,
            ImportResult::NoSource => r matches Some(l) && l is Missing,
            ImportResult::Corrupt(reason) => r matches Some(l) && (l matches Load::Corrupt(m)
                && m@ == reason@),
        },
{
    match result {
        ImportResult::Imported => None,
        ImportResult::NoSource => Some(Load::Missing),
        ImportResult::Corrupt(reason) => Some(Load::Corrupt(reason.clone())),
    }
}

/// The banner entry for a data folder that couldn't be created.
pub open spec fn data_folder_note(dir: Seq<char>, e: Seq<char>) -> Seq<char> {
    "Couldn't create the data folder "@ + dir + ": "@ + e
        + ". Settings and snippets can't be saved."@
}

/// The banner entry for a legacy file that couldn't be migrated.
pub open spec fn blocked_note(filename: Seq<char>, source: Seq<char>, reason: Seq<char>) -> Seq<
    char,
> {
    "A previous "@ + filename + " was found at "@ + source
        + " but couldn't be brought into the data folder ("@ + reason
        + "). It was left untouched \u{2014} copy it into the data folder manually, then restart CopyIt."@
}

/// The banner entries a migration outcome contributes.
pub open spec fn outcome_notes(filename: Seq<char>, o: MigrationOutcome) -> Seq<Seq<char>> {
    match o {
        MigrationOutcome::Blocked { source, reason } => seq![
            blocked_note(filename, source@, reason@),
        ],
        _ => Seq::empty(),
    }
}

fn blocked_message(filename: &str, source: &str, reason: &str) -> (r: String)
    ensures
        r@ == blocked_note(filename@, source@, reason@),
{
    let mut m = String::from_str("A previous ");
    m.append(filename);
    m.append(" was found at ");
    m.append(source);
    m.append(" but couldn't be brought into the data folder (");
    m.append(reason);
    m.append(
        "). It was left untouched \u{2014} copy it into the data folder manually, then restart CopyIt.",
    );
    m
}

impl Library {
    /// Reports startup-level storage problems in the banner: a data folder
    /// that couldn't be created, and legacy files that exist but couldn't be
    /// migrated. Clean outcomes add nothing.
    pub fn note_startup_problems(
        &mut self,
        init_error: Option<String>,
        data_dir: &str,
        migration: &LegacyMigration,
    )
        ensures
            old(self).filter_sound() ==> final(self).filter_sound(),
            views(final(self).save_error@) == views(old(self).save_error@) + match init_error {
                Some(e) => seq![data_folder_note(data_dir@, e@)],
                None => Seq::empty(),
            } + outcome_notes("snippets.json"@, migration.snippets) + outcome_notes(
                "config.json"@,
                migration.config,
            ),
            *final(self) == (Library { save_error: final(self).save_error, ..*old(self) }),
    {
        let ghost e0 = views(self.save_error@);
        match init_error {
            Some(e) => {
                let mut m = String::from_str("Couldn't create the data folder ");
                m.append(data_dir);
                m.append(": ");
                m.append(e.as_str());
                m.append(". Settings and snippets can't be saved.");
                self.save_error.push(m);
            },
            None => {},
        }
        let ghost e1 = views(self.save_error@);
        match &migration.snippets {
            MigrationOutcome::Blocked { source, reason } => {
                let m = blocked_message("snippets.json", source.as_str(), reason.as_str());
                self.save_error.push(m);
            },
            _ => {},
        }
        let ghost e2 = views(self.save_error@);
        assert(e2 =~= e1 + outcome_notes("snippets.json"@, migration.snippets));
        match &migration.config {
            MigrationOutcome::Blocked { source, reason } => {
                let m = blocked_message("config.json", source.as_str(), reason.as_str());
                self.save_error.push(m);
            },
            _ => {},
        }
        assert(views(self.save_error@) =~= e2 + outcome_notes("config.json"@, migration.config));
        assert(e1 =~= e0 + match init_error {
            Some(e) => seq![data_folder_note(data_dir@, e@)],
            None => Seq::<Seq<char>>::empty(),
        });
    }
}

} // verus!
