use copyit::library::{category_color_index, Library};
use copyit::model::{Protection, Snippet};
use copyit::records::{config_from_rows, snippet_from_row, snippet_row, vault_columns};
use copyit::startup::{describe_corrupt_file, StartupLoad};
use copyit::storage::{Config, Load};
use copyit::store::{
    load_after_import, migration_outcomes, plan_legacy_import, ImportPlan, ImportResult,
    LegacyMigration, MigrationOutcome,
};
use copyit::theme::Theme;
use copyit::vault::VaultMeta;

fn snippet(id: u64, category: &str) -> Snippet {
    Snippet {
        id,
        title: format!("Snippet {id}"),
        description: String::new(),
        category: category.to_string(),
        body: format!("body {id}"),
        protection: None,
    }
}

fn config(categories: &[&str], theme: &str) -> Config {
    Config {
        categories: categories.iter().map(|c| c.to_string()).collect(),
        theme: theme.to_string(),
        vault: None,
    }
}

#[test]
fn a_first_launch_seeds_the_starter_library_and_writes_both_files() {
    let lib = Library::from_loads(StartupLoad::Missing, StartupLoad::Missing);
    assert_eq!(lib.snippets.len(), 6);
    assert_eq!(
        lib.snippets.iter().map(|s| s.id).collect::<Vec<_>>(),
        vec![1, 2, 3, 4, 5, 6]
    );
    assert_eq!(lib.categories, vec!["Git".to_string(), "Prompt".to_string()]);
    assert!(lib.snippets_save_due && lib.config_save_due);
    assert!(!lib.refuse_snippets_overwrite && !lib.refuse_config_overwrite);
    assert_eq!(lib.next_id, 7);
    assert_eq!(lib.theme, Theme::Dark);
    assert_eq!(lib.theme_raw.as_deref(), Some("Dark"));
    assert!(lib.vault.is_locked());
    assert!(lib.save_error.is_empty());
    assert_eq!(lib.category_filter, "All");
}

#[test]
fn a_corrupt_file_that_could_not_be_moved_aside_is_never_written() {
    let lib = Library::from_loads(
        StartupLoad::Corrupt {
            error: "expected value at line 1".into(),
            backup: Err("access is denied".into()),
        },
        StartupLoad::Loaded(config(&["Git"], "Nord")),
    );
    assert!(lib.refuse_snippets_overwrite);
    assert!(!lib.snippets_save_due, "the corrupt original must not be replaced");
    assert_eq!(lib.snippets.len(), 6, "a fallback library is shown");
    assert_eq!(
        lib.save_error,
        vec![
            "snippets.json couldn't be read (expected value at line 1) and couldn't be backed up (access is denied). The file was left in place \u{2014} copy it elsewhere before making changes."
                .to_string()
        ]
    );
    assert_eq!(lib.theme, Theme::Nord);
    assert!(lib.recovery_notice().unwrap().contains("snippets.json couldn't be backed up"));
}

#[test]
fn a_corrupt_file_moved_aside_is_replaced_by_the_defaults_and_noted() {
    let lib = Library::from_loads(
        StartupLoad::Loaded(vec![snippet(1, "git")]),
        StartupLoad::Corrupt {
            error: "EOF while parsing".into(),
            backup: Ok("C:/data/config.json.corrupt".into()),
        },
    );
    assert!(!lib.refuse_config_overwrite);
    assert!(lib.config_save_due);
    assert!(!lib.snippets_save_due);
    assert_eq!(lib.snippets[0].category, "Git", "categories are made canonical");
    assert_eq!(lib.categories, vec!["Git".to_string()]);
    assert_eq!(
        lib.save_error,
        vec![
            "config.json couldn't be read (EOF while parsing). It was kept as C:/data/config.json.corrupt and the default library was loaded."
                .to_string()
        ]
    );
    assert!(lib.recovery_notice().is_none());
}

#[test]
fn a_loaded_config_is_sanitized_completed_and_saved_only_when_it_changed() {
    let lib = Library::from_loads(
        StartupLoad::Loaded(vec![snippet(1, "Docker"), snippet(2, "")]),
        StartupLoad::Loaded(config(&["all", "git", "GIT"], "no such theme")),
    );
    assert_eq!(
        lib.categories,
        vec![
            "Docker".to_string(),
            "Git".to_string(),
            "Uncategorized".to_string()
        ]
    );
    assert_eq!(lib.snippets[1].category, "Uncategorized");
    assert!(lib.config_save_due);
    assert_eq!(lib.theme, Theme::Dark);
    assert_eq!(lib.theme_raw.as_deref(), Some("no such theme"));
    assert_eq!(lib.config_to_save().theme, "no such theme", "an unknown name is kept");

    let clean = Library::from_loads(
        StartupLoad::Loaded(vec![snippet(1, "Git")]),
        StartupLoad::Loaded(config(&["Git"], "Nord")),
    );
    assert!(!clean.config_save_due, "nothing changed, nothing written");
    assert_eq!(clean.config_to_save().theme, "Nord");
}

#[test]
fn duplicate_ids_are_repaired_at_launch() {
    let lib = Library::from_loads(
        StartupLoad::Loaded(vec![snippet(4, "Git"), snippet(4, "Git"), snippet(9, "Git")]),
        StartupLoad::Loaded(config(&["Git"], "Dark")),
    );
    assert_eq!(
        lib.snippets.iter().map(|s| s.id).collect::<Vec<_>>(),
        vec![4, 10, 9]
    );
    assert_eq!(lib.next_id, 11);
    assert_eq!(lib.derived.len(), 3);
}

#[test]
fn the_corrupt_file_note_says_where_the_copy_went() {
    let (note, moved) = describe_corrupt_file("snippets.json", "bad json", &Ok("x.corrupt".into()));
    assert!(moved);
    assert_eq!(
        note,
        "snippets.json couldn't be read (bad json). It was kept as x.corrupt and the default library was loaded."
    );
    let (note, moved) = describe_corrupt_file("config.json", "bad json", &Err("locked".into()));
    assert!(!moved);
    assert!(note.ends_with("copy it elsewhere before making changes."));
}

#[test]
fn a_corrupt_legacy_source_with_nothing_loaded_refuses_the_import() {
    match plan_legacy_import(Load::Corrupt("bad snippets".into()), Load::Missing) {
        ImportPlan::Refuse(reason) => assert_eq!(reason, "bad snippets"),
        other => panic!("expected Refuse, got {other:?}"),
    }
    match plan_legacy_import(Load::Missing, Load::Corrupt("bad config".into())) {
        ImportPlan::Refuse(reason) => assert_eq!(reason, "bad config"),
        other => panic!("expected Refuse, got {other:?}"),
    }
    assert!(matches!(
        plan_legacy_import(Load::Missing, Load::Missing),
        ImportPlan::NoSource
    ));
}

#[test]
fn a_legacy_import_brings_what_loaded_and_builds_a_missing_config() {
    match plan_legacy_import(Load::Loaded(vec![snippet(1, "prompt")]), Load::Missing) {
        ImportPlan::Import { snippets, config } => {
            assert_eq!(snippets.len(), 1);
            assert_eq!(config.categories, vec!["Prompt".to_string()]);
            assert_eq!(config.theme, "Dark");
        }
        other => panic!("expected Import, got {other:?}"),
    }
    match plan_legacy_import(
        Load::Corrupt("bad".into()),
        Load::Loaded(config(&["Git"], "Nord")),
    ) {
        ImportPlan::Import { snippets, config } => {
            assert!(snippets.is_empty());
            assert_eq!(config.theme, "Nord");
        }
        other => panic!("expected Import, got {other:?}"),
    }
}

#[test]
fn migration_outcomes_follow_the_import() {
    let m = migration_outcomes(ImportResult::Imported, "a/snippets.json".into(), "a/config.json".into());
    assert_eq!(
        m.snippets,
        MigrationOutcome::Migrated { source: "a/snippets.json".into() }
    );
    assert!(!m.all_clean());
    let m = migration_outcomes(ImportResult::NoSource, "s".into(), "c".into());
    assert!(m.all_clean());
    let m = migration_outcomes(ImportResult::Corrupt("denied".into()), "s".into(), "c".into());
    assert_eq!(
        m.config,
        MigrationOutcome::Blocked { source: "c".into(), reason: "denied".into() }
    );
    let clean = LegacyMigration {
        snippets: MigrationOutcome::NotNeeded,
        config: MigrationOutcome::NoSource,
    };
    assert!(clean.all_clean());
}

#[test]
fn a_load_after_an_import_attempt_answers_without_the_store_unless_imported() {
    assert!(load_after_import::<Vec<Snippet>>(&ImportResult::Imported).is_none());
    assert!(matches!(
        load_after_import::<Config>(&ImportResult::NoSource),
        Some(Load::Missing)
    ));
    match load_after_import::<Config>(&ImportResult::Corrupt("bad".into())) {
        Some(Load::Corrupt(m)) => assert_eq!(m, "bad"),
        other => panic!("expected Corrupt, got {other:?}"),
    }
}

#[test]
fn snippet_rows_round_trip_and_keep_protected_bodies_empty() {
    let plain = snippet(3, "Git");
    let row = snippet_row(&plain, 7);
    assert_eq!(row.sort_order, 7);
    assert_eq!(row.body, "body 3");
    assert!(row.protection_hint.is_none());
    assert_eq!(snippet_from_row(row), plain);

    let protected = Snippet {
        id: 4,
        title: "Secret".into(),
        description: "d".into(),
        category: "Git".into(),
        body: "leaked?".into(),
        protection: Some(Protection {
            hint: "abcde".into(),
            nonce: "n".into(),
            ciphertext: "c".into(),
        }),
    };
    let row = snippet_row(&protected, 0);
    assert_eq!(row.body, "", "the table keeps a protected body empty");
    let back = snippet_from_row(row);
    assert_eq!(back.protection, protected.protection);
    assert_eq!(back.body, "");
}

#[test]
fn a_vault_is_read_back_only_when_all_three_columns_are_set() {
    let c = config_from_rows("Dark".into(), Some("s".into()), Some("n".into()), None, vec![]);
    assert!(c.vault.is_none());
    let meta = VaultMeta {
        salt: "s".into(),
        nonce: "n".into(),
        canary: "c".into(),
    };
    let (s, n, k) = vault_columns(&Some(meta.clone()));
    let c = config_from_rows("Nord".into(), s, n, k, vec!["Git".into()]);
    assert_eq!(c.vault.unwrap().canary, "c");
    assert_eq!(c.theme, "Nord");
    assert_eq!(vault_columns(&None), (None, None, None));
}

#[test]
fn category_badge_colors_are_stable() {
    // "Git": ((71 * 31 + 105) * 31 + 116) % 6 == 4.
    assert_eq!(category_color_index("Git"), 4);
    assert_eq!(category_color_index(""), 0);
    assert_eq!(category_color_index("Prompt"), category_color_index("Prompt"));
    assert!(category_color_index("Some long category name") < 6);
}
