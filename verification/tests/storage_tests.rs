use copyit::model::Snippet;
use copyit::storage::{
    canonical_category, corrupt_backup_name, data_file_text, is_reserved_category,
    normalize_category, same_category, Config, DataFileRead, Load, UNCATEGORIZED,
};

fn snippet(id: u64, category: &str) -> Snippet {
    Snippet {
        id,
        title: format!("Snippet {id}"),
        description: String::new(),
        category: category.to_string(),
        body: "body".to_string(),
        protection: None,
    }
}

#[test]
fn normalize_category_title_cases_and_collapses_whitespace() {
    assert_eq!(normalize_category("  git "), "Git");
    assert_eq!(normalize_category("GIT"), "Git");
    assert_eq!(normalize_category("gIt   hUb  helpers"), "Git Hub Helpers");
    assert_eq!(normalize_category("   "), "");
}

#[test]
fn reserved_categories_are_rejected() {
    assert!(is_reserved_category(""));
    assert!(is_reserved_category("   "));
    assert!(is_reserved_category("all"));
    assert!(is_reserved_category("ALL"));
    assert!(is_reserved_category(" All "));
    assert!(!is_reserved_category("Git"));
    assert!(!is_reserved_category("Alliteration"));
}

#[test]
fn canonical_category_maps_unusable_names_to_uncategorized() {
    assert_eq!(canonical_category(""), UNCATEGORIZED);
    assert_eq!(canonical_category("   "), UNCATEGORIZED);
    assert_eq!(canonical_category("all"), UNCATEGORIZED);
    assert_eq!(canonical_category("  git "), "Git");
}

#[test]
fn config_add_categories_dedupes_case_insensitively() {
    let mut config = Config::default();
    config.add_categories(&["git", "GIT", "  Git  ", "all", ""]);
    assert_eq!(config.categories, vec!["Git".to_string()]);

    config.add_categories(&["prompt"]);
    config.add_categories(&["Docker", "prompt", "ansible"]);
    assert_eq!(
        config.categories,
        vec![
            "Ansible".to_string(),
            "Docker".to_string(),
            "Git".to_string(),
            "Prompt".to_string(),
        ]
    );
}

#[test]
fn same_category_ignores_case_for_ascii_and_unicode() {
    assert!(same_category("git", "GIT"));
    assert!(same_category("Git Hub", "git hub"));
    assert!(!same_category("git", "gitt"));
    assert!(same_category("Café", "CAFÉ"));
    assert!(!same_category("Café", "Cafe"));
}

#[test]
fn config_from_snippets_skips_reserved_categories() {
    let snippets = vec![snippet(1, "git"), snippet(2, "All"), snippet(3, "")];
    let config = Config::from_snippets(&snippets);
    assert_eq!(config.categories, vec!["Git".to_string()]);
    assert_eq!(config.theme, "Dark");
}

#[test]
fn normalize_category_is_idempotent_for_ascii() {
    let inputs = ["git", "GIT", "Git", "  git  ", "api git", "macOS", "iPhone"];
    for input in inputs {
        let once = normalize_category(input);
        let twice = normalize_category(&once);
        assert_eq!(
            once, twice,
            "double-normalize changed '{input}': '{once}' -> '{twice}'"
        );
    }
}

#[test]
fn config_from_snippets_sorts_and_dedupes() {
    let snippets = vec![
        snippet(1, "prompt"),
        snippet(2, "GIT"),
        snippet(3, "git"),
        snippet(4, "  docker  "),
    ];
    let config = Config::from_snippets(&snippets);
    assert_eq!(
        config.categories,
        vec!["Docker".to_string(), "Git".to_string(), "Prompt".to_string()]
    );
    assert!(config.vault.is_none());
}

#[test]
fn an_empty_or_whitespace_file_is_missing_not_corrupt() {
    assert!(matches!(
        data_file_text(DataFileRead::NotFound, 100),
        Load::Missing
    ));
    assert!(matches!(
        data_file_text(DataFileRead::Text(String::new()), 100),
        Load::Missing
    ));
    assert!(matches!(
        data_file_text(DataFileRead::Text(" \n\t ".into()), 100),
        Load::Missing
    ));
    match data_file_text(DataFileRead::Text("[]".into()), 100) {
        Load::Loaded(t) => assert_eq!(t, "[]"),
        other => panic!("expected Loaded, got {other:?}"),
    }
}

#[test]
fn an_oversized_or_unreadable_file_is_corrupt_with_its_reason() {
    match data_file_text(DataFileRead::Oversized { bytes: Some(2048) }, 1024) {
        Load::Corrupt(m) => assert_eq!(m, "file is too large (2048 bytes, limit 1024)"),
        other => panic!("expected Corrupt, got {other:?}"),
    }
    match data_file_text(DataFileRead::Oversized { bytes: None }, 1024) {
        Load::Corrupt(m) => assert_eq!(m, "file is too large (limit 1024)"),
        other => panic!("expected Corrupt, got {other:?}"),
    }
    match data_file_text(DataFileRead::Unreadable("access is denied".into()), 1024) {
        Load::Corrupt(m) => assert_eq!(m, "access is denied"),
        other => panic!("expected Corrupt, got {other:?}"),
    }
}

#[test]
fn corrupt_backups_are_numbered_after_the_first() {
    assert_eq!(corrupt_backup_name("snippets.json", 0), "snippets.json.corrupt");
    assert_eq!(corrupt_backup_name("snippets.json", 1), "snippets.json.corrupt.1");
    assert_eq!(corrupt_backup_name("config.json", 12), "config.json.corrupt.12");
}

#[test]
fn same_category_is_symmetric_and_transitive_on_examples() {
    let names = ["Git", "GIT", "git", "Prompt"];
    for a in names {
        for b in names {
            assert_eq!(same_category(a, b), same_category(b, a));
            for c in names {
                if same_category(a, b) && same_category(b, c) {
                    assert!(same_category(a, c));
                }
            }
        }
    }
}
