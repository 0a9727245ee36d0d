use copyit::ids::dedup_snippet_ids;
use copyit::model::{Protection, Snippet};
use copyit::order::{sort_strings, str_le};
use copyit::records::{config_from_rows, snippet_from_row, snippet_row, vault_columns};
use copyit::storage::{normalize_category, same_category, Config};
use copyit::theme::Theme;
use copyit::vault::VaultMeta;

fn snippet(id: u64, title: &str) -> Snippet {
    Snippet {
        id,
        title: title.to_string(),
        description: String::new(),
        category: "Git".to_string(),
        body: format!("body of {title}"),
        protection: None,
    }
}

fn config_with(categories: &[&str]) -> Config {
    Config {
        categories: categories.iter().map(|c| c.to_string()).collect(),
        theme: "Dark".to_string(),
        vault: None,
    }
}

#[test]
fn adding_categories_in_one_batch_matches_adding_them_in_steps() {
    let batch: [&str; 5] = ["zsh", "  git ", "ALL", "Docker", "GIT"];
    let mut at_once = config_with(&["Prompts", "Build"]);
    at_once.add_categories(&batch);

    let mut stepwise = config_with(&["Prompts", "Build"]);
    stepwise.add_categories(&batch[..2]);
    stepwise.add_categories(&batch[2..]);

    assert_eq!(at_once.categories, stepwise.categories);
    assert_eq!(
        at_once.categories,
        vec!["Build", "Docker", "Git", "Prompts", "Zsh"]
    );
}

#[test]
fn adding_nothing_new_leaves_an_unsorted_list_as_it_was() {
    let mut cfg = config_with(&["Zsh", "Git"]);
    cfg.add_categories(&["git", " ", "all", "ZSH"]);
    assert_eq!(cfg.categories, vec!["Zsh", "Git"]);
}

#[test]
fn a_stored_snippet_reads_back_unchanged() {
    let plain = Snippet {
        id: u64::MAX,
        title: "T".to_string(),
        description: "D".to_string(),
        category: "Git".to_string(),
        body: "plain".to_string(),
        protection: None,
    };
    let row = snippet_row(&plain, 7);
    assert_eq!(row.id, -1);
    assert_eq!(row.sort_order, 7);
    assert_eq!(snippet_from_row(row), plain);

    let protected = Snippet {
        id: 2,
        title: "Secret".to_string(),
        description: String::new(),
        category: "Git".to_string(),
        body: String::new(),
        protection: Some(Protection {
            hint: "h".to_string(),
            nonce: "n".to_string(),
            ciphertext: "c".to_string(),
        }),
    };
    let row = snippet_row(&protected, 0);
    assert_eq!(row.body, "");
    assert_eq!(row.protection_hint.as_deref(), Some("h"));
    assert_eq!(snippet_from_row(row), protected);
}

#[test]
fn a_protected_snippet_never_stores_a_cleartext_body() {
    let mut s = snippet(3, "Secret");
    s.protection = Some(Protection {
        hint: String::new(),
        nonce: "n".to_string(),
        ciphertext: "c".to_string(),
    });
    let row = snippet_row(&s, 1);
    assert_eq!(row.body, "");
    assert_eq!(snippet_from_row(row).body, "");
}

#[test]
fn a_row_with_partial_protection_reads_as_plain() {
    let mut row = snippet_row(&snippet(4, "Half"), 0);
    row.protection_hint = Some("h".to_string());
    row.protection_nonce = Some("n".to_string());
    let read = snippet_from_row(row);
    assert!(read.protection.is_none());
    assert_eq!(read.body, "body of Half");
}

#[test]
fn vault_columns_read_back_as_the_same_metadata() {
    let meta: Option<VaultMeta> = Some(VaultMeta {
        salt: "s".to_string(),
        nonce: "n".to_string(),
        canary: "c".to_string(),
    });
    let (salt, nonce, canary) = vault_columns(&meta);
    let cfg = config_from_rows(
        "Nord".to_string(),
        salt,
        nonce,
        canary,
        vec!["Git".to_string(), "Prompt".to_string()],
    );
    assert_eq!(cfg.theme, "Nord");
    assert_eq!(cfg.categories, vec!["Git".to_string(), "Prompt".to_string()]);
    let read = cfg.vault.expect("all three vault columns were set");
    assert_eq!(read.salt, "s");
    assert_eq!(read.nonce, "n");
    assert_eq!(read.canary, "c");

    let (salt, nonce, canary) = vault_columns(&None);
    assert!(salt.is_none() && nonce.is_none() && canary.is_none());
    let cfg = config_from_rows("Dark".to_string(), salt, nonce, canary, Vec::new());
    assert!(cfg.vault.is_none());
}

#[test]
fn dedup_keeps_each_first_occurrence_and_renumbers_the_rest() {
    let mut snippets = vec![
        snippet(5, "a"),
        snippet(3, "b"),
        snippet(5, "c"),
        snippet(3, "d"),
        snippet(7, "e"),
    ];
    dedup_snippet_ids(&mut snippets);
    let ids: Vec<u64> = snippets.iter().map(|s| s.id).collect();
    assert_eq!(ids, vec![5, 3, 8, 9, 7]);
    let titles: Vec<&str> = snippets.iter().map(|s| s.title.as_str()).collect();
    assert_eq!(titles, vec!["a", "b", "c", "d", "e"]);
}

#[test]
fn normalizing_twice_changes_nothing() {
    for raw in ["  git   hub ", "ALL", "prompts", "", "  ", "Été  café", "x"] {
        let once = normalize_category(raw);
        assert_eq!(normalize_category(&once), once, "raw = {raw:?}");
    }
}

#[test]
fn matching_category_names_is_an_equivalence() {
    let names = ["Git", "GIT", "git", "Gît", "GÎT", "Prompts"];
    for a in names {
        assert!(same_category(a, a));
        for b in names {
            assert_eq!(same_category(a, b), same_category(b, a));
            for c in names {
                if same_category(a, b) && same_category(b, c) {
                    assert!(same_category(a, c));
                }
            }
        }
    }
    assert!(same_category("Gît", "GÎT"));
    assert!(!same_category("Git", "Gît"));
}

#[test]
fn string_order_is_a_total_order_and_sorting_follows_it() {
    let words = ["b", "a", "ab", "", "B", "é", "a"];
    for x in words {
        assert!(str_le(x, x));
        for y in words {
            assert!(str_le(x, y) || str_le(y, x));
            if str_le(x, y) && str_le(y, x) {
                assert_eq!(x, y);
            }
        }
    }
    let sorted = sort_strings(words.iter().map(|w| w.to_string()).collect());
    assert_eq!(sorted, vec!["", "B", "a", "a", "ab", "b", "é"]);
}

#[test]
fn every_theme_name_parses_back_to_its_theme() {
    let all = Theme::all();
    for t in all.iter() {
        assert_eq!(Theme::from_name(t.name()), Some(*t));
    }
    for (i, a) in all.iter().enumerate() {
        for b in all.iter().skip(i + 1) {
            assert_ne!(a.name(), b.name());
        }
    }
}
