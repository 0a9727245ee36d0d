use base64::Engine;
use copyit::clipboard::SimState;
use copyit::editor::Editor;
use copyit::ids::{dedup_snippet_ids, next_free_id_from_1, next_snippet_id};
use copyit::library::{sanitize_categories, Library, CONFIG_SAVE_ERROR, SNIPPETS_SAVE_ERROR};
use copyit::model::{Protection, Snippet};
use copyit::preview::{preview_text, PREVIEW_CHARS};
use copyit::session::{
    CardAction, ClipboardWrite, PendingVaultAction, VaultJob, VaultPrompt, VaultPromptMode,
    VaultWorkOutput, WorkStep,
};
use copyit::startup::StartupLoad;
use copyit::storage::Config;
use copyit::store::{LegacyMigration, MigrationOutcome};
use copyit::vault::{self, VaultError, VaultMeta};

/// What the front end's store would hold: the last written library and config.
struct Disk {
    snippets: Vec<Snippet>,
    config: Option<Config>,
    fail: Option<String>,
}

fn clone_config(c: &Config) -> Config {
    Config {
        categories: c.categories.clone(),
        theme: c.theme.clone(),
        vault: c.vault.clone(),
    }
}

/// Performs the writes the library asked for, as the front end does.
fn flush(lib: &mut Library, disk: &mut Disk) -> Result<(), String> {
    let mut result = Ok(());
    if lib.config_save_due {
        if lib.vault_meta.is_none() {
            if let Some(c) = &disk.config {
                lib.adopt_disk_vault(c.vault.clone());
            }
        }
        let cfg = lib.config_to_save();
        let outcome = match &disk.fail {
            Some(e) => Err(e.clone()),
            None => {
                disk.config = Some(cfg);
                Ok(())
            }
        };
        result = lib.config_saved(outcome);
    }
    if lib.snippets_save_due {
        let outcome = match &disk.fail {
            Some(e) => Err(e.clone()),
            None => {
                disk.snippets = lib.snippets.clone();
                Ok(())
            }
        };
        lib.snippets_saved(outcome);
    }
    result
}

fn test_lib(snippets: Vec<Snippet>, categories: Vec<String>) -> (Library, Disk) {
    let config = Config {
        categories,
        theme: "Dark".into(),
        vault: None,
    };
    let disk = Disk {
        snippets: snippets.clone(),
        config: Some(clone_config(&config)),
        fail: None,
    };
    let lib = Library::from_loads(StartupLoad::Loaded(snippets), StartupLoad::Loaded(config));
    (lib, disk)
}

fn snippet(id: u64, category: &str) -> Snippet {
    Snippet {
        id,
        title: format!("Snippet {id}"),
        description: String::new(),
        category: category.to_string(),
        body: format!("body {id}"),
        protection: None,
    }
}

fn protected_snippet(id: u64, category: &str, hint: &str) -> Snippet {
    Snippet {
        id,
        title: format!("Secret {id}"),
        description: String::new(),
        category: category.to_string(),
        body: String::new(),
        protection: Some(Protection {
            hint: hint.to_string(),
            nonce: "bm9uY2U=".into(),
            ciphertext: "Y2lwaGVy".into(),
        }),
    }
}

fn ids(lib: &Library) -> Vec<u64> {
    lib.snippets.iter().map(|s| s.id).collect()
}

fn protected_test_lib(body: &str) -> (Library, Disk, VaultMeta, [u8; 32]) {
    let (meta, key) = vault::create_vault("password1").unwrap();
    let protection = vault::encrypt_body(&key, body).unwrap();
    let (mut lib, disk) = test_lib(
        vec![Snippet {
            id: 1,
            title: "Secret".into(),
            description: String::new(),
            category: "Git".into(),
            body: String::new(),
            protection: Some(protection),
        }],
        vec!["Git".into()],
    );
    lib.vault_meta = Some(meta.clone());
    (lib, disk, meta, key)
}

/// Puts a copy on the simulated clipboard as the front end does.
fn place(lib: &mut Library, clip: &mut SimState, w: Option<ClipboardWrite>, now_ms: u64) {
    if let Some(w) = w {
        let outcome = clip.set_text(&w.text);
        let seq = clip.sequence();
        lib.copy_placed(w.id, w.protected, now_ms, outcome, Some(seq));
    }
}

fn tick(lib: &mut Library, clip: &mut SimState, now_ms: u64) {
    if lib.tick_clipboard(now_ms, Some(clip.sequence())) {
        let _ = clip.clear();
    }
}

fn run_job(job: VaultJob) -> Result<VaultWorkOutput, VaultError> {
    match job {
        VaultJob::Create { password } => {
            vault::create_vault(&password).map(|(meta, key)| VaultWorkOutput::Created(meta, key))
        }
        VaultJob::Unlock { password, meta } => {
            vault::verify_password(&password, &meta).map(VaultWorkOutput::Unlocked)
        }
    }
}

/// Submits the prompt, runs the job and applies its result, as the front end does.
fn submit(lib: &mut Library, disk: &mut Disk, prompt: VaultPrompt) -> Option<ClipboardWrite> {
    let (kept, job) = lib.handle_vault_prompt(prompt);
    lib.vault_prompt = Some(kept);
    let job = job?;
    let output = run_job(job);
    match lib.vault_work_done(output) {
        WorkStep::Nothing => None,
        WorkStep::Run(pending) => pending.and_then(|p| lib.run_pending_vault_action(p)),
        WorkStep::PersistNewVault(pending) => {
            let r = flush(lib, disk);
            lib.new_vault_persisted(r, pending)
                .and_then(|p| lib.run_pending_vault_action(p))
        }
    }
}

#[test]
fn preview_text_clips_a_single_gigantic_token() {
    let blob = "A".repeat(1_000_000);
    let preview = preview_text(&blob, PREVIEW_CHARS);
    assert_eq!(preview.chars().count(), PREVIEW_CHARS);
    assert!(preview.ends_with('\u{2026}'));
    assert!(preview.starts_with('A'));

    let preview = preview_text(&format!("git {blob}"), PREVIEW_CHARS);
    assert_eq!(preview.chars().count(), PREVIEW_CHARS);
    assert!(preview.ends_with('\u{2026}'));
}

#[test]
fn preview_text_collapses_and_truncates() {
    assert_eq!(preview_text("  git   stash \n pop  ", 220), "git stash pop");
    assert_eq!(preview_text("", 220), "");

    let long = "word ".repeat(400);
    let preview = preview_text(&long, 10);
    assert_eq!(preview.chars().count(), 10);
    assert!(preview.ends_with('\u{2026}'));
    assert!(preview.starts_with("word word"));

    let unicode = "\u{00e9}".repeat(50);
    assert_eq!(preview_text(&unicode, 10).chars().count(), 10);
    assert_eq!(preview_text(&unicode, 100), unicode);

    let (lib, _) = test_lib(
        vec![Snippet {
            id: 1,
            title: "T".into(),
            description: String::new(),
            category: "Git".into(),
            body: "  first    line\nsecond line  ".into(),
            protection: None,
        }],
        vec!["Git".into()],
    );
    assert_eq!(lib.derived[0].preview, "first line second line");
    assert_eq!(lib.derived[0].body_lower, "  first    line\nsecond line  ");
}

#[test]
fn sanitize_categories_drops_reserved_and_normalizes() {
    let raw = vec![
        "all".to_string(),
        "  GIT ".to_string(),
        "git".to_string(),
        "".to_string(),
        "Prompt".to_string(),
    ];
    let clean = sanitize_categories(&raw);
    assert_eq!(clean, vec!["Git".to_string(), "Prompt".to_string()]);
    assert!(!clean.iter().any(|c| c.eq_ignore_ascii_case("all")));
    assert!(!clean.iter().any(|c| c.is_empty()));
}

#[test]
fn next_snippet_id_never_wraps_to_zero() {
    assert_eq!(next_snippet_id(&vec![]), 1);
    assert_eq!(next_snippet_id(&vec![snippet(1, "Git")]), 2);
    assert_eq!(next_snippet_id(&vec![snippet(5, "Git")]), 6);

    let saturated = vec![snippet(u64::MAX, "Git"), snippet(2, "Git")];
    assert_eq!(next_snippet_id(&saturated), 1);
    assert_eq!(next_free_id_from_1(&saturated), 1);
}

#[test]
fn dedup_snippet_ids_keeps_the_first_and_reassigns_duplicates() {
    let mut lib = vec![
        snippet(1, "Git"),
        snippet(1, "Git"),
        snippet(2, "Prompt"),
        snippet(2, "Prompt"),
    ];
    dedup_snippet_ids(&mut lib);
    assert_eq!(lib[0].id, 1, "first occurrence of 1 is kept");
    assert_eq!(lib[2].id, 2, "first occurrence of 2 is kept");
    let ids: Vec<u64> = lib.iter().map(|s| s.id).collect();
    let mut uniq = ids.clone();
    uniq.sort_unstable();
    uniq.dedup();
    assert_eq!(uniq.len(), lib.len(), "every id must stay unique");
    assert_eq!(
        uniq,
        vec![1, 2, 3, 4],
        "duplicates get fresh ids from the sequence"
    );
}

#[test]
fn dedup_snippet_ids_handles_a_saturated_id_space_without_wrapping() {
    let mut lib = vec![snippet(u64::MAX, "Git"), snippet(u64::MAX, "Git")];
    dedup_snippet_ids(&mut lib);
    assert_eq!(lib[0].id, u64::MAX);
    assert_eq!(lib[1].id, 1, "must not wrap to 0 on a saturated id space");
}

#[test]
fn apply_save_adds_a_new_snippet_and_persists() {
    let (mut lib, mut disk) = test_lib(vec![], vec!["Git".into()]);
    let mut ed = Editor::blank(&lib.categories);
    ed.title = "New prompt".into();
    ed.category = "Git".into();
    ed.body = "some body".into();
    lib.apply_save(ed);
    flush(&mut lib, &mut disk).unwrap();

    assert_eq!(ids(&lib), vec![1]);
    assert_eq!(lib.snippets[0].title, "New prompt");
    assert_eq!(lib.snippets[0].body, "some body");
    assert!(lib.save_error.is_empty());
    assert_eq!(disk.snippets.len(), 1);
    assert_eq!(disk.snippets[0].title, "New prompt");
}

#[test]
fn apply_save_updates_an_existing_snippet() {
    let (mut lib, _) = test_lib(vec![snippet(1, "Git")], vec!["Git".into()]);
    let mut ed = Editor::from_snippet(&lib.snippets[0], &lib.categories);
    ed.title = "Renamed".into();
    ed.body = "new body".into();
    ed.category = "Prompt".into();
    lib.apply_save(ed);

    assert_eq!(ids(&lib), vec![1], "editing must not change the id");
    assert_eq!(lib.snippets[0].title, "Renamed");
    assert_eq!(lib.snippets[0].body, "new body");
    assert_eq!(lib.snippets[0].category, "Prompt");
    assert!(lib.categories.contains(&"Prompt".to_string()));
}

#[test]
fn apply_add_category_registers_a_valid_category() {
    let (mut lib, _) = test_lib(vec![], vec!["Git".into()]);
    let ed = Editor::blank(&lib.categories);
    let ed = lib.apply_add_category("Docker".into(), ed);
    assert!(!ed.adding_category);
    assert_eq!(ed.category, "Docker");
    assert!(ed.category_error.is_none());
    assert!(lib.categories.contains(&"Docker".to_string()));
}

#[test]
fn apply_save_mints_unique_ids_across_a_saturated_library() {
    let (mut lib, _) = test_lib(
        vec![snippet(u64::MAX, "Git"), snippet(2, "Git")],
        vec!["Git".into()],
    );
    assert_eq!(lib.next_id, 1);

    let mut ed = Editor::blank(&lib.categories);
    ed.title = "First".into();
    ed.body = "b".into();
    lib.apply_save(ed);
    assert_eq!(lib.snippets[2].id, 1);

    let mut ed = Editor::blank(&lib.categories);
    ed.title = "Second".into();
    ed.body = "b".into();
    lib.apply_save(ed);
    assert_eq!(lib.snippets[3].id, 3);

    let mut ids: Vec<u64> = lib.snippets.iter().map(|s| s.id).collect();
    ids.sort_unstable();
    ids.dedup();
    assert_eq!(ids.len(), lib.snippets.len(), "no id collisions");
}

#[test]
fn apply_add_category_rejects_reserved_names_with_an_error() {
    let (mut lib, _) = test_lib(vec![], vec!["Git".into()]);
    let ed = Editor::blank(&lib.categories);
    let ed = lib.apply_add_category("all".into(), ed);
    assert!(ed.adding_category, "the form must stay open");
    assert_eq!(
        ed.category_error.as_deref(),
        Some("\"All\" is reserved and can't be used as a category")
    );
    assert!(!lib.categories.iter().any(|c| c.eq_ignore_ascii_case("all")));

    let ed = lib.apply_add_category("   ".into(), ed);
    assert!(ed.adding_category);
    assert_eq!(ed.category_error.as_deref(), Some("Category can't be blank"));
}

#[test]
fn add_category_normalizes_and_dedups() {
    let (mut lib, _) = test_lib(vec![], vec!["Git".into(), "Prompt".into()]);
    assert_eq!(lib.add_category("  git "), "Git");
    assert_eq!(lib.add_category("werner"), "Werner");
    assert_eq!(lib.add_category("Werner"), "Werner");
    assert!(lib.categories.contains(&"Werner".to_string()));
    assert_eq!(lib.categories.len(), 3);

    assert_eq!(lib.add_category("all"), "");
    assert_eq!(lib.add_category("All"), "");
    assert_eq!(lib.add_category("ALL"), "");
    assert!(!lib.categories.iter().any(|c| c.eq_ignore_ascii_case("all")));
    assert_eq!(lib.categories.len(), 3);
}

#[test]
fn uncategorized_fallback_is_registered_in_categories() {
    let (mut lib, _) = test_lib(vec![], vec![]);
    let ed_category = "";
    let category = {
        let canonical = lib.add_category(ed_category);
        if canonical.is_empty() {
            lib.add_category("Uncategorized")
        } else {
            canonical
        }
    };
    assert_eq!(category, "Uncategorized");
    assert!(lib.categories.contains(&"Uncategorized".to_string()));
}

#[test]
fn category_error_clears_when_input_changes() {
    let (mut lib, _) = test_lib(vec![], vec!["Git".into()]);
    lib.adding_header_category = true;
    lib.new_header_category = "al".into();
    lib.category_error = Some("\"All\" is reserved and can't be used as a category".into());

    let previous = lib.new_header_category.clone();
    lib.new_header_category.push('l');
    lib.clear_category_error_on_input_change(&previous);
    assert!(lib.category_error.is_none());
}

#[test]
fn category_error_lingers_when_input_unchanged() {
    let (mut lib, _) = test_lib(vec![], vec!["Git".into()]);
    lib.adding_header_category = true;
    lib.new_header_category = "all".into();
    lib.category_error = Some("\"All\" is reserved and can't be used as a category".into());

    let previous = lib.new_header_category.clone();
    lib.clear_category_error_on_input_change(&previous);
    assert!(lib.category_error.is_some());
}

#[test]
fn reorder_moves_the_dragged_card_within_the_full_list() {
    let (mut lib, _) = test_lib(
        vec![
            snippet(1, "Git"),
            snippet(2, "Git"),
            snippet(3, "Git"),
            snippet(4, "Git"),
        ],
        vec!["Git".into()],
    );
    let filtered: Vec<usize> = (0..4).collect();

    lib.reorder(1, 2, &filtered);
    assert_eq!(ids(&lib), vec![2, 1, 3, 4]);

    lib.reorder(1, 4, &filtered);
    assert_eq!(ids(&lib), vec![2, 3, 4, 1]);

    lib.reorder(1, 0, &filtered);
    assert_eq!(ids(&lib), vec![1, 2, 3, 4]);

    lib.reorder(2, 1, &filtered);
    assert_eq!(ids(&lib), vec![1, 2, 3, 4]);
    lib.reorder(2, 2, &filtered);
    assert_eq!(ids(&lib), vec![1, 2, 3, 4]);
}

#[test]
fn reorder_respects_a_filtered_view_of_the_library() {
    let (mut lib, _) = test_lib(
        vec![
            snippet(1, "Git"),
            snippet(2, "Prompt"),
            snippet(3, "Git"),
            snippet(4, "Prompt"),
            snippet(5, "Git"),
        ],
        vec!["Git".into(), "Prompt".into()],
    );
    let filtered = vec![0usize, 2, 4];

    lib.reorder(1, 3, &filtered);
    assert_eq!(ids(&lib), vec![2, 3, 4, 5, 1]);
    let visible: Vec<u64> = lib
        .snippets
        .iter()
        .filter(|s| s.category == "Git")
        .map(|s| s.id)
        .collect();
    assert_eq!(visible, vec![3, 5, 1]);
}

#[test]
fn reorder_ignores_a_snippet_that_disappeared_mid_drag() {
    let (mut lib, _) = test_lib(vec![snippet(1, "Git"), snippet(2, "Git")], vec!["Git".into()]);
    lib.reorder(99, 0, &[0, 1]);
    assert_eq!(ids(&lib), vec![1, 2]);

    lib.reorder(1, 0, &[]);
    assert_eq!(ids(&lib), vec![1, 2]);
}

#[test]
fn search_never_matches_protected_bodies_but_matches_title_and_category() {
    let (mut lib, _) = test_lib(
        vec![
            snippet(1, "Git"),
            Snippet {
                id: 2,
                title: "AWS prod key".into(),
                description: String::new(),
                category: "Secrets".into(),
                body: String::new(),
                protection: Some(Protection {
                    hint: "ghp_x".into(),
                    nonce: "n".into(),
                    ciphertext: "c".into(),
                }),
            },
        ],
        vec!["Git".into(), "Secrets".into()],
    );

    lib.search = "ghp_x".into();
    assert_eq!(lib.take_filtered(), Vec::<usize>::new(), "hint must never enter search");
    lib.restore_filtered(Vec::new());
    lib.search = "AWS".into();
    assert_eq!(lib.take_filtered(), vec![1], "title still matches");
    lib.restore_filtered(vec![1]);
    lib.search = "Secrets".into();
    assert_eq!(lib.take_filtered(), vec![1], "category still matches");
    lib.restore_filtered(vec![1]);
}

#[test]
fn failed_migration_is_reported_not_hidden() {
    let (mut lib, _) = test_lib(vec![], vec![]);
    assert!(lib.save_error.is_empty());

    let blocked = LegacyMigration {
        snippets: MigrationOutcome::Blocked {
            source: "legacy/snippets.json".into(),
            reason: "access is denied".into(),
        },
        config: MigrationOutcome::NoSource,
    };
    lib.note_startup_problems(None, "C:/Users/me/AppData/Roaming/CopyIt", &blocked);
    assert_eq!(lib.save_error.len(), 1, "clean outcomes stay silent");
    assert!(lib.save_error[0].contains("snippets.json"));
    assert!(lib.save_error[0].contains("left untouched"));

    let clean = LegacyMigration {
        snippets: MigrationOutcome::NoSource,
        config: MigrationOutcome::NoSource,
    };
    lib.note_startup_problems(
        Some("the parameter is incorrect".into()),
        "C:/Users/me/AppData/Roaming/CopyIt",
        &clean,
    );
    assert!(
        lib.save_error
            .iter()
            .any(|m| m.contains("Couldn't create the data folder") && m.contains("snippets")),
        "init error names the data folder"
    );
}

#[test]
fn filter_cache_matches_a_fresh_scan_and_invalidates_on_change() {
    let (mut lib, _) = test_lib(
        vec![
            Snippet {
                id: 1,
                title: "Rebase onto main".into(),
                description: String::new(),
                category: "Git".into(),
                body: "git rebase origin/MAIN".into(),
                protection: None,
            },
            Snippet {
                id: 2,
                title: "Summarize".into(),
                description: String::new(),
                category: "Prompt".into(),
                body: "Summarize the following text".into(),
                protection: None,
            },
            Snippet {
                id: 3,
                title: "Stash".into(),
                description: String::new(),
                category: "Git".into(),
                body: "git stash pop".into(),
                protection: None,
            },
        ],
        vec!["Git".into(), "Prompt".into()],
    );

    let expected = |lib: &Library| -> Vec<usize> {
        let q = lib.search.trim().to_lowercase();
        lib.snippets
            .iter()
            .enumerate()
            .filter(|(_, s)| {
                (lib.category_filter == "All" || s.category == lib.category_filter)
                    && (q.is_empty()
                        || s.title.to_lowercase().contains(&q)
                        || s.body.to_lowercase().contains(&q)
                        || s.category.to_lowercase().contains(&q))
            })
            .map(|(i, _)| i)
            .collect()
    };
    let check = |lib: &mut Library| {
        let want = expected(lib);
        let got = lib.take_filtered();
        assert_eq!(got, want, "search {:?} / cat {:?}", lib.search, lib.category_filter);
        lib.restore_filtered(got);
    };

    check(&mut lib);

    let first = lib.take_filtered();
    let second = lib.take_filtered();
    assert_eq!(first, second, "a checked-out cache must be recomputed, not reused");
    lib.restore_filtered(second);

    lib.search = "GIT".into();
    check(&mut lib);
    lib.search = "  summarize  ".into();
    check(&mut lib);
    lib.search = "   ".into();
    check(&mut lib);
    assert_eq!(lib.take_filtered().len(), 3);
    lib.restore_filtered(vec![0, 1, 2]);

    lib.search.clear();
    lib.category_filter = "Git".into();
    check(&mut lib);
    assert_eq!(lib.take_filtered(), vec![0, 2]);
    lib.restore_filtered(vec![0, 2]);

    lib.category_filter = "All".into();
    lib.reorder(1, 3, &[0, 1, 2]);
    assert_eq!(ids(&lib), vec![2, 3, 1]);
    check(&mut lib);
    lib.search = "rebase".into();
    assert_eq!(lib.take_filtered(), vec![2], "the moved card is still findable");
    lib.restore_filtered(vec![2]);

    lib.snippets[2].body = "git rebase --abort".into();
    lib.snippets[2].title = "Abort".into();
    lib.snippets_changed();
    lib.search = "abort".into();
    check(&mut lib);
    assert_eq!(lib.take_filtered(), vec![2]);
}

#[test]
fn saving_and_deleting_refresh_the_visible_cards() {
    let (mut lib, _) = test_lib(vec![snippet(1, "Git"), snippet(2, "Git")], vec!["Git".into()]);
    let shown = lib.take_filtered();
    assert_eq!(shown, vec![0, 1]);
    lib.restore_filtered(shown);

    let mut ed = Editor::blank(&lib.categories);
    ed.title = "Added".into();
    ed.body = "new body".into();
    lib.apply_save(ed);
    let shown = lib.take_filtered();
    assert_eq!(shown, vec![0, 1, 2], "a new card shows up at once");
    lib.restore_filtered(shown);

    lib.delete_snippet(1);
    let shown = lib.take_filtered();
    assert_eq!(shown, vec![0, 1], "no index past the end after a delete");
    lib.restore_filtered(shown);
}

#[test]
fn a_new_header_category_requests_a_config_save_and_touches_nothing_else() {
    let (mut lib, mut disk) = test_lib(vec![snippet(1, "Git")], vec!["Git".into()]);
    let mut clip = SimState::default();
    let w = lib.dispatch_action(CardAction::Copy(1));
    place(&mut lib, &mut clip, w, 500);
    lib.start_adding_category();
    lib.new_header_category = "  docker ".into();
    lib.submit_header_category();
    assert_eq!(lib.categories, vec!["Docker".to_string(), "Git".to_string()]);
    assert_eq!(lib.category_filter, "Docker");
    assert!(lib.config_save_due, "the new category is to be written");
    assert_eq!(lib.copied, Some((1, 500)), "the copied marker stays");
    let _ = flush(&mut lib, &mut disk);
    assert_eq!(
        disk.config.as_ref().map(|c| c.categories.clone()),
        Some(vec!["Docker".to_string(), "Git".to_string()])
    );

    lib.start_adding_category();
    lib.new_header_category = "GIT".into();
    lib.submit_header_category();
    assert!(!lib.config_save_due, "an existing category writes nothing");
}

#[test]
fn a_successful_save_only_clears_its_own_error() {
    let (mut lib, mut disk) = test_lib(vec![snippet(1, "Git")], vec!["Git".into()]);

    lib.save_error.push(format!("{SNIPPETS_SAVE_ERROR}: disk full"));
    let _ = lib.save_config();
    let _ = flush(&mut lib, &mut disk);
    assert!(
        lib.save_error.iter().any(|e| e == "Couldn't save snippets: disk full"),
        "a config write must not hide a snippet-save failure"
    );

    lib.save_snippets();
    let _ = flush(&mut lib, &mut disk);
    assert!(lib.save_error.is_empty(), "the snippet save clears its own error");

    lib.save_error.push("snippets.json couldn't be read".to_string());
    lib.save_snippets();
    let _ = lib.save_config();
    let _ = flush(&mut lib, &mut disk);
    assert!(!lib.save_error.is_empty());
}

#[test]
fn config_save_failures_are_surfaced_not_swallowed() {
    let (mut lib, _) = test_lib(vec![snippet(1, "Git")], vec!["Git".into()]);
    lib.refuse_config_overwrite = true;

    lib.theme_raw = None;
    let _ = lib.save_config();
    assert!(
        lib.save_error.iter().any(|m| m.starts_with(CONFIG_SAVE_ERROR)),
        "a failed theme write must be surfaced"
    );

    let canonical = lib.add_category("prompt");
    assert_eq!(canonical, "Prompt");
    assert!(
        lib.save_error.iter().any(|m| m.starts_with(CONFIG_SAVE_ERROR)),
        "a failed category write must be surfaced"
    );
}

#[test]
fn repeated_save_failures_dont_duplicate_banner_entries() {
    let (mut lib, _) = test_lib(vec![snippet(1, "Git")], vec!["Git".into()]);
    lib.refuse_snippets_overwrite = true;
    lib.refuse_config_overwrite = true;

    for _ in 0..3 {
        lib.save_snippets();
        let _ = lib.save_config();
    }
    let snips = lib
        .save_error
        .iter()
        .filter(|m| m.contains("snippets.json is corrupt"))
        .count();
    let cfg = lib
        .save_error
        .iter()
        .filter(|m| m.contains("config.json is corrupt"))
        .count();
    assert_eq!(snips, 1, "snippets refusal shown once, got {snips}");
    assert_eq!(cfg, 1, "config refusal shown once, got {cfg}");
}

#[test]
fn successful_config_save_retires_only_its_own_error() {
    let (mut lib, mut disk) = test_lib(vec![snippet(1, "Git")], vec!["Git".into()]);
    lib.save_error.push(format!("{CONFIG_SAVE_ERROR}: disk full"));
    lib.save_error.push(format!("{SNIPPETS_SAVE_ERROR}: disk full"));
    lib.save_error
        .push("snippets.json couldn't be read (recovered)".to_string());

    let _ = lib.save_config();
    let _ = flush(&mut lib, &mut disk);
    assert!(
        !lib.save_error.iter().any(|m| m.starts_with(CONFIG_SAVE_ERROR)),
        "config error retired"
    );
    assert!(
        lib.save_error.iter().any(|m| m.starts_with(SNIPPETS_SAVE_ERROR)),
        "snippet error retained"
    );
    assert!(
        lib.save_error.iter().any(|m| m.contains("couldn't be read")),
        "recovery notice retained"
    );
}

#[test]
fn blocked_snippets_file_survives_every_mutation_class() {
    let (mut lib, mut disk) = test_lib(vec![snippet(1, "Git"), snippet(2, "Git")], vec!["Git".into()]);
    lib.refuse_snippets_overwrite = true;
    let before = disk.snippets.clone();

    let mut added = Editor::blank(&lib.categories);
    added.title = "Added while blocked".into();
    lib.apply_save(added);
    assert_eq!(lib.snippets.len(), 3, "mutation applies in memory");
    let _ = flush(&mut lib, &mut disk);
    assert_eq!(disk.snippets, before);

    let mut edited = Editor::from_snippet(&lib.snippets[0], &lib.categories);
    edited.title = "Edited while blocked".into();
    lib.apply_save(edited);
    let _ = flush(&mut lib, &mut disk);
    assert_eq!(disk.snippets, before);

    lib.delete_snippet(2);
    let _ = flush(&mut lib, &mut disk);
    assert_eq!(disk.snippets, before);

    let order: Vec<usize> = (0..lib.snippets.len()).collect();
    lib.reorder(lib.snippets[order[0]].id, order.len() - 1, &order);
    let _ = flush(&mut lib, &mut disk);
    assert_eq!(disk.snippets, before);

    assert!(
        lib.save_error.iter().any(|m| m.contains("snippets.json is corrupt")),
        "the refusal error stays surfaced"
    );
}

#[test]
fn blocked_config_file_survives_settings_changes() {
    let (mut lib, mut disk) = test_lib(vec![snippet(1, "Git")], vec!["Git".into()]);
    lib.refuse_config_overwrite = true;
    let before = disk.config.as_ref().map(clone_config);

    lib.theme_raw = None;
    let _ = lib.save_config();
    let _ = flush(&mut lib, &mut disk);
    assert_eq!(
        disk.config.as_ref().map(|c| c.categories.clone()),
        before.as_ref().map(|c| c.categories.clone()),
        "a theme change must preserve the corrupt config"
    );

    let canonical = lib.add_category("prompt");
    assert_eq!(canonical, "Prompt", "category registers in memory");
    assert!(lib.categories.contains(&"Prompt".to_string()));
    let _ = flush(&mut lib, &mut disk);
    assert_eq!(
        disk.config.as_ref().map(|c| c.categories.clone()),
        before.as_ref().map(|c| c.categories.clone()),
        "a category change must preserve the corrupt config"
    );
    assert!(
        lib.save_error.iter().any(|m| m.contains("config.json is corrupt")),
        "the refusal error stays surfaced"
    );
}

#[test]
fn both_files_blocked_stay_independently_blocked() {
    let (mut lib, mut disk) = test_lib(vec![snippet(1, "Git")], vec!["Git".into()]);
    disk.snippets = vec![snippet(9, "Recovery")];
    lib.refuse_snippets_overwrite = true;
    lib.refuse_config_overwrite = true;

    lib.save_snippets();
    let _ = lib.save_config();
    let _ = flush(&mut lib, &mut disk);
    assert!(lib.refuse_snippets_overwrite && lib.refuse_config_overwrite);
    assert!(
        lib.save_error.iter().any(|m| m.contains("snippets.json is corrupt")),
        "snippets refusal stays surfaced"
    );
    assert!(
        lib.save_error.iter().any(|m| m.contains("config.json is corrupt")),
        "config refusal stays surfaced"
    );
    assert_eq!(disk.snippets, vec![snippet(9, "Recovery")]);
    assert_eq!(disk.config.as_ref().map(|c| c.theme.clone()), Some("Dark".to_string()));
}

#[test]
fn masked_preview_follows_the_hint_rule_for_protected_cards() {
    let (lib, _) = test_lib(
        vec![
            protected_snippet(1, "Git", "ghp_x"),
            protected_snippet(2, "Git", ""),
        ],
        vec!["Git".into()],
    );
    assert_eq!(
        lib.derived[0].preview,
        "ghp_x\u{2022}\u{2022}\u{2022}\u{2022}\u{2022}\u{2022}"
    );
    assert_eq!(
        lib.derived[1].preview,
        "\u{2022}\u{2022}\u{2022}\u{2022}\u{2022}\u{2022}"
    );
    assert_eq!(lib.derived[0].body_lower, "");
    assert_eq!(lib.derived[1].body_lower, "");
}

#[test]
fn protected_cards_stay_masked_while_unlocked() {
    let (mut lib, _, _, key) = protected_test_lib("a long secret body");
    assert!(lib.vault.is_locked());
    assert_eq!(lib.derived[0].body_lower, "");
    assert_eq!(lib.derived[0].preview, vault::masked_preview("a lon"));
    lib.vault.unlock_with_key(key);
    assert!(lib.vault.is_unlocked());
    assert_eq!(lib.derived[0].body_lower, "");
    assert_eq!(lib.derived[0].preview, vault::masked_preview("a lon"));
}

#[test]
fn locked_copy_and_edit_prompt_instead_of_acting() {
    let (mut lib, _, _, _) = protected_test_lib("a long secret body");
    assert!(lib.vault.is_locked());

    let w = lib.dispatch_action(CardAction::Copy(1));
    assert!(w.is_none());
    let prompt = lib.vault_prompt.as_ref().expect("unlock prompt opens");
    assert!(matches!(prompt.mode, VaultPromptMode::Unlock));
    assert!(matches!(prompt.pending, Some(PendingVaultAction::Copy(1))));
    assert!(lib.copied.is_none(), "nothing may be copied while locked");
    lib.vault_prompt = None;

    let _ = lib.dispatch_action(CardAction::Edit(1));
    assert!(matches!(
        lib.vault_prompt.as_ref().unwrap().pending,
        Some(PendingVaultAction::Edit(1))
    ));
    assert!(lib.editor.is_none(), "the editor must not open while locked");
}

#[test]
fn unlocked_copy_places_plaintext_on_the_clipboard() {
    let (mut lib, _, _, key) = protected_test_lib("super secret value");
    let mut clip = SimState::default();
    lib.vault.unlock_with_key(key);
    let w = lib.dispatch_action(CardAction::Copy(1));
    place(&mut lib, &mut clip, w, 0);
    assert_eq!(clip.text(), "super secret value");
    assert_eq!(lib.copied, Some((1, 0)));
    assert!(lib.vault_prompt.is_none());
}

#[test]
fn unlocked_edit_opens_with_the_decrypted_body() {
    let (mut lib, _, _, key) = protected_test_lib("secret edit body");
    lib.vault.unlock_with_key(key);
    let _ = lib.dispatch_action(CardAction::Edit(1));
    let ed = lib.editor.as_ref().expect("editor opens");
    assert_eq!(ed.id, Some(1));
    assert_eq!(ed.body, "secret edit body");
    assert!(ed.protect, "the checkbox reflects the card's protection");
}

#[test]
fn wrong_password_changes_nothing() {
    let (mut lib, mut disk, _, _) = protected_test_lib("a long secret body");
    let mut prompt = VaultPrompt::unlock_for(PendingVaultAction::Copy(1));
    prompt.password = "wrong".into();
    let w = submit(&mut lib, &mut disk, prompt);
    assert!(w.is_none());
    let kept = lib.vault_prompt.as_ref().expect("modal stays open on a wrong password");
    assert_eq!(kept.error.as_deref(), Some("Wrong password. Try again."));
    assert!(lib.vault.is_locked(), "wrong password must not unlock");
    assert!(
        matches!(kept.pending, Some(PendingVaultAction::Copy(1))),
        "the pending action survives the failed attempt"
    );
    assert!(lib.copied.is_none());
}

#[test]
fn protect_stores_ciphertext_and_censors_the_card() {
    let (meta, key) = vault::create_vault("password1").unwrap();
    let (mut lib, mut disk) = test_lib(vec![], vec!["Git".into()]);
    lib.vault_meta = Some(meta);
    lib.vault.unlock_with_key(key);
    let mut ed = Editor::blank(&lib.categories);
    ed.title = "Secret".into();
    ed.body = "a secret body long enough".into();
    ed.protect = true;
    lib.apply_save(ed);
    flush(&mut lib, &mut disk).unwrap();

    assert_eq!(lib.snippets.len(), 1);
    let s = &lib.snippets[0];
    assert!(s.protection.is_some());
    assert!(s.body.is_empty(), "the plaintext body is empty on disk");
    assert_eq!(s.protection.as_ref().unwrap().hint, "a sec");
    assert_eq!(lib.derived[0].body_lower, "");
    assert_eq!(lib.derived[0].preview, vault::masked_preview("a sec"));
    assert!(disk.snippets[0].protection.is_some());
    assert!(disk.snippets[0].body.is_empty());
    assert!(!format!("{:?}", disk.snippets).contains("a secret body long enough"));
}

#[test]
fn unprotect_restores_plaintext() {
    let (mut lib, mut disk, _, key) = protected_test_lib("a secret body long enough");
    lib.vault.unlock_with_key(key);
    let mut ed = Editor::from_snippet(&lib.snippets[0], &lib.categories);
    assert!(ed.protect, "the checkbox starts checked on a protected card");
    ed.protect = false;
    ed.body = "now plaintext".into();
    lib.apply_save(ed);
    flush(&mut lib, &mut disk).unwrap();

    assert!(lib.snippets[0].protection.is_none());
    assert_eq!(lib.snippets[0].body, "now plaintext");
    assert_eq!(lib.derived[0].body_lower, "now plaintext");
    assert!(disk.snippets[0].protection.is_none());
    assert_eq!(disk.snippets[0].body, "now plaintext");
}

#[test]
fn first_protect_creates_the_config_vault() {
    let (mut lib, mut disk) = test_lib(vec![], vec!["Git".into()]);
    assert!(lib.vault_meta.is_none());

    let mut ed = Editor::blank(&lib.categories);
    ed.title = "Secret".into();
    ed.body = "a secret body long enough".into();
    ed.protect = true;

    lib.handle_editor_save(ed);
    let prompt = lib.vault_prompt.take().expect("create prompt opens");
    assert!(matches!(prompt.mode, VaultPromptMode::Create));
    assert!(matches!(prompt.pending, Some(PendingVaultAction::ProtectSave(_))));
    assert!(lib.snippets.is_empty(), "nothing saved before the vault exists");

    let mut prompt = prompt;
    prompt.password = "short".into();
    prompt.confirm = "short".into();
    let (kept, job) = lib.handle_vault_prompt(prompt);
    assert!(job.is_none());
    assert!(kept.error.as_ref().unwrap().contains("at least 8 characters"));

    let mut prompt = kept;
    prompt.password = "\u{e9}\u{e9}\u{e9}\u{e9}".into();
    prompt.confirm = "\u{e9}\u{e9}\u{e9}\u{e9}".into();
    let (kept, job) = lib.handle_vault_prompt(prompt);
    assert!(job.is_none(), "4 characters are too short, whatever their bytes");
    assert!(kept.error.as_ref().unwrap().contains("at least 8 characters"));
    assert!(lib.vault_meta.is_none());
    assert!(lib.snippets.is_empty());

    let mut prompt = kept;
    prompt.password = "password1".into();
    prompt.confirm = "different".into();
    let (kept, job) = lib.handle_vault_prompt(prompt);
    assert!(job.is_none());
    assert_eq!(kept.error.as_deref(), Some("Passwords don't match"));
    assert!(lib.vault_meta.is_none());
    assert!(lib.snippets.is_empty());

    let mut prompt = kept;
    prompt.password = "password1".into();
    prompt.confirm = "password1".into();
    prompt.error = None;
    let w = submit(&mut lib, &mut disk, prompt);
    assert!(w.is_none());
    let _ = flush(&mut lib, &mut disk);
    assert!(lib.vault_prompt.is_none(), "modal closes on success after poll");
    assert!(lib.vault.is_unlocked());
    assert!(lib.vault_meta.is_some());
    assert_eq!(lib.snippets.len(), 1);
    assert!(lib.snippets[0].protection.is_some());
    assert!(lib.snippets[0].body.is_empty());
    assert!(
        disk.config.as_ref().unwrap().vault.is_some(),
        "first protect persists the vault"
    );
}

#[test]
fn lock_relocks_and_drops_the_key() {
    let (mut lib, _, _, key) = protected_test_lib("a long secret body");
    lib.vault.unlock_with_key(key);
    assert!(lib.vault.is_unlocked());
    lib.vault.lock();
    assert!(lib.vault.is_locked());
    assert!(lib.vault.key().is_none());
    let _ = lib.dispatch_action(CardAction::Copy(1));
    assert!(lib.vault_prompt.is_some());
}

#[test]
fn protected_copy_expiry_clears_only_its_own_content() {
    let (mut lib, _, _, key) = protected_test_lib("super secret value");
    let mut clip = SimState::default();
    lib.vault.unlock_with_key(key);

    let w = lib.dispatch_action(CardAction::Copy(1));
    place(&mut lib, &mut clip, w, 0);
    assert_eq!(clip.text(), "super secret value");
    assert!(lib.protected_copy.is_some(), "a timed clear should be scheduled");

    tick(&mut lib, &mut clip, 0);
    assert_eq!(clip.text(), "super secret value");

    let expires = lib.protected_copy.unwrap().expires_at_ms + 1000;
    tick(&mut lib, &mut clip, expires);
    assert!(clip.text().is_empty(), "our copy is cleared at expiry");
    assert!(lib.protected_copy.is_none());
}

#[test]
fn clipboard_overwritten_before_expiry_is_left_alone() {
    let (mut lib, _, _, key) = protected_test_lib("super secret value");
    let mut clip = SimState::default();
    lib.vault.unlock_with_key(key);

    let w = lib.dispatch_action(CardAction::Copy(1));
    place(&mut lib, &mut clip, w, 0);
    assert_eq!(clip.text(), "super secret value");

    clip.overwrite("user pasted something else");
    let expires = lib.protected_copy.unwrap().expires_at_ms + 1000;
    tick(&mut lib, &mut clip, expires);
    assert_eq!(clip.text(), "user pasted something else", "newer content kept");
}

#[test]
fn locking_the_vault_clears_the_current_protected_copy() {
    let (mut lib, _, _, key) = protected_test_lib("super secret value");
    let mut clip = SimState::default();
    lib.vault.unlock_with_key(key);

    let w = lib.dispatch_action(CardAction::Copy(1));
    place(&mut lib, &mut clip, w, 0);
    assert_eq!(clip.text(), "super secret value");
    assert!(lib.protected_copy.is_some());

    if lib.lock_vault(Some(clip.sequence())) {
        let _ = clip.clear();
    }
    assert!(clip.text().is_empty(), "lock clears the still-current copy");
    assert!(lib.protected_copy.is_none());
}

#[test]
fn unprotected_copy_has_no_security_timeout() {
    let (mut lib, _) = test_lib(vec![snippet(1, "Git")], vec!["Git".into()]);
    let mut clip = SimState::default();
    let w = lib.dispatch_action(CardAction::Copy(1));
    place(&mut lib, &mut clip, w, 0);
    assert_eq!(clip.text(), "body 1", "the copy is placed on the clipboard");
    assert!(lib.protected_copy.is_none(), "no security timeout scheduled");
}

#[test]
fn copied_feedback_shows_on_the_copied_card_for_its_window() {
    let (mut lib, _) = test_lib(vec![snippet(1, "Git"), snippet(2, "Git")], vec!["Git".into()]);
    let mut clip = SimState::default();
    assert!(!lib.recently_copied(1, 0));
    let w = lib.dispatch_action(CardAction::Copy(1));
    place(&mut lib, &mut clip, w, 1000);
    assert_eq!(lib.copied, Some((1, 1000)));
    assert!(lib.recently_copied(1, 1000));
    assert!(lib.recently_copied(1, 2199));
    assert!(!lib.recently_copied(1, 2200));
    assert!(!lib.recently_copied(2, 1500), "only the copied card says Copied");
}

#[test]
fn empty_grid_message_tells_an_empty_library_from_no_match() {
    let (mut lib, _) = test_lib(vec![], vec!["Git".into()]);
    assert_eq!(
        lib.empty_grid_message(),
        "Your library is empty. Click \"+ New\" to add your first snippet."
    );
    lib.search = "x".into();
    assert_eq!(lib.empty_grid_message(), "No snippets match your search or filter.");
    lib.search.clear();
    lib.category_filter = "Git".into();
    assert_eq!(lib.empty_grid_message(), "No snippets match your search or filter.");
}

#[test]
fn protect_and_lock_are_offered_only_when_they_can_work() {
    let (mut lib, _, _, key) = protected_test_lib("super secret value");
    assert!(!lib.can_protect(), "a locked existing vault can't protect");
    assert!(!lib.can_lock());
    lib.vault.unlock_with_key(key);
    assert!(lib.can_protect());
    assert!(lib.can_lock());
    lib.open_new_editor();
    assert!(!lib.can_lock(), "no locking while an editor is open");
    lib.vault_meta = None;
    lib.lock_vault(None);
    assert!(lib.can_protect(), "no vault yet: the first protect creates it");
}

#[test]
fn clipboard_failure_is_surfaced_non_fatal() {
    let (mut lib, _, _, key) = protected_test_lib("super secret value");
    let mut clip = SimState::default();
    clip.set_fail_writes(true);
    lib.vault.unlock_with_key(key);

    let w = lib.dispatch_action(CardAction::Copy(1));
    place(&mut lib, &mut clip, w, 0);
    assert!(clip.text().is_empty(), "nothing was placed on the clipboard");
    assert!(lib.protected_copy.is_none(), "no clear scheduled on failure");
    assert!(
        lib.save_error
            .iter()
            .any(|m| m.contains("protected copy on the clipboard")),
        "backend failure is surfaced"
    );
}

#[test]
fn aead_failure_with_valid_canary_shows_banner_and_leaves_file_untouched() {
    let (mut lib, mut disk, _, key) = protected_test_lib("a long secret body");
    lib.vault.unlock_with_key(key);
    let protection = lib.snippets[0].protection.as_mut().unwrap();
    let mut bytes = base64::engine::general_purpose::STANDARD
        .decode(&protection.ciphertext)
        .unwrap();
    bytes[0] ^= 0xff;
    protection.ciphertext = base64::engine::general_purpose::STANDARD.encode(&bytes);
    let before = disk.snippets.clone();

    let w = lib.dispatch_action(CardAction::Copy(1));
    assert!(w.is_none(), "a failed decrypt must not copy anything");
    assert!(lib.copied.is_none());
    let banner = lib.save_error.join("\n");
    assert!(banner.contains("Secret"), "banner names the card: {banner}");
    assert!(banner.contains("can't be decrypted"));
    let _ = flush(&mut lib, &mut disk);
    assert_eq!(disk.snippets, before, "the failed decrypt must leave the file untouched");
}
