use copyit::editor::{
    card_action_requires_vault, decide, Editor, EditorOutcome, EditorResult, ADD_CATEGORY_ENTRY,
};
use copyit::model::Snippet;

fn editor(id: Option<u64>) -> Editor {
    Editor {
        id,
        title: "Title".into(),
        category: "Git".into(),
        new_category: String::new(),
        adding_category: false,
        body: "Body".into(),
        confirm_delete: false,
        protect: false,
        category_error: None,
    }
}

fn categories() -> Vec<String> {
    vec!["Git".into(), "Prompt".into()]
}

#[test]
fn blank_uses_the_first_category() {
    let ed = Editor::blank(&categories());
    assert_eq!(ed.category, "Git");
    assert!(ed.id.is_none());
    assert!(ed.title.is_empty());
    assert!(ed.body.is_empty());
    assert!(!ed.confirm_delete);

    let empty = Editor::blank(&[]);
    assert_eq!(empty.category, "");
}

#[test]
fn from_snippet_matches_the_canonical_category_case_insensitively() {
    let s = Snippet {
        id: 7,
        title: "Stash".into(),
        description: String::new(),
        category: "pRoMpT".into(),
        body: "git stash".into(),
        protection: None,
    };
    let ed = Editor::from_snippet(&s, &categories());
    assert_eq!(ed.id, Some(7));
    assert_eq!(ed.category, "Prompt", "must pick the canonical form");

    let unknown = Snippet {
        id: 8,
        title: "X".into(),
        description: String::new(),
        category: "Uncategorized".into(),
        body: "y".into(),
        protection: None,
    };
    let ed = Editor::from_snippet(&unknown, &categories());
    assert_eq!(ed.category, "Uncategorized", "no match keeps the original");
}

#[test]
fn decide_keeps_the_editor_open_on_no_action() {
    let ed = editor(Some(1));
    match decide(EditorResult::NoAction, ed, true) {
        EditorOutcome::Keep(kept) => assert_eq!(kept.id, Some(1)),
        other => panic!("expected Keep, got {other:?}"),
    }
    match decide(EditorResult::NoAction, editor(Some(1)), false) {
        EditorOutcome::Close => {}
        other => panic!("expected Close when window closed, got {other:?}"),
    }
}

#[test]
fn decide_save_cancel_and_delete() {
    assert!(matches!(
        decide(EditorResult::Save, editor(Some(1)), true),
        EditorOutcome::Save(_)
    ));
    assert!(matches!(
        decide(EditorResult::Cancel, editor(Some(1)), true),
        EditorOutcome::Close
    ));
    match decide(EditorResult::Delete, editor(Some(1)), true) {
        EditorOutcome::Delete(id) => assert_eq!(id, 1),
        other => panic!("expected Delete, got {other:?}"),
    }
}

#[test]
fn decide_add_category_keeps_the_editor_open() {
    match decide(
        EditorResult::AddCategory("Docker".into()),
        editor(Some(2)),
        true,
    ) {
        EditorOutcome::AddCategory(name, kept) => {
            assert_eq!(name, "Docker");
            assert_eq!(kept.id, Some(2));
        }
        other => panic!("expected AddCategory, got {other:?}"),
    }
}

#[test]
fn decide_delete_on_an_editor_with_no_id_closes_without_deleting() {
    match decide(EditorResult::Delete, editor(None), true) {
        EditorOutcome::Close => {}
        other => panic!("expected Close, got {other:?}"),
    }
}

#[test]
fn blank_editor_never_starts_protected() {
    let ed = Editor::blank(&categories());
    assert!(!ed.protect);
    assert!(ed.category_error.is_none());
    assert!(!ed.adding_category);
}

#[test]
fn from_snippet_checks_protect_for_a_protected_card() {
    let s = Snippet {
        id: 3,
        title: "Secret".into(),
        description: String::new(),
        category: "git".into(),
        body: String::new(),
        protection: Some(copyit::model::Protection {
            hint: "abcde".into(),
            nonce: "n".into(),
            ciphertext: "c".into(),
        }),
    };
    let ed = Editor::from_snippet(&s, &categories());
    assert!(ed.protect);
    assert_eq!(ed.category, "Git");
}

#[test]
fn card_action_needs_the_vault_only_for_protected_cards_while_locked() {
    assert!(card_action_requires_vault(true, false));
    assert!(!card_action_requires_vault(true, true));
    assert!(!card_action_requires_vault(false, false));
    assert!(!card_action_requires_vault(false, true));
}

#[test]
fn save_is_offered_only_for_a_non_blank_title() {
    let mut ed = editor(None);
    assert!(ed.can_save());
    ed.title = " \t ".into();
    assert!(!ed.can_save());
    ed.title = String::new();
    assert!(!ed.can_save());
    ed.title = "  x ".into();
    assert!(ed.can_save());
}

#[test]
fn picking_the_add_entry_opens_the_inline_form_and_keeps_the_category() {
    let mut ed = editor(Some(1));
    ed.pick_category(ADD_CATEGORY_ENTRY.to_string());
    assert!(ed.adding_category);
    assert_eq!(ed.category, "Git");
    ed.pick_category("Prompt".to_string());
    assert!(!ed.adding_category);
    assert_eq!(ed.category, "Prompt");
}

#[test]
fn editing_the_new_category_clears_its_warning() {
    let mut ed = editor(None);
    ed.new_category = "All".into();
    ed.category_error = Some("\"All\" is reserved".into());
    ed.new_category_edited("All");
    assert!(ed.category_error.is_some(), "unchanged input keeps the warning");
    ed.new_category = "Allx".into();
    ed.new_category_edited("All");
    assert!(ed.category_error.is_none());
}

#[test]
fn submitting_a_blank_new_category_asks_for_nothing() {
    let mut ed = editor(None);
    ed.new_category = "   ".into();
    assert!(matches!(ed.submit_new_category(), EditorResult::NoAction));
    ed.new_category = " docker ".into();
    match ed.submit_new_category() {
        EditorResult::AddCategory(name) => assert_eq!(name, " docker "),
        other => panic!("expected AddCategory, got {other:?}"),
    }
}
