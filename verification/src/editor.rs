//! The snippet add/edit modal: its state, its constructors, and the decision
//! that turns a button click plus the window's open flag into what the app
//! does next.
use vstd::prelude::*;

use crate::model::Snippet;
use crate::order::views;
use crate::text::{ascii_lower, chars_of, eq_ignore_ascii_case, str_eq, trim, trim_chars};

verus! {

/// Modal editor state for creating or editing a snippet.
#[derive(Debug)]
pub struct Editor {
    /// `None` when creating a new snippet; `Some(id)` when editing that snippet.
    pub id: Option<u64>,
    pub title: String,
    pub category: String,
    /// Input buffer of the inline "add category" form.
    pub new_category: String,
    /// True while the inline "add category" form is open.
    pub adding_category: bool,
    pub body: String,
    /// Set by the first "Delete" click; a second click confirms.
    pub confirm_delete: bool,
    /// The "Protect this snippet" checkbox.
    pub protect: bool,
    /// Why the inline category form refused its input, if it did.
    pub category_error: Option<String>,
}

/// The first index whose name equals `target` ignoring ASCII case.
pub open spec fn first_ascii_match(names: Seq<Seq<char>>, target: Seq<char>) -> Option<int>
    decreases names.len(),
{
    if names.len() == 0 {
        None
    } else {
        match first_ascii_match(names.drop_last(), target) {
            Some(i) => Some(i),
            None => if ascii_lower(names.last()) == ascii_lower(target) {
                Some(names.len() - 1)
            } else {
                None
            },
        }
    }
}

/// What `first_ascii_match` finds: the first name equal to `target` ignoring
/// ASCII case, or nothing when no name is.
pub proof fn lemma_first_ascii_match(names: Seq<Seq<char>>, target: Seq<char>)
    ensures
        match first_ascii_match(names, target) {
            Some(i) => 0 <= i < names.len() && ascii_lower(names[i]) == ascii_lower(target)
                && forall|j: int| 0 <= j < i ==> ascii_lower(#[trigger] names[j]) != ascii_lower(target),
            None => forall|j: int|
                0 <= j < names.len() ==> ascii_lower(#[trigger] names[j]) != ascii_lower(target),
        },
    decreases names.len(),
{
    if names.len() > 0 {
        let prev = names.drop_last();
        lemma_first_ascii_match(prev, target);
        assert forall|j: int| 0 <= j < prev.len() implies prev[j] == names[j] by {}
    }
}

/// True when acting on a card must first unlock the vault: the card is
/// protected and the vault is locked.
pub fn card_action_requires_vault(protected: bool, unlocked: bool) -> (r: bool)
    ensures
        r == (protected && !unlocked),
{
    protected && !unlocked
}

impl Editor {
    /// A blank editor for adding a new snippet: the first category (or empty
    /// when there is none), nothing else filled in.
    pub fn blank(categories: &[String]) -> (r: Editor)
        ensures
            r.id is None,
            r.title@.len() == 0,
            r.body@.len() == 0,
            r.new_category@.len() == 0,
            categories@.len() > 0 ==> r.category@ == categories@[0]@,
            categories@.len() == 0 ==> r.category@.len() == 0,
            !r.adding_category,
            !r.confirm_delete,
            !r.protect,
            r.category_error is None,
    {
        let category = if categories.len() > 0 {
            categories[0].clone()
        } else {
            String::new()
        };
        Editor {
            id: None,
            title: String::new(),
            category,
            new_category: String::new(),
            adding_category: false,
            body: String::new(),
            confirm_delete: false,
            protect: false,
            category_error: None,
        }
    }

    /// An editor filled from an existing snippet. The category is matched
    /// against the canonical list ignoring ASCII case, falling back to the
    /// snippet's own category when nothing matches.
    pub fn from_snippet(s: &Snippet, categories: &[String]) -> (r: Editor)
        ensures
            r.id == Some(s.id),
            r.title@ == s.title@,
            r.body@ == s.body@,
            match first_ascii_match(views(categories@), s.category@) {
                Some(i) => r.category@ == categories@[i]@,
                None => r.category@ == s.category@,
            },
            r.new_category@.len() == 0,
            !r.adding_category,
            !r.confirm_delete,
            r.protect == s.protection is Some,
            r.category_error is None,
    {
        let target = chars_of(s.category.as_str());
        let mut found: Option<usize> = None;
        let mut i: usize = 0;
        while i < categories.len()
            invariant
                i <= categories@.len(),
                target@ == s.category@,
                match found {
                    Some(k) => first_ascii_match(views(categories@).take(i as int), s.category@)
                        == Some(k as int) && k < i,
                    None => first_ascii_match(views(categories@).take(i as int), s.category@)
                        is None,
                },
            decreases categories.len() - i,
        {
            assert(views(categories@).take(i + 1).drop_last() =~= views(categories@).take(
                i as int,
            ));
            if found.is_none() {
                let c = chars_of(categories[i].as_str());
                if eq_ignore_ascii_case(&c, &target) {
                    found = Some(i);
                }
            }
            i = i + 1;
        }
        assert(views(categories@).take(categories.len() as int) =~= views(categories@));
        let category = match found {
            Some(k) => categories[k].clone(),
            None => s.category.clone(),
        };
        Editor {
            id: Some(s.id),
            title: s.title.clone(),
            category,
            new_category: String::new(),
            adding_category: false,
            body: s.body.clone(),
            confirm_delete: false,
            protect: s.protection.is_some(),
            category_error: None,
        }
    }
}

/// The entry of a category list that opens the inline "add category" form.
pub const ADD_CATEGORY_ENTRY: &'static str = "+ Add new category";

impl Editor {
    /// Save is offered only for a title that is not blank.
    pub fn can_save(&self) -> (r: bool)
        ensures
            r == (trim(self.title@).len() > 0),
    {
        let cs = chars_of(self.title.as_str());
        trim_chars(&cs).len() > 0
    }

    /// Applies the category picked in the editor's list: the "add category"
    /// entry opens the inline form, any other entry becomes the category.
    pub fn pick_category(&mut self, selected: String)
        ensures
            selected@ == ADD_CATEGORY_ENTRY@ ==> *final(self) == (Editor {
                adding_category: true,
                ..*old(self)
            }),
            selected@ != ADD_CATEGORY_ENTRY@ ==> *final(self) == (Editor {
                adding_category: false,
                category: selected,
                ..*old(self)
            }),
    {
        if str_eq(selected.as_str(), ADD_CATEGORY_ENTRY) {
            self.adding_category = true;
        } else {
            self.adding_category = false;
            self.category = selected;
        }
    }

    /// Edits to the inline category field clear its warning, so the error
    /// doesn't linger while the user fixes the name.
    pub fn new_category_edited(&mut self, previous: &str)
        ensures
            final(self).category_error == (if old(self).new_category@ != previous@ {
                None
            } else {
                old(self).category_error
            }),
            *final(self) == (Editor { category_error: final(self).category_error, ..*old(self) }),
    {
        if !str_eq(self.new_category.as_str(), previous) {
            self.category_error = None;
        }
    }

    /// What submitting the inline category form asks for: the typed name,
    /// unless it is blank.
    pub fn submit_new_category(&self) -> (r: EditorResult)
        ensures
            trim(self.new_category@).len() > 0 ==> (r matches EditorResult::AddCategory(n) && n
                == self.new_category),
            trim(self.new_category@).len() == 0 ==> r is NoAction,
    {
        let cs = chars_of(self.new_category.as_str());
        if trim_chars(&cs).len() > 0 {
            EditorResult::AddCategory(self.new_category.clone())
        } else {
            EditorResult::NoAction
        }
    }
}

/// The action the user triggered in the editor modal.
#[derive(Debug)]
pub enum EditorResult {
    /// No action; the editor stays visible.
    NoAction,
    /// Save was clicked: persist the fields and close.
    Save,
    /// Cancel was clicked: discard the changes.
    Cancel,
    /// Deletion was confirmed (second click): remove the snippet.
    Delete,
    /// A new category was entered in the editor.
    AddCategory(String),
}

/// What the app should do with the editor after a button click.
#[derive(Debug)]
pub enum EditorOutcome {
    /// Keep editing; the editor state goes back to the app.
    Keep(Editor),
    /// Discard the editor (cancel, or the window was closed).
    Close,
    /// Save the editor's fields, then close.
    Save(Editor),
    /// Remove the snippet with this id, then close.
    Delete(u64),
    /// Register the category; the editor stays open so it can be picked.
    AddCategory(String, Editor),
}

/// Decides what to do next from the button that was clicked, the editor state
/// and whether the window is still open.
pub fn decide(result: EditorResult, ed: Editor, window_open: bool) -> (r: EditorOutcome)
    ensures
        match result {
            EditorResult::NoAction => if window_open {
                r == EditorOutcome::Keep(ed)
            } else {
                r is Close
            },
            EditorResult::Save => r == EditorOutcome::Save(ed),
            EditorResult::Cancel => r is Close,
            EditorResult::Delete => match ed.id {
                Some(id) => r == EditorOutcome::Delete(id),
                None => r is Close,
            },
            EditorResult::AddCategory(name) => r == EditorOutcome::AddCategory(name, ed),
        },
{
    match result {
        EditorResult::NoAction => {
            if window_open {
                EditorOutcome::Keep(ed)
            } else {
                EditorOutcome::Close
            }
        },
        EditorResult::Save => EditorOutcome::Save(ed),
        EditorResult::Cancel => EditorOutcome::Close,
        EditorResult::Delete => {
            match ed.id {
                Some(id) => EditorOutcome::Delete(id),
                None => EditorOutcome::Close,
            }
        },
        EditorResult::AddCategory(name) => EditorOutcome::AddCategory(name, ed),
    }
}

} // verus!
