//! The vault session as the front end sees it: the unlock / create-vault
//! prompt, the action suspended behind it, the key-derivation job that runs
//! off the UI thread, and the guard that clears a protected clipboard copy.
use vstd::prelude::*;

use crate::editor::{card_action_requires_vault, first_ascii_match, Editor};
use crate::edits::{first_with_id, key_of, save_applied};
use crate::library::{pushed_once, Library};
use crate::model::Snippet;
use crate::order::views;
use crate::text::{ascii_lower, decimal, u64_to_decimal};
use crate::vault::{body_outcome, decrypt_body, VaultError, VaultErrorKind, VaultMeta, VaultState};

verus! {

/// How long (milliseconds) a protected copy stays on the clipboard before it
/// is cleared, if it is still CopyIt's own copy then.
pub const CLIPBOARD_SECURITY_WINDOW_MS: u64 = 30000;

/// How long (milliseconds) a card's Copy button reads "Copied" after a copy.
pub const COPIED_FEEDBACK_MS: u64 = 1200;

/// What the vault prompt was opened for.
#[derive(Clone, Copy, Debug, PartialEq, Eq, Structural)]
pub enum VaultPromptMode {
    /// Verify an existing vault's password.
    Unlock,
    /// No vault exists yet: collect a password and its confirmation.
    Create,
}

/// The action suspended behind the vault prompt.
#[derive(Debug)]
pub enum PendingVaultAction {
    Copy(u64),
    Edit(u64),
    /// The first-ever protect: the editor rides along until the vault exists.
    ProtectSave(Editor),
}

/// State of the unlock / create-vault modal.
#[derive(Debug)]
pub struct VaultPrompt {
    pub mode: VaultPromptMode,
    pub password: String,
    /// The password confirmation; only used when creating the vault.
    pub confirm: String,
    /// Inline error (wrong password, mismatched confirmation, ...).
    pub error: Option<String>,
    pub pending: Option<PendingVaultAction>,
}

/// `p` is a freshly opened prompt: empty fields, no error, `pending` waiting.
pub open spec fn fresh_prompt(
    p: VaultPrompt,
    mode: VaultPromptMode,
    pending: Option<PendingVaultAction>,
) -> bool {
    p.mode == mode && p.password@.len() == 0 && p.confirm@.len() == 0 && p.error is None
        && p.pending == pending
}

impl VaultPrompt {
    /// An unlock prompt that runs `pending` once the vault is unlocked.
    pub fn unlock_for(pending: PendingVaultAction) -> (r: Self)
        ensures
            r.mode == VaultPromptMode::Unlock,
            r.password@.len() == 0,
            r.confirm@.len() == 0,
            r.error is None,
            r.pending == Some(pending),
    {
        VaultPrompt {
            mode: VaultPromptMode::Unlock,
            password: String::new(),
            confirm: String::new(),
            error: None,
            pending: Some(pending),
        }
    }

    /// A create-vault prompt that runs `pending` once the vault exists.
    pub fn create_for(pending: PendingVaultAction) -> (r: Self)
        ensures
            r.mode == VaultPromptMode::Create,
            r.password@.len() == 0,
            r.confirm@.len() == 0,
            r.error is None,
            r.pending == Some(pending),
    {
        VaultPrompt {
            mode: VaultPromptMode::Create,
            password: String::new(),
            confirm: String::new(),
            error: None,
            pending: Some(pending),
        }
    }

    /// An unlock prompt with nothing to run afterwards (the "Vault locked"
    /// indicator was clicked).
    pub fn unlock_with_no_pending() -> (r: Self)
        ensures
            r.mode == VaultPromptMode::Unlock,
            r.password@.len() == 0,
            r.confirm@.len() == 0,
            r.error is None,
            r.pending is None,
    {
        VaultPrompt {
            mode: VaultPromptMode::Unlock,
            password: String::new(),
            confirm: String::new(),
            error: None,
            pending: None,
        }
    }
}

/// Which key-derivation job is running.
#[derive(Clone, Copy, Debug, PartialEq, Eq, Structural)]
pub enum VaultWorkKind {
    Unlock,
    Create,
}

/// The key-derivation job in flight: one at a time, tagged with a generation
/// so a stale result is never applied.
#[derive(Debug)]
pub struct VaultWork {
    pub gen: u64,
    pub kind: VaultWorkKind,
    pub pending: Option<PendingVaultAction>,
}

/// A pending clear of a protected clipboard copy: when it expires, the
/// clipboard is cleared only if it still holds CopyIt's own copy, recognized
/// by the clipboard sequence number captured at copy time.
#[derive(Clone, Copy, Debug, PartialEq, Eq, Structural)]
pub struct ProtectedCopyGuard {
    pub expires_at_ms: u64,
    pub sequence: u64,
}

/// A card button the user clicked.
#[derive(Clone, Copy, Debug, PartialEq, Eq, Structural)]
pub enum CardAction {
    Copy(u64),
    Edit(u64),
}

/// Text the front end must put on the clipboard for card `id`. A protected
/// card's text goes through the clipboard backend, so it can be cleared.
#[derive(Debug)]
pub struct ClipboardWrite {
    pub id: u64,
    pub text: String,
    pub protected: bool,
}

/// Key-derivation work the front end runs off the UI thread.
#[derive(Debug)]
pub enum VaultJob {
    /// Create a vault from this password (`vault::create_vault`).
    Create { password: String },
    /// Verify this password against the vault (`vault::verify_password`).
    Unlock { password: String, meta: VaultMeta },
}

/// What finished key-derivation work produced.
#[derive(Debug)]
pub enum VaultWorkOutput {
    Unlocked([u8; 32]),
    Created(VaultMeta, [u8; 32]),
}

/// What the front end does after key-derivation work finished.
#[derive(Debug)]
pub enum WorkStep {
    /// Nothing more (a discarded result, or an error shown in the prompt).
    Nothing,
    /// The vault is unlocked and the prompt closed: run the pending action.
    Run(Option<PendingVaultAction>),
    /// The vault was created and unlocked: write the config, then report the
    /// outcome with `new_vault_persisted`.
    PersistNewVault(Option<PendingVaultAction>),
}

/// The scheduled clear of a protected copy empties the clipboard at
/// `now_ms`: the security window has passed and the clipboard, whose sequence
/// number is `current_sequence`, still holds that copy.
pub open spec fn clears_protected_copy(a: Library, now_ms: u64, current_sequence: Option<u64>) -> bool {
    match a.protected_copy {
        Some(g) => now_ms >= g.expires_at_ms && current_sequence == Some(g.sequence),
        None => false,
    }
}

/// Some snippet with id `id` is protected.
pub open spec fn protected_card(ss: Seq<Snippet>, id: u64) -> bool {
    exists|i: int| 0 <= i < ss.len() && (#[trigger] ss[i]).id == id && ss[i].protection is Some
}

/// No snippet has id `id`.
pub open spec fn no_card(ss: Seq<Snippet>, id: u64) -> bool {
    forall|i: int| 0 <= i < ss.len() ==> (#[trigger] ss[i]).id != id
}

/// The banner entry for a protected card that failed to decrypt.
pub open spec fn undecryptable(verb: Seq<char>, title: Seq<char>, e: VaultError) -> Seq<char> {
    "Couldn't "@ + verb + " \""@ + title + "\": the protected snippet can't be decrypted ("@
        + e.message_of() + ")"@
}

/// What copying card `id` does to the library `a`, giving `b` and the
/// clipboard write `r`.
pub open spec fn copy_done(a: Library, b: Library, id: u64, r: Option<ClipboardWrite>) -> bool {
    if no_card(a.snippets@, id) {
        r is None && b == a
    } else {
        forall|k: int|
            #[trigger] first_with_id(a.snippets@, id, k) ==> {
                let s = a.snippets@[k];
                match s.protection {
                    None => b == a && (r matches Some(w) && w.id == id && w.text@ == s.body@
                        && !w.protected),
                    Some(p) => match a.vault {
                        VaultState::Locked => r is None && views(b.save_error@) == views(
                            a.save_error@,
                        ).push("Couldn't copy: the vault is locked, unlock it first"@) && b == (
                        Library { save_error: b.save_error, ..a }),
                        VaultState::Unlocked(key) => match body_outcome(key@, p) {
                            Ok(t) => b == a && (r matches Some(w) && w.id == id && w.text@ == t
                                && w.protected),
                            Err(kind) => r is None && (exists|e: VaultError|
                                e.kind_of() == kind && views(b.save_error@) == views(
                                    a.save_error@,
                                ).push(undecryptable("copy"@, s.title@, e))) && b == (Library {
                                save_error: b.save_error,
                                ..a
                            }),
                        },
                    },
                }
            }
    }
}

/// The editor opened on `s` shows the card's category: the first list
/// entry equal to it ignoring ASCII case, else the card's own.
pub open spec fn editor_category(ed: Editor, s: Snippet, categories: Seq<String>) -> bool {
    match first_ascii_match(views(categories), s.category@) {
        Some(i) => ed.category@ == categories[i]@,
        None => ed.category@ == s.category@,
    }
}

/// Opening the editor on a card keeps the card's category: the editor's
/// category equals it ignoring ASCII case, and is an entry of the category
/// list whenever some entry equals it ignoring ASCII case.
pub proof fn lemma_edited_card_keeps_its_category(a: Library, b: Library, id: u64, k: int)
    requires
        edit_done(a, b, id),
        first_with_id(a.snippets@, id, k),
        b.editor is Some,
        a.editor is None,
    ensures
        ascii_lower(b.editor->0.category@) == ascii_lower(a.snippets@[k].category@),
        (exists|j: int|
            0 <= j < a.categories@.len() && ascii_lower(#[trigger] a.categories@[j]@) == ascii_lower(
                a.snippets@[k].category@,
            )) ==> exists|j: int|
            0 <= j < a.categories@.len() && b.editor->0.category@ == #[trigger] a.categories@[j]@,
{
    let s = a.snippets@[k];
    let names = views(a.categories@);
    crate::editor::lemma_first_ascii_match(names, s.category@);
    assert(!no_card(a.snippets@, id)) by {
        assert(a.snippets@[k].id == id);
    }
    assert forall|j: int| 0 <= j < a.categories@.len() implies names[j] == a.categories@[j]@ by {}
    match first_ascii_match(names, s.category@) {
        Some(i) => {
            assert(names[i] == a.categories@[i]@);
        },
        None => {
            if exists|j: int|
                0 <= j < a.categories@.len() && ascii_lower(#[trigger] a.categories@[j]@)
                    == ascii_lower(s.category@) {
                let j = choose|j: int|
                    0 <= j < a.categories@.len() && ascii_lower(#[trigger] a.categories@[j]@)
                        == ascii_lower(s.category@);
                assert(names[j] == a.categories@[j]@);
            }
        },
    }
}

/// What opening the editor on card `id` does to the library `a`, giving `b`.
pub open spec fn edit_done(a: Library, b: Library, id: u64) -> bool {
    if a.editor is Some || no_card(a.snippets@, id) {
        b == a
    } else {
        forall|k: int|
            #[trigger] first_with_id(a.snippets@, id, k) ==> {
                let s = a.snippets@[k];
                match s.protection {
                    None => b == (Library { editor: b.editor, ..a }) && (b.editor matches Some(ed)
                        && ed.id == Some(id) && ed.body@ == s.body@ && ed.title@ == s.title@
                        && !ed.protect && editor_category(ed, s, a.categories@)),
                    Some(p) => match a.vault {
                        VaultState::Locked => views(b.save_error@) == views(a.save_error@).push(
                            "Couldn't edit: the vault is locked, unlock it first"@,
                        ) && b == (Library { save_error: b.save_error, ..a }),
                        VaultState::Unlocked(key) => match body_outcome(key@, p) {
                            Ok(t) => b == (Library { editor: b.editor, ..a }) && (b.editor matches Some(
                                ed,
                            ) && ed.id == Some(id) && ed.body@ == t && ed.title@ == s.title@
                                && ed.protect && editor_category(ed, s, a.categories@)),
                            Err(kind) => (exists|e: VaultError|
                                e.kind_of() == kind && views(b.save_error@) == views(
                                    a.save_error@,
                                ).push(undecryptable("edit"@, s.title@, e))) && b == (Library {
                                save_error: b.save_error,
                                ..a
                            }),
                        },
                    },
                }
            }
    }
}

impl Library {
    fn find_card(&self, id: u64) -> (r: Option<usize>)
        ensures
            r is None <==> no_card(self.snippets@, id),
            r matches Some(k) ==> first_with_id(self.snippets@, id, k as int),
            r matches Some(k) ==> forall|o: int|
                #[trigger] first_with_id(self.snippets@, id, o) ==> o == k,
    {
        let mut k: usize = 0;
        while k < self.snippets.len()
            invariant
                k <= self.snippets@.len(),
                forall|j: int| 0 <= j < k ==> (#[trigger] self.snippets@[j]).id != id,
            decreases self.snippets.len() - k,
        {
            if self.snippets[k].id == id {
                assert(first_with_id(self.snippets@, id, k as int));
                assert forall|o: int| #[trigger] first_with_id(self.snippets@, id, o) implies o
                    == k by {
                    if o < k {
                    } else if o > k {
                        assert(self.snippets@[k as int].id == id);
                    }
                }
                return Some(k);
            }
            k = k + 1;
        }
        None
    }

    /// The text to copy for card `id`: a plain card's body, or a protected
    /// card's body decrypted on demand. A locked vault or a failed decryption
    /// refuses the copy and names the card in the banner.
    pub fn copy_snippet(&mut self, id: u64) -> (r: Option<ClipboardWrite>)
        ensures
            old(self).filter_sound() ==> final(self).filter_sound(),
            copy_done(*old(self), *final(self), id, r),
    {
        let found = self.find_card(id);
        let k = match found {
            Some(k) => k,
            None => {
                return None;
            },
        };
        match &self.snippets[k].protection {
            None => Some(ClipboardWrite { id, text: self.snippets[k].body.clone(), protected: false }),
            Some(p) => {
                let outcome = match self.vault.key() {
                    Some(key) => Some(decrypt_body(key, p)),
                    None => None,
                };
                match outcome {
                    None => {
                        let m = String::from_str("Couldn't copy: the vault is locked, unlock it first");
                        let ghost mv = m@;
                        let ghost es = views(self.save_error@);
                        self.save_error.push(m);
                        assert(views(self.save_error@) =~= es.push(mv));
                        None
                    },
                    Some(Ok(text)) => Some(ClipboardWrite { id, text, protected: true }),
                    Some(Err(e)) => {
                        let title = self.snippets[k].title.clone();
                        let m = undecryptable_message("copy", title.as_str(), &e);
                        let ghost mv = m@;
                        let ghost es = views(self.save_error@);
                        self.save_error.push(m);
                        assert(views(self.save_error@) =~= es.push(mv));
                        None
                    },
                }
            },
        }
    }

    /// The editor's "Protect this snippet" box is enabled while the vault is
    /// unlocked, or while no vault exists yet (the first protect creates it).
    pub fn can_protect(&self) -> (r: bool)
        ensures
            r == (self.vault is Unlocked || self.vault_meta is None),
    {
        self.vault.is_unlocked() || self.vault_meta.is_none()
    }

    /// The "Lock Vault" button is enabled while the vault is unlocked and no
    /// editor is open (an open editor may hold a decrypted body).
    pub fn can_lock(&self) -> (r: bool)
        ensures
            r == (self.vault is Unlocked && self.editor is None),
    {
        self.vault.is_unlocked() && self.editor.is_none()
    }

    /// Card `id` was copied less than `COPIED_FEEDBACK_MS` before `now_ms`:
    /// its Copy button reads "Copied".
    pub fn recently_copied(&self, id: u64, now_ms: u64) -> (r: bool)
        ensures
            r == (self.copied matches Some((cid, t)) && cid == id && now_ms < t
                + COPIED_FEEDBACK_MS),
    {
        match self.copied {
            Some((cid, t)) => cid == id && (now_ms < t || now_ms - t < COPIED_FEEDBACK_MS),
            None => false,
        }
    }

    /// Records how placing a copy on the clipboard went. A placed protected
    /// copy schedules its clear after the security window, remembering the
    /// clipboard's sequence number; a failure is reported (once), non-fatal.
    pub fn copy_placed(
        &mut self,
        id: u64,
        protected: bool,
        now_ms: u64,
        outcome: Result<(), String>,
        sequence: Option<u64>,
    )
        ensures
            old(self).filter_sound() ==> final(self).filter_sound(),
            match outcome {
                Ok(()) => {
                    &&& final(self).copied == Some((id, now_ms))
                    &&& final(self).protected_copy == (if protected {
                        Some(
                            ProtectedCopyGuard {
                                expires_at_ms: if now_ms + CLIPBOARD_SECURITY_WINDOW_MS <= u64::MAX {
                                    (now_ms + CLIPBOARD_SECURITY_WINDOW_MS) as u64
                                } else {
                                    u64::MAX
                                },
                                sequence: match sequence {
                                    Some(q) => q,
                                    None => 0,
                                },
                            },
                        )
                    } else {
                        old(self).protected_copy
                    })
                    &&& *final(self) == (Library {
                        copied: final(self).copied,
                        protected_copy: final(self).protected_copy,
                        ..*old(self)
                    })
                },
                Err(e) => {
                    &&& views(final(self).save_error@) == pushed_once(
                        views(old(self).save_error@),
                        "Couldn't place the protected copy on the clipboard ("@ + e@
                            + "). Copy it manually if needed."@,
                    )
                    &&& *final(self) == (Library { save_error: final(self).save_error, ..*old(self) })
                },
            },
    {
        match outcome {
            Ok(()) => {
                self.copied = Some((id, now_ms));
                if protected {
                    let seq = match sequence {
                        Some(q) => q,
                        None => 0,
                    };
                    self.protected_copy = Some(
                        ProtectedCopyGuard {
                            expires_at_ms: now_ms.saturating_add(CLIPBOARD_SECURITY_WINDOW_MS),
                            sequence: seq,
                        },
                    );
                }
            },
            Err(e) => {
                let mut m = String::from_str("Couldn't place the protected copy on the clipboard (");
                m.append(e.as_str());
                m.append("). Copy it manually if needed.");
                self.push_save_error_once(m);
            },
        }
    }

    /// Each frame: once the security window of a protected copy has passed,
    /// the guard is dropped, and the clipboard is to be cleared (true) only if
    /// its sequence number is still the one captured at copy time; newer
    /// content is never clobbered.
    pub fn tick_clipboard(&mut self, now_ms: u64, current_sequence: Option<u64>) -> (clear: bool)
        ensures
            old(self).filter_sound() ==> final(self).filter_sound(),
            clear == clears_protected_copy(*old(self), now_ms, current_sequence),
            match old(self).protected_copy {
                Some(g) => if now_ms >= g.expires_at_ms {
                    *final(self) == (Library { protected_copy: None, ..*old(self) })
                } else {
                    *final(self) == *old(self)
                },
                None => *final(self) == *old(self),
            },
    {
        match self.protected_copy {
            Some(g) => {
                if now_ms >= g.expires_at_ms {
                    self.protected_copy = None;
                    match current_sequence {
                        Some(q) => q == g.sequence,
                        None => false,
                    }
                } else {
                    false
                }
            },
            None => false,
        }
    }

    /// Locks the vault (wiping the key) and drops a pending protected copy;
    /// the clipboard is to be cleared right away (true) if it still holds
    /// that copy, so a locked vault leaves no secret on the clipboard.
    pub fn lock_vault(&mut self, current_sequence: Option<u64>) -> (clear: bool)
        ensures
            old(self).filter_sound() ==> final(self).filter_sound(),
            final(self).vault is Locked,
            final(self).protected_copy is None,
            clear == (old(self).protected_copy matches Some(g) && current_sequence == Some(
                g.sequence,
            )),
            *final(self) == (Library { vault: final(self).vault, protected_copy: None, ..*old(self) }),
    {
        self.vault.lock();
        let g = self.protected_copy;
        self.protected_copy = None;
        match g {
            Some(g) => match current_sequence {
                Some(q) => q == g.sequence,
                None => false,
            },
            None => false,
        }
    }

    /// Opens the editor on card `id`; a protected card is decrypted first so
    /// the editor shows its plaintext (with "Protect" checked). A locked vault
    /// or a failed decryption refuses with a banner entry.
    pub fn edit_snippet(&mut self, id: u64)
        ensures
            old(self).filter_sound() ==> final(self).filter_sound(),
            edit_done(*old(self), *final(self), id),
    {
        if self.editor.is_some() {
            return;
        }
        let found = self.find_card(id);
        let k = match found {
            Some(k) => k,
            None => {
                return;
            },
        };
        let editor = match &self.snippets[k].protection {
            None => Editor::from_snippet(&self.snippets[k], self.categories.as_slice()),
            Some(p) => {
                let outcome = match self.vault.key() {
                    Some(key) => Some(decrypt_body(key, p)),
                    None => None,
                };
                match outcome {
                    None => {
                        let m = String::from_str("Couldn't edit: the vault is locked, unlock it first");
                        let ghost mv = m@;
                        let ghost es = views(self.save_error@);
                        self.save_error.push(m);
                        assert(views(self.save_error@) =~= es.push(mv));
                        return;
                    },
                    Some(Ok(plaintext)) => {
                        let mut copy = self.snippets[k].clone();
                        copy.body = plaintext;
                        Editor::from_snippet(&copy, self.categories.as_slice())
                    },
                    Some(Err(e)) => {
                        let title = self.snippets[k].title.clone();
                        let m = undecryptable_message("edit", title.as_str(), &e);
                        let ghost mv = m@;
                        let ghost es = views(self.save_error@);
                        self.save_error.push(m);
                        assert(views(self.save_error@) =~= es.push(mv));
                        return;
                    },
                }
            },
        };
        self.editor = Some(editor);
    }

    /// Routes a card button. While a vault prompt is open nothing happens; a
    /// protected card with the vault locked opens the unlock prompt with the
    /// action pending; anything else acts at once. A copy hands back the text
    /// for the clipboard.
    pub fn dispatch_action(&mut self, action: CardAction) -> (r: Option<ClipboardWrite>)
        ensures
            old(self).filter_sound() ==> final(self).filter_sound(),
            old(self).vault_prompt is Some ==> r is None && *final(self) == *old(self),
            old(self).vault_prompt is None ==> match action {
                CardAction::Copy(id) => if protected_card(old(self).snippets@, id) && old(
                    self,
                ).vault is Locked {
                    r is None && (final(self).vault_prompt matches Some(p) && fresh_prompt(
                        p,
                        VaultPromptMode::Unlock,
                        Some(PendingVaultAction::Copy(id)),
                    )) && *final(self) == (Library {
                        vault_prompt: final(self).vault_prompt,
                        ..*old(self)
                    })
                } else {
                    copy_done(*old(self), *final(self), id, r)
                },
                CardAction::Edit(id) => r is None && if protected_card(old(self).snippets@, id)
                    && old(self).vault is Locked {
                    (final(self).vault_prompt matches Some(p) && fresh_prompt(
                        p,
                        VaultPromptMode::Unlock,
                        Some(PendingVaultAction::Edit(id)),
                    )) && *final(self) == (Library {
                        vault_prompt: final(self).vault_prompt,
                        ..*old(self)
                    })
                } else {
                    edit_done(*old(self), *final(self), id)
                },
            },
    {
        if self.vault_prompt.is_some() {
            return None;
        }
        match action {
            CardAction::Copy(id) => {
                let protected = self.is_protected_card(id);
                if card_action_requires_vault(protected, self.vault.is_unlocked()) {
                    self.vault_prompt = Some(VaultPrompt::unlock_for(PendingVaultAction::Copy(id)));
                    None
                } else {
                    self.copy_snippet(id)
                }
            },
            CardAction::Edit(id) => {
                let protected = self.is_protected_card(id);
                if card_action_requires_vault(protected, self.vault.is_unlocked()) {
                    self.vault_prompt = Some(VaultPrompt::unlock_for(PendingVaultAction::Edit(id)));
                } else {
                    self.edit_snippet(id);
                }
                None
            },
        }
    }

    fn is_protected_card(&self, id: u64) -> (r: bool)
        ensures
            r == protected_card(self.snippets@, id),
    {
        let mut k: usize = 0;
        while k < self.snippets.len()
            invariant
                k <= self.snippets@.len(),
                forall|j: int|
                    0 <= j < k ==> !((#[trigger] self.snippets@[j]).id == id
                        && self.snippets@[j].protection is Some),
            decreases self.snippets.len() - k,
        {
            if self.snippets[k].id == id && self.snippets[k].protection.is_some() {
                assert(self.snippets@[k as int].id == id);
                return true;
            }
            k = k + 1;
        }
        false
    }

    /// Runs the action that waited behind the vault prompt.
    pub fn run_pending_vault_action(&mut self, pending: PendingVaultAction) -> (r: Option<
        ClipboardWrite,
    >)
        ensures
            old(self).filter_sound() ==> final(self).filter_sound(),
            match pending {
                PendingVaultAction::Copy(id) => copy_done(*old(self), *final(self), id, r),
                PendingVaultAction::Edit(id) => r is None && edit_done(*old(self), *final(self), id),
                PendingVaultAction::ProtectSave(ed) => r is None && save_applied(
                    *old(self),
                    *final(self),
                    ed,
                ),
            },
    {
        match pending {
            PendingVaultAction::Copy(id) => self.copy_snippet(id),
            PendingVaultAction::Edit(id) => {
                self.edit_snippet(id);
                None
            },
            PendingVaultAction::ProtectSave(ed) => {
                self.apply_save(ed);
                None
            },
        }
    }
}

/// `r` is `p` with only its error replaced, by the message `m`.
pub open spec fn with_error(p: VaultPrompt, r: VaultPrompt, m: Seq<char>) -> bool {
    r == (VaultPrompt { error: r.error, ..p }) && (r.error matches Some(e) && e@ == m)
}

/// The message a failed key-derivation job leaves in the prompt.
pub open spec fn work_failure(kind: VaultWorkKind, e: VaultError) -> Seq<char> {
    if e is Encoding {
        "Vault data is corrupt \u{2014} cannot unlock"@
    } else if kind == VaultWorkKind::Create {
        e.message_of()
    } else {
        "Wrong password. Try again."@
    }
}

/// A new vault could not be kept: it is forgotten and the vault locked; the
/// prompt (if still open) shows why and keeps the pending action.
pub open spec fn rolled_back(
    a: Library,
    b: Library,
    m: Seq<char>,
    pending: Option<PendingVaultAction>,
) -> bool {
    &&& b.vault_meta is None
    &&& b.vault is Locked
    &&& match a.vault_prompt {
        Some(p) => b.vault_prompt matches Some(q) && q == (VaultPrompt {
            error: q.error,
            pending: if pending is Some {
                pending
            } else {
                p.pending
            },
            ..p
        }) && (q.error matches Some(e) && e@ == m),
        None => b.vault_prompt is None,
    }
}

impl Library {
    /// Opens the unlock prompt with nothing pending (the "Vault locked"
    /// indicator was clicked).
    pub fn request_unlock(&mut self)
        ensures
            old(self).filter_sound() ==> final(self).filter_sound(),
            final(self).vault_prompt matches Some(p) && fresh_prompt(
                p,
                VaultPromptMode::Unlock,
                None,
            ),
            *final(self) == (Library { vault_prompt: final(self).vault_prompt, ..*old(self) }),
    {
        self.vault_prompt = Some(VaultPrompt::unlock_with_no_pending());
    }

    /// Handles a submitted vault prompt. A create needs a non-empty password
    /// of at least 8 chars, typed twice; an unlock needs an existing vault.
    /// A valid submission starts the key-derivation job (one at a time,
    /// tagged with a new generation) holding the pending action, and the
    /// prompt stays open, busy, until the job reports back. While a job runs,
    /// submissions are ignored.
    pub fn handle_vault_prompt(&mut self, prompt: VaultPrompt) -> (r: (VaultPrompt, Option<VaultJob>))
        ensures
            old(self).filter_sound() ==> final(self).filter_sound(),
            old(self).vault_work is Some ==> r.0 == prompt && r.1 is None && *final(self) == *old(
                self,
            ),
            old(self).vault_work is None ==> {
                let refused = match prompt.mode {
                    VaultPromptMode::Create => if prompt.password@.len() == 0 {
                        Some("Password can't be empty"@)
                    } else if prompt.password@.len() < 8 {
                        Some("Password must be at least 8 characters"@)
                    } else if prompt.password@ != prompt.confirm@ {
                        Some("Passwords don't match"@)
                    } else {
                        None
                    },
                    VaultPromptMode::Unlock => if old(self).vault_meta is None {
                        Some(
                            "No vault exists yet \u{2014} check \"Protect this snippet\" to create one"@,
                        )
                    } else {
                        None
                    },
                };
                match refused {
                    Some(m) => with_error(prompt, r.0, m) && r.1 is None && *final(self) == *old(
                        self,
                    ),
                    None => {
                        let gen = crate::library::bumped(old(self).vault_work_gen);
                        let kind = if prompt.mode == VaultPromptMode::Create {
                            VaultWorkKind::Create
                        } else {
                            VaultWorkKind::Unlock
                        };
                        &&& final(self).vault_work_gen == gen
                        &&& final(self).vault_work == Some(
                            VaultWork { gen, kind, pending: prompt.pending },
                        )
                        &&& r.0 == (VaultPrompt { error: None, pending: None, ..prompt })
                        &&& match r.1 {
                            Some(VaultJob::Create { password }) => kind == VaultWorkKind::Create
                                && password@ == prompt.password@,
                            Some(VaultJob::Unlock { password, meta }) => kind
                                == VaultWorkKind::Unlock && password@ == prompt.password@
                                && old(self).vault_meta == Some(meta),
                            None => false,
                        }
                        &&& *final(self) == (Library {
                            vault_work: final(self).vault_work,
                            vault_work_gen: gen,
                            ..*old(self)
                        })
                    },
                }
            },
    {
        if self.vault_work.is_some() {
            return (prompt, None);
        }
        let mut prompt = prompt;
        match prompt.mode {
            VaultPromptMode::Create => {
                if prompt.password.as_str().is_empty() {
                    prompt.error = Some(String::from_str("Password can't be empty"));
                    return (prompt, None);
                }
                if prompt.password.as_str().unicode_len() < crate::vault::MIN_VAULT_PASSWORD_LEN {
                    let mut m = String::from_str("Password must be at least ");
                    let d = u64_to_decimal(8);
                    proof {
                        reveal_strlit("Password must be at least ");
                        reveal_strlit(" characters");
                        reveal_strlit("Password must be at least 8 characters");
                        assert(decimal(8) =~= seq!['8']) by {
                            reveal_with_fuel(decimal, 2);
                        }
                    }
                    m.append(d.as_str());
                    m.append(" characters");
                    assert(m@ =~= "Password must be at least 8 characters"@);
                    prompt.error = Some(m);
                    return (prompt, None);
                }
                if !crate::text::str_eq(prompt.password.as_str(), prompt.confirm.as_str()) {
                    prompt.error = Some(String::from_str("Passwords don't match"));
                    return (prompt, None);
                }
                let pending = prompt.pending.take();
                let password = prompt.password.clone();
                let gen = self.vault_work_gen.wrapping_add(1);
                self.vault_work_gen = gen;
                self.vault_work = Some(VaultWork { gen, kind: VaultWorkKind::Create, pending });
                prompt.error = None;
                (prompt, Some(VaultJob::Create { password }))
            },
            VaultPromptMode::Unlock => {
                let meta = match &self.vault_meta {
                    Some(m) => m.clone(),
                    None => {
                        prompt.error = Some(
                            String::from_str(
                                "No vault exists yet \u{2014} check \"Protect this snippet\" to create one",
                            ),
                        );
                        return (prompt, None);
                    },
                };
                let pending = prompt.pending.take();
                let password = prompt.password.clone();
                let gen = self.vault_work_gen.wrapping_add(1);
                self.vault_work_gen = gen;
                self.vault_work = Some(VaultWork { gen, kind: VaultWorkKind::Unlock, pending });
                prompt.error = None;
                (prompt, Some(VaultJob::Unlock { password, meta }))
            },
        }
    }

    fn roll_back_new_vault(&mut self, m: String, pending: Option<PendingVaultAction>)
        ensures
            rolled_back(*old(self), *final(self), m@, pending),
            *final(self) == (Library {
                vault_meta: None,
                vault: final(self).vault,
                vault_prompt: final(self).vault_prompt,
                ..*old(self)
            }),
    {
        self.vault_meta = None;
        self.vault.lock();
        let cur = self.vault_prompt.take();
        match cur {
            Some(p) => {
                let mut p = p;
                p.error = Some(m);
                if pending.is_some() {
                    p.pending = pending;
                }
                self.vault_prompt = Some(p);
            },
            None => {},
        }
    }

    /// Applies the result of the key-derivation job. A result that arrives
    /// after the prompt was closed is discarded: nothing is unlocked and the
    /// pending action never runs. An unlock installs the key, closes the
    /// prompt and hands back the pending action. A created vault is kept and
    /// unlocked, and its config must be written (a refused config file rolls
    /// it back at once). A failure is shown in the prompt, which keeps the
    /// pending action for a retry.
    pub fn vault_work_done(&mut self, output: Result<VaultWorkOutput, VaultError>) -> (r: WorkStep)
        ensures
            old(self).filter_sound() ==> final(self).filter_sound(),
            old(self).vault_work is None ==> r is Nothing && *final(self) == *old(self),
            old(self).vault_work is Some && old(self).vault_prompt is None ==> r is Nothing
                && *final(self) == (Library { vault_work: None, ..*old(self) }),
            old(self).vault_work is Some && old(self).vault_prompt is Some ==> {
                let w = old(self).vault_work->0;
                let p = old(self).vault_prompt->0;
                &&& final(self).vault_work is None
                &&& match output {
                    Ok(VaultWorkOutput::Unlocked(key)) => if w.kind == VaultWorkKind::Unlock {
                        &&& r == WorkStep::Run(w.pending)
                        &&& *final(self) == (Library {
                            vault_work: None,
                            vault: VaultState::Unlocked(key),
                            vault_prompt: None,
                            ..*old(self)
                        })
                    } else {
                        &&& r is Nothing
                        &&& (final(self).vault_prompt matches Some(q) && with_error(
                            p,
                            q,
                            "Internal vault error"@,
                        ))
                        &&& *final(self) == (Library {
                            vault_work: None,
                            vault_prompt: final(self).vault_prompt,
                            ..*old(self)
                        })
                    },
                    Ok(VaultWorkOutput::Created(meta, key)) => if w.kind == VaultWorkKind::Create {
                        if old(self).refuse_config_overwrite {
                            &&& r is Nothing
                            &&& rolled_back(
                                *old(self),
                                *final(self),
                                crate::library::prefixed(
                                    crate::library::CONFIG_SAVE_ERROR@,
                                    crate::library::refusal("config.json"@),
                                ),
                                w.pending,
                            )
                            &&& views(final(self).save_error@) == pushed_once(
                                views(old(self).save_error@),
                                crate::library::prefixed(
                                    crate::library::CONFIG_SAVE_ERROR@,
                                    crate::library::refusal("config.json"@),
                                ),
                            )
                        } else {
                            &&& r == WorkStep::PersistNewVault(w.pending)
                            &&& *final(self) == (Library {
                                vault_work: None,
                                vault_meta: Some(meta),
                                vault: VaultState::Unlocked(key),
                                config_save_due: true,
                                ..*old(self)
                            })
                        }
                    } else {
                        &&& r is Nothing
                        &&& (final(self).vault_prompt matches Some(q) && with_error(
                            p,
                            q,
                            "Internal vault error"@,
                        ))
                        &&& *final(self) == (Library {
                            vault_work: None,
                            vault_prompt: final(self).vault_prompt,
                            ..*old(self)
                        })
                    },
                    Err(e) => {
                        &&& r is Nothing
                        &&& (final(self).vault_prompt matches Some(q) && q == (VaultPrompt {
                            error: q.error,
                            pending: if w.pending is Some {
                                w.pending
                            } else {
                                p.pending
                            },
                            ..p
                        }) && (q.error matches Some(m) && m@ == work_failure(w.kind, e)))
                        &&& *final(self) == (Library {
                            vault_work: None,
                            vault_prompt: final(self).vault_prompt,
                            ..*old(self)
                        })
                    },
                }
            },
    {
        let work = match self.vault_work.take() {
            Some(w) => w,
            None => {
                return WorkStep::Nothing;
            },
        };
        if self.vault_prompt.is_none() {
            return WorkStep::Nothing;
        }
        match output {
            Ok(VaultWorkOutput::Unlocked(key)) => {
                if work.kind == VaultWorkKind::Unlock {
                    self.vault.unlock_with_key(key);
                    self.vault_prompt = None;
                    WorkStep::Run(work.pending)
                } else {
                    self.set_prompt_error(String::from_str("Internal vault error"));
                    WorkStep::Nothing
                }
            },
            Ok(VaultWorkOutput::Created(meta, key)) => {
                if work.kind == VaultWorkKind::Create {
                    self.vault_meta = Some(meta);
                    self.vault.unlock_with_key(key);
                    match self.save_config() {
                        Ok(()) => WorkStep::PersistNewVault(work.pending),
                        Err(e) => {
                            let m = crate::library::prefixed_message(
                                crate::library::CONFIG_SAVE_ERROR,
                                e.as_str(),
                            );
                            self.roll_back_new_vault(m, work.pending);
                            WorkStep::Nothing
                        },
                    }
                } else {
                    self.set_prompt_error(String::from_str("Internal vault error"));
                    WorkStep::Nothing
                }
            },
            Err(e) => {
                let is_encoding = match &e {
                    VaultError::Encoding(_) => true,
                    _ => false,
                };
                let m = if is_encoding {
                    String::from_str("Vault data is corrupt \u{2014} cannot unlock")
                } else if work.kind == VaultWorkKind::Create {
                    e.message()
                } else {
                    String::from_str("Wrong password. Try again.")
                };
                let cur = self.vault_prompt.take();
                match cur {
                    Some(p) => {
                        let mut p = p;
                        p.error = Some(m);
                        if work.pending.is_some() {
                            p.pending = work.pending;
                        }
                        self.vault_prompt = Some(p);
                    },
                    None => {},
                }
                WorkStep::Nothing
            },
        }
    }

    fn set_prompt_error(&mut self, m: String)
        ensures
            match old(self).vault_prompt {
                Some(p) => final(self).vault_prompt matches Some(q) && with_error(p, q, m@),
                None => final(self).vault_prompt is None,
            },
            *final(self) == (Library { vault_prompt: final(self).vault_prompt, ..*old(self) }),
    {
        let cur = self.vault_prompt.take();
        match cur {
            Some(p) => {
                let mut p = p;
                p.error = Some(m);
                self.vault_prompt = Some(p);
            },
            None => {},
        }
    }

    /// Reports how writing a newly created vault's config went. Success
    /// closes the prompt and hands back the pending action; a failure rolls
    /// the vault back (a vault that would vanish on relaunch would destroy
    /// the secrets protected under it) and shows why in the prompt.
    pub fn new_vault_persisted(
        &mut self,
        outcome: Result<(), String>,
        pending: Option<PendingVaultAction>,
    ) -> (r: Option<PendingVaultAction>)
        ensures
            old(self).filter_sound() ==> final(self).filter_sound(),
            match outcome {
                Ok(()) => r == pending && *final(self) == (Library {
                    vault_prompt: None,
                    ..*old(self)
                }),
                Err(e) => r is None && rolled_back(
                    *old(self),
                    *final(self),
                    crate::library::prefixed(crate::library::CONFIG_SAVE_ERROR@, e@),
                    pending,
                ) && *final(self) == (Library {
                    vault_meta: None,
                    vault: final(self).vault,
                    vault_prompt: final(self).vault_prompt,
                    ..*old(self)
                }),
            },
    {
        match outcome {
            Ok(()) => {
                self.vault_prompt = None;
                pending
            },
            Err(e) => {
                let m = crate::library::prefixed_message(crate::library::CONFIG_SAVE_ERROR, e.as_str());
                self.roll_back_new_vault(m, pending);
                None
            },
        }
    }

    /// The key-derivation job vanished without a result: forget it.
    pub fn vault_work_lost(&mut self)
        ensures
            old(self).filter_sound() ==> final(self).filter_sound(),
            *final(self) == (Library { vault_work: None, ..*old(self) }),
    {
        self.vault_work = None;
    }

    /// The prompt was cancelled or closed: an editor parked behind it (the
    /// first-ever protect) is handed back so the draft is not lost, whether
    /// it waits in the prompt or in the running job. A running job loses its
    /// pending action, so its late result can never run it.
    pub fn cancel_vault_prompt(&mut self, prompt: VaultPrompt)
        ensures
            old(self).filter_sound() ==> final(self).filter_sound(),
            final(self).vault_work == (match old(self).vault_work {
                Some(w) => Some(VaultWork { pending: None, ..w }),
                None => None,
            }),
            final(self).editor == (match prompt.pending {
                Some(PendingVaultAction::ProtectSave(ed)) => Some(ed),
                _ => match old(self).vault_work {
                    Some(w) => match w.pending {
                        Some(PendingVaultAction::ProtectSave(ed)) => Some(ed),
                        _ => old(self).editor,
                    },
                    None => old(self).editor,
                },
            }),
            *final(self) == (Library {
                vault_work: final(self).vault_work,
                editor: final(self).editor,
                ..*old(self)
            }),
    {
        let work = self.vault_work.take();
        match work {
            Some(w) => {
                let mut w = w;
                let pending = w.pending.take();
                match pending {
                    Some(PendingVaultAction::ProtectSave(ed)) => {
                        self.editor = Some(ed);
                    },
                    _ => {},
                }
                self.vault_work = Some(w);
            },
            None => {},
        }
        match prompt.pending {
            Some(PendingVaultAction::ProtectSave(ed)) => {
                self.editor = Some(ed);
            },
            _ => {},
        }
    }
}

/// "Couldn't {verb} \"{title}\": the protected snippet can't be decrypted ({e})".
fn undecryptable_message(verb: &str, title: &str, e: &VaultError) -> (r: String)
    ensures
        r@ == undecryptable(verb@, title@, *e),
{
    let mut m = String::from_str("Couldn't ");
    m.append(verb);
    m.append(" \"");
    m.append(title);
    m.append("\": the protected snippet can't be decrypted (");
    let em = e.message();
    m.append(em.as_str());
    m.append(")");
    m
}

} // verus!
