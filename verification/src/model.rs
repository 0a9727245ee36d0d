//! The stored items: a snippet (a script or a prompt) and the on-disk form of a
//! protected snippet's body.
use vstd::prelude::*;

verus! {

/// A single stored item: a script or a prompt.
///
/// `id` is stable across edits and saves and unique among the stored
/// snippets; it is the key the editor and drag-and-drop work by.
#[derive(Debug, PartialEq)]
pub struct Snippet {
    pub id: u64,
    pub title: String,
    pub description: String,
    /// User-defined category (stored in its normalized, title-cased form).
    pub category: String,
    /// The text copied to the clipboard; empty for a protected snippet.
    pub body: String,
    /// `Some` when the snippet is password-protected: the body then lives only
    /// as ciphertext under the vault key.
    pub protection: Option<Protection>,
}

/// The stored form of a protected snippet body: the hint (at most five
/// cleartext chars, fixed when the snippet was protected) and the base64
/// nonce and ciphertext of the XChaCha20-Poly1305 encryption of the body.
#[derive(Debug, PartialEq)]
pub struct Protection {
    pub hint: String,
    pub nonce: String,
    pub ciphertext: String,
}

impl Clone for Protection {
    fn clone(&self) -> (r: Self)
        ensures
            r == *self,
    {
        Protection {
            hint: self.hint.clone(),
            nonce: self.nonce.clone(),
            ciphertext: self.ciphertext.clone(),
        }
    }
}

impl Clone for Snippet {
    fn clone(&self) -> (r: Self)
        ensures
            r == *self,
    {
        let protection = match &self.protection {
            Some(p) => Some(p.clone()),
            None => None,
        };
        Snippet {
            id: self.id,
            title: self.title.clone(),
            description: self.description.clone(),
            category: self.category.clone(),
            body: self.body.clone(),
            protection,
        }
    }
}

} // verus!
