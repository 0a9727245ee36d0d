//! The rows of the shared SQLite store and how they map to snippets and the
//! config. The front end runs the SQL; the mapping stands here.
use vstd::prelude::*;

use crate::model::{Protection, Snippet};
use crate::storage::Config;
use crate::vault::VaultMeta;

verus! {

/// File name of the SQLite store, beside the legacy JSON files.
pub const DB_FILE_NAME: &'static str = "copyit.db";

/// One row of the `snippets` table.
#[derive(Debug)]
pub struct SnippetRow {
    pub id: i64,
    pub title: String,
    pub description: String,
    pub category: String,
    pub body: String,
    pub protection_hint: Option<String>,
    pub protection_nonce: Option<String>,
    pub protection_ciphertext: Option<String>,
    pub sort_order: i64,
}

/// `row` holds `s` at position `sort_order` of the library: a protected
/// snippet keeps its protection and an empty body (the table checks that), a
/// plain one its body and no protection.
pub open spec fn stores(row: SnippetRow, s: Snippet, sort_order: usize) -> bool {
    &&& row.id == s.id as i64
    &&& row.title@ == s.title@
    &&& row.description@ == s.description@
    &&& row.category@ == s.category@
    &&& row.sort_order == sort_order as i64
    &&& match s.protection {
        Some(p) => row.body@.len() == 0 && (row.protection_hint matches Some(h) && h@ == p.hint@)
            && (row.protection_nonce matches Some(n) && n@ == p.nonce@) && (
        row.protection_ciphertext matches Some(c) && c@ == p.ciphertext@),
        None => row.body@ == s.body@ && row.protection_hint is None && row.protection_nonce is None
            && row.protection_ciphertext is None,
    }
}

/// `r` is the snippet `row` holds: protected exactly when all three protection
/// columns are set.
pub open spec fn reads_as(row: SnippetRow, r: Snippet) -> bool {
    &&& r.id == row.id as u64
    &&& r.title == row.title
    &&& r.description == row.description
    &&& r.category == row.category
    &&& r.body == row.body
    &&& match (row.protection_hint, row.protection_nonce, row.protection_ciphertext) {
        (Some(h), Some(n), Some(c)) => r.protection == Some(
            Protection { hint: h, nonce: n, ciphertext: c },
        ),
        _ => r.protection is None,
    }
}

/// A snippet as the library keeps it: a protected one holds no cleartext body.
pub open spec fn body_consistent(s: Snippet) -> bool {
    s.protection is Some ==> s.body@.len() == 0
}

/// The same snippet, field by field, every string taken by its chars.
pub open spec fn same_snippet(a: Snippet, b: Snippet) -> bool {
    &&& a.id == b.id
    &&& a.title@ == b.title@
    &&& a.description@ == b.description@
    &&& a.category@ == b.category@
    &&& a.body@ == b.body@
    &&& match (a.protection, b.protection) {
        (Some(p), Some(q)) => p.hint@ == q.hint@ && p.nonce@ == q.nonce@ && p.ciphertext@
            == q.ciphertext@,
        (None, None) => true,
        _ => false,
    }
}

/// A snippet written as a row reads back as the same snippet.
pub proof fn lemma_snippet_row_round_trip(s: Snippet, row: SnippetRow, r: Snippet, sort_order: usize)
    requires
        body_consistent(s),
        stores(row, s, sort_order),
        reads_as(row, r),
    ensures
        same_snippet(r, s),
{
    let id = s.id;
    assert((id as i64) as u64 == id) by (bit_vector);
    if s.protection is Some {
        assert(r.body@ =~= s.body@);
    }
}

/// The three vault columns hold `meta`: all set, or none.
pub open spec fn vault_stored_as(
    meta: Option<VaultMeta>,
    salt: Option<String>,
    nonce: Option<String>,
    canary: Option<String>,
) -> bool {
    match meta {
        Some(m) => (salt matches Some(s) && s@ == m.salt@) && (nonce matches Some(n) && n@
            == m.nonce@) && (canary matches Some(c) && c@ == m.canary@),
        None => salt is None && nonce is None && canary is None,
    }
}

/// `vault` is what the three vault columns hold: a vault exactly when all
/// three are set.
pub open spec fn vault_read_as(
    salt: Option<String>,
    nonce: Option<String>,
    canary: Option<String>,
    vault: Option<VaultMeta>,
) -> bool {
    match (salt, nonce, canary) {
        (Some(s), Some(n), Some(c)) => vault == Some(VaultMeta { salt: s, nonce: n, canary: c }),
        _ => vault is None,
    }
}

/// Vault metadata written to the columns reads back as the same metadata.
pub proof fn lemma_vault_columns_round_trip(
    meta: Option<VaultMeta>,
    salt: Option<String>,
    nonce: Option<String>,
    canary: Option<String>,
    read: Option<VaultMeta>,
)
    requires
        vault_stored_as(meta, salt, nonce, canary),
        vault_read_as(salt, nonce, canary, read),
    ensures
        match (meta, read) {
            (Some(m), Some(v)) => m.salt@ == v.salt@ && m.nonce@ == v.nonce@ && m.canary@
                == v.canary@,
            (None, None) => true,
            _ => false,
        },
{
}

/// The snippet a row holds: protected exactly when all three protection
/// columns are set.
pub fn snippet_from_row(row: SnippetRow) -> (r: Snippet)
    ensures
        reads_as(row, r),
{
    let protection = match (row.protection_hint, row.protection_nonce, row.protection_ciphertext) {
        (Some(hint), Some(nonce), Some(ciphertext)) => Some(Protection { hint, nonce, ciphertext }),
        _ => None,
    };
    Snippet {
        id: row.id as u64,
        title: row.title,
        description: row.description,
        category: row.category,
        body: row.body,
        protection,
    }
}

/// The row a snippet is stored as, at position `sort_order` of the library:
/// a protected snippet stores its protection and an empty body (the table
/// checks that), a plain one its body and no protection.
pub fn snippet_row(s: &Snippet, sort_order: usize) -> (r: SnippetRow)
    ensures
        stores(r, *s, sort_order),
{
    let (hint, nonce, ciphertext, body) = match &s.protection {
        Some(p) => (
            Some(p.hint.clone()),
            Some(p.nonce.clone()),
            Some(p.ciphertext.clone()),
            String::new(),
        ),
        None => (None, None, None, s.body.clone()),
    };
    SnippetRow {
        id: s.id as i64,
        title: s.title.clone(),
        description: s.description.clone(),
        category: s.category.clone(),
        body,
        protection_hint: hint,
        protection_nonce: nonce,
        protection_ciphertext: ciphertext,
        sort_order: sort_order as i64,
    }
}

/// The config the `app_config` row and the category rows hold: a vault
/// exactly when all three vault columns are set.
pub fn config_from_rows(
    theme: String,
    salt: Option<String>,
    nonce: Option<String>,
    canary: Option<String>,
    categories: Vec<String>,
) -> (r: Config)
    ensures
        r.theme == theme,
        r.categories == categories,
        vault_read_as(salt, nonce, canary, r.vault),
{
    let vault = match (salt, nonce, canary) {
        (Some(salt), Some(nonce), Some(canary)) => Some(VaultMeta { salt, nonce, canary }),
        _ => None,
    };
    Config { categories, theme, vault }
}

/// The vault columns of the `app_config` row: all three set, or none.
pub fn vault_columns(meta: &Option<VaultMeta>) -> (r: (Option<String>, Option<String>, Option<String>))
    ensures
        vault_stored_as(*meta, r.0, r.1, r.2),
{
    match meta {
        Some(m) => (Some(m.salt.clone()), Some(m.nonce.clone()), Some(m.canary.clone())),
        None => (None, None, None),
    }
}

} // verus!
