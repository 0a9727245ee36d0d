//! The vault behind password-protected snippets: key derivation (Argon2id),
//! authenticated encryption (XChaCha20-Poly1305) with base64 transport, the
//! canary that verifies a candidate password, the session lock state, and the
//! hint and masking rules the censored cards follow.
use vstd::prelude::*;
use vstd::utf8::{decode_utf8, encode_utf8, valid_utf8};

use crate::crypto::{
    argon2id_hash, argon2id_key, argon2_inputs_ok, b64_char, b64_decode, b64_encode,
    base64_decode, base64_encode, random_bytes, utf8_string, wipe_key, xchacha_decrypt,
    xchacha_encrypt, xchacha_open, xchacha_seal,
};
use crate::model::Protection;
use crate::text::{chars_of, is_ws, is_ws_spec, push_char, string_of, trim, trim_chars, trim_start};

verus! {

/// KDF salt length (16 random bytes).
pub const SALT_LEN: usize = 16;

/// Per-encryption nonce length for XChaCha20.
pub const NONCE_LEN: usize = 24;

/// Derived key length.
pub const KEY_LEN: usize = 32;

/// Body length (in chars, after leading whitespace) from which a hint is stored.
pub const HINT_MIN_BODY_CHARS: usize = 12;

/// Chars of the body exposed as a hint when the body is long enough.
pub const HINT_CHARS: usize = 5;

/// Minimum vault password length in chars, enforced when a vault is created
/// (unlocking accepts any length, so older vaults keep working).
pub const MIN_VAULT_PASSWORD_LEN: usize = 8;

/// Argon2id costs (RFC 9106's moderate parameters: m = 19 MiB, t = 2, p = 1).
pub const KDF_M_COST: u32 = 19456;

pub const KDF_T_COST: u32 = 2;

pub const KDF_P_COST: u32 = 1;

/// The kind of a vault failure.
#[derive(Debug, Clone, Copy, PartialEq, Eq)]
pub enum VaultErrorKind {
    KeyDerivation,
    Encoding,
    Encryption,
    Decryption,
    WeakPassword,
}

/// Error of every vault operation; each variant carries a human-readable
/// detail for the warning banner or the unlock modal.
#[derive(Debug)]
pub enum VaultError {
    /// Argon2 key derivation failed.
    KeyDerivation(String),
    /// Base64 or UTF-8 decoding failed (corrupt metadata or ciphertext).
    Encoding(String),
    /// Authenticated encryption failed.
    Encryption(String),
    /// Authenticated decryption failed (wrong key, tampered data, ...).
    Decryption(String),
    /// The password is too short to create a vault.
    WeakPassword(String),
}

impl VaultError {
    pub open spec fn kind_of(&self) -> VaultErrorKind {
        match self {
            VaultError::KeyDerivation(_) => VaultErrorKind::KeyDerivation,
            VaultError::Encoding(_) => VaultErrorKind::Encoding,
            VaultError::Encryption(_) => VaultErrorKind::Encryption,
            VaultError::Decryption(_) => VaultErrorKind::Decryption,
            VaultError::WeakPassword(_) => VaultErrorKind::WeakPassword,
        }
    }

    pub fn kind(&self) -> (r: VaultErrorKind)
        ensures
            r == self.kind_of(),
    {
        match self {
            VaultError::KeyDerivation(_) => VaultErrorKind::KeyDerivation,
            VaultError::Encoding(_) => VaultErrorKind::Encoding,
            VaultError::Encryption(_) => VaultErrorKind::Encryption,
            VaultError::Decryption(_) => VaultErrorKind::Decryption,
            VaultError::WeakPassword(_) => VaultErrorKind::WeakPassword,
        }
    }

    pub open spec fn message_of(&self) -> Seq<char> {
        match self {
            VaultError::KeyDerivation(e) => "key derivation failed ("@ + e@ + ")"@,
            VaultError::Encoding(e) => "vault data is corrupt ("@ + e@ + ")"@,
            VaultError::Encryption(e) => "encryption failed ("@ + e@ + ")"@,
            VaultError::Decryption(e) => "wrong password or damaged data ("@ + e@ + ")"@,
            VaultError::WeakPassword(m) => m@,
        }
    }

    /// The text shown to the user for this error.
    pub fn message(&self) -> (r: String)
        ensures
            r@ == self.message_of(),
    {
        let (mut out, detail) = match self {
            VaultError::KeyDerivation(e) => (String::from_str("key derivation failed ("), e),
            VaultError::Encoding(e) => (String::from_str("vault data is corrupt ("), e),
            VaultError::Encryption(e) => (String::from_str("encryption failed ("), e),
            VaultError::Decryption(e) => (String::from_str("wrong password or damaged data ("), e),
            VaultError::WeakPassword(m) => {
                return m.clone();
            },
        };
        out.append(detail.as_str());
        out.append(")");
        out
    }
}

/// Vault metadata stored with the config: the base64 Argon2id salt and the
/// base64 nonce and ciphertext of the canary. It holds nothing that reveals
/// the password.
#[derive(Debug)]
pub struct VaultMeta {
    pub salt: String,
    pub nonce: String,
    pub canary: String,
}

impl Clone for VaultMeta {
    fn clone(&self) -> (r: Self)
        ensures
            r == *self,
    {
        VaultMeta { salt: self.salt.clone(), nonce: self.nonce.clone(), canary: self.canary.clone() }
    }
}

/// The fixed canary plaintext, "copyit-vault-canary-v1". It must never change:
/// a canary written by an old build has to decode with the current one.
pub open spec fn canary_spec() -> Seq<u8> {
    seq![
        99u8, 111, 112, 121, 105, 116, 45, 118, 97, 117, 108, 116, 45, 99, 97, 110, 97, 114, 121,
        45, 118, 49,
    ]
}

pub fn canary_plaintext() -> (r: Vec<u8>)
    ensures
        r@ == canary_spec(),
{
    let r = vec![
        99u8, 111, 112, 121, 105, 116, 45, 118, 97, 117, 108, 116, 45, 99, 97, 110, 97, 114, 121,
        45, 118, 49,
    ];
    assert(r@ =~= canary_spec());
    r
}

/// The vault key for a password and a salt.
pub open spec fn kdf(password: Seq<u8>, salt: Seq<u8>) -> Seq<u8> {
    argon2id_key(KDF_M_COST, KDF_T_COST, KDF_P_COST, password, salt)
}

/// What decrypting a base64 nonce/ciphertext pair yields.
pub open spec fn decrypt_outcome(key: Seq<u8>, nonce: Seq<char>, ciphertext: Seq<char>) -> Result<Seq<u8>, VaultErrorKind> {
    match b64_decode(trim(nonce)) {
        None => Err(VaultErrorKind::Encoding),
        Some(nb) => if nb.len() != 24 {
            Err(VaultErrorKind::Decryption)
        } else {
            match b64_decode(trim(ciphertext)) {
                None => Err(VaultErrorKind::Encoding),
                Some(cb) => match xchacha_open(key, nb, cb) {
                    None => Err(VaultErrorKind::Decryption),
                    Some(p) => Ok(p),
                },
            }
        },
    }
}

/// Text written in the standard base64 alphabet only, as the vault stores it.
pub open spec fn b64_text(t: Seq<char>) -> bool {
    forall|i: int| 0 <= i < t.len() ==> b64_char(#[trigger] t[i])
}

/// `nonce` and `ciphertext` are the base64 texts of a 24-byte nonce and of
/// the XChaCha20-Poly1305 sealing of `plaintext` under `key` and that nonce.
pub open spec fn sealed_as(key: Seq<u8>, nonce: Seq<char>, ciphertext: Seq<char>, plaintext: Seq<u8>) -> bool {
    &&& b64_text(nonce)
    &&& b64_text(ciphertext)
    &&& b64_decode(nonce) matches Some(nb) && nb.len() == 24 && b64_decode(ciphertext) == Some(
        xchacha_seal(key, nb, plaintext),
    )
}

/// `r` carries exactly the outcome `o`: the same bytes, or an error of the same kind.
pub open spec fn bytes_outcome(r: Result<Vec<u8>, VaultError>, o: Result<Seq<u8>, VaultErrorKind>) -> bool {
    match o {
        Ok(p) => r matches Ok(v) && v@ == p,
        Err(k) => r matches Err(e) && e.kind_of() == k,
    }
}

/// The hint rule: after leading whitespace, the first five chars of the body
/// when at least twelve chars remain, else nothing.
pub open spec fn hint_spec(body: Seq<char>) -> Seq<char> {
    let t = trim_start(body);
    if t.len() >= 12 {
        t.take(5)
    } else {
        seq![]
    }
}

pub open spec fn bullets() -> Seq<char> {
    seq!['\u{2022}', '\u{2022}', '\u{2022}', '\u{2022}', '\u{2022}', '\u{2022}']
}

proof fn lemma_trim_b64(s: Seq<char>)
    requires
        forall|i: int| 0 <= i < s.len() ==> b64_char(#[trigger] s[i]),
    ensures
        trim(s) == s,
{
    crate::text::lemma_trim_start_skip(s);
    if s.len() > 0 {
        assert(!is_ws_spec(s[0])) by {
            assert(b64_char(s[0]));
        }
    }
    assert(s.skip(0) =~= s);
    crate::text::lemma_trim_end_take(s);
    if s.len() > 0 {
        assert(!is_ws_spec(s.last())) by {
            assert(b64_char(s[s.len() - 1]));
        }
    }
    assert(s.take(s.len() as int) =~= s);
}

/// Decodes base64 after trimming surrounding whitespace.
fn decode(s: &str) -> (r: Result<Vec<u8>, VaultError>)
    ensures
        match b64_decode(trim(s@)) {
            Some(b) => r matches Ok(v) && v@ == b,
            None => r matches Err(e) && e is Encoding,
        },
{
    let cs = chars_of(s);
    let t = string_of(&trim_chars(&cs));
    match base64_decode(t.as_str()) {
        Ok(v) => Ok(v),
        Err(e) => Err(VaultError::Encoding(e)),
    }
}

/// Derives the 32-byte vault key from `password` and `salt` with Argon2id.
pub fn derive_key(password: &str, salt: &[u8]) -> (r: Result<[u8; 32], VaultError>)
    ensures
        r is Ok <==> argon2_inputs_ok(encode_utf8(password@).len(), salt@.len()),
        r matches Ok(k) ==> k@ == kdf(encode_utf8(password@), salt@),
        r matches Err(e) ==> e is KeyDerivation,
{
    match argon2id_hash(KDF_M_COST, KDF_T_COST, KDF_P_COST, password.as_bytes(), salt) {
        Ok(k) => Ok(k),
        Err(e) => Err(VaultError::KeyDerivation(e)),
    }
}

/// Encrypts `plaintext` under `key` with a fresh random nonce and returns
/// `(nonce_base64, ciphertext_base64)`. A plaintext over the cipher's limit,
/// or a failure of the operating system's random source, is an
/// `Encryption` error.
pub fn encrypt(key: &[u8; 32], plaintext: &[u8]) -> (r: Result<(String, String), VaultError>)
    requires
        plaintext@.len() <= usize::MAX / 2 - 16,
    ensures
        r is Ok ==> plaintext@.len() / 64 < 0xFFFF_FFFF,
        plaintext@.len() / 64 >= 0xFFFF_FFFF ==> r is Err,
        r matches Ok((n, c)) ==> decrypt_outcome(key@, n@, c@) == Ok::<Seq<u8>, VaultErrorKind>(plaintext@),
        r matches Ok((n, c)) ==> sealed_as(key@, n@, c@, plaintext@),
        r matches Err(e) ==> e is Encryption,
{
    let nonce = match random_bytes::<24>() {
        Ok(b) => b,
        Err(e) => {
            return Err(VaultError::Encryption(e));
        },
    };
    match xchacha_encrypt(key, &nonce, plaintext) {
        Ok(ct) => {
            let n = base64_encode(&nonce);
            let c = base64_encode(ct.as_slice());
            proof {
                lemma_trim_b64(n@);
                lemma_trim_b64(c@);
            }
            Ok((n, c))
        },
        Err(e) => Err(VaultError::Encryption(e)),
    }
}

/// Decrypts a base64 nonce/ciphertext pair under `key`. Any authentication
/// failure (wrong key, tampered bytes) is an error, never data.
pub fn decrypt(key: &[u8; 32], nonce_b64: &str, ciphertext_b64: &str) -> (r: Result<Vec<u8>, VaultError>)
    ensures
        bytes_outcome(r, decrypt_outcome(key@, nonce_b64@, ciphertext_b64@)),
{
    let nonce = decode(nonce_b64)?;
    if nonce.len() != NONCE_LEN {
        let mut m = String::from_str("nonce is ");
        let d = crate::text::u64_to_decimal(nonce.len() as u64);
        m.append(d.as_str());
        m.append(" bytes, expected 24");
        return Err(VaultError::Decryption(m));
    }
    let ciphertext = decode(ciphertext_b64)?;
    let r = match xchacha_decrypt(key, nonce.as_slice(), ciphertext.as_slice()) {
        Ok(p) => Ok(p),
        Err(e) => Err(VaultError::Decryption(e)),
    };
    r
}


/// A body the vault encrypts: its UTF-8 form is under the cipher's limit of
/// 2^32 - 1 blocks of 64 bytes, and its ciphertext's base64 fits in memory.
pub open spec fn encryptable(body: Seq<char>) -> bool {
    encode_utf8(body).len() <= usize::MAX / 2 - 16 && encode_utf8(body).len() / 64 < 0xFFFF_FFFF
}

/// What decrypting a protected body yields: the decrypted bytes as UTF-8 text.
pub open spec fn body_outcome(key: Seq<u8>, p: Protection) -> Result<Seq<char>, VaultErrorKind> {
    match decrypt_outcome(key, p.nonce@, p.ciphertext@) {
        Err(k) => Err(k),
        Ok(b) => if valid_utf8(b) {
            Ok(decode_utf8(b))
        } else {
            Err(VaultErrorKind::Encoding)
        },
    }
}

/// Encrypts a snippet body into its stored `Protection`: the hint fixed now,
/// a fresh nonce, and the ciphertext. A body over the limit, or a failure of
/// the operating system's random source, is an `Encryption` error.
pub fn encrypt_body(key: &[u8; 32], body: &str) -> (r: Result<Protection, VaultError>)
    ensures
        r is Ok ==> encryptable(body@),
        !encryptable(body@) ==> r is Err,
        r matches Ok(p) ==> p.hint@ == hint_spec(body@) && body_outcome(key@, p) == Ok::<
            Seq<char>,
            VaultErrorKind,
        >(body@),
        r matches Ok(p) ==> sealed_as(key@, p.nonce@, p.ciphertext@, encode_utf8(body@)),
        r matches Err(e) ==> e is Encryption,
{
    let bytes = body.as_bytes();
    if bytes.len() > usize::MAX / 2 - 16 {
        return Err(VaultError::Encryption(String::from_str("the body is too large to encrypt")));
    }
    let hint = hint_for(body);
    let (nonce, ciphertext) = encrypt(key, bytes)?;
    proof {
        vstd::utf8::encode_utf8_valid_utf8(body@);
        vstd::utf8::encode_utf8_decode_utf8(body@);
    }
    Ok(Protection { hint, nonce, ciphertext })
}

/// Decrypts a protected snippet body back to its text.
pub fn decrypt_body(key: &[u8; 32], protection: &Protection) -> (r: Result<String, VaultError>)
    ensures
        match body_outcome(key@, *protection) {
            Ok(t) => r matches Ok(s) && s@ == t,
            Err(k) => r matches Err(e) && e.kind_of() == k,
        },
{
    let bytes = decrypt(key, protection.nonce.as_str(), protection.ciphertext.as_str())?;
    match utf8_string(bytes) {
        Ok(s) => Ok(s),
        Err(e) => Err(VaultError::Encoding(e)),
    }
}

/// The hint rule: after skipping leading whitespace, the body's first five
/// chars when at least twelve remain (so a short secret doesn't give most of
/// itself away), else the empty string.
pub fn hint_for(body: &str) -> (r: String)
    ensures
        r@ == hint_spec(body@),
{
    let cs = chars_of(body);
    proof {
        crate::text::lemma_trim_start_skip(cs@);
    }
    let mut i: usize = 0;
    while i < cs.len() && is_ws(cs[i])
        invariant
            i <= cs.len(),
            i <= crate::text::lead_ws(cs@),
            0 <= crate::text::lead_ws(cs@) <= cs@.len(),
            forall|j: int| 0 <= j < crate::text::lead_ws(cs@) ==> is_ws_spec(#[trigger] cs@[j]),
            crate::text::lead_ws(cs@) < cs@.len() ==> !is_ws_spec(cs@[crate::text::lead_ws(cs@)]),
        decreases cs.len() - i,
    {
        i = i + 1;
    }
    assert(i == crate::text::lead_ws(cs@));
    let mut out = String::new();
    if cs.len() - i >= HINT_MIN_BODY_CHARS {
        let mut k: usize = 0;
        while k < HINT_CHARS
            invariant
                k <= 5,
                i + 12 <= cs.len(),
                out@ == cs@.subrange(i as int, i + k),
            decreases 5 - k,
        {
            push_char(&mut out, cs[i + k]);
            assert(cs@.subrange(i as int, i + k + 1) =~= cs@.subrange(i as int, i + k).push(
                cs@[i + k],
            ));
            k = k + 1;
        }
        assert(out@ =~= cs@.skip(i as int).take(5));
    } else {
        assert(out@ =~= hint_spec(body@));
    }
    out
}

/// The masked preview a protected card always shows: the hint followed by six
/// bullets (only the bullets when the hint is empty). Never body content.
pub fn masked_preview(hint: &str) -> (r: String)
    ensures
        r@ == hint@ + bullets(),
{
    let mut out = String::from_str(hint);
    let mut k: usize = 0;
    while k < 6
        invariant
            k <= 6,
            out@ == hint@ + bullets().take(k as int),
        decreases 6 - k,
    {
        push_char(&mut out, '\u{2022}');
        assert(bullets().take(k + 1) =~= bullets().take(k as int).push('\u{2022}'));
        k = k + 1;
    }
    assert(bullets().take(6) =~= bullets());
    out
}

/// `meta` and `key` are what creating a vault from `password` produced: a
/// 16-byte salt, the key derived from the password with it, and a canary that
/// decrypts under that key.
pub open spec fn created_from(meta: VaultMeta, key: Seq<u8>, password: Seq<u8>) -> bool {
    exists|salt: Seq<u8>|
        salt.len() == 16 && #[trigger] b64_decode(trim(meta.salt@)) == Some(salt) && key == kdf(
            password,
            salt,
        ) && argon2_inputs_ok(password.len(), 16) && decrypt_outcome(key, meta.nonce@, meta.canary@)
            == Ok::<Seq<u8>, VaultErrorKind>(canary_spec())
}

/// What verifying a candidate password against vault metadata yields: the
/// derived key when the canary decrypts to the canary plaintext.
pub open spec fn verify_outcome(
    password: Seq<u8>,
    salt: Seq<char>,
    nonce: Seq<char>,
    canary: Seq<char>,
) -> Result<Seq<u8>, VaultErrorKind> {
    match b64_decode(trim(salt)) {
        None => Err(VaultErrorKind::Encoding),
        Some(sb) => if !argon2_inputs_ok(password.len(), sb.len()) {
            Err(VaultErrorKind::KeyDerivation)
        } else {
            let k = kdf(password, sb);
            match decrypt_outcome(k, nonce, canary) {
                Err(e) => Err(e),
                Ok(p) => if p == canary_spec() {
                    Ok(k)
                } else {
                    Err(VaultErrorKind::Decryption)
                },
            }
        },
    }
}

/// A vault unlocks with the password it was created from, yielding the key
/// created with it.
pub proof fn lemma_created_vault_unlocks(meta: VaultMeta, key: Seq<u8>, password: Seq<u8>)
    requires
        created_from(meta, key, password),
    ensures
        verify_outcome(password, meta.salt@, meta.nonce@, meta.canary@) == Ok::<
            Seq<u8>,
            VaultErrorKind,
        >(key),
{
}

fn bytes_equal(a: &Vec<u8>, b: &Vec<u8>) -> (r: bool)
    ensures
        r == (a@ == b@),
{
    if a.len() != b.len() {
        return false;
    }
    let mut i: usize = 0;
    while i < a.len()
        invariant
            i <= a.len() == b.len(),
            forall|j: int| 0 <= j < i ==> a@[j] == b@[j],
        decreases a.len() - i,
    {
        if a[i] != b[i] {
            return false;
        }
        i = i + 1;
    }
    assert(a@ =~= b@);
    true
}

/// Creates a brand-new vault from a chosen password: a fresh salt, the derived
/// key, and the encrypted canary. Returns the metadata to persist and the key
/// to keep in memory. A failure of the operating system's random source is a
/// `KeyDerivation` error (salt) or an `Encryption` error (canary nonce).
pub fn create_vault(password: &str) -> (r: Result<(VaultMeta, [u8; 32]), VaultError>)
    ensures
        (r matches Err(e) && e is WeakPassword) <==> password@.len() < 8,
        (password@.len() >= 8 && !argon2_inputs_ok(encode_utf8(password@).len(), 16)) ==> (r matches Err(
            e,
        ) && e is KeyDerivation),
        r matches Err(e) ==> (e is WeakPassword || e is KeyDerivation || e is Encryption),
        (r matches Err(e) && e is Encryption) ==> password@.len() >= 8 && argon2_inputs_ok(
            encode_utf8(password@).len(),
            16,
        ),
        r is Ok ==> password@.len() >= 8 && argon2_inputs_ok(encode_utf8(password@).len(), 16),
        r matches Ok((meta, key)) ==> created_from(meta, key@, encode_utf8(password@)),
{
    if password.unicode_len() < MIN_VAULT_PASSWORD_LEN {
        return Err(VaultError::WeakPassword(String::from_str("Password must be at least 8 characters")));
    }
    let salt = match random_bytes::<16>() {
        Ok(b) => b,
        Err(e) => {
            let mut m = String::from_str("the random source failed: ");
            m.append(e.as_str());
            return Err(VaultError::KeyDerivation(m));
        },
    };
    let key = derive_key(password, &salt)?;
    let canary = canary_plaintext();
    let (nonce, canary_ct) = match encrypt(&key, canary.as_slice()) {
        Ok(p) => p,
        Err(e) => {
            return Err(e);
        },
    };
    let salt_text = base64_encode(&salt);
    proof {
        lemma_trim_b64(salt_text@);
    }
    Ok((VaultMeta { salt: salt_text, nonce, canary: canary_ct }, key))
}

/// `r` carries exactly the key outcome `o`.
pub open spec fn key_outcome(r: Result<[u8; 32], VaultError>, o: Result<Seq<u8>, VaultErrorKind>) -> bool {
    match o {
        Ok(k) => r matches Ok(v) && v@ == k,
        Err(kind) => r matches Err(e) && e.kind_of() == kind,
    }
}

/// Verifies a candidate password: derives a key with the stored salt and
/// decrypts the canary with it. The derived key is returned when the canary
/// decrypts to the canary plaintext; any failure is an error.
pub fn verify_password(password: &str, meta: &VaultMeta) -> (r: Result<[u8; 32], VaultError>)
    ensures
        key_outcome(r, verify_outcome(encode_utf8(password@), meta.salt@, meta.nonce@, meta.canary@)),
{
    let salt = decode(meta.salt.as_str())?;
    let key = derive_key(password, salt.as_slice())?;
    let plaintext = decrypt(&key, meta.nonce.as_str(), meta.canary.as_str())?;
    let canary = canary_plaintext();
    if !bytes_equal(&plaintext, &canary) {
        return Err(VaultError::Decryption(String::from_str("canary decrypted to unexpected plaintext")));
    }
    Ok(key)
}

/// Session lock state. The key exists only while unlocked; the vault starts
/// locked on every launch.
pub enum VaultState {
    /// No key in memory; protected actions prompt for the password.
    Locked,
    /// The derived key, kept for the rest of the session.
    Unlocked([u8; 32]),
}

impl VaultState {
    /// A fresh, locked state.
    pub fn new() -> (r: Self)
        ensures
            r is Locked,
    {
        VaultState::Locked
    }

    pub fn is_locked(&self) -> (r: bool)
        ensures
            r == (*self is Locked),
    {
        match self {
            VaultState::Locked => true,
            VaultState::Unlocked(_) => false,
        }
    }

    pub fn is_unlocked(&self) -> (r: bool)
        ensures
            r == (*self is Unlocked),
    {
        match self {
            VaultState::Locked => false,
            VaultState::Unlocked(_) => true,
        }
    }

    /// The cached key, when unlocked.
    pub fn key(&self) -> (r: Option<&[u8; 32]>)
        ensures
            match *self {
                VaultState::Unlocked(k) => r == Some(&k),
                VaultState::Locked => r is None,
            },
    {
        match self {
            VaultState::Unlocked(k) => Some(k),
            VaultState::Locked => None,
        }
    }

    /// Wipes the cached key, then locks the vault.
    pub fn lock(&mut self)
        ensures
            *final(self) is Locked,
    {
        if let VaultState::Unlocked(key) = self {
            wipe_key(key);
        }
        *self = VaultState::Locked;
    }

    /// Verifies `password` against the canary described by `meta`; on success
    /// keeps the derived key and marks the vault unlocked. Any failure leaves
    /// the state as it was.
    pub fn unlock(&mut self, password: &str, meta: &VaultMeta) -> (r: Result<(), VaultError>)
        ensures
            match verify_outcome(encode_utf8(password@), meta.salt@, meta.nonce@, meta.canary@) {
                Ok(k) => r is Ok && (*final(self) matches VaultState::Unlocked(x) && x@ == k),
                Err(kind) => (r matches Err(e) && e.kind_of() == kind) && *final(self) == *old(self),
            },
    {
        let key = verify_password(password, meta)?;
        self.key_from_verified(key)
    }

    /// Installs an already-verified key (vault creation derives the key from
    /// the fresh password instead of re-verifying it).
    pub fn unlock_with_key(&mut self, key: [u8; 32])
        ensures
            *final(self) == VaultState::Unlocked(key),
    {
        *self = VaultState::Unlocked(key);
    }

    fn key_from_verified(&mut self, key: [u8; 32]) -> (r: Result<(), VaultError>)
        ensures
            r is Ok,
            *final(self) == VaultState::Unlocked(key),
    {
        *self = VaultState::Unlocked(key);
        Ok(())
    }
}

impl Drop for VaultState {
    /// The key never outlives the state: it is wiped when the state is dropped.
    fn drop(&mut self)
        opens_invariants none
        no_unwind
    {
        if let VaultState::Unlocked(key) = self {
            wipe_key(key);
        }
    }
}

impl Default for VaultState {
    fn default() -> (r: Self)
        ensures
            r is Locked,
    {
        VaultState::new()
    }
}

} // verus!
