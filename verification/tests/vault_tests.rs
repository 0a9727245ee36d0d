use base64::Engine;
use copyit::vault::{
    create_vault, decrypt, decrypt_body, derive_key, encrypt, encrypt_body, hint_for,
    masked_preview, verify_password, VaultError, VaultMeta, VaultState, KEY_LEN, NONCE_LEN,
    SALT_LEN,
};

fn encode(bytes: &[u8]) -> String {
    base64::engine::general_purpose::STANDARD.encode(bytes)
}

fn decode(s: &str) -> Vec<u8> {
    base64::engine::general_purpose::STANDARD.decode(s).unwrap()
}

#[test]
fn encrypt_decrypt_round_trips() {
    let key = [7u8; KEY_LEN];
    let (nonce, ciphertext) = encrypt(&key, b"hello vault").unwrap();
    assert_ne!(
        ciphertext,
        encode(b"hello vault"),
        "must not be plaintext in base64"
    );
    let plaintext = decrypt(&key, &nonce, &ciphertext).unwrap();
    assert_eq!(plaintext, b"hello vault");
}

#[test]
fn every_encryption_uses_a_fresh_nonce() {
    let key = [9u8; KEY_LEN];
    let (n1, c1) = encrypt(&key, b"same").unwrap();
    let (n2, c2) = encrypt(&key, b"same").unwrap();
    assert_ne!(n1, n2, "nonce must be fresh per call");
    assert_ne!(c1, c2, "ciphertext must differ with a fresh nonce");
    assert_eq!(decrypt(&key, &n1, &c1).unwrap(), b"same");
    assert_eq!(decrypt(&key, &n2, &c2).unwrap(), b"same");
}

#[test]
fn wrong_key_fails_cleanly() {
    let key = [1u8; KEY_LEN];
    let other = [2u8; KEY_LEN];
    let (nonce, ciphertext) = encrypt(&key, b"secret").unwrap();
    assert!(decrypt(&other, &nonce, &ciphertext).is_err());
}

#[test]
fn tampered_ciphertext_fails() {
    let key = [3u8; KEY_LEN];
    let (nonce, ciphertext) = encrypt(&key, b"secret").unwrap();
    let mut bytes = decode(&ciphertext);
    bytes[3] ^= 0xff;
    let tampered = encode(&bytes);
    assert!(decrypt(&key, &nonce, &tampered).is_err());
}

#[test]
fn tampered_nonce_fails() {
    let key = [4u8; KEY_LEN];
    let (nonce, ciphertext) = encrypt(&key, b"secret").unwrap();
    let mut bytes = decode(&nonce);
    bytes[0] ^= 0x01;
    let tampered = encode(&bytes);
    assert!(decrypt(&key, &tampered, &ciphertext).is_err());
}

#[test]
fn encrypt_body_round_trips_and_canary_matches() {
    let (meta, key) = create_vault("hunter2x").unwrap();
    assert_eq!(verify_password("hunter2x", &meta).unwrap(), key);
    let protection = encrypt_body(&key, "a body long enough to have a hint").unwrap();
    assert_eq!(protection.hint, "a bod");
    assert_eq!(
        decrypt_body(&key, &protection).unwrap(),
        "a body long enough to have a hint"
    );
}

#[test]
fn derive_key_is_deterministic_per_salt_and_differs_across_salts() {
    let k1 = derive_key("pw", &[0u8; SALT_LEN]).unwrap();
    let k1_again = derive_key("pw", &[0u8; SALT_LEN]).unwrap();
    let k2 = derive_key("pw", &[1u8; SALT_LEN]).unwrap();
    assert_eq!(k1, k1_again);
    assert_ne!(k1, k2);
    assert_ne!(
        derive_key("pw", &[0u8; SALT_LEN]).unwrap(),
        derive_key("other", &[0u8; SALT_LEN]).unwrap()
    );
}

#[test]
fn canary_accepts_the_right_password_only() {
    let (meta, _) = create_vault("correct horse battery staple").unwrap();
    assert!(verify_password("correct horse battery staple", &meta).is_ok());
    assert!(verify_password("wrong", &meta).is_err());
    assert!(verify_password("", &meta).is_err());
    // The stored meta must not contain the password or anything readable.
    let packed = format!("{}{}{}", meta.salt, meta.nonce, meta.canary);
    assert!(!packed.contains("correct"));
}

#[test]
fn create_vault_uses_a_fresh_salt_each_time() {
    let (m1, _) = create_vault("password1").unwrap();
    let (m2, _) = create_vault("password1").unwrap();
    assert_ne!(m1.salt, m2.salt);
    assert_ne!(m1.nonce, m2.nonce);
    assert_ne!(m1.canary, m2.canary);
    assert!(verify_password("password1", &m1).is_ok());
    assert!(verify_password("password1", &m2).is_ok());
}

#[test]
fn create_vault_rejects_short_passwords() {
    assert!(
        matches!(create_vault(""), Err(VaultError::WeakPassword(_))),
        "empty password should be rejected"
    );
    assert!(
        matches!(create_vault("short"), Err(VaultError::WeakPassword(_))),
        "7-char password should be rejected"
    );
    assert!(
        create_vault("12345678").is_ok(),
        "8-char password should be accepted"
    );
    assert!(
        create_vault("password1").is_ok(),
        "long password should be accepted"
    );
}

#[test]
fn hint_boundaries() {
    assert_eq!(hint_for("12345678901"), "");
    assert_eq!(hint_for("123456789012"), "12345");
    assert_eq!(hint_for(""), "");
    assert_eq!(hint_for("ééééééééééééé"), "ééééé");
    assert_eq!(hint_for("ééééééééééé"), "");
}

#[test]
fn hint_for_skips_leading_whitespace() {
    assert_eq!(hint_for("  123456789012"), "12345");
    assert_eq!(hint_for("  \t\n123456789012"), "12345");
    assert_eq!(hint_for("   12345678901"), "");
    assert_eq!(hint_for("   "), "");
}

#[test]
fn masked_preview_follows_the_hint_rule() {
    assert_eq!(
        masked_preview("ghp_x"),
        "ghp_x\u{2022}\u{2022}\u{2022}\u{2022}\u{2022}\u{2022}"
    );
    assert_eq!(
        masked_preview(""),
        "\u{2022}\u{2022}\u{2022}\u{2022}\u{2022}\u{2022}"
    );
    assert!(
        !masked_preview("ghp_x").contains("ghp_x1"),
        "must never add body content"
    );
}

#[test]
fn vault_state_starts_locked_and_wrong_password_keeps_it_locked() {
    let (meta, _) = create_vault("password1").unwrap();
    let mut state = VaultState::new();
    assert!(state.is_locked());
    assert!(!state.is_unlocked());
    assert!(state.key().is_none());

    assert!(state.unlock("nope", &meta).is_err());
    assert!(
        state.is_locked(),
        "wrong password must not change the state"
    );
    assert!(state.key().is_none());

    assert!(state.unlock("password1", &meta).is_ok());
    assert!(state.is_unlocked());
    assert_eq!(state.key().unwrap().len(), KEY_LEN);

    state.lock();
    assert!(state.is_locked());
    assert!(state.key().is_none());
}

#[test]
fn vault_state_unlock_fails_on_a_corrupt_canary() {
    let mut meta = VaultMeta {
        salt: encode(&[5u8; SALT_LEN]),
        nonce: encode(&[6u8; NONCE_LEN]),
        canary: encode(b"garbage not ciphertext"),
    };
    let mut state = VaultState::new();
    assert!(state.unlock("pw", &meta).is_err());
    assert!(state.is_locked());

    meta.salt = "not base64!!".to_string();
    assert!(state.unlock("pw", &meta).is_err());
    assert!(state.is_locked());
}

#[test]
fn a_corrupt_salt_is_an_encoding_error() {
    let meta = VaultMeta {
        salt: "not base64!!".to_string(),
        nonce: encode(&[6u8; NONCE_LEN]),
        canary: encode(b"x"),
    };
    assert!(matches!(
        verify_password("password1", &meta),
        Err(VaultError::Encoding(_))
    ));
}

#[test]
fn a_short_nonce_is_a_decryption_error() {
    let key = [8u8; KEY_LEN];
    let (_, ciphertext) = encrypt(&key, b"secret").unwrap();
    match decrypt(&key, &encode(&[0u8; 12]), &ciphertext) {
        Err(VaultError::Decryption(m)) => assert_eq!(m, "nonce is 12 bytes, expected 24"),
        other => panic!("expected a decryption error, got {other:?}"),
    }
}

#[test]
fn surrounding_whitespace_in_base64_is_ignored() {
    let key = [5u8; KEY_LEN];
    let (nonce, ciphertext) = encrypt(&key, b"padded").unwrap();
    let plaintext = decrypt(&key, &format!("  {nonce}\n"), &format!("\t{ciphertext} ")).unwrap();
    assert_eq!(plaintext, b"padded");
}

#[test]
fn protected_body_ciphertext_is_not_the_body() {
    let key = [6u8; KEY_LEN];
    let p = encrypt_body(&key, "short").unwrap();
    assert_eq!(p.hint, "");
    assert!(!p.ciphertext.contains("short"));
    assert_eq!(decrypt_body(&key, &p).unwrap(), "short");
    let other = [7u8; KEY_LEN];
    assert!(matches!(
        decrypt_body(&other, &p),
        Err(VaultError::Decryption(_))
    ));
}

#[test]
fn vault_error_messages_name_the_failure() {
    assert_eq!(
        VaultError::Decryption("x".into()).message(),
        "wrong password or damaged data (x)"
    );
    assert_eq!(
        VaultError::Encoding("bad".into()).message(),
        "vault data is corrupt (bad)"
    );
    assert_eq!(
        VaultError::WeakPassword("Password must be at least 8 characters".into()).message(),
        "Password must be at least 8 characters"
    );
}

#[test]
fn vault_password_minimum_counts_characters_not_bytes() {
    assert!(
        matches!(create_vault("\u{e9}\u{e9}\u{e9}\u{e9}"), Err(VaultError::WeakPassword(_))),
        "4 characters (8 bytes) is too short"
    );
    assert!(
        create_vault("\u{e9}\u{e9}\u{e9}\u{e9}\u{e9}\u{e9}\u{e9}\u{e9}").is_ok(),
        "8 two-byte characters are long enough"
    );
}
