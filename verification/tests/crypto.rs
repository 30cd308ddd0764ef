use aes_gcm::aead::Aead;
use aes_gcm::KeyInit;
use base64::Engine;
use birchvault::crypto::{
    decrypt_data, derive_key_from_master_password, derive_key_from_pin, encrypt_data,
    encrypt_data_with_nonce, generate_salt, generate_symmetric_key,
};

const KEY: &str = "AAECAwQFBgcICQoLDA0ODxAREhMUFRYXGBkaGxwdHh8=";

fn s(t: &str) -> String {
    t.to_string()
}

#[test]
fn salt_is_base64_of_the_asked_length() {
    assert_eq!(generate_salt(0).unwrap(), "");
    assert_eq!(generate_salt(16).unwrap().len(), 24);
    assert_eq!(generate_salt(1).unwrap().len(), 4);
    assert_ne!(generate_salt(16).unwrap(), generate_salt(16).unwrap());
}

#[test]
fn symmetric_key_is_32_random_bytes() {
    let a = generate_symmetric_key().unwrap().key;
    let b = generate_symmetric_key().unwrap().key;
    assert_eq!(a.len(), 44);
    assert!(a.ends_with('='));
    assert_ne!(a, b);
}

#[test]
fn pbkdf2_matches_the_known_vector() {
    // PBKDF2-HMAC-SHA256, password "password", salt "salt", 1 and 4096 rounds, 32 bytes
    let k1 = derive_key_from_pin(s("password"), s("c2FsdA=="), 1).unwrap().key;
    assert_eq!(k1, "Eg+2z/z4syxD5yJSVsT4N6hlSMkszDVICAWYfLcL4Xs=");
    let k2 = derive_key_from_master_password(s("password"), s("c2FsdA=="), 4096).unwrap().key;
    assert_eq!(k2, "xeR41ZKIyEGqUw22hFxMjZYok6ABzk4RpJY4c6qYE0o=");
    assert_ne!(k1, k2);
}

#[test]
fn a_salt_that_is_not_base64_is_refused() {
    let e = derive_key_from_pin(s("1234"), s("not base64!"), 10).unwrap_err();
    assert!(e.starts_with("Invalid salt: "), "{}", e);
    assert!(e.len() > "Invalid salt: ".len());
}

#[test]
fn encryption_puts_the_nonce_first() {
    let nonce = [7u8; 12];
    let e = encrypt_data_with_nonce(KEY, "hello", &nonce).unwrap().encrypted;
    // 12 bytes of nonce, 5 of ciphertext, 16 of tag: 33 bytes, 44 characters
    assert_eq!(e.len(), 44);
    assert!(e.starts_with("BwcHBwcHBwcHBwcH"));
    assert_eq!(e, encrypt_data_with_nonce(KEY, "hello", &nonce).unwrap().encrypted);
    assert_ne!(e, encrypt_data_with_nonce(KEY, "hellp", &nonce).unwrap().encrypted);
    assert_eq!(decrypt_data(s(KEY), e).unwrap().decrypted, "hello");
}

#[test]
fn what_is_encrypted_comes_back() {
    for text in ["", "a", "pässword \u{1F511}", "{\"k\":[1,2,3]}"] {
        let e = encrypt_data(s(KEY), s(text)).unwrap().encrypted;
        assert_eq!(decrypt_data(s(KEY), e).unwrap().decrypted, text);
    }
    let a = encrypt_data(s(KEY), s("same")).unwrap().encrypted;
    let b = encrypt_data(s(KEY), s("same")).unwrap().encrypted;
    assert_ne!(a, b);
}

#[test]
fn bad_keys_are_refused() {
    assert!(encrypt_data(s("***"), s("x")).unwrap_err().starts_with("Invalid key: "));
    assert_eq!(encrypt_data(s("AAEC"), s("x")).unwrap_err(), "Key must be 32 bytes");
    assert!(decrypt_data(s("***"), s("AAAA")).unwrap_err().starts_with("Invalid key: "));
    assert_eq!(decrypt_data(s("AAEC"), s("AAAA")).unwrap_err(), "Key must be 32 bytes");
}

#[test]
fn bad_ciphertexts_are_refused() {
    assert!(decrypt_data(s(KEY), s("%%%")).unwrap_err().starts_with("Invalid encrypted data: "));
    assert_eq!(decrypt_data(s(KEY), s("AAAA")).unwrap_err(), "Encrypted data too short");
    assert_eq!(decrypt_data(s(KEY), s("")).unwrap_err(), "Encrypted data too short");
    // twelve bytes of nonce and nothing else: no tag to check
    assert_eq!(decrypt_data(s(KEY), s("BwcHBwcHBwcHBwcH")).unwrap_err(), "Decryption failed: aead::Error");
    // a flipped bit fails the tag
    let good = encrypt_data_with_nonce(KEY, "hello", &[7u8; 12]).unwrap().encrypted;
    let mut bad = good.clone().into_bytes();
    bad[20] = if bad[20] == b'A' { b'B' } else { b'A' };
    let bad = String::from_utf8(bad).unwrap();
    assert_eq!(decrypt_data(s(KEY), bad).unwrap_err(), "Decryption failed: aead::Error");
    // the wrong key fails it too
    let other = "AQECAwQFBgcICQoLDA0ODxAREhMUFRYXGBkaGxwdHh8=";
    assert_eq!(decrypt_data(s(other), good).unwrap_err(), "Decryption failed: aead::Error");
}

#[test]
fn plaintext_that_is_not_utf8_is_refused() {
    // seal two bytes that are no UTF-8 by encrypting through the cipher crate
    let key: Vec<u8> = (0u8..32).collect();
    let cipher = aes_gcm::Aes256Gcm::new_from_slice(&key).unwrap();
    let nonce = [1u8; 12];
    let sealed = cipher.encrypt(aes_gcm::Nonce::from_slice(&nonce), &[0xffu8, 0xfe][..]).unwrap();
    let mut combined = nonce.to_vec();
    combined.extend(sealed);
    let text = base64::engine::general_purpose::STANDARD.encode(&combined);
    let e = decrypt_data(s(KEY), text).unwrap_err();
    assert!(e.starts_with("Invalid UTF-8: "), "{}", e);
}
