use base64::engine::general_purpose::STANDARD as B64;
use base64::Engine;
use rand::rngs::OsRng;
use rand::RngCore;

use tauri_plugin_secure_keystore::lock::{
    decrypt_bytes, derive_kek, encrypt_bytes, seal_item, unwrap_key, wrap_key, wrap_key_with,
    KEY_LEN,
};
use tauri_plugin_secure_keystore::Error;

fn random_bytes<const N: usize>() -> [u8; N] {
    let mut buf = [0u8; N];
    OsRng.fill_bytes(&mut buf);
    buf
}

#[test]
fn wrap_unwrap_roundtrip() {
    let data_key = random_bytes::<KEY_LEN>();
    let meta = wrap_key("correct horse battery staple", &data_key).unwrap();
    let recovered = unwrap_key(&meta, "correct horse battery staple").unwrap();
    assert_eq!(&*recovered, &data_key);
}

#[test]
fn wrap_rejects_empty_password() {
    let data_key = random_bytes::<KEY_LEN>();
    assert!(matches!(wrap_key("", &data_key), Err(Error::WeakPassword)));
}

#[test]
fn unwrap_rejects_wrong_password() {
    let data_key = random_bytes::<KEY_LEN>();
    let meta = wrap_key("right password", &data_key).unwrap();
    assert!(matches!(
        unwrap_key(&meta, "wrong password"),
        Err(Error::AuthFailed)
    ));
}

#[test]
fn unwrap_rejects_a_pin_style_password_against_a_different_pin() {
    // A 4-digit PIN is just a short password string from this module's
    // point of view: exercise that path explicitly.
    let data_key = random_bytes::<KEY_LEN>();
    let meta = wrap_key("4821", &data_key).unwrap();
    assert!(unwrap_key(&meta, "4821").is_ok());
    assert!(matches!(
        unwrap_key(&meta, "1248"),
        Err(Error::AuthFailed)
    ));
}

#[test]
fn wrap_uses_a_fresh_salt_and_nonce_every_call() {
    let data_key = random_bytes::<KEY_LEN>();
    let a = wrap_key("same password", &data_key).unwrap();
    let b = wrap_key("same password", &data_key).unwrap();
    assert_ne!(a.salt, b.salt);
    assert_ne!(a.nonce, b.nonce);
    assert_ne!(a.wrapped_key, b.wrapped_key);
}

#[test]
fn tampered_wrapped_key_is_rejected() {
    let data_key = random_bytes::<KEY_LEN>();
    let mut meta = wrap_key("password", &data_key).unwrap();
    let mut wrapped = B64.decode(&meta.wrapped_key).unwrap();
    wrapped[0] ^= 0xFF;
    meta.wrapped_key = B64.encode(wrapped);
    assert!(matches!(
        unwrap_key(&meta, "password"),
        Err(Error::AuthFailed)
    ));
}

#[test]
fn item_encrypt_decrypt_roundtrip() {
    let key = random_bytes::<KEY_LEN>();
    let blob = encrypt_bytes(&key, b"secret value").unwrap();
    let plain = decrypt_bytes(&key, &blob).unwrap();
    assert_eq!(plain, "secret value");
}

#[test]
fn item_decrypt_with_wrong_key_fails() {
    let key1 = random_bytes::<KEY_LEN>();
    let key2 = random_bytes::<KEY_LEN>();
    let blob = encrypt_bytes(&key1, b"secret value").unwrap();
    assert!(decrypt_bytes(&key2, &blob).is_err());
}

#[test]
fn item_encrypt_nonce_differs_across_calls() {
    let key = random_bytes::<KEY_LEN>();
    let a = encrypt_bytes(&key, b"same plaintext").unwrap();
    let b = encrypt_bytes(&key, b"same plaintext").unwrap();
    // Same plaintext, same key, but a random nonce each time means the
    // ciphertext blobs must differ: otherwise nonce reuse would leak that
    // two stored items share a value.
    assert_ne!(a, b);
}

#[test]
fn item_decrypt_rejects_truncated_blob() {
    let key = random_bytes::<KEY_LEN>();
    assert!(decrypt_bytes(&key, "").is_err());
    assert!(decrypt_bytes(&key, &B64.encode([0u8; 4])).is_err());
}

#[test]
fn item_decrypt_rejects_garbage_base64() {
    let key = random_bytes::<KEY_LEN>();
    assert!(decrypt_bytes(&key, "not valid base64!!").is_err());
}

#[test]
fn unwrap_rejects_absurd_argon2_params() {
    // A tampered/corrupted LockMeta claiming a huge m_cost must be rejected
    // before ever running Argon2id with it, or a malicious blob could turn
    // unlockWithPassword into a memory/CPU DoS.
    let data_key = random_bytes::<KEY_LEN>();
    let mut meta = wrap_key("password", &data_key).unwrap();
    meta.m_cost = u32::MAX;
    assert!(matches!(
        unwrap_key(&meta, "password"),
        Err(Error::AuthFailed)
    ));
}

#[test]
fn unwrap_rejects_zero_parallelism() {
    let data_key = random_bytes::<KEY_LEN>();
    let mut meta = wrap_key("password", &data_key).unwrap();
    meta.p_cost = 0;
    assert!(matches!(
        unwrap_key(&meta, "password"),
        Err(Error::AuthFailed)
    ));
}

// Further cases of this library.

#[test]
fn wrap_writes_the_default_argon2_params_and_base64_fields() {
    let data_key = random_bytes::<KEY_LEN>();
    let meta = wrap_key("pw", &data_key).unwrap();
    assert_eq!((meta.m_cost, meta.t_cost, meta.p_cost), (19 * 1024, 2, 1));
    assert_eq!(B64.decode(&meta.salt).unwrap().len(), 16);
    assert_eq!(B64.decode(&meta.nonce).unwrap().len(), 12);
    // 32-byte key plus the 16-byte tag, never the key itself.
    let wrapped = B64.decode(&meta.wrapped_key).unwrap();
    assert_eq!(wrapped.len(), 48);
    assert_ne!(&wrapped[..32], &data_key[..]);
}

#[test]
fn unwrap_rejects_a_nonce_of_the_wrong_length() {
    let data_key = random_bytes::<KEY_LEN>();
    let mut meta = wrap_key("password", &data_key).unwrap();
    meta.nonce = B64.encode([0u8; 11]);
    assert!(matches!(unwrap_key(&meta, "password"), Err(Error::AuthFailed)));
}

#[test]
fn unwrap_rejects_garbage_salt() {
    let data_key = random_bytes::<KEY_LEN>();
    let mut meta = wrap_key("password", &data_key).unwrap();
    meta.salt = "%%%".to_string();
    assert!(matches!(unwrap_key(&meta, "password"), Err(Error::AuthFailed)));
}

#[test]
fn unwrap_rejects_a_salt_argon2_refuses() {
    let data_key = random_bytes::<KEY_LEN>();
    let mut meta = wrap_key("password", &data_key).unwrap();
    // Argon2 needs at least 8 bytes of salt.
    meta.salt = B64.encode([7u8; 4]);
    assert!(matches!(unwrap_key(&meta, "password"), Err(Error::AuthFailed)));
}

#[test]
fn encrypted_blob_is_nonce_then_ciphertext_with_tag() {
    let key = random_bytes::<KEY_LEN>();
    let blob = encrypt_bytes(&key, b"abc").unwrap();
    let raw = B64.decode(&blob).unwrap();
    assert_eq!(raw.len(), 12 + 3 + 16);
    assert_ne!(&raw[12..15], b"abc");
}

#[test]
fn decrypt_rejects_bytes_that_are_not_utf8() {
    let key = random_bytes::<KEY_LEN>();
    let blob = encrypt_bytes(&key, &[0xff, 0xfe]).unwrap();
    assert!(matches!(decrypt_bytes(&key, &blob), Err(Error::AuthFailed)));
}

#[test]
fn encrypt_decrypt_keeps_unicode_and_empty_text() {
    let key = random_bytes::<KEY_LEN>();
    let blob = encrypt_bytes(&key, "ключ 🔑".as_bytes()).unwrap();
    assert_eq!(decrypt_bytes(&key, &blob).unwrap(), "ключ 🔑");
    let blob = encrypt_bytes(&key, b"").unwrap();
    assert_eq!(decrypt_bytes(&key, &blob).unwrap(), "");
}

#[test]
fn derived_key_depends_on_password_and_salt() {
    let salt = [1u8; 16];
    let a = derive_kek("pw", &salt, 8, 1, 1).unwrap();
    let b = derive_kek("pw", &salt, 8, 1, 1).unwrap();
    let c = derive_kek("pX", &salt, 8, 1, 1).unwrap();
    let d = derive_kek("pw", &[2u8; 16], 8, 1, 1).unwrap();
    let e = derive_kek("pw", &salt, 16, 1, 1).unwrap();
    assert_eq!(&*a, &*b);
    assert_ne!(&*a, &*c);
    assert_ne!(&*a, &*d);
    assert_ne!(&*a, &*e);
    assert_ne!(&*a, &[0u8; 32]);
}

#[test]
fn derive_refuses_what_argon2_refuses() {
    // Salt shorter than 8 bytes, memory below 8 KiB per lane, zero passes.
    assert!(matches!(derive_kek("pw", &[0u8; 7], 8, 1, 1), Err(Error::AuthFailed)));
    assert!(matches!(derive_kek("pw", &[0u8; 8], 7, 1, 1), Err(Error::AuthFailed)));
    assert!(matches!(derive_kek("pw", &[0u8; 8], 8, 1, 2), Err(Error::AuthFailed)));
    assert!(matches!(derive_kek("pw", &[0u8; 8], 8, 0, 1), Err(Error::AuthFailed)));
    assert!(derive_kek("", &[0u8; 8], 8, 1, 1).is_ok());
}

#[test]
fn wrapped_fields_decode_to_salt_nonce_and_sealed_key() {
    let data_key = random_bytes::<KEY_LEN>();
    let meta = wrap_key("pw", &data_key).unwrap();
    assert_eq!(B64.decode(&meta.salt).unwrap().len(), 16);
    assert_eq!(B64.decode(&meta.nonce).unwrap().len(), 12);
    assert_eq!(B64.decode(&meta.wrapped_key).unwrap().len(), 48);
}

#[test]
fn item_blob_decodes_to_nonce_ciphertext_and_tag() {
    let key = random_bytes::<KEY_LEN>();
    for n in [0usize, 1, 15, 16, 17, 100] {
        let plaintext = vec![b'a'; n];
        let blob = encrypt_bytes(&key, &plaintext).unwrap();
        assert_eq!(B64.decode(&blob).unwrap().len(), 12 + n + 16);
    }
}

#[test]
fn seal_item_puts_the_given_nonce_first() {
    let key = random_bytes::<KEY_LEN>();
    let nonce = [9u8; 12];
    let a = seal_item(&key, &nonce, b"hello").unwrap();
    let b = seal_item(&key, &nonce, b"hello").unwrap();
    assert_eq!(a, b);
    let raw = B64.decode(&a).unwrap();
    assert_eq!(&raw[..12], &nonce[..]);
    assert_eq!(raw.len(), 12 + 5 + 16);
    assert_eq!(decrypt_bytes(&key, &a).unwrap(), "hello");
    assert_ne!(seal_item(&key, &[8u8; 12], b"hello").unwrap(), a);
}

#[test]
fn wrap_key_with_uses_the_given_salt_and_nonce() {
    let data_key = random_bytes::<KEY_LEN>();
    let salt = [3u8; 16];
    let nonce = [4u8; 12];
    let a = wrap_key_with("pw", &data_key, &salt, &nonce).unwrap();
    let b = wrap_key_with("pw", &data_key, &salt, &nonce).unwrap();
    assert_eq!(B64.decode(&a.salt).unwrap(), salt.to_vec());
    assert_eq!(B64.decode(&a.nonce).unwrap(), nonce.to_vec());
    assert_eq!((a.salt.clone(), a.nonce.clone(), a.wrapped_key.clone()), (b.salt, b.nonce, b.wrapped_key));
    assert_eq!(&*unwrap_key(&a, "pw").unwrap(), &data_key);
    assert!(matches!(wrap_key_with("", &data_key, &salt, &nonce), Err(Error::WeakPassword)));
}
