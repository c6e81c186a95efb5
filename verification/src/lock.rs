//! App-managed password/PIN/pattern lock.
//!
//! Item values are encrypted with a random 256-bit data key before they are
//! handed to the normal storage backend. The data key itself is wrapped
//! ("envelope encryption") with a key derived from the app's password via
//! Argon2id, so changing the password only re-wraps a 32-byte key rather
//! than re-encrypting every item. The unwrapped data key lives only in the
//! in-memory `LockState`; wrong guesses are rate-limited there too.
//!
//! The functions here take what the storage backend returned (the stored
//! `LockMeta`, already parsed) as an argument and return what is to be
//! stored, so that the caller performs the reads and writes.

use vstd::prelude::*;
use vstd::arithmetic::power2::{lemma_pow2_strictly_increases, pow2};
use vstd::utf8::{decode_utf8, encode_utf8, valid_utf8};
use std::time::Instant;

use crate::error::Error;
use crate::models::LockStatusResponse;
use crate::primitives::{
    aes256gcm_decrypt, aes256gcm_encrypt, aes256gcm_open, aes256gcm_seal, argon2id_accepts,
    argon2id_hash, argon2id_hash_into, b64_decode, b64_encode, base64_decode, base64_encode,
    duration_millis, instant_elapsed, instant_now, random_bytes, secret_bytes, secret_new,
    string_from_utf8, SecretKey,
};

verus! {

/// Argon2id memory cost (KiB) of a newly set lock: the OWASP 2024 minimum.
pub const ARGON2_M_COST: u32 = 19 * 1024;
/// Argon2id time cost of a newly set lock.
pub const ARGON2_T_COST: u32 = 2;
/// Argon2id parallelism of a newly set lock.
pub const ARGON2_P_COST: u32 = 1;

/// Largest memory cost (KiB) that a stored `LockMeta` may ask for. A stored
/// blob is untrusted input; these bounds keep a tampered one from turning an
/// unlock into a memory-exhaustion or hang.
pub const ARGON2_M_COST_MAX: u32 = 256 * 1024;
/// Largest time cost that a stored `LockMeta` may ask for.
pub const ARGON2_T_COST_MAX: u32 = 10;
/// Largest parallelism that a stored `LockMeta` may ask for.
pub const ARGON2_P_COST_MAX: u32 = 4;

/// Length of the Argon2id salt.
pub const SALT_LEN: usize = 16;
/// Length of an AES-GCM nonce.
pub const NONCE_LEN: usize = 12;
/// Length of the data key and of the key-encryption key.
pub const KEY_LEN: usize = 32;

/// Wrong guesses allowed before the rate limiter starts to delay.
pub const BACKOFF_FREE_ATTEMPTS: u32 = 3;
/// Delay after the first rate-limited failure, in milliseconds.
pub const BACKOFF_BASE_MS: u64 = 250;
/// Cap of the delay, in milliseconds.
pub const BACKOFF_MAX_MS: u64 = 30_000;

/// The stored form of the lock: the data key wrapped under the
/// password-derived key, with the salt, nonce and Argon2 parameters needed to
/// derive that key again. The byte fields are base64 text.
#[derive(Debug)]
pub struct LockMeta {
    pub salt: String,
    pub nonce: String,
    pub wrapped_key: String,
    pub m_cost: u32,
    pub t_cost: u32,
    pub p_cost: u32,
}

/// Whether stored Argon2 parameters are within the bounds that an unlock is
/// willing to run.
pub open spec fn params_in_bounds(m_cost: u32, t_cost: u32, p_cost: u32) -> bool {
    &&& m_cost <= ARGON2_M_COST_MAX
    &&& t_cost <= ARGON2_T_COST_MAX
    &&& p_cost <= ARGON2_P_COST_MAX
    &&& p_cost != 0
}

/// The key-encryption key derived from a password, or `None` when Argon2
/// refuses the inputs.
pub open spec fn spec_kek(
    password: Seq<char>,
    salt: Seq<u8>,
    m_cost: u32,
    t_cost: u32,
    p_cost: u32,
) -> Option<Seq<u8>> {
    if argon2id_accepts(encode_utf8(password).len(), salt.len(), m_cost, t_cost, p_cost) {
        Some(argon2id_hash(encode_utf8(password), salt, m_cost, t_cost, p_cost))
    } else {
        None
    }
}

/// The data key that a stored `LockMeta` gives up for a password, or `None`
/// when the password is wrong or the blob is malformed or out of bounds.
pub open spec fn spec_unwrap_key(meta: LockMeta, password: Seq<char>) -> Option<Seq<u8>> {
    if !params_in_bounds(meta.m_cost, meta.t_cost, meta.p_cost) {
        None
    } else {
        match (
            base64_decode(meta.salt@),
            base64_decode(meta.nonce@),
            base64_decode(meta.wrapped_key@),
        ) {
            (Some(salt), Some(nonce), Some(wrapped)) => {
                if nonce.len() != NONCE_LEN {
                    None
                } else {
                    match spec_kek(password, salt, meta.m_cost, meta.t_cost, meta.p_cost) {
                        None => None,
                        Some(kek) => match aes256gcm_open(kek, nonce, wrapped) {
                            Some(k) => if k.len() == KEY_LEN {
                                Some(k)
                            } else {
                                None
                            },
                            None => None,
                        },
                    }
                }
            },
            _ => None,
        }
    }
}

/// Why `wrap_key` refuses a password, if it does: an empty one is weak, and
/// one of more than 2^32 - 1 bytes is refused by Argon2.
pub open spec fn spec_wrap_error(password: Seq<char>) -> Option<Error> {
    if password.len() == 0 {
        Some(Error::WeakPassword)
    } else if encode_utf8(password).len() > 0xFFFF_FFFF {
        Some(Error::AuthFailed)
    } else {
        None
    }
}

/// The sealed data key stored in a lock blob: `data_key` encrypted under
/// the key derived from the password and salt with the blob's parameters.
pub open spec fn sealed_key(
    meta: LockMeta,
    password: Seq<char>,
    data_key: Seq<u8>,
    salt: Seq<u8>,
    nonce: Seq<u8>,
) -> Seq<u8> {
    aes256gcm_seal(
        argon2id_hash(encode_utf8(password), salt, meta.m_cost, meta.t_cost, meta.p_cost),
        nonce,
        data_key,
    )
}

/// `meta` is the data key wrapped under the password with this salt and
/// nonce and with the default Argon2 parameters: its fields are the base64
/// text of the 16-byte salt, the 12-byte nonce and the 48-byte sealed key
/// (the 32-byte key and the 16-byte tag), and they decode back to them.
pub open spec fn wraps(
    meta: LockMeta,
    password: Seq<char>,
    data_key: Seq<u8>,
    salt: Seq<u8>,
    nonce: Seq<u8>,
) -> bool {
    let sealed = sealed_key(meta, password, data_key, salt, nonce);
    &&& salt.len() == SALT_LEN
    &&& nonce.len() == NONCE_LEN
    &&& meta.m_cost == ARGON2_M_COST
    &&& meta.t_cost == ARGON2_T_COST
    &&& meta.p_cost == ARGON2_P_COST
    &&& meta.salt@ == base64_encode(salt)
    &&& meta.nonce@ == base64_encode(nonce)
    &&& meta.wrapped_key@ == base64_encode(sealed)
    &&& base64_decode(meta.salt@) == Some(salt)
    &&& base64_decode(meta.nonce@) == Some(nonce)
    &&& base64_decode(meta.wrapped_key@) == Some(sealed)
    &&& sealed.len() == data_key.len() + 16
    &&& aes256gcm_open(
        argon2id_hash(encode_utf8(password), salt, meta.m_cost, meta.t_cost, meta.p_cost),
        nonce,
        sealed,
    ) == Some(data_key)
}

/// A lock blob written by `wrap_key` always asks for Argon2 parameters that
/// an unlock is willing to run: the bounds only ever refuse a tampered or
/// corrupted blob.
pub proof fn lemma_written_params_are_in_bounds(
    meta: LockMeta,
    password: Seq<char>,
    data_key: Seq<u8>,
    salt: Seq<u8>,
    nonce: Seq<u8>,
)
    requires
        wraps(meta, password, data_key, salt, nonce),
    ensures
        params_in_bounds(meta.m_cost, meta.t_cost, meta.p_cost),
        argon2id_accepts(encode_utf8(password).len(), salt.len(), meta.m_cost, meta.t_cost, meta.p_cost)
            <== encode_utf8(password).len() <= 0xFFFF_FFFF,
{
}

/// A lock blob written for a 32-byte data key gives that key back for the
/// same password, whenever Argon2 accepts the password.
pub proof fn lemma_wrapped_key_unwraps(
    meta: LockMeta,
    password: Seq<char>,
    data_key: Seq<u8>,
    salt: Seq<u8>,
    nonce: Seq<u8>,
)
    requires
        wraps(meta, password, data_key, salt, nonce),
        data_key.len() == KEY_LEN,
        encode_utf8(password).len() <= 0xFFFF_FFFF,
    ensures
        spec_unwrap_key(meta, password) == Some(data_key),
{
}

/// Unlocking uses the Argon2 parameters stored in the blob, whatever they
/// are within the bounds: a blob whose wrapped key opens to `data_key` under
/// the key that Argon2id derives from the password, the decoded salt and the
/// blob's own `m_cost`, `t_cost` and `p_cost` gives `data_key` back for that
/// password.
pub proof fn lemma_unwrap_uses_the_stored_params(
    meta: LockMeta,
    password: Seq<char>,
    salt: Seq<u8>,
    nonce: Seq<u8>,
    wrapped: Seq<u8>,
    data_key: Seq<u8>,
)
    requires
        params_in_bounds(meta.m_cost, meta.t_cost, meta.p_cost),
        base64_decode(meta.salt@) == Some(salt),
        base64_decode(meta.nonce@) == Some(nonce),
        base64_decode(meta.wrapped_key@) == Some(wrapped),
        nonce.len() == NONCE_LEN,
        argon2id_accepts(
            encode_utf8(password).len(),
            salt.len(),
            meta.m_cost,
            meta.t_cost,
            meta.p_cost,
        ),
        aes256gcm_open(
            argon2id_hash(encode_utf8(password), salt, meta.m_cost, meta.t_cost, meta.p_cost),
            nonce,
            wrapped,
        ) == Some(data_key),
        data_key.len() == KEY_LEN,
    ensures
        spec_unwrap_key(meta, password) == Some(data_key),
{
}

/// Unlocking gives a key only when the blob's wrapped key opens under the
/// key derived with the blob's own parameters: the key it gives is that
/// opening.
pub proof fn lemma_unwrapped_key_is_the_opening(meta: LockMeta, password: Seq<char>)
    requires
        spec_unwrap_key(meta, password) is Some,
    ensures
        params_in_bounds(meta.m_cost, meta.t_cost, meta.p_cost),
        base64_decode(meta.salt@) matches Some(salt) && base64_decode(meta.nonce@) matches Some(
            nonce,
        ) && base64_decode(meta.wrapped_key@) matches Some(wrapped) && aes256gcm_open(
            argon2id_hash(encode_utf8(password), salt, meta.m_cost, meta.t_cost, meta.p_cost),
            nonce,
            wrapped,
        ) == spec_unwrap_key(meta, password),
{
}

/// The text that some bytes encode, or `None` when they are not UTF-8.
pub open spec fn spec_utf8_text(bytes: Seq<u8>) -> Option<Seq<char>> {
    if valid_utf8(bytes) {
        Some(decode_utf8(bytes))
    } else {
        None
    }
}

/// The text that an item blob `base64(nonce || ciphertext)` decrypts to
/// under a key, or `None` when it is malformed or does not authenticate.
pub open spec fn spec_decrypt_bytes(key: Seq<u8>, blob: Seq<char>) -> Option<Seq<char>> {
    match base64_decode(blob) {
        None => None,
        Some(raw) => if raw.len() < NONCE_LEN {
            None
        } else {
            match aes256gcm_open(key, raw.subrange(0, NONCE_LEN as int), raw.subrange(NONCE_LEN as int, raw.len() as int)) {
                None => None,
                Some(plaintext) => spec_utf8_text(plaintext),
            }
        },
    }
}

/// `blob` is `plaintext` encrypted under `key` with some 12-byte nonce: it
/// is the base64 text of the nonce followed by the AES-256-GCM ciphertext
/// and tag (16 bytes longer than the plaintext), it decodes back to those
/// bytes, and the sealed part authenticates and opens to the plaintext.
pub open spec fn encrypts(key: Seq<u8>, plaintext: Seq<u8>, blob: Seq<char>) -> bool {
    exists|nonce: Seq<u8>|
        #![trigger aes256gcm_seal(key, nonce, plaintext)]
        {
            &&& nonce.len() == NONCE_LEN
            &&& blob == base64_encode(nonce + aes256gcm_seal(key, nonce, plaintext))
            &&& base64_decode(blob) == Some(nonce + aes256gcm_seal(key, nonce, plaintext))
            &&& aes256gcm_seal(key, nonce, plaintext).len() == plaintext.len() + 16
            &&& aes256gcm_open(key, nonce, aes256gcm_seal(key, nonce, plaintext)) == Some(plaintext)
        }
}

/// An item blob decrypts, under the key it was encrypted with, to the text
/// that its plaintext encodes.
pub proof fn lemma_encrypted_blob_decrypts_back(key: Seq<u8>, plaintext: Seq<u8>, blob: Seq<char>)
    requires
        encrypts(key, plaintext, blob),
    ensures
        spec_decrypt_bytes(key, blob) == spec_utf8_text(plaintext),
        base64_decode(blob) matches Some(raw) && raw.len() == NONCE_LEN + plaintext.len() + 16,
{
    let nonce = choose|nonce: Seq<u8>|
        #![trigger aes256gcm_seal(key, nonce, plaintext)]
        {
            &&& nonce.len() == NONCE_LEN
            &&& blob == base64_encode(nonce + aes256gcm_seal(key, nonce, plaintext))
            &&& base64_decode(blob) == Some(nonce + aes256gcm_seal(key, nonce, plaintext))
            &&& aes256gcm_seal(key, nonce, plaintext).len() == plaintext.len() + 16
            &&& aes256gcm_open(key, nonce, aes256gcm_seal(key, nonce, plaintext)) == Some(plaintext)
        };
    let sealed = aes256gcm_seal(key, nonce, plaintext);
    let raw = nonce + sealed;
    assert(raw.subrange(0, NONCE_LEN as int) =~= nonce);
    assert(raw.subrange(NONCE_LEN as int, raw.len() as int) =~= sealed);
}

/// The text of a string, encrypted as its UTF-8 bytes, decrypts back to
/// the same string.
pub proof fn lemma_encrypted_text_decrypts_back(key: Seq<u8>, text: Seq<char>, blob: Seq<char>)
    requires
        encrypts(key, encode_utf8(text), blob),
    ensures
        spec_decrypt_bytes(key, blob) == Some(text),
{
    lemma_encrypted_blob_decrypts_back(key, encode_utf8(text), blob);
    vstd::utf8::encode_utf8_valid_utf8(text);
    vstd::utf8::encode_utf8_decode_utf8(text);
}

/// Changing the password does not touch stored items: the new blob gives
/// the same data key as the old one, so an item encrypted under the old
/// blob's key decrypts under the new blob's key.
pub proof fn lemma_items_survive_password_change(
    old_meta: LockMeta,
    old_password: Seq<char>,
    new_meta: LockMeta,
    new_password: Seq<char>,
    data_key: Seq<u8>,
    text: Seq<char>,
    blob: Seq<char>,
)
    requires
        spec_unwrap_key(old_meta, old_password) == Some(data_key),
        spec_unwrap_key(new_meta, new_password) == Some(data_key),
        encrypts(data_key, encode_utf8(text), blob),
    ensures
        spec_unwrap_key(new_meta, new_password) matches Some(k) && spec_decrypt_bytes(k, blob)
            == Some(text),
{
    lemma_encrypted_text_decrypts_back(data_key, text, blob);
}

/// Derives the 256-bit key-encryption key from a password with Argon2id.
pub fn derive_kek(password: &str, salt: &[u8], m_cost: u32, t_cost: u32, p_cost: u32) -> (r: Result<
    SecretKey,
    Error,
>)
    requires
        8 * p_cost <= u32::MAX,
        m_cost <= ARGON2_M_COST_MAX,
    ensures
        r is Ok <==> spec_kek(password@, salt@, m_cost, t_cost, p_cost) is Some,
        r matches Ok(k) ==> spec_kek(password@, salt@, m_cost, t_cost, p_cost) == Some(
            secret_bytes(k),
        ),
        r matches Err(e) ==> e is AuthFailed,
{
    let mut out = secret_new([0u8; 32]);
    match argon2id_hash_into(password.as_bytes(), salt, m_cost, t_cost, p_cost, &mut out) {
        Ok(()) => Ok(out),
        Err(_) => Err(Error::AuthFailed),
    }
}

/// Wraps `data_key` under the key derived from `password` with the given
/// salt and nonce and the default Argon2 parameters.
pub fn wrap_key_with(
    password: &str,
    data_key: &[u8; KEY_LEN],
    salt: &[u8; SALT_LEN],
    nonce: &[u8; NONCE_LEN],
) -> (r: Result<LockMeta, Error>)
    ensures
        r is Ok <==> spec_wrap_error(password@) is None,
        r matches Err(e) ==> spec_wrap_error(password@) == Some(e),
        r matches Ok(meta) ==> wraps(meta, password@, data_key@, salt@, nonce@),
        r matches Ok(meta) ==> spec_unwrap_key(meta, password@) == Some(data_key@),
{
    if password.is_empty() {
        return Err(Error::WeakPassword);
    }
    let kek = match derive_kek(password, salt, ARGON2_M_COST, ARGON2_T_COST, ARGON2_P_COST) {
        Ok(k) => k,
        Err(e) => return Err(e),
    };
    let kek_bytes: &[u8; 32] = &*kek;
    let wrapped = match aes256gcm_encrypt(kek_bytes, nonce, data_key) {
        Ok(w) => w,
        Err(_) => return Err(Error::AuthFailed),
    };
    let meta = LockMeta {
        salt: b64_encode(salt),
        nonce: b64_encode(nonce),
        wrapped_key: b64_encode(wrapped.as_slice()),
        m_cost: ARGON2_M_COST,
        t_cost: ARGON2_T_COST,
        p_cost: ARGON2_P_COST,
    };
    assert(wraps(meta, password@, data_key@, salt@, nonce@));
    Ok(meta)
}

/// Wraps `data_key` under a key derived from `password`, with a fresh random
/// salt and nonce (drawn after the empty-password check) and the default
/// Argon2 parameters, as `wrap_key_with` does for them.
pub fn wrap_key(password: &str, data_key: &[u8; KEY_LEN]) -> (r: Result<LockMeta, Error>)
    ensures
        (r matches Err(Error::WeakPassword)) <==> password@.len() == 0,
        spec_wrap_error(password@) is Some ==> r is Err,
        spec_wrap_error(password@) is None ==> (r is Ok || r matches Err(Error::Random(_))),
        r matches Err(e) ==> (spec_wrap_error(password@) == Some(e) || e is Random),
        r matches Ok(meta) ==> exists|salt: Seq<u8>, nonce: Seq<u8>|
            wraps(meta, password@, data_key@, salt, nonce),
        r matches Ok(meta) ==> spec_unwrap_key(meta, password@) == Some(data_key@),
{
    if password.is_empty() {
        return Err(Error::WeakPassword);
    }
    let salt = match random_bytes::<SALT_LEN>() {
        Ok(b) => b,
        Err(e) => return Err(Error::Random(e)),
    };
    let nonce = match random_bytes::<NONCE_LEN>() {
        Ok(b) => b,
        Err(e) => return Err(Error::Random(e)),
    };
    let r = wrap_key_with(password, data_key, &salt, &nonce);
    assert(r matches Ok(meta) ==> wraps(meta, password@, data_key@, salt@, nonce@));
    r
}

/// Reverses `wrap_key`: checks `password` against `meta` and returns the
/// unwrapped data key.
pub fn unwrap_key(meta: &LockMeta, password: &str) -> (r: Result<SecretKey, Error>)
    ensures
        r is Ok <==> spec_unwrap_key(*meta, password@) is Some,
        r matches Ok(k) ==> spec_unwrap_key(*meta, password@) == Some(secret_bytes(k)),
        r matches Err(e) ==> e is AuthFailed,
{
    if meta.m_cost > ARGON2_M_COST_MAX || meta.t_cost > ARGON2_T_COST_MAX || meta.p_cost
        > ARGON2_P_COST_MAX || meta.p_cost == 0 {
        // A `LockMeta` written by `wrap_key` is never out of these bounds;
        // a tampered blob is answered like a wrong password.
        return Err(Error::AuthFailed);
    }
    let salt = match b64_decode(meta.salt.as_str()) {
        Ok(v) => v,
        Err(_) => return Err(Error::AuthFailed),
    };
    let nonce_bytes = match b64_decode(meta.nonce.as_str()) {
        Ok(v) => v,
        Err(_) => return Err(Error::AuthFailed),
    };
    let wrapped = match b64_decode(meta.wrapped_key.as_str()) {
        Ok(v) => v,
        Err(_) => return Err(Error::AuthFailed),
    };
    if nonce_bytes.len() != NONCE_LEN {
        return Err(Error::AuthFailed);
    }
    let kek = match derive_kek(password, salt.as_slice(), meta.m_cost, meta.t_cost, meta.p_cost) {
        Ok(k) => k,
        Err(e) => return Err(e),
    };
    let kek_bytes: &[u8; 32] = &*kek;
    let data_key_bytes = match aes256gcm_decrypt(kek_bytes, nonce_bytes.as_slice(), wrapped.as_slice()) {
        Ok(v) => v,
        Err(_) => return Err(Error::AuthFailed),
    };
    if data_key_bytes.len() != KEY_LEN {
        return Err(Error::AuthFailed);
    }
    let mut data_key = [0u8; 32];
    let mut i: usize = 0;
    while i < KEY_LEN
        invariant
            i <= KEY_LEN,
            data_key_bytes@.len() == KEY_LEN,
            forall|j: int| 0 <= j < i ==> data_key@[j] == data_key_bytes@[j],
        decreases KEY_LEN - i,
    {
        data_key[i] = data_key_bytes[i];
        i = i + 1;
    }
    assert(data_key@ =~= data_key_bytes@);
    Ok(secret_new(data_key))
}

/// Encrypts `plaintext` under `key` with the given nonce, returning
/// `base64(nonce || ciphertext)`.
pub fn seal_item(key: &[u8; KEY_LEN], nonce: &[u8; NONCE_LEN], plaintext: &[u8]) -> (r: Result<
    String,
    Error,
>)
    requires
        plaintext@.len() <= usize::MAX / 4,
    ensures
        r is Ok <==> plaintext@.len() <= 0x10_0000_0000,
        r matches Err(e) ==> e is AuthFailed,
        r matches Ok(blob) ==> blob@ == base64_encode(
            nonce@ + aes256gcm_seal(key@, nonce@, plaintext@),
        ),
        r matches Ok(blob) ==> encrypts(key@, plaintext@, blob@),
        r matches Ok(blob) ==> spec_decrypt_bytes(key@, blob@) == spec_utf8_text(plaintext@),
{
    let mut ciphertext = match aes256gcm_encrypt(key, nonce, plaintext) {
        Ok(c) => c,
        Err(_) => return Err(Error::AuthFailed),
    };
    let mut out: Vec<u8> = Vec::new();
    let mut i: usize = 0;
    while i < NONCE_LEN
        invariant
            i <= NONCE_LEN,
            out@ =~= nonce@.subrange(0, i as int),
        decreases NONCE_LEN - i,
    {
        out.push(nonce[i]);
        i = i + 1;
    }
    let ghost sealed = ciphertext@;
    out.append(&mut ciphertext);
    assert(out@ =~= nonce@ + sealed);
    assert(out@.subrange(0, NONCE_LEN as int) =~= nonce@);
    assert(out@.subrange(NONCE_LEN as int, out@.len() as int) =~= sealed);
    let blob = b64_encode(out.as_slice());
    assert(encrypts(key@, plaintext@, blob@)) by {
        assert(blob@ == base64_encode(nonce@ + aes256gcm_seal(key@, nonce@, plaintext@)));
        assert(base64_decode(blob@) == Some(nonce@ + aes256gcm_seal(key@, nonce@, plaintext@)));
    }
    Ok(blob)
}

/// Encrypts `plaintext` under `key` with a fresh random nonce, as
/// `seal_item` does for that nonce.
pub fn encrypt_bytes(key: &[u8; KEY_LEN], plaintext: &[u8]) -> (r: Result<String, Error>)
    requires
        plaintext@.len() <= usize::MAX / 4,
    ensures
        plaintext@.len() > 0x10_0000_0000 ==> r is Err,
        plaintext@.len() <= 0x10_0000_0000 ==> (r is Ok || r matches Err(Error::Random(_))),
        r matches Err(e) ==> ((e is AuthFailed && plaintext@.len() > 0x10_0000_0000)
            || e is Random),
        r matches Ok(blob) ==> encrypts(key@, plaintext@, blob@),
        r matches Ok(blob) ==> spec_decrypt_bytes(key@, blob@) == spec_utf8_text(plaintext@),
{
    let nonce = match random_bytes::<NONCE_LEN>() {
        Ok(b) => b,
        Err(e) => return Err(Error::Random(e)),
    };
    seal_item(key, &nonce, plaintext)
}

/// Reverses `encrypt_bytes`: decodes, authenticates and decrypts an item
/// blob, and reads the plaintext as UTF-8 text.
pub fn decrypt_bytes(key: &[u8; KEY_LEN], blob_b64: &str) -> (r: Result<String, Error>)
    ensures
        r is Ok <==> spec_decrypt_bytes(key@, blob_b64@) is Some,
        r matches Ok(s) ==> spec_decrypt_bytes(key@, blob_b64@) == Some(s@),
        r matches Err(e) ==> e is AuthFailed,
{
    let raw = match b64_decode(blob_b64) {
        Ok(v) => v,
        Err(_) => return Err(Error::AuthFailed),
    };
    if raw.len() < NONCE_LEN {
        return Err(Error::AuthFailed);
    }
    let (nonce_bytes, ciphertext) = raw.as_slice().split_at(NONCE_LEN);
    let plaintext = match aes256gcm_decrypt(key, nonce_bytes, ciphertext) {
        Ok(p) => p,
        Err(_) => return Err(Error::AuthFailed),
    };
    match string_from_utf8(plaintext) {
        Ok(s) => Ok(s),
        Err(_) => Err(Error::AuthFailed),
    }
}


// ---------------------------------------------------------------------------
// Rate limiting of wrong guesses
// ---------------------------------------------------------------------------

/// The delay, in milliseconds, that the rate limiter imposes after
/// `failures` consecutive wrong guesses: none for the first three, then
/// 250 ms doubled for each further failure (at most 8 doublings), capped at
/// 30 s.
pub open spec fn spec_backoff_wait_ms(failures: u32) -> nat {
    if failures <= BACKOFF_FREE_ATTEMPTS {
        0
    } else {
        let excess = (failures - BACKOFF_FREE_ATTEMPTS) as nat;
        let shift: nat = if excess < 8 {
            excess
        } else {
            8
        };
        let wait: nat = (BACKOFF_BASE_MS * pow2(shift)) as nat;
        if wait < BACKOFF_MAX_MS {
            wait
        } else {
            BACKOFF_MAX_MS as nat
        }
    }
}

/// Whether a guess is refused when `elapsed_ms` milliseconds have passed
/// since the last of `failures` consecutive wrong guesses.
pub open spec fn spec_backoff_blocks(failures: u32, elapsed_ms: u128) -> bool {
    failures > BACKOFF_FREE_ATTEMPTS && elapsed_ms < spec_backoff_wait_ms(failures)
}

/// Computes the rate limiter's delay after `failures` wrong guesses.
pub fn backoff_wait_ms(failures: u32) -> (w: u64)
    ensures
        w == spec_backoff_wait_ms(failures),
{
    if failures <= BACKOFF_FREE_ATTEMPTS {
        return 0;
    }
    let excess = failures - BACKOFF_FREE_ATTEMPTS;
    let shift: u32 = if excess < 8 {
        excess
    } else {
        8
    };
    proof {
        lemma_pow2_strictly_increases(shift as nat, 9);
        vstd::arithmetic::power2::lemma2_to64();
        vstd::bits::lemma_u32_shl_is_mul(1, shift);
    }
    let factor: u32 = 1u32 << shift;
    let wait: u64 = BACKOFF_BASE_MS * (factor as u64);
    if wait < BACKOFF_MAX_MS {
        wait
    } else {
        BACKOFF_MAX_MS
    }
}

/// Refuses a guess with `TooManyAttempts` while the delay after `failures`
/// wrong guesses has not yet passed.
pub fn backoff_check(failures: u32, elapsed_ms: u128) -> (r: Result<(), Error>)
    ensures
        r is Err <==> spec_backoff_blocks(failures, elapsed_ms),
        r matches Err(e) ==> e is TooManyAttempts,
{
    if failures > BACKOFF_FREE_ATTEMPTS {
        let wait = backoff_wait_ms(failures);
        if elapsed_ms < wait as u128 {
            return Err(Error::TooManyAttempts);
        }
    }
    Ok(())
}

/// The delay never shrinks as failures accumulate, is zero for the first
/// three failures, and never exceeds 30 seconds.
pub proof fn lemma_backoff_wait_grows_and_is_capped(f1: u32, f2: u32)
    requires
        f1 <= f2,
    ensures
        spec_backoff_wait_ms(f1) <= spec_backoff_wait_ms(f2),
        spec_backoff_wait_ms(f2) <= BACKOFF_MAX_MS,
        f1 <= BACKOFF_FREE_ATTEMPTS ==> spec_backoff_wait_ms(f1) == 0,
        f1 > BACKOFF_FREE_ATTEMPTS ==> spec_backoff_wait_ms(f1) > 0,
{
    vstd::arithmetic::power2::lemma2_to64();
    if f1 > BACKOFF_FREE_ATTEMPTS {
        let e1 = (f1 - BACKOFF_FREE_ATTEMPTS) as nat;
        let e2 = (f2 - BACKOFF_FREE_ATTEMPTS) as nat;
        let s1: nat = if e1 < 8 { e1 } else { 8 };
        let s2: nat = if e2 < 8 { e2 } else { 8 };
        if s1 < s2 {
            lemma_pow2_strictly_increases(s1, s2);
        }
        vstd::arithmetic::power2::lemma_pow2_pos(s1);
    }
}

/// The delay starts at 500 ms after the fourth failure, doubles with each
/// further failure, and is 30 s from the tenth on.
pub proof fn lemma_backoff_wait_doubles(failures: u32)
    ensures
        spec_backoff_wait_ms(4) == 500,
        4 <= failures < 9 ==> spec_backoff_wait_ms((failures + 1) as u32) == 2
            * spec_backoff_wait_ms(failures),
        failures >= 10 ==> spec_backoff_wait_ms(failures) == 30_000,
        failures <= 3 ==> spec_backoff_wait_ms(failures) == 0,
{
    vstd::arithmetic::power2::lemma2_to64();
    if 4 <= failures < 9 {
        let s = (failures - 3) as nat;
        vstd::arithmetic::power2::lemma_pow2_unfold(s + 1);
    }
}

/// A run of consecutive wrong guesses and the time of the last one.
pub struct AttemptState {
    failures: u32,
    last_failure: Instant,
}

/// The in-memory state of the password lock: the unwrapped data key while a
/// session is unlocked, and the rate limiter's record of wrong guesses. It is
/// never written to disk: a fresh process starts locked, with no failures
/// recorded.
pub struct LockState {
    session_key: Option<SecretKey>,
    attempts: Option<AttemptState>,
}

impl Default for LockState {
    /// A locked state with no wrong guesses on record.
    fn default() -> (s: Self)
        ensures
            s.session() is None,
            s.attempt_record() is None,
    {
        LockState::new()
    }
}

/// The data key bytes of a key result.
pub open spec fn key_result(r: Result<SecretKey, Error>) -> Result<Seq<u8>, Error> {
    match r {
        Ok(k) => Ok(secret_bytes(k)),
        Err(e) => Err(e),
    }
}

/// What checking a password against the stored lock gives, when the rate
/// limiter lets the guess through: the stored blob's read error, or
/// `NoLockPasswordSet`, or the data key, or `AuthFailed`.
pub open spec fn spec_check_password(
    stored: Result<Option<LockMeta>, Error>,
    password: Seq<char>,
) -> Result<Seq<u8>, Error> {
    match stored {
        Err(e) => Err(e),
        Ok(None) => Err(Error::NoLockPasswordSet),
        Ok(Some(meta)) => match spec_unwrap_key(meta, password) {
            Some(k) => Ok(k),
            None => Err(Error::AuthFailed),
        },
    }
}

/// The failure count after `failures` and one more wrong guess.
pub open spec fn one_more_failure(failures: nat) -> nat {
    if failures < u32::MAX {
        failures + 1
    } else {
        u32::MAX as nat
    }
}

/// Each wrong guess raises the failure count by exactly one, until the
/// count reaches `u32::MAX`, where it stays.
pub proof fn lemma_a_wrong_guess_counts_one(failures: nat)
    ensures
        failures < u32::MAX ==> one_more_failure(failures) == failures + 1,
        failures >= u32::MAX ==> one_more_failure(failures) == u32::MAX,
        one_more_failure(failures) >= failures || failures > u32::MAX,
{
}

/// After a guess that was let through, a wrong password against a stored
/// lock adds exactly one failure, a right one clears them, and no password
/// is counted when no lock blob could be checked.
pub proof fn lemma_checked_guess_counts(
    stored: Result<Option<LockMeta>, Error>,
    password: Seq<char>,
    failures: nat,
)
    requires
        failures < u32::MAX,
    ensures
        (stored matches Ok(Some(meta)) && spec_unwrap_key(meta, password) is None)
            ==> spec_failures_after(stored, password, failures) == failures + 1,
        (stored matches Ok(Some(meta)) && spec_unwrap_key(meta, password) is Some)
            ==> spec_failures_after(stored, password, failures) == 0,
        !(stored matches Ok(Some(_))) ==> spec_failures_after(stored, password, failures)
            == failures,
{
}

/// `n` wrong guesses in a row, counted from none, leave a count of `n`.
pub open spec fn count_after_wrong_guesses(n: nat) -> nat
    decreases n,
{
    if n == 0 {
        0
    } else {
        one_more_failure(count_after_wrong_guesses((n - 1) as nat))
    }
}

/// After `n` consecutive wrong guesses the count is `n` (below `u32::MAX`),
/// so the delay after more than three of them is
/// `min(250 * 2^min(n - 3, 8), 30000)` ms.
pub proof fn lemma_count_after_wrong_guesses(n: nat)
    requires
        n <= u32::MAX,
    ensures
        count_after_wrong_guesses(n) == n,
    decreases n,
{
    if n > 0 {
        lemma_count_after_wrong_guesses((n - 1) as nat);
    }
}

/// The failure count after a checked guess: reset by a right password,
/// raised by a wrong one, unchanged when no password could be checked.
pub open spec fn spec_failures_after(
    stored: Result<Option<LockMeta>, Error>,
    password: Seq<char>,
    failures: nat,
) -> nat {
    match stored {
        Ok(Some(meta)) => if spec_unwrap_key(meta, password) is Some {
            0
        } else {
            one_more_failure(failures)
        },
        _ => failures,
    }
}

impl LockState {
    /// The data key of the unlocked session, or `None` while locked.
    pub closed spec fn session(&self) -> Option<Seq<u8>> {
        match self.session_key {
            Some(k) => Some(secret_bytes(k)),
            None => None,
        }
    }

    /// The record of consecutive wrong guesses: their number and the time
    /// of the last one, or `None` when none is on record.
    pub closed spec fn attempt_record(&self) -> Option<(u32, Instant)> {
        match self.attempts {
            Some(a) => Some((a.failures, a.last_failure)),
            None => None,
        }
    }

    /// The number of consecutive wrong guesses on record.
    pub open spec fn failures(&self) -> nat {
        match self.attempt_record() {
            Some(record) => record.0 as nat,
            None => 0,
        }
    }

    /// A locked state with no wrong guesses on record, as at process start.
    pub fn new() -> (s: Self)
        ensures
            s.session() is None,
            s.attempt_record() is None,
    {
        LockState { session_key: None, attempts: None }
    }

    /// Whether a guess is refused when `elapsed_ms` milliseconds have passed
    /// since the last recorded wrong guess.
    pub open spec fn refuses(&self, elapsed_ms: u128) -> bool {
        self.failures() > BACKOFF_FREE_ATTEMPTS && elapsed_ms < spec_backoff_wait_ms(
            self.failures() as u32,
        )
    }

    /// Whole milliseconds since the last recorded wrong guess, read from the
    /// clock; 0 while no wrong guess is on record. Nothing is claimed of the
    /// number: it depends on the clock.
    pub fn millis_since_last_failure(&self) -> (r: u128)
        ensures
            self.attempt_record() is None ==> r == 0,
    {
        match &self.attempts {
            Some(a) => {
                let elapsed = instant_elapsed(&a.last_failure);
                duration_millis(&elapsed)
            },
            None => 0,
        }
    }

    /// Refuses a guess with `TooManyAttempts` exactly while the delay after
    /// the recorded wrong guesses has not passed, `elapsed_ms` milliseconds
    /// after the last of them.
    pub fn check_backoff_at(&self, elapsed_ms: u128) -> (r: Result<(), Error>)
        ensures
            r is Err <==> self.refuses(elapsed_ms),
            r matches Err(e) ==> e is TooManyAttempts,
    {
        match &self.attempts {
            Some(a) => backoff_check(a.failures, elapsed_ms),
            None => Ok(()),
        }
    }

    /// Refuses a guess with `TooManyAttempts` while the delay after the
    /// recorded wrong guesses has not passed, as `check_backoff_at` decides
    /// for the time the clock gives; with at most three failures on record a
    /// guess always passes.
    pub fn check_backoff(&self) -> (r: Result<(), Error>)
        ensures
            r matches Err(e) ==> e is TooManyAttempts,
            r is Err ==> self.failures() > BACKOFF_FREE_ATTEMPTS,
    {
        let elapsed = self.millis_since_last_failure();
        self.check_backoff_at(elapsed)
    }

    /// Records one more wrong guess, now.
    pub fn record_failure(&mut self)
        ensures
            final(self).session() == old(self).session(),
            final(self).attempt_record() matches Some(record) && record.0 == one_more_failure(
                old(self).failures(),
            ),
            old(self).failures() < u32::MAX ==> final(self).failures() == old(self).failures() + 1,
            old(self).failures() == u32::MAX ==> final(self).failures() == u32::MAX,
    {
        let failures = match &self.attempts {
            Some(a) => a.failures,
            None => 0,
        };
        let failures = failures.saturating_add(1);
        self.attempts = Some(AttemptState { failures, last_failure: instant_now() });
    }

    /// Clears the record of wrong guesses.
    pub fn record_success(&mut self)
        ensures
            final(self).session() == old(self).session(),
            final(self).attempt_record() is None,
    {
        self.attempts = None;
    }

    /// Checks `password` against the stored lock (`stored` is what reading
    /// and parsing the stored blob gave) and returns the unwrapped data key,
    /// without touching the session, `elapsed_ms` milliseconds after the
    /// last recorded wrong guess. Every caller (unlock, change, remove)
    /// shares the rate limiter: while its delay runs every password is
    /// refused and nothing changes; otherwise a wrong password is recorded as
    /// a failure and a right one clears the record.
    pub fn unwrap_data_key_at(
        &mut self,
        elapsed_ms: u128,
        stored: Result<Option<LockMeta>, Error>,
        password: &str,
    ) -> (r: Result<SecretKey, Error>)
        ensures
            final(self).session() == old(self).session(),
            old(self).refuses(elapsed_ms) ==> (r matches Err(Error::TooManyAttempts)
                && final(self).failures() == old(self).failures()),
            !old(self).refuses(elapsed_ms) ==> (key_result(r) == spec_check_password(
                stored,
                password@,
            ) && final(self).failures() == spec_failures_after(
                stored,
                password@,
                old(self).failures(),
            )),
            (old(self).refuses(elapsed_ms) || !(stored matches Ok(Some(_))))
                ==> final(self).attempt_record() == old(self).attempt_record(),
            (stored matches Ok(Some(meta)) && spec_unwrap_key(meta, password@) is Some
                && !old(self).refuses(elapsed_ms)) ==> final(self).attempt_record() is None,
    {
        match self.check_backoff_at(elapsed_ms) {
            Ok(()) => {},
            Err(e) => return Err(e),
        }
        let meta = match stored {
            Err(e) => return Err(e),
            Ok(None) => return Err(Error::NoLockPasswordSet),
            Ok(Some(meta)) => meta,
        };
        match unwrap_key(&meta, password) {
            Ok(key) => {
                self.record_success();
                Ok(key)
            },
            Err(err) => {
                match err {
                    Error::AuthFailed => self.record_failure(),
                    _ => {},
                }
                Err(err)
            },
        }
    }

    /// `unwrap_data_key_at` for the time since the last wrong guess that the
    /// clock gives.
    pub fn unwrap_data_key(
        &mut self,
        stored: Result<Option<LockMeta>, Error>,
        password: &str,
    ) -> (r: Result<SecretKey, Error>)
        ensures
            final(self).session() == old(self).session(),
            ({
                let checked = key_result(r) == spec_check_password(stored, password@)
                    && final(self).failures() == spec_failures_after(
                    stored,
                    password@,
                    old(self).failures(),
                );
                let refused = r matches Err(Error::TooManyAttempts) && old(self).failures()
                    > BACKOFF_FREE_ATTEMPTS && final(self).attempt_record() == old(
                    self,
                ).attempt_record();
                checked || refused
            }),
            old(self).failures() <= BACKOFF_FREE_ATTEMPTS ==> key_result(r) == spec_check_password(
                stored,
                password@,
            ),
            !(stored matches Ok(Some(_))) ==> final(self).attempt_record() == old(
                self,
            ).attempt_record(),
    {
        let elapsed = self.millis_since_last_failure();
        self.unwrap_data_key_at(elapsed, stored, password)
    }

    /// Makes `data_key` the unlocked session's key.
    pub fn set_session(&mut self, data_key: SecretKey)
        ensures
            final(self).session() == Some(secret_bytes(data_key)),
            final(self).attempt_record() == old(self).attempt_record(),
    {
        self.session_key = Some(data_key);
    }

    /// Ends the unlocked session: password-locked items are unusable until
    /// the next unlock.
    pub fn lock(&mut self)
        ensures
            final(self).session() is None,
            final(self).attempt_record() == old(self).attempt_record(),
    {
        self.session_key = None;
    }

    /// Whether a password session is currently unlocked.
    pub fn is_unlocked(&self) -> (b: bool)
        ensures
            b == self.session() is Some,
    {
        self.session_key.is_some()
    }

    /// The lock's status, given what reading and parsing the stored blob gave.
    pub fn lock_status(&self, stored: Result<Option<LockMeta>, Error>) -> (r: Result<
        LockStatusResponse,
        Error,
    >)
        ensures
            stored matches Err(e) ==> r == Err::<LockStatusResponse, Error>(e),
            stored matches Ok(meta) ==> (r matches Ok(status) && status.has_lock_password == meta
                is Some && status.unlocked == self.session() is Some),
    {
        let unlocked = self.is_unlocked();
        match stored {
            Err(e) => Err(e),
            Ok(meta) => Ok(LockStatusResponse { has_lock_password: meta.is_some(), unlocked }),
        }
    }

    /// Returns `Locked` unless a password session is active. Callers check
    /// this before looking a password-locked item up, so that a locked
    /// keystore does not reveal which keys exist.
    pub fn require_unlocked(&self) -> (r: Result<(), Error>)
        ensures
            r is Ok <==> self.session() is Some,
            r matches Err(e) ==> e is Locked,
    {
        if self.session_key.is_some() {
            Ok(())
        } else {
            Err(Error::Locked)
        }
    }

    /// Encrypts `plaintext` with the session's data key; `Locked` while no
    /// session is active.
    pub fn encrypt_with_session(&self, plaintext: &[u8]) -> (r: Result<String, Error>)
        requires
            plaintext@.len() <= usize::MAX / 4,
        ensures
            self.session() is None ==> r matches Err(Error::Locked),
            self.session() matches Some(k) ==> {
                &&& plaintext@.len() > 0x10_0000_0000 ==> r is Err
                &&& plaintext@.len() <= 0x10_0000_0000 ==> (r is Ok || r matches Err(
                    Error::Random(_),
                ))
                &&& r matches Err(e) ==> ((e is AuthFailed && plaintext@.len() > 0x10_0000_0000)
                    || e is Random)
                &&& r matches Ok(blob) ==> encrypts(k, plaintext@, blob@)
                &&& r matches Ok(blob) ==> spec_decrypt_bytes(k, blob@) == spec_utf8_text(
                    plaintext@,
                )
            },
    {
        match &self.session_key {
            None => Err(Error::Locked),
            Some(key) => {
                let key_bytes: &[u8; 32] = &**key;
                encrypt_bytes(key_bytes, plaintext)
            },
        }
    }

    /// Decrypts an item blob with the session's data key; `Locked` while no
    /// session is active.
    pub fn decrypt_with_session(&self, blob_b64: &str) -> (r: Result<String, Error>)
        ensures
            self.session() is None ==> r matches Err(Error::Locked),
            self.session() matches Some(k) ==> {
                &&& r is Ok <==> spec_decrypt_bytes(k, blob_b64@) is Some
                &&& r matches Ok(s) ==> spec_decrypt_bytes(k, blob_b64@) == Some(s@)
                &&& r matches Err(e) ==> e is AuthFailed
            },
    {
        match &self.session_key {
            None => Err(Error::Locked),
            Some(key) => {
                let key_bytes: &[u8; 32] = &**key;
                decrypt_bytes(key_bytes, blob_b64)
            },
        }
    }
}

// ---------------------------------------------------------------------------
// Setting and changing the lock password
// ---------------------------------------------------------------------------

/// First step of setting the lock password (`stored` is what reading and
/// parsing the stored blob gave): refuses when a lock already exists, and
/// otherwise draws a fresh random data key and wraps it under `password`.
/// The caller stores the returned `LockMeta` and then makes the key the
/// session's: setting the password proves that the app knows it.
pub fn new_lock(stored: Result<Option<LockMeta>, Error>, password: &str) -> (r: Result<
    (SecretKey, LockMeta),
    Error,
>)
    ensures
        stored matches Err(e) ==> r == Err::<(SecretKey, LockMeta), Error>(e),
        stored matches Ok(Some(_)) ==> r matches Err(Error::LockPasswordAlreadySet),
        stored matches Ok(None) ==> {
            &&& (r matches Err(Error::WeakPassword)) <==> password@.len() == 0
            &&& spec_wrap_error(password@) is Some ==> r is Err
            &&& spec_wrap_error(password@) is None ==> (r is Ok || r matches Err(
                Error::Random(_),
            ))
            &&& r matches Err(e) ==> (spec_wrap_error(password@) == Some(e) || e is Random)
            &&& r matches Ok((key, meta)) ==> spec_unwrap_key(meta, password@) == Some(
                secret_bytes(key),
            )
            &&& r matches Ok((key, meta)) ==> exists|salt: Seq<u8>, nonce: Seq<u8>|
                wraps(meta, password@, secret_bytes(key), salt, nonce)
        },
{
    match stored {
        Err(e) => return Err(e),
        Ok(Some(_)) => return Err(Error::LockPasswordAlreadySet),
        Ok(None) => {},
    }
    if password.is_empty() {
        return Err(Error::WeakPassword);
    }
    let data_key = match random_bytes::<KEY_LEN>() {
        Ok(b) => secret_new(b),
        Err(e) => return Err(Error::Random(e)),
    };
    let key_bytes: &[u8; 32] = &*data_key;
    match wrap_key(password, key_bytes) {
        Ok(meta) => Ok((data_key, meta)),
        Err(e) => Err(e),
    }
}

/// What changing the password gives when the rate limiter lets the guess
/// through: the old password is checked as by `unwrap_data_key`, then the
/// same data key is wrapped under the new password (which may also fail
/// when the random source fails).
pub open spec fn spec_rewrap(
    stored: Result<Option<LockMeta>, Error>,
    old_password: Seq<char>,
    new_password: Seq<char>,
    r: Result<(SecretKey, LockMeta), Error>,
) -> bool {
    match spec_check_password(stored, old_password) {
        Err(e) => r == Err::<(SecretKey, LockMeta), Error>(e),
        Ok(k) => match spec_wrap_error(new_password) {
            Some(e) => r == Err::<(SecretKey, LockMeta), Error>(e) || (new_password.len() > 0
                && r matches Err(Error::Random(_))),
            None => (r matches Ok((key, meta)) && secret_bytes(key) == k && spec_unwrap_key(
                meta,
                new_password,
            ) == Some(k)) || r matches Err(Error::Random(_)),
        },
    }
}

impl LockState {
    /// The work of changing the lock password, `elapsed_ms` milliseconds
    /// after the last recorded wrong guess: checks `old_password` (rate
    /// limited, as for an unlock) and re-wraps the same data key under
    /// `new_password`. The caller stores the returned `LockMeta` and then
    /// makes the key the session's. Stored items need no re-encryption: the
    /// data key does not change.
    pub fn rewrap_data_key(
        &mut self,
        elapsed_ms: u128,
        stored: Result<Option<LockMeta>, Error>,
        old_password: &str,
        new_password: &str,
    ) -> (r: Result<(SecretKey, LockMeta), Error>)
        ensures
            final(self).session() == old(self).session(),
            old(self).refuses(elapsed_ms) ==> (r matches Err(Error::TooManyAttempts)
                && final(self).failures() == old(self).failures()),
            !old(self).refuses(elapsed_ms) ==> (spec_rewrap(
                stored,
                old_password@,
                new_password@,
                r,
            ) && final(self).failures() == spec_failures_after(
                stored,
                old_password@,
                old(self).failures(),
            )),
            (old(self).refuses(elapsed_ms) || !(stored matches Ok(Some(_))))
                ==> final(self).attempt_record() == old(self).attempt_record(),
            (stored matches Ok(Some(meta)) && spec_unwrap_key(meta, old_password@) is Some
                && !old(self).refuses(elapsed_ms)) ==> final(self).attempt_record() is None,
    {
        let data_key = match self.unwrap_data_key_at(elapsed_ms, stored, old_password) {
            Ok(k) => k,
            Err(e) => return Err(e),
        };
        let key_bytes: &[u8; 32] = &*data_key;
        match wrap_key(new_password, key_bytes) {
            Ok(meta) => Ok((data_key, meta)),
            Err(e) => Err(e),
        }
    }
}

} // verus!
