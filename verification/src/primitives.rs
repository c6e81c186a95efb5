//! The calls into the cryptographic and system crates that the lock logic
//! makes, each behind a small trusted wrapper whose contract says what the
//! crate's source or documentation shows and no more.

use vstd::prelude::*;
use vstd::utf8::{decode_utf8, valid_utf8};

use aes_gcm::aead::{Aead, KeyInit};
use aes_gcm::{Aes256Gcm, Nonce};
use aes_gcm::Error as AeadError;
use argon2::{Algorithm, Argon2, Params, Version};
use argon2::Error as Argon2Error;
use base64::engine::general_purpose::STANDARD as B64;
use base64::DecodeError;
use base64::Engine;
use rand::rngs::OsRng;
use rand::Error as RandError;
use rand::RngCore;
use std::string::FromUtf8Error;
use std::time::{Duration, Instant};
use zeroize::Zeroizing;

verus! {

/// The error of an AES-GCM encryption or decryption (`aead::Error`).
#[verifier::external_type_specification]
#[verifier::external_body]
pub struct ExAeadError(AeadError);

/// The error of an Argon2 parameter check or hash computation.
#[verifier::external_type_specification]
#[verifier::external_body]
pub struct ExArgon2Error(Argon2Error);

/// The error of a base64 decoding.
#[verifier::external_type_specification]
#[verifier::external_body]
pub struct ExDecodeError(DecodeError);

/// The error of a UTF-8 conversion of bytes into a `String`.
#[verifier::external_type_specification]
#[verifier::external_body]
pub struct ExFromUtf8Error(FromUtf8Error);

/// A point in monotonic time.
#[verifier::external_type_specification]
#[verifier::external_body]
pub struct ExInstant(Instant);

// ---------------------------------------------------------------------------
// zeroize
// ---------------------------------------------------------------------------

/// A 256-bit key held in a `zeroize::Zeroizing` buffer, which wipes the
/// bytes from memory when the key is dropped. The buffer is private;
/// `secret_bytes` names the bytes it holds.
#[verifier::external_body]
pub struct SecretKey {
    bytes: Zeroizing<[u8; 32]>,
}

/// The 32 bytes held by a key buffer.
pub uninterp spec fn secret_bytes(secret: SecretKey) -> Seq<u8>;

/// `Zeroizing::new`: moves the bytes into a buffer that is wiped on drop;
/// the buffer holds exactly those bytes.
#[verifier::external_body]
pub(crate) fn secret_new(bytes: [u8; 32]) -> (s: SecretKey)
    ensures
        secret_bytes(s) == bytes@,
{
    SecretKey { bytes: Zeroizing::new(bytes) }
}

impl core::ops::Deref for SecretKey {
    type Target = [u8; 32];

    /// `Deref` of `Zeroizing`: reads the bytes held by the buffer in place.
    #[verifier::external_body]
    fn deref(&self) -> (r: &[u8; 32])
        ensures
            r@ == secret_bytes(*self),
    {
        &self.bytes
    }
}

// ---------------------------------------------------------------------------
// argon2
// ---------------------------------------------------------------------------

/// The 32-byte Argon2id (version 0x13) output for a password, a salt and
/// the memory (KiB), time and parallelism costs.
pub uninterp spec fn argon2id_hash(
    password: Seq<u8>,
    salt: Seq<u8>,
    m_cost: u32,
    t_cost: u32,
    p_cost: u32,
) -> Seq<u8>;

/// The inputs that `Params::new(m, t, p, Some(32))` and
/// `Argon2::hash_password_into` accept with a 32-byte output buffer.
pub open spec fn argon2id_accepts(
    password_len: nat,
    salt_len: nat,
    m_cost: u32,
    t_cost: u32,
    p_cost: u32,
) -> bool {
    &&& m_cost >= 8
    &&& m_cost >= 8 * p_cost
    &&& t_cost >= 1
    &&& 1 <= p_cost <= 0xFFFFFF
    &&& password_len <= 0xFFFF_FFFF
    &&& 8 <= salt_len <= 0xFFFF_FFFF
}

/// `argon2::Params::new(m, t, p, Some(32))`, `Argon2::new(Argon2id, V0x13,
/// params)` and `Argon2::hash_password_into`. Claims, from the crate's
/// source: the call succeeds exactly on the inputs of `argon2id_accepts`
/// (its parameter, password-length and salt-length checks), and then the
/// buffer holds the Argon2id output for these inputs. `p_cost * 8` is
/// computed unchecked inside `Params::new`, and the call allocates
/// `m_cost` KiB, so larger inputs are left out. On failure nothing is said
/// of the buffer.
#[verifier::external_body]
pub(crate) fn argon2id_hash_into(
    password: &[u8],
    salt: &[u8],
    m_cost: u32,
    t_cost: u32,
    p_cost: u32,
    out: &mut SecretKey,
) -> (r: Result<(), Argon2Error>)
    requires
        8 * p_cost <= u32::MAX,
        m_cost <= 256 * 1024,
    ensures
        r is Ok <==> argon2id_accepts(password@.len(), salt@.len(), m_cost, t_cost, p_cost),
        r is Ok ==> secret_bytes(*final(out)) == argon2id_hash(
            password@,
            salt@,
            m_cost,
            t_cost,
            p_cost,
        ),
{
    let params = match Params::new(m_cost, t_cost, p_cost, Some(32)) {
        Ok(params) => params,
        Err(e) => return Err(e),
    };
    Argon2::new(Algorithm::Argon2id, Version::V0x13, params).hash_password_into(
        password,
        salt,
        out.bytes.as_mut_slice(),
    )
}

// ---------------------------------------------------------------------------
// aes-gcm
// ---------------------------------------------------------------------------

/// The AES-256-GCM ciphertext (with its 16-byte tag appended) of a
/// plaintext under a key and a 12-byte nonce, with no associated data.
pub uninterp spec fn aes256gcm_seal(key: Seq<u8>, nonce: Seq<u8>, plaintext: Seq<u8>) -> Seq<u8>;

/// The AES-256-GCM decryption of a ciphertext (tag appended) under a key
/// and a 12-byte nonce, with no associated data: `None` when it does not
/// authenticate.
pub uninterp spec fn aes256gcm_open(
    key: Seq<u8>,
    nonce: Seq<u8>,
    ciphertext: Seq<u8>,
) -> Option<Seq<u8>>;

/// `Aes256Gcm::new(key)` then `Aead::encrypt(nonce, plaintext)`. Claims:
/// it succeeds exactly when the plaintext is at most `P_MAX` (2^36)
/// bytes, as the crate's source checks; the ciphertext is the named
/// AES-256-GCM result, the plaintext's length plus the 16-byte tag; and, as AEAD decryption is documented to invert
/// encryption, decrypting it under the same key and nonce gives the
/// plaintext back. `Nonce::from_slice` panics unless the nonce has 12
/// bytes, and the output buffer needs `len + 16` bytes.
#[verifier::external_body]
pub(crate) fn aes256gcm_encrypt(key: &[u8; 32], nonce: &[u8], plaintext: &[u8]) -> (r: Result<
    Vec<u8>,
    AeadError,
>)
    requires
        nonce@.len() == 12,
        plaintext@.len() + 16 <= usize::MAX,
    ensures
        r is Ok <==> plaintext@.len() <= 0x10_0000_0000,
        r matches Ok(c) ==> c@ == aes256gcm_seal(key@, nonce@, plaintext@),
        r matches Ok(c) ==> c@.len() == plaintext@.len() + 16,
        r matches Ok(c) ==> aes256gcm_open(key@, nonce@, c@) == Some(plaintext@),
{
    Aes256Gcm::new(key.into()).encrypt(Nonce::from_slice(nonce), plaintext)
}

/// `Aes256Gcm::new(key)` then `Aead::decrypt(nonce, ciphertext)`. Claims:
/// it succeeds exactly when the named decryption authenticates, and then
/// returns that plaintext. `Nonce::from_slice` panics unless the nonce has
/// 12 bytes.
#[verifier::external_body]
pub(crate) fn aes256gcm_decrypt(key: &[u8; 32], nonce: &[u8], ciphertext: &[u8]) -> (r: Result<
    Vec<u8>,
    AeadError,
>)
    requires
        nonce@.len() == 12,
    ensures
        r is Ok <==> aes256gcm_open(key@, nonce@, ciphertext@) is Some,
        r matches Ok(p) ==> aes256gcm_open(key@, nonce@, ciphertext@) == Some(p@),
{
    Aes256Gcm::new(key.into()).decrypt(Nonce::from_slice(nonce), ciphertext)
}

// ---------------------------------------------------------------------------
// base64 (standard alphabet, padded)
// ---------------------------------------------------------------------------

/// The padded standard-alphabet base64 text of some bytes.
pub uninterp spec fn base64_encode(bytes: Seq<u8>) -> Seq<char>;

/// The bytes that a text decodes to under the padded standard alphabet, or
/// `None` when it is not valid base64.
pub uninterp spec fn base64_decode(text: Seq<char>) -> Option<Seq<u8>>;

/// `STANDARD.encode(bytes)`. Claims: the text is the named encoding, and
/// decoding it gives the bytes back (the engine's documented round trip).
/// The call panics when the encoded length overflows `usize`, so longer
/// inputs are left out.
#[verifier::external_body]
pub(crate) fn b64_encode(bytes: &[u8]) -> (r: String)
    requires
        bytes@.len() <= usize::MAX / 2,
    ensures
        r@ == base64_encode(bytes@),
        base64_decode(r@) == Some(bytes@),
{
    B64.encode(bytes)
}

/// `STANDARD.decode(text)`. Claims: it succeeds exactly when the text
/// decodes, and returns the decoded bytes.
#[verifier::external_body]
pub(crate) fn b64_decode(text: &str) -> (r: Result<Vec<u8>, DecodeError>)
    ensures
        r is Ok <==> base64_decode(text@) is Some,
        r matches Ok(v) ==> base64_decode(text@) == Some(v@),
{
    B64.decode(text)
}

// ---------------------------------------------------------------------------
// rand
// ---------------------------------------------------------------------------

/// `OsRng.try_fill_bytes` on a fresh buffer: `N` bytes from the operating
/// system's random source, or that source's error. Nothing is claimed of
/// the bytes, nor of when the source fails.
#[verifier::external_body]
pub(crate) fn random_bytes<const N: usize>() -> Result<[u8; N], RandError> {
    let mut buf = [0u8; N];
    match OsRng.try_fill_bytes(&mut buf) {
        Ok(()) => Ok(buf),
        Err(e) => Err(e),
    }
}

// ---------------------------------------------------------------------------
// std: UTF-8 and time
// ---------------------------------------------------------------------------

/// `String::from_utf8`: succeeds exactly on valid UTF-8, and the string
/// then holds the characters those bytes encode.
#[verifier::external_body]
pub(crate) fn string_from_utf8(bytes: Vec<u8>) -> (r: Result<String, FromUtf8Error>)
    ensures
        r is Ok <==> valid_utf8(bytes@),
        r matches Ok(s) ==> s@ == decode_utf8(bytes@),
{
    String::from_utf8(bytes)
}

/// `Instant::now`: the current monotonic time. Nothing is claimed of it.
#[verifier::external_body]
pub(crate) fn instant_now() -> Instant {
    Instant::now()
}

/// `Instant::elapsed`: the time since an instant. Nothing is claimed of it.
#[verifier::external_body]
pub(crate) fn instant_elapsed(since: &Instant) -> Duration {
    since.elapsed()
}

/// `Duration::as_millis`: whole milliseconds of a duration. The duration
/// is opaque here, so nothing is claimed of the number.
#[verifier::external_body]
pub(crate) fn duration_millis(d: &Duration) -> u128 {
    d.as_millis()
}

} // verus!
