//! Errors of the keystore and of its password lock.

use vstd::prelude::*;
use keyring::Error as KeyringError;
use std::io::Error as IoError;
use rand::Error as RandError;

verus! {

/// An error of the OS credential store, carried through unchanged.
#[verifier::external_type_specification]
#[verifier::external_body]
pub struct ExKeyringError(KeyringError);

/// An I/O error, carried through unchanged.
#[verifier::external_type_specification]
#[verifier::external_body]
pub struct ExIoError(IoError);

/// A failure of the operating system's random source, carried through
/// unchanged.
#[verifier::external_type_specification]
#[verifier::external_body]
pub struct ExRandError(RandError);

/// Everything that a keystore call can fail with.
#[derive(Debug)]
pub enum Error {
    /// An I/O failure below the plugin.
    Io(IoError),
    /// A failure of the desktop credential store.
    Keyring(KeyringError),
    /// The item key collides with the plugin's own internal storage key.
    ReservedKey(String),
    /// `requireAuth: "os"` was used where no OS prompt exists (desktop).
    UnsupportedPlatform,
    /// A password-locked item was used while no password session is active.
    Locked,
    /// The lock password was used before any `setLockPassword`.
    NoLockPasswordSet,
    /// `setLockPassword` was called while a lock password already exists.
    LockPasswordAlreadySet,
    /// An empty password/PIN/pattern was given.
    WeakPassword,
    /// Wrong password, or stored data that does not authenticate.
    AuthFailed,
    /// Rate-limited after repeated wrong guesses.
    TooManyAttempts,
    /// The operating system's random source failed, so no fresh key, salt or
    /// nonce could be drawn.
    Random(RandError),
}

/// The result type of every fallible keystore call.
pub type Result<T> = std::result::Result<T, Error>;

} // verus!
