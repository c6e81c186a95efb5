//! The decisions of the desktop backend, which stores each item as its own
//! credential in the OS credential store (through the `keyring` crate; the
//! calls themselves are made by the caller, which hands their outcome here).

use vstd::prelude::*;
use keyring::Error as KeyringError;

use crate::error::Error;
use crate::models::GetItemResponse;

verus! {

/// The credential `service` under which an app's items are stored:
/// `<identifier>.secure_keystore`, so that apps on one machine never collide.
pub fn service_name(identifier: &str) -> (r: String)
    ensures
        r@ == identifier@ + ".secure_keystore"@,
{
    let mut service = identifier.to_owned();
    service.append(".secure_keystore");
    service
}

/// What reading one credential gave.
pub enum Lookup {
    /// The credential exists and holds this value.
    Found(String),
    /// No credential is stored under the key (`keyring::Error::NoEntry`).
    Missing,
    /// The store failed.
    Failed(KeyringError),
}

/// The answer of a read: a missing credential resolves to `None`, not an
/// error, as on Android and iOS.
pub fn lookup_response(lookup: Lookup) -> (r: Result<GetItemResponse, Error>)
    ensures
        lookup matches Lookup::Found(v) ==> (r matches Ok(resp) && resp.value == Some(v)),
        lookup is Missing ==> (r matches Ok(resp) && resp.value is None),
        lookup matches Lookup::Failed(e) ==> r == Err::<GetItemResponse, Error>(Error::Keyring(e)),
{
    match lookup {
        Lookup::Found(value) => Ok(GetItemResponse { value: Some(value) }),
        Lookup::Missing => Ok(GetItemResponse { value: None }),
        Lookup::Failed(e) => Err(Error::Keyring(e)),
    }
}

/// What deleting one credential gave.
pub enum Removal {
    /// The credential was deleted.
    Deleted,
    /// No credential was stored under the key (`keyring::Error::NoEntry`).
    Missing,
    /// The store failed.
    Failed(KeyringError),
}

/// The answer of a delete: deleting a key that holds nothing succeeds.
pub fn removal_response(removal: Removal) -> (r: Result<(), Error>)
    ensures
        removal matches Removal::Failed(e) ==> r == Err::<(), Error>(Error::Keyring(e)),
        !(removal is Failed) ==> r is Ok,
{
    match removal {
        Removal::Deleted | Removal::Missing => Ok(()),
        Removal::Failed(e) => Err(Error::Keyring(e)),
    }
}

/// The answer of every `requireAuth: "os"` call on desktop: none of the
/// desktop credential stores has a per-item OS authentication prompt.
pub fn refuse_os_prompt<T>() -> (r: Result<T, Error>)
    ensures
        r matches Err(Error::UnsupportedPlatform),
{
    Err(Error::UnsupportedPlatform)
}

} // verus!
