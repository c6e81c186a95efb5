//! Item-key rules and the routing of `requireAuth` requests.

use vstd::prelude::*;

use vstd::utf8::encode_utf8;

use crate::error::Error;
use crate::lock::{encrypts, spec_decrypt_bytes, LockState};
use crate::models::{AuthMethod, GetItemResponse, ItemKey, SetItemRequest};

verus! {

/// Reserved backend key holding the wrapped data key of the password lock.
/// Rejected when an app tries to use it as an item key.
pub const LOCK_META_KEY: &'static str = "__secure_keystore_lock_meta__";

/// Whether two strings hold the same characters, compared through their
/// UTF-8 bytes.
fn str_eq(a: &str, b: &str) -> (r: bool)
    ensures
        r == (a@ == b@),
{
    let x = a.as_bytes();
    let y = b.as_bytes();
    proof {
        vstd::utf8::encode_utf8_decode_utf8(a@);
        vstd::utf8::encode_utf8_decode_utf8(b@);
    }
    if x.len() != y.len() {
        return false;
    }
    let n = x.len();
    let mut i: usize = 0;
    while i < n
        invariant
            n == x@.len(),
            n == y@.len(),
            x@ == vstd::utf8::encode_utf8(a@),
            y@ == vstd::utf8::encode_utf8(b@),
            i <= n,
            forall|j: int| 0 <= j < i ==> x@[j] == y@[j],
        decreases n - i,
    {
        if x[i] != y[i] {
            assert(x@[i as int] != y@[i as int]);
            return false;
        }
        i = i + 1;
    }
    assert(x@ =~= y@);
    true
}

/// Rejects the plugin's own reserved storage key as an item key.
pub fn check_reserved(key: &str) -> (r: Result<(), Error>)
    ensures
        key@ == LOCK_META_KEY@ ==> (r matches Err(Error::ReservedKey(k)) && k@ == key@),
        key@ != LOCK_META_KEY@ ==> r is Ok,
{
    if str_eq(key, LOCK_META_KEY) {
        return Err(Error::ReservedKey(key.to_owned()));
    }
    Ok(())
}

/// Where in the platform backend an item lives. Items set with
/// `requireAuth: "os"` live apart from plain items of the same key; items
/// set with `requireAuth: "password"` live in the plain slot, their value
/// encrypted first.
#[derive(Debug, Clone, Copy, PartialEq, Eq, Structural)]
pub enum Slot {
    /// The plain store: no prompt gates reads.
    Plain,
    /// The store gated by the OS's own authentication prompt.
    Os,
}

/// The routing of `setItem`: which slot receives which value. A plain or
/// OS-gated item is stored as given; a password-locked one is stored in the
/// plain slot, encrypted with the session's data key, so that reading it
/// back under the same session gives the value again.
pub fn route_set_item(
    lock: &LockState,
    key: String,
    value: String,
    require_auth: Option<AuthMethod>,
) -> (r: Result<(Slot, SetItemRequest), Error>)
    requires
        require_auth == Some(AuthMethod::Password) ==> encode_utf8(value@).len() <= usize::MAX / 4,
    ensures
        key@ == LOCK_META_KEY@ ==> (r matches Err(Error::ReservedKey(k)) && k@ == key@),
        key@ != LOCK_META_KEY@ ==> match require_auth {
            None => r matches Ok((slot, req)) && slot is Plain && req.key@ == key@ && req.value@
                == value@,
            Some(AuthMethod::Os) => r matches Ok((slot, req)) && slot is Os && req.key@ == key@
                && req.value@ == value@,
            Some(AuthMethod::Password) => match lock.session() {
                None => r matches Err(Error::Locked),
                Some(k) => {
                    &&& encode_utf8(value@).len() > 0x10_0000_0000 ==> r is Err
                    &&& encode_utf8(value@).len() <= 0x10_0000_0000 ==> (r is Ok
                        || r matches Err(Error::Random(_)))
                    &&& r matches Err(e) ==> ((e is AuthFailed && encode_utf8(value@).len()
                        > 0x10_0000_0000) || e is Random)
                    &&& r matches Ok((slot, req)) ==> {
                        &&& slot is Plain
                        &&& req.key@ == key@
                        &&& encrypts(k, encode_utf8(value@), req.value@)
                        &&& spec_decrypt_bytes(k, req.value@) == Some(value@)
                    }
                },
            },
        },
{
    match check_reserved(key.as_str()) {
        Ok(()) => {},
        Err(e) => return Err(e),
    }
    match require_auth {
        None => Ok((Slot::Plain, SetItemRequest { key, value })),
        Some(AuthMethod::Os) => Ok((Slot::Os, SetItemRequest { key, value })),
        Some(AuthMethod::Password) => {
            proof {
                vstd::utf8::encode_utf8_valid_utf8(value@);
                vstd::utf8::encode_utf8_decode_utf8(value@);
            }
            let encrypted = match lock.encrypt_with_session(value.as_str().as_bytes()) {
                Ok(blob) => blob,
                Err(e) => return Err(e),
            };
            Ok((Slot::Plain, SetItemRequest { key, value: encrypted }))
        },
    }
}

/// The routing of `getItem`: which slot to read. For a password-locked item
/// the session is checked before the lookup, so that a locked keystore
/// cannot be probed for which keys exist (`Locked` against `None`).
pub fn route_get_item(lock: &LockState, key: String, require_auth: Option<AuthMethod>) -> (r:
    Result<(Slot, ItemKey), Error>)
    ensures
        key@ == LOCK_META_KEY@ ==> (r matches Err(Error::ReservedKey(k)) && k@ == key@),
        key@ != LOCK_META_KEY@ ==> match require_auth {
            None => r matches Ok((slot, req)) && slot is Plain && req.key@ == key@,
            Some(AuthMethod::Os) => r matches Ok((slot, req)) && slot is Os && req.key@ == key@,
            Some(AuthMethod::Password) => if lock.session() is None {
                r matches Err(Error::Locked)
            } else {
                r matches Ok((slot, req)) && slot is Plain && req.key@ == key@
            },
        },
{
    match check_reserved(key.as_str()) {
        Ok(()) => {},
        Err(e) => return Err(e),
    }
    match require_auth {
        None => Ok((Slot::Plain, ItemKey { key })),
        Some(AuthMethod::Os) => Ok((Slot::Os, ItemKey { key })),
        Some(AuthMethod::Password) => {
            match lock.require_unlocked() {
                Ok(()) => {},
                Err(e) => return Err(e),
            }
            Ok((Slot::Plain, ItemKey { key }))
        },
    }
}

/// The answer of `getItem` from what the backend read: unchanged for plain
/// and OS-gated items; for a password-locked item, `None` stays `None` and a
/// stored blob is decrypted with the session's data key.
pub fn finish_get_item(
    lock: &LockState,
    require_auth: Option<AuthMethod>,
    raw: GetItemResponse,
) -> (r: Result<GetItemResponse, Error>)
    ensures
        require_auth != Some(AuthMethod::Password) ==> r == Ok::<GetItemResponse, Error>(raw),
        require_auth == Some(AuthMethod::Password) ==> match raw.value {
            None => r matches Ok(resp) && resp.value is None,
            Some(v) => match lock.session() {
                None => r matches Err(Error::Locked),
                Some(k) => match spec_decrypt_bytes(k, v@) {
                    None => r matches Err(Error::AuthFailed),
                    Some(text) => r matches Ok(resp) && resp.value matches Some(s) && s@ == text,
                },
            },
        },
{
    match require_auth {
        Some(AuthMethod::Password) => match raw.value {
            None => Ok(GetItemResponse { value: None }),
            Some(v) => match lock.decrypt_with_session(v.as_str()) {
                Ok(text) => Ok(GetItemResponse { value: Some(text) }),
                Err(e) => Err(e),
            },
        },
        _ => Ok(raw),
    }
}

/// The routing of `deleteItem`: password-locked items live in the plain
/// slot (only their value is pre-encrypted), so the plain delete covers
/// them; like every `requireAuth: "password"` call, it needs an unlocked
/// session.
pub fn route_delete_item(lock: &LockState, key: String, require_auth: Option<AuthMethod>) -> (r:
    Result<(Slot, ItemKey), Error>)
    ensures
        key@ == LOCK_META_KEY@ ==> (r matches Err(Error::ReservedKey(k)) && k@ == key@),
        key@ != LOCK_META_KEY@ ==> match require_auth {
            None => r matches Ok((slot, req)) && slot is Plain && req.key@ == key@,
            Some(AuthMethod::Os) => r matches Ok((slot, req)) && slot is Os && req.key@ == key@,
            Some(AuthMethod::Password) => if lock.session() is None {
                r matches Err(Error::Locked)
            } else {
                r matches Ok((slot, req)) && slot is Plain && req.key@ == key@
            },
        },
{
    match check_reserved(key.as_str()) {
        Ok(()) => {},
        Err(e) => return Err(e),
    }
    match require_auth {
        None => Ok((Slot::Plain, ItemKey { key })),
        Some(AuthMethod::Os) => Ok((Slot::Os, ItemKey { key })),
        Some(AuthMethod::Password) => {
            match lock.require_unlocked() {
                Ok(()) => {},
                Err(e) => return Err(e),
            }
            Ok((Slot::Plain, ItemKey { key }))
        },
    }
}

} // verus!
