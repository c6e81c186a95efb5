//! Request and response values exchanged with the frontend.

use vstd::prelude::*;

verus! {

/// How access to an item is gated, chosen per-item by the app at
/// `setItem`/`getItem` time. `None` (the default, omitting the option
/// entirely) keeps the plain behavior: no prompt, no password, silent
/// read/write.
#[derive(Debug, Clone, Copy, PartialEq, Eq, Structural)]
pub enum AuthMethod {
    /// Gate the item behind the OS's own device-authentication prompt.
    /// Mobile only: rejected on desktop, where no such OS prompt exists.
    Os,
    /// Gate the item behind an app-managed password/PIN/pattern string, set
    /// via `setLockPassword` and unlocked via `unlockWithPassword`. Works on
    /// every platform, including desktop.
    Password,
}

/// The key of one stored item.
#[derive(Debug)]
pub struct ItemKey {
    pub key: String,
}

/// A key and the value to store under it.
#[derive(Debug)]
pub struct SetItemRequest {
    pub key: String,
    pub value: String,
}

/// The value stored under a key, or `None` when nothing is stored there.
#[derive(Debug)]
pub struct GetItemResponse {
    pub value: Option<String>,
}

/// State of the app-managed password lock.
#[derive(Debug)]
pub struct LockStatusResponse {
    /// Whether `setLockPassword` has been called (a lock password exists).
    pub has_lock_password: bool,
    /// Whether the password session is currently unlocked in memory. Always
    /// `false` right after process start, even if `has_lock_password` is
    /// `true`: `unlockWithPassword` must be called again each launch.
    pub unlocked: bool,
}

} // verus!
