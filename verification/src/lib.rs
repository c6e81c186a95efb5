//! Encrypted key-value storage logic for the secure keystore plugin: the
//! item-key rules, the routing of `requireAuth` requests, and the
//! app-managed password lock (Argon2id key wrapping, AES-256-GCM item
//! encryption and the guess-rate limiter), stated and proved with Verus.
//!
//! Everything that touches the platform (the OS credential store, the
//! Tauri runtime, process-wide mutexes, JSON) lives in the `app/` crate,
//! which drives the functions here.

pub mod models;
pub mod error;
pub mod commands;
pub mod primitives;
pub mod lock;
pub mod backend;

pub use models::{AuthMethod, GetItemResponse, ItemKey, LockStatusResponse, SetItemRequest};
pub use error::{Error, Result};
