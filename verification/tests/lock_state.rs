use tauri_plugin_secure_keystore::backend::{
    lookup_response, refuse_os_prompt, removal_response, service_name, Lookup, Removal,
};
use tauri_plugin_secure_keystore::commands::{
    check_reserved, finish_get_item, route_delete_item, route_get_item, route_set_item,
    Slot, LOCK_META_KEY,
};
use tauri_plugin_secure_keystore::lock::{
    backoff_check, backoff_wait_ms, new_lock, unwrap_key, LockMeta, LockState,
};
use tauri_plugin_secure_keystore::{AuthMethod, Error, GetItemResponse};

fn unlocked(password: &str) -> (LockState, LockMeta) {
    let (key, meta) = new_lock(Ok(None), password).unwrap();
    let mut state = LockState::new();
    state.set_session(key);
    (state, meta)
}

#[test]
fn reserved_key_is_rejected_and_others_pass() {
    assert!(matches!(
        check_reserved(LOCK_META_KEY),
        Err(Error::ReservedKey(k)) if k == "__secure_keystore_lock_meta__"
    ));
    assert!(check_reserved("session_token").is_ok());
    assert!(check_reserved("").is_ok());
    assert!(check_reserved("__secure_keystore_lock_meta_").is_ok());
}

#[test]
fn backoff_delays_after_three_failures_and_caps_at_thirty_seconds() {
    let expected = [0, 0, 0, 0, 500, 1000, 2000, 4000, 8000, 16000, 30000, 30000, 30000];
    for (failures, wait) in expected.iter().enumerate() {
        assert_eq!(backoff_wait_ms(failures as u32), *wait);
    }
    assert_eq!(backoff_wait_ms(u32::MAX), 30000);
}

#[test]
fn backoff_check_refuses_only_inside_the_delay() {
    assert!(backoff_check(3, 0).is_ok());
    assert!(matches!(backoff_check(5, 999), Err(Error::TooManyAttempts)));
    assert!(backoff_check(5, 1000).is_ok());
    assert!(matches!(backoff_check(40, 29_999), Err(Error::TooManyAttempts)));
    assert!(backoff_check(40, 30_000).is_ok());
}

#[test]
fn fresh_state_is_locked() {
    let state = LockState::new();
    assert!(!state.is_unlocked());
    assert!(matches!(state.require_unlocked(), Err(Error::Locked)));
    assert!(matches!(state.encrypt_with_session(b"x"), Err(Error::Locked)));
    assert!(matches!(state.decrypt_with_session("AAAA"), Err(Error::Locked)));
    let status = state.lock_status(Ok(None)).unwrap();
    assert!(!status.has_lock_password && !status.unlocked);
}

#[test]
fn setting_a_password_unlocks_and_lock_relocks() {
    let (mut state, meta) = unlocked("4821");
    assert!(state.require_unlocked().is_ok());
    let status = state.lock_status(Ok(Some(meta))).unwrap();
    assert!(status.has_lock_password && status.unlocked);
    let blob = state.encrypt_with_session(b"db key").unwrap();
    assert_eq!(state.decrypt_with_session(&blob).unwrap(), "db key");
    state.lock();
    assert!(matches!(state.decrypt_with_session(&blob), Err(Error::Locked)));
}

#[test]
fn new_lock_refuses_an_existing_lock_and_passes_read_errors_on() {
    let (_, meta) = unlocked("pw");
    assert!(matches!(new_lock(Ok(Some(meta)), "pw"), Err(Error::LockPasswordAlreadySet)));
    assert!(matches!(new_lock(Err(Error::Locked), "pw"), Err(Error::Locked)));
    assert!(matches!(new_lock(Ok(None), ""), Err(Error::WeakPassword)));
}

#[test]
fn unlock_gives_back_the_session_key_after_a_restart() {
    let (state, meta) = unlocked("pw");
    let blob = state.encrypt_with_session(b"v").unwrap();
    // A new process starts locked and unlocks with the stored blob.
    let mut restarted = LockState::new();
    let key = restarted.unwrap_data_key(Ok(Some(meta)), "pw").unwrap();
    restarted.set_session(key);
    assert_eq!(restarted.decrypt_with_session(&blob).unwrap(), "v");
}

#[test]
fn unlock_without_a_lock_and_with_a_failed_read() {
    let mut state = LockState::new();
    assert!(matches!(state.unwrap_data_key(Ok(None), "pw"), Err(Error::NoLockPasswordSet)));
    assert!(matches!(state.unwrap_data_key(Err(Error::AuthFailed), "pw"), Err(Error::AuthFailed)));
}

fn copy(meta: &LockMeta) -> LockMeta {
    LockMeta {
        salt: meta.salt.clone(),
        nonce: meta.nonce.clone(),
        wrapped_key: meta.wrapped_key.clone(),
        m_cost: meta.m_cost,
        t_cost: meta.t_cost,
        p_cost: meta.p_cost,
    }
}

#[test]
fn wrong_guesses_are_rate_limited() {
    let (_, meta) = unlocked("right");
    let mut state = LockState::new();
    for _ in 0..4 {
        assert!(matches!(state.unwrap_data_key(Ok(Some(copy(&meta))), "wrong"), Err(Error::AuthFailed)));
    }
    // Four failures: the next guess must wait 500 ms, even a right one, and
    // is refused without being checked.
    assert!(matches!(state.check_backoff(), Err(Error::TooManyAttempts)));
    assert!(matches!(state.unwrap_data_key(Ok(Some(copy(&meta))), "right"), Err(Error::TooManyAttempts)));
    assert!(matches!(state.unwrap_data_key(Ok(None), "right"), Err(Error::TooManyAttempts)));
}

#[test]
fn a_right_guess_clears_the_failures() {
    let (_, meta) = unlocked("right");
    let mut state = LockState::new();
    for _ in 0..3 {
        assert!(matches!(state.unwrap_data_key(Ok(Some(copy(&meta))), "wrong"), Err(Error::AuthFailed)));
    }
    assert!(state.check_backoff().is_ok());
    assert!(state.unwrap_data_key(Ok(Some(copy(&meta))), "right").is_ok());
    // Counting starts again: one more failure is free.
    assert!(matches!(state.unwrap_data_key(Ok(Some(copy(&meta))), "wrong"), Err(Error::AuthFailed)));
    assert!(state.check_backoff().is_ok());
}

#[test]
fn changing_the_password_rewraps_the_same_key() {
    let (state, meta) = unlocked("old");
    let blob = state.encrypt_with_session(b"item").unwrap();
    let mut fresh = LockState::new();
    let (key, new_meta) = fresh.rewrap_data_key(0, Ok(Some(meta)), "old", "new").unwrap();
    fresh.set_session(key);
    assert_eq!(fresh.decrypt_with_session(&blob).unwrap(), "item");
    assert!(matches!(unwrap_key(&new_meta, "old"), Err(Error::AuthFailed)));
    assert!(unwrap_key(&new_meta, "new").is_ok());
    let (_, meta2) = unlocked("a");
    assert!(matches!(fresh.rewrap_data_key(0, Ok(Some(meta2)), "a", ""), Err(Error::WeakPassword)));
}

#[test]
fn set_item_routes_by_auth_method() {
    let state = LockState::new();
    let (slot, req) = route_set_item(&state, "k".into(), "v".into(), None).unwrap();
    assert_eq!(slot, Slot::Plain);
    assert_eq!((req.key.as_str(), req.value.as_str()), ("k", "v"));
    let (slot, req) = route_set_item(&state, "k".into(), "v".into(), Some(AuthMethod::Os)).unwrap();
    assert_eq!(slot, Slot::Os);
    assert_eq!(req.value, "v");
    assert!(matches!(
        route_set_item(&state, "k".into(), "v".into(), Some(AuthMethod::Password)),
        Err(Error::Locked)
    ));
    assert!(matches!(
        route_set_item(&state, LOCK_META_KEY.into(), "v".into(), None),
        Err(Error::ReservedKey(_))
    ));
}

#[test]
fn password_item_is_stored_encrypted_and_reads_back() {
    let (state, _) = unlocked("pw");
    let (slot, req) =
        route_set_item(&state, "seed".into(), "phrase".into(), Some(AuthMethod::Password)).unwrap();
    assert_eq!(slot, Slot::Plain);
    assert_ne!(req.value, "phrase");
    let (slot, key) = route_get_item(&state, "seed".into(), Some(AuthMethod::Password)).unwrap();
    assert_eq!(slot, Slot::Plain);
    assert_eq!(key.key, "seed");
    let raw = GetItemResponse { value: Some(req.value) };
    let resp = finish_get_item(&state, Some(AuthMethod::Password), raw).unwrap();
    assert_eq!(resp.value.as_deref(), Some("phrase"));
    let none = finish_get_item(&state, Some(AuthMethod::Password), GetItemResponse { value: None });
    assert!(none.unwrap().value.is_none());
}

#[test]
fn locked_password_get_fails_before_any_lookup() {
    let state = LockState::new();
    assert!(matches!(
        route_get_item(&state, "anything".into(), Some(AuthMethod::Password)),
        Err(Error::Locked)
    ));
    let (slot, _) = route_get_item(&state, "k".into(), Some(AuthMethod::Os)).unwrap();
    assert_eq!(slot, Slot::Os);
    let plain = finish_get_item(&state, None, GetItemResponse { value: Some("x".into()) }).unwrap();
    assert_eq!(plain.value.as_deref(), Some("x"));
    let garbled = finish_get_item(&unlocked("pw").0, Some(AuthMethod::Password), GetItemResponse {
        value: Some("bm90IGEgYmxvYg==".into()),
    });
    assert!(matches!(garbled, Err(Error::AuthFailed)));
}

#[test]
fn delete_routes_password_items_to_the_plain_slot() {
    let state = LockState::new();
    assert_eq!(route_delete_item(&state, "k".into(), None).unwrap().0, Slot::Plain);
    assert_eq!(route_delete_item(&state, "k".into(), Some(AuthMethod::Os)).unwrap().0, Slot::Os);
    assert!(matches!(
        route_delete_item(&state, "k".into(), Some(AuthMethod::Password)),
        Err(Error::Locked)
    ));
    let (unlocked_state, _) = unlocked("pw");
    let (slot, item) =
        route_delete_item(&unlocked_state, "k".into(), Some(AuthMethod::Password)).unwrap();
    assert_eq!((slot, item.key.as_str()), (Slot::Plain, "k"));
    assert!(matches!(
        route_delete_item(&state, LOCK_META_KEY.into(), None),
        Err(Error::ReservedKey(_))
    ));
}

#[test]
fn desktop_service_name_and_missing_credentials() {
    assert_eq!(service_name("com.example.app"), "com.example.app.secure_keystore");
    let found = lookup_response(Lookup::Found("v".into())).unwrap();
    assert_eq!(found.value.as_deref(), Some("v"));
    assert!(lookup_response(Lookup::Missing).unwrap().value.is_none());
    let failed = lookup_response(Lookup::Failed(keyring::Error::Invalid("user".into(), "empty".into())));
    assert!(matches!(failed, Err(Error::Keyring(_))));
    assert!(removal_response(Removal::Deleted).is_ok());
    assert!(removal_response(Removal::Missing).is_ok());
    assert!(matches!(
        removal_response(Removal::Failed(keyring::Error::NoEntry)),
        Err(Error::Keyring(_))
    ));
    assert!(matches!(refuse_os_prompt::<()>(), Err(Error::UnsupportedPlatform)));
}

#[test]
fn every_password_is_refused_while_the_delay_runs() {
    let (_, meta) = unlocked("right");
    let mut state = LockState::new();
    for _ in 0..5 {
        // Each guess comes long after the one before.
        let r = state.unwrap_data_key_at(60_000, Ok(Some(copy(&meta))), "wrong");
        assert!(matches!(r, Err(Error::AuthFailed)));
    }
    // Five failures: a 1000 ms delay.
    assert!(matches!(state.check_backoff_at(999), Err(Error::TooManyAttempts)));
    assert!(state.check_backoff_at(1000).is_ok());
    let refused = state.unwrap_data_key_at(999, Ok(Some(copy(&meta))), "right");
    assert!(matches!(refused, Err(Error::TooManyAttempts)));
    let refused = state.rewrap_data_key(10, Ok(Some(copy(&meta))), "right", "new");
    assert!(matches!(refused, Err(Error::TooManyAttempts)));
    // The refusals recorded nothing: the delay is still the five-failure one.
    assert!(state.check_backoff_at(1000).is_ok());
    assert!(state.unwrap_data_key_at(1000, Ok(Some(copy(&meta))), "right").is_ok());
    assert!(state.check_backoff_at(0).is_ok());
}
