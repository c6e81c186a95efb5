# tauri-plugin-secure-keystore

Encrypted key-value storage for Tauri 2 apps, with an optional per-item
lock: `requireAuth: "os"` (the platform's own authentication prompt, mobile
only) or `requireAuth: "password"` (an app-managed password/PIN/pattern,
every platform).

The crate is written in Verus:

- `src/` is the verified library. `models` holds the request/response
  values; `commands` the item-key rules and the routing of `requireAuth`
  requests; `lock` the password lock (Argon2id key wrapping, AES-256-GCM item
  encryption, the in-memory session and the rate limiter of wrong guesses);
  `backend` the decisions of the desktop credential-store backend;
  `primitives` the trusted wrappers around `argon2`, `aes-gcm`, `base64`,
  `rand`, `zeroize` and the std UTF-8 and clock functions, each with the
  contract that the crate's source or documentation shows.
- `app/` is the Tauri plugin around it: the commands, the platform backends
  (the `keyring` credential store on desktop, the native plugins on mobile),
  the process-wide mutexes, and the JSON form of the stored lock blob.
- `tests/` runs the library on concrete values.
