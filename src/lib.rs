//! Encrypted storage engine for a local secrets vault: password-based key
//! derivation, an authenticated-encryption envelope, the on-disk container
//! format and the session state that gates access to the decrypted data.
//!
//! The engine does no I/O itself. Callers hand it the bytes of the vault file
//! (or the fact that there is none) and receive the bytes to persist.
pub mod error;
pub mod envelope;
pub mod cipher;
pub mod session;
