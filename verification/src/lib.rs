//! Verified startup logic for a desktop application shell.
//!
//! The application attaches six capability plugins (HTTP client, OS info,
//! external opener, key-value store, shell access, and an encrypted secret
//! vault) and seeds the vault's key derivation with a salt file placed in
//! the platform's application-local data directory. The decisions of that
//! startup sequence — which plugin to attach next, how the salt-file path
//! is derived, and when a failure is fatal — live here and are verified;
//! the thin shim that performs the framework calls consults this crate.

pub mod bootstrap;
pub mod plugins;
pub mod salt;
