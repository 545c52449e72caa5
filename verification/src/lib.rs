//! Client-side credential-vault decryption pipeline.
//!
//! Given a user's master password, email, and the server's key-derivation
//! configuration, this library derives the master key, computes the
//! authentication hash sent in place of the password, unwraps the
//! account key delivered by the server, and decrypts the encrypted
//! fields of vault items. All parsing, key handling, and padding logic
//! is verified; the underlying cryptographic primitives are called
//! through contracts that state what each primitive returns.

pub mod envelope;
pub mod kdf;
pub mod vault;
