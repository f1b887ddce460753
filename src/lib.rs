//! First-run detection and master-password credentials for a desktop vault.
//!
//! `first_run` holds the one-way "installed" latch: the decision steps that a
//! host drives against its configuration store, and an in-memory store that
//! runs them. `credential` turns a plaintext secret into a self-describing
//! Argon2id credential and checks a plaintext against one; `kdf` holds the
//! calls into the `argon2` and `rand` crates that it rests on.

pub mod credential;
pub mod first_run;
pub mod kdf;
