//! Key generation for the Themis cryptographic library.
//!
//! The native key generator is reached through a two-phase length
//! negotiation: a probe call learns how many bytes each key needs, and a
//! fill call produces the actual key material into buffers of exactly that
//! size. This crate holds the negotiation logic, the translation of native
//! status codes into structured errors, and the typed containers that keep
//! a private and a public key of the same algorithm family together.

pub mod error;
pub mod keygen;
pub mod keys;
