//! A minimal authentication core: credential signup and verification,
//! session issuance with expiry, and session refresh.
//!
//! The crate is organised leaf-first:
//! - [`errors`]: the error taxonomy shared by every operation.
//! - [`hasher`]: salted one-way password hashing and verification.
//! - [`store`]: the in-memory credential store keyed by username.
//! - [`session`]: session issuance, validation and refresh with expiry.
//! - [`service`]: the orchestrating service (`signup`, `login`,
//!   `refresh_session`).
//! - [`laws`]: proved statements relating the operations to one another.

pub mod errors;
pub mod hasher;
pub mod laws;
pub mod service;
pub mod session;
pub mod store;
