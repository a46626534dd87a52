//! The credential and token-lifecycle core of an authentication
//! subsystem: password hashing and verification, single-use bearer
//! tokens for email verification, password reset and passwordless
//! login, signed session tokens bound to a stable public identifier,
//! registration and lookup over a uniqueness-keyed record store, and a
//! run-at-most-once guard for the administrative bulk reset.
//!
//! Every operation carries a contract: what it returns, exactly when
//! it succeeds, and how it changes the record it touches. Transport,
//! persistence backends and mail delivery stay outside; the flows here
//! take timestamps and secrets as plain values and hand back typed
//! outcomes.

pub mod app;
pub mod errors;
pub mod flows;
pub mod hashing;
pub mod session;
pub mod store;
pub mod tokens;
pub mod users;
pub mod views;
