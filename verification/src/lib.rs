//! Account authentication core: purpose-scoped session keys, payload
//! decryption, response envelopes, device-identity headers and the decisions
//! of an authenticated session.
pub mod text;
pub mod error;
pub mod records;
pub mod envelope;
pub mod keys;
pub mod headers;
pub mod anisette;
pub mod handshake;
pub mod replies;
pub mod session;
pub mod provision;
pub mod commands;
