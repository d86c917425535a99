//! Credential and session lifecycle engine: value types, in-memory stores,
//! a signed session-token codec and the signup / login / two-factor /
//! logout / token-check protocols built on them.

pub mod keyed;
pub mod error;
pub mod user;
pub mod text;
pub mod twofa;
pub mod stores;
pub mod token;
pub mod password;
pub mod routes;
pub mod laws;
