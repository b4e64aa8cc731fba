//! A password-plus-hardware-key authentication protocol engine.
//!
//! The server side keeps salted password hashes and enrolled public keys,
//! answers challenge-response password checks, verifies hardware-signed
//! second factors, and runs an out-of-band password-reset exchange.  All
//! protocol decisions are verified; randomness, hashing and signature
//! verification are obtained from outside crates through trusted wrappers
//! whose contracts name their results.

pub mod client_action;
pub mod client_auth;
pub mod client_user;
pub mod crypto;
pub mod data;
pub mod database;
pub mod email;
pub mod errors;
pub mod laws;
pub mod messages;
pub mod password;
pub mod pin;
pub mod server_action;
pub mod server_auth;
pub mod session;
pub mod text;
pub mod token;
pub mod user;
