//! Password-based authenticated encryption of short payloads.
//!
//! A payload is sealed under a key that is derived from a password and a
//! fresh salt; the nonce and the salt travel in front of the sealed text, so
//! that the password alone opens the message again.

pub mod error;
pub mod header;
pub mod cipher;
pub mod message;
pub mod text;
pub mod switches;
