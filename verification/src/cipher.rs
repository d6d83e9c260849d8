//! Key derivation and the authenticated cipher.
//!
//! Both are the work of libsodium, reached through `sodiumoxide`. What it
//! computes is not restated here: each result has a name, and the contracts
//! of this module say which name a call returns.

use vstd::prelude::*;
use crate::error::Error;
use crate::header::{NONCEBYTES, SALTBYTES};

verus! {

/// Number of bytes in a key.
pub const KEYBYTES: usize = 32;

/// Number of bytes by which a sealed text is longer than its payload.
pub const MACBYTES: usize = 16;

/// The key that the password hash derives from a password and a salt at the
/// interactive cost limits.
pub uninterp spec fn derived_key(password: Seq<u8>, salt: Seq<u8>) -> Seq<u8>;

/// The sealed text of a payload under a nonce and a key.
pub uninterp spec fn sealed(payload: Seq<u8>, nonce: Seq<u8>, key: Seq<u8>) -> Seq<u8>;

/// What opening a sealed text under a nonce and a key gives: the payload,
/// or nothing where the tag does not verify.
pub uninterp spec fn opened(sealed_text: Seq<u8>, nonce: Seq<u8>, key: Seq<u8>) -> Option<Seq<u8>>;

/// The outcome of opening, as callers see it.
pub open spec fn open_outcome(payload: Option<Seq<u8>>) -> Result<Seq<u8>, Error> {
    match payload {
        Some(p) => Ok(p),
        None => Err(Error::AuthenticationFailed),
    }
}

/// Calls `sodiumoxide::crypto::secretbox::gen_nonce`, which fills a nonce
/// from the system's random source. Nothing is claimed of the bytes.
#[verifier::external_body]
pub(crate) fn random_nonce() -> [u8; NONCEBYTES] {
    sodiumoxide::crypto::secretbox::gen_nonce().0
}

/// Calls `sodiumoxide::crypto::pwhash::gen_salt`, which fills a salt from
/// the system's random source. Nothing is claimed of the bytes.
#[verifier::external_body]
pub(crate) fn random_salt() -> [u8; SALTBYTES] {
    sodiumoxide::crypto::pwhash::gen_salt().0
}

/// Calls `sodiumoxide::crypto::pwhash::derive_key_interactive` for a key of
/// `KEYBYTES` bytes. Claimed: when the call succeeds, the key is the one
/// named by `derived_key`, that is, it depends on the password and the salt
/// alone. Whether the call succeeds is left open; it fails when the system
/// refuses the memory that the hash asks for.
#[verifier::external_body]
pub(crate) fn hash_password(password: &[u8], salt: &[u8; SALTBYTES]) -> (r: Result<
    [u8; KEYBYTES],
    (),
>)
    ensures
        r matches Ok(key) ==> key@ == derived_key(password@, salt@),
{
    let mut key = [0u8; KEYBYTES];
    let salt = sodiumoxide::crypto::pwhash::Salt(*salt);
    match sodiumoxide::crypto::pwhash::derive_key_interactive(&mut key, password, &salt) {
        Ok(_) => Ok(key),
        Err(()) => Err(()),
    }
}

/// Calls `sodiumoxide::crypto::secretbox::seal`. Claimed: the result is the
/// text named by `sealed`; it is `MACBYTES` longer than the payload; and
/// opening it under the same nonce and key gives the payload back.
#[verifier::external_body]
pub(crate) fn secretbox_seal(payload: &[u8], nonce: &[u8; NONCEBYTES], key: &[u8; KEYBYTES]) -> (c:
    Vec<u8>)
    requires
        payload@.len() + MACBYTES <= usize::MAX,
    ensures
        c@ == sealed(payload@, nonce@, key@),
        c@.len() == payload@.len() + MACBYTES,
        opened(c@, nonce@, key@) == Some(payload@),
{
    let nonce = sodiumoxide::crypto::secretbox::Nonce(*nonce);
    let key = sodiumoxide::crypto::secretbox::Key(*key);
    sodiumoxide::crypto::secretbox::seal(payload, &nonce, &key)
}

/// Calls `sodiumoxide::crypto::secretbox::open`. Claimed: the call succeeds
/// exactly where `opened` names a payload, and then returns that payload,
/// which is `MACBYTES` shorter than the sealed text; a text shorter than
/// `MACBYTES` is always rejected.
#[verifier::external_body]
pub(crate) fn secretbox_open(
    sealed_text: &[u8],
    nonce: &[u8; NONCEBYTES],
    key: &[u8; KEYBYTES],
) -> (r: Result<Vec<u8>, ()>)
    ensures
        match r {
            Ok(p) => opened(sealed_text@, nonce@, key@) == Some(p@),
            Err(_) => opened(sealed_text@, nonce@, key@) is None,
        },
        r matches Ok(p) ==> p@.len() + MACBYTES == sealed_text@.len(),
        sealed_text@.len() < MACBYTES ==> r is Err,
{
    let nonce = sodiumoxide::crypto::secretbox::Nonce(*nonce);
    let key = sodiumoxide::crypto::secretbox::Key(*key);
    sodiumoxide::crypto::secretbox::open(sealed_text, &nonce, &key)
}

/// Derive the key for a password and a salt with the memory-hard password
/// hash, at its interactive cost limits. The same password and salt always
/// give the same key. The only failure is that the hash could not run.
pub fn derive_key(passwd: &[u8], salt: &[u8; SALTBYTES]) -> (r: Result<[u8; KEYBYTES], Error>)
    ensures
        match r {
            Ok(key) => key@ == derived_key(passwd@, salt@),
            Err(e) => e == Error::DerivationFailed,
        },
{
    match hash_password(passwd, salt) {
        Ok(key) => Ok(key),
        Err(_) => Err(Error::DerivationFailed),
    }
}

/// Encrypt and authenticate `payload` under `nonce` and `key`. The sealed
/// text is `MACBYTES` longer than the payload and opens to it again.
pub fn seal(payload: &[u8], nonce: &[u8; NONCEBYTES], key: &[u8; KEYBYTES]) -> (c: Vec<u8>)
    requires
        payload@.len() + MACBYTES <= usize::MAX,
    ensures
        c@ == sealed(payload@, nonce@, key@),
        c@.len() == payload@.len() + MACBYTES,
        open_outcome(opened(c@, nonce@, key@)) == Ok::<Seq<u8>, Error>(payload@),
{
    secretbox_seal(payload, nonce, key)
}

/// Verify and decrypt `sealed_text` under `nonce` and `key`. No payload is
/// returned unless the tag verifies.
pub fn open(sealed_text: &[u8], nonce: &[u8; NONCEBYTES], key: &[u8; KEYBYTES]) -> (r: Result<
    Vec<u8>,
    Error,
>)
    ensures
        crate::error::outcome(r) == open_outcome(opened(sealed_text@, nonce@, key@)),
        r matches Ok(p) ==> p@.len() + MACBYTES == sealed_text@.len(),
        sealed_text@.len() < MACBYTES ==> r == Err::<Vec<u8>, Error>(Error::AuthenticationFailed),
{
    match secretbox_open(sealed_text, nonce, key) {
        Ok(p) => Ok(p),
        Err(_) => Err(Error::AuthenticationFailed),
    }
}

} // verus!
