//! The text form of a sealed message, for transports that take printable
//! characters only.
//!
//! The encoding is MIME base64, the work of `rustc_serialize`. A text must
//! be turned back into bytes before the message in it can be opened.

use vstd::prelude::*;
use vstd::string::StringSliceAdditionalSpecFns;
use vstd::utf8::encode_utf8;
use rustc_serialize::base64::{FromBase64, ToBase64};
use crate::cipher::{derived_key, sealed};
use crate::error::{outcome, Error};
use crate::header::{nonce_of, salt_of};
use crate::message::{decrypt, decrypted, encrypt, sealed_text_of, ENCRYPTED_MIN_SIZE};

verus! {

/// The error of `rustc_serialize`'s base64 decoder. Nothing in it is read.
#[verifier::external_type_specification]
#[verifier::external_body]
pub struct ExFromBase64Error(rustc_serialize::base64::FromBase64Error);

/// The MIME base64 text of a sequence of bytes.
pub uninterp spec fn base64_mime(bytes: Seq<u8>) -> Seq<char>;

/// The bytes that a base64 text stands for, or nothing where the text is
/// not base64.
pub uninterp spec fn base64_decoded(text: Seq<u8>) -> Option<Seq<u8>>;

/// What decoding a text gives, as callers see it.
pub open spec fn decode_outcome(bytes: Option<Seq<u8>>) -> Result<Seq<u8>, Error> {
    match bytes {
        Some(b) => Ok(b),
        None => Err(Error::EncodingInvalid),
    }
}

/// What turning `text` back into a message and opening it with `password`
/// gives, once the key is derived.
pub open spec fn decrypted_text(text: Seq<u8>, password: Seq<u8>) -> Result<Seq<u8>, Error> {
    match base64_decoded(text) {
        Some(message) => decrypted(message, password),
        None => Err(Error::EncodingInvalid),
    }
}

/// Calls `to_base64` of `rustc_serialize::base64::ToBase64` on the bytes,
/// with the configuration `MIME`. Claimed: the result is the text named by
/// `base64_mime`, and decoding the bytes of that text gives the input back.
#[verifier::external_body]
pub(crate) fn to_base64_mime(bytes: &[u8]) -> (text: String)
    ensures
        text@ == base64_mime(bytes@),
        base64_decoded(encode_utf8(text@)) == Some(bytes@),
{
    bytes.to_base64(rustc_serialize::base64::MIME)
}

/// Calls `from_base64` of `rustc_serialize::base64::FromBase64` on the
/// bytes. Claimed: the call succeeds exactly where `base64_decoded` names a
/// result, and then returns it.
#[verifier::external_body]
pub(crate) fn from_base64(text: &[u8]) -> (r: Result<
    Vec<u8>,
    rustc_serialize::base64::FromBase64Error,
>)
    ensures
        match r {
            Ok(bytes) => base64_decoded(text@) == Some(bytes@),
            Err(_) => base64_decoded(text@) is None,
        },
{
    text.from_base64()
}

/// Encode bytes as text. Decoding the text gives the bytes back.
pub fn encode_text(bytes: &[u8]) -> (text: String)
    ensures
        text@ == base64_mime(bytes@),
        decode_outcome(base64_decoded(encode_utf8(text@))) == Ok::<Seq<u8>, Error>(bytes@),
{
    to_base64_mime(bytes)
}

/// Turn a text back into the bytes it stands for. A text that is not
/// base64 gives `EncodingInvalid`.
pub fn decode_text(text: &[u8]) -> (r: Result<Vec<u8>, Error>)
    ensures
        outcome(r) == decode_outcome(base64_decoded(text@)),
{
    match from_base64(text) {
        Ok(bytes) => Ok(bytes),
        Err(_) => Err(Error::EncodingInvalid),
    }
}

/// Encrypt `bytes` with `passwd` and give the message as text.
///
/// The text is the encoding of a message `ENCRYPTED_MIN_SIZE` longer than
/// the payload: a header followed by the payload sealed under it. It
/// decrypts to `bytes` again with the same password. The only failure is
/// that the key could not be derived.
pub fn encrypt_text(bytes: &[u8], passwd: &str) -> (r: Result<String, Error>)
    requires
        bytes@.len() + ENCRYPTED_MIN_SIZE <= usize::MAX,
    ensures
        match r {
            Ok(text) => {
                &&& base64_decoded(encode_utf8(text@)) matches Some(message)
                &&& text@ == base64_mime(message)
                &&& message.len() == bytes@.len() + ENCRYPTED_MIN_SIZE
                &&& sealed_text_of(message) == sealed(
                    bytes@,
                    nonce_of(message),
                    derived_key(passwd.spec_bytes(), salt_of(message)),
                )
                &&& decrypted_text(encode_utf8(text@), passwd.spec_bytes()) == Ok::<
                    Seq<u8>,
                    Error,
                >(bytes@)
            },
            Err(e) => e == Error::DerivationFailed,
        },
{
    match encrypt(bytes, passwd) {
        Ok(message) => Ok(encode_text(message.as_slice())),
        Err(e) => Err(e),
    }
}

/// Decrypt a message given as text with `passwd`.
///
/// A text that is not base64 gives `EncodingInvalid`, and nothing further is
/// tried. Otherwise the result is that of decrypting the decoded message.
pub fn decrypt_text(text: &[u8], passwd: &str) -> (r: Result<Vec<u8>, Error>)
    ensures
        match base64_decoded(text@) {
            None => r == Err::<Vec<u8>, Error>(Error::EncodingInvalid),
            Some(message) => {
                &&& message.len() < ENCRYPTED_MIN_SIZE ==> r == Err::<Vec<u8>, Error>(
                    Error::Malformed,
                )
                &&& message.len() >= ENCRYPTED_MIN_SIZE ==> r == Err::<Vec<u8>, Error>(
                    Error::DerivationFailed,
                ) || outcome(r) == decrypted_text(text@, passwd.spec_bytes())
            },
        },
{
    match decode_text(text) {
        Ok(message) => decrypt(message.as_slice(), passwd),
        Err(e) => Err(e),
    }
}

} // verus!
