//! Sealed messages: a header followed by the sealed payload.
//!
//! ```text
//! 0 .. NONCEBYTES                    nonce
//! NONCEBYTES .. TO_DEC_DATA_BYTES    salt
//! TO_DEC_DATA_BYTES ..               sealed payload, tag included
//! ```

use vstd::prelude::*;
use vstd::string::StringSliceAdditionalSpecFns;
use crate::cipher::{derive_key, derived_key, open, open_outcome, opened, seal, sealed, MACBYTES};
use crate::error::{outcome, Error};
use crate::header::{
    lemma_header_bytes_injective, nonce_of, salt_of, ToDecData, TO_DEC_DATA_BYTES,
};

verus! {

/// Least number of bytes of a sealed message: a header and the seal of an
/// empty payload.
pub const ENCRYPTED_MIN_SIZE: usize = TO_DEC_DATA_BYTES + MACBYTES;

/// The part of a message behind its header.
pub open spec fn sealed_text_of(message: Seq<u8>) -> Seq<u8> {
    message.skip(TO_DEC_DATA_BYTES as int)
}

/// The message made of a header and the sealed text behind it.
pub open spec fn framed(header: ToDecData, sealed_text: Seq<u8>) -> Seq<u8> {
    header@ + sealed_text
}

/// The message that sealing `payload` with `password` under `header` gives.
pub open spec fn encrypted(payload: Seq<u8>, password: Seq<u8>, header: ToDecData) -> Seq<u8> {
    framed(header, sealed(payload, header.nonce@, derived_key(password, header.salt@)))
}

/// What opening `message` with `password` gives, once the key is derived.
pub open spec fn decrypted(message: Seq<u8>, password: Seq<u8>) -> Result<Seq<u8>, Error> {
    if message.len() < ENCRYPTED_MIN_SIZE {
        Err(Error::Malformed)
    } else {
        open_outcome(
            opened(
                sealed_text_of(message),
                nonce_of(message),
                derived_key(password, salt_of(message)),
            ),
        )
    }
}

/// Taking a message apart gives back the header and the sealed text that it
/// was made of.
pub proof fn lemma_frame_round_trip(header: ToDecData, sealed_text: Seq<u8>)
    ensures
        framed(header, sealed_text).len() == TO_DEC_DATA_BYTES + sealed_text.len(),
        nonce_of(framed(header, sealed_text)) == header.nonce@,
        salt_of(framed(header, sealed_text)) == header.salt@,
        sealed_text_of(framed(header, sealed_text)) == sealed_text,
{
    let message = framed(header, sealed_text);
    assert(nonce_of(message) =~= header.nonce@);
    assert(salt_of(message) =~= header.salt@);
    assert(sealed_text_of(message) =~= sealed_text);
}

/// A header in front of a text that opens to `payload`, under the header's
/// nonce and the key that `password` derives from the header's salt, is a
/// message that decrypts to `payload` with that password.
pub proof fn lemma_framed_seal_decrypts(
    header: ToDecData,
    sealed_text: Seq<u8>,
    payload: Seq<u8>,
    password: Seq<u8>,
)
    requires
        sealed_text.len() >= MACBYTES,
        opened(sealed_text, header.nonce@, derived_key(password, header.salt@)) == Some(payload),
    ensures
        decrypted(framed(header, sealed_text), password) == Ok::<Seq<u8>, Error>(payload),
{
    lemma_frame_round_trip(header, sealed_text);
}

/// Messages made under different headers differ, whatever the payloads and
/// passwords: a fresh header makes a fresh message.
pub proof fn lemma_headers_tell_messages_apart(
    payload1: Seq<u8>,
    password1: Seq<u8>,
    header1: ToDecData,
    payload2: Seq<u8>,
    password2: Seq<u8>,
    header2: ToDecData,
)
    requires
        header1 != header2,
    ensures
        encrypted(payload1, password1, header1) != encrypted(payload2, password2, header2),
{
    if header1@ == header2@ {
        lemma_header_bytes_injective(header1, header2);
    }
    lemma_frame_round_trip(
        header1,
        sealed(payload1, header1.nonce@, derived_key(password1, header1.salt@)),
    );
    lemma_frame_round_trip(
        header2,
        sealed(payload2, header2.nonce@, derived_key(password2, header2.salt@)),
    );
}

/// Put a header in front of a sealed text.
pub fn frame(header: &ToDecData, sealed_text: &[u8]) -> (message: Vec<u8>)
    requires
        sealed_text@.len() + TO_DEC_DATA_BYTES <= usize::MAX,
    ensures
        message@ == framed(*header, sealed_text@),
        message@.len() == TO_DEC_DATA_BYTES + sealed_text@.len(),
{
    let mut result = header.as_bytes();
    result.extend_from_slice(sealed_text);
    assert(result@ =~= header@ + sealed_text@);
    result
}

/// Take a message apart into its header and the sealed text behind it. A
/// message too short to hold a header and a tag is malformed.
pub fn unframe(bytes: &[u8]) -> (r: Result<(ToDecData, &[u8]), Error>)
    ensures
        r is Ok <==> bytes@.len() >= ENCRYPTED_MIN_SIZE,
        r matches Err(e) ==> e == Error::Malformed,
        r matches Ok((header, sealed_text)) ==> {
            &&& header.nonce@ == nonce_of(bytes@)
            &&& header.salt@ == salt_of(bytes@)
            &&& sealed_text@ == sealed_text_of(bytes@)
            &&& bytes@ == framed(header, sealed_text@)
        },
{
    if bytes.len() < ENCRYPTED_MIN_SIZE {
        return Err(Error::Malformed);
    }
    let to_dec_data = match ToDecData::from_slice(bytes) {
        Some(tdd) => tdd,
        None => {
            return Err(Error::Malformed);
        },
    };
    let sealed_text = &bytes[TO_DEC_DATA_BYTES..bytes.len()];
    assert(sealed_text@ =~= sealed_text_of(bytes@));
    assert(bytes@ =~= to_dec_data.nonce@ + to_dec_data.salt@ + sealed_text@);
    Ok((to_dec_data, sealed_text))
}

/// Encrypt `bytes` with `passwd` under a given header. The header must be
/// used for one message only.
///
/// The message is the header followed by the sealed payload, and decrypts to
/// `bytes` again with the same password. The only failure is that the key
/// could not be derived.
pub fn encrypt_with(bytes: &[u8], passwd: &str, header: &ToDecData) -> (r: Result<Vec<u8>, Error>)
    requires
        bytes@.len() + ENCRYPTED_MIN_SIZE <= usize::MAX,
    ensures
        match r {
            Ok(message) => {
                &&& message@ == encrypted(bytes@, passwd.spec_bytes(), *header)
                &&& message@.len() == bytes@.len() + ENCRYPTED_MIN_SIZE
                &&& decrypted(message@, passwd.spec_bytes()) == Ok::<Seq<u8>, Error>(bytes@)
            },
            Err(e) => e == Error::DerivationFailed,
        },
{
    let key = match derive_key(passwd.as_bytes(), header.salt()) {
        Ok(key) => key,
        Err(e) => {
            return Err(e);
        },
    };
    let sealed_text = seal(bytes, header.nonce(), &key);
    proof {
        lemma_framed_seal_decrypts(*header, sealed_text@, bytes@, passwd.spec_bytes());
    }
    Ok(frame(header, sealed_text.as_slice()))
}

/// Encrypt `bytes` with `passwd` under a header of fresh random bytes.
///
/// The message is the header followed by the payload sealed under it, is
/// `ENCRYPTED_MIN_SIZE` longer than the payload, and decrypts to `bytes`
/// again with the same password. The only failure is that the key could not
/// be derived.
pub fn encrypt(bytes: &[u8], passwd: &str) -> (r: Result<Vec<u8>, Error>)
    requires
        bytes@.len() + ENCRYPTED_MIN_SIZE <= usize::MAX,
    ensures
        match r {
            Ok(message) => {
                &&& message@.len() == bytes@.len() + ENCRYPTED_MIN_SIZE
                &&& sealed_text_of(message@) == sealed(
                    bytes@,
                    nonce_of(message@),
                    derived_key(passwd.spec_bytes(), salt_of(message@)),
                )
                &&& decrypted(message@, passwd.spec_bytes()) == Ok::<Seq<u8>, Error>(bytes@)
            },
            Err(e) => e == Error::DerivationFailed,
        },
{
    let to_dec_data = ToDecData::new();
    let r = encrypt_with(bytes, passwd, &to_dec_data);
    proof {
        lemma_frame_round_trip(
            to_dec_data,
            sealed(bytes@, to_dec_data.nonce@, derived_key(passwd.spec_bytes(), to_dec_data.salt@)),
        );
    }
    r
}

/// Decrypt a message with `passwd`.
///
/// A message shorter than `ENCRYPTED_MIN_SIZE` is malformed, and no key is
/// derived for it. Otherwise, unless the key could not be derived, the
/// result is the payload if the tag verifies and `AuthenticationFailed` if
/// it does not.
pub fn decrypt(bytes: &[u8], passwd: &str) -> (r: Result<Vec<u8>, Error>)
    ensures
        bytes@.len() < ENCRYPTED_MIN_SIZE ==> r == Err::<Vec<u8>, Error>(Error::Malformed),
        bytes@.len() >= ENCRYPTED_MIN_SIZE ==> r == Err::<Vec<u8>, Error>(Error::DerivationFailed)
            || outcome(r) == decrypted(bytes@, passwd.spec_bytes()),
        r matches Ok(payload) ==> payload@.len() + ENCRYPTED_MIN_SIZE == bytes@.len(),
{
    let (to_dec_data, sealed_text) = match unframe(bytes) {
        Ok(parts) => parts,
        Err(e) => {
            return Err(e);
        },
    };
    let key = match derive_key(passwd.as_bytes(), to_dec_data.salt()) {
        Ok(key) => key,
        Err(e) => {
            return Err(e);
        },
    };
    open(sealed_text, to_dec_data.nonce(), &key)
}

} // verus!
