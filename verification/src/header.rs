//! The header of a sealed message: the nonce and the salt that are needed,
//! with the password, to open it.

use vstd::prelude::*;
use crate::cipher::{random_nonce, random_salt};

verus! {

/// Number of bytes in a nonce.
pub const NONCEBYTES: usize = 24;

/// Number of bytes in a salt.
pub const SALTBYTES: usize = 32;

/// Number of bytes of a serialized [`ToDecData`].
pub const TO_DEC_DATA_BYTES: usize = NONCEBYTES + SALTBYTES;

/// What is stored in front of a sealed payload: the nonce under which it was
/// sealed and the salt from which the key was derived.
#[derive(Clone, Copy, Debug)]
pub struct ToDecData {
    pub nonce: [u8; NONCEBYTES],
    pub salt: [u8; SALTBYTES],
}

impl View for ToDecData {
    type V = Seq<u8>;

    /// The serialized form: the nonce, then the salt, nothing between them.
    open spec fn view(&self) -> Seq<u8> {
        self.nonce@ + self.salt@
    }
}

/// The nonce field of a serialized header.
pub open spec fn nonce_of(bytes: Seq<u8>) -> Seq<u8> {
    bytes.subrange(0, NONCEBYTES as int)
}

/// The salt field of a serialized header.
pub open spec fn salt_of(bytes: Seq<u8>) -> Seq<u8> {
    bytes.subrange(NONCEBYTES as int, TO_DEC_DATA_BYTES as int)
}

/// Serializing a header and reading the fields back gives the header again,
/// and the serialized form always has `TO_DEC_DATA_BYTES` bytes.
pub proof fn lemma_header_round_trip(header: ToDecData)
    ensures
        header@.len() == TO_DEC_DATA_BYTES,
        nonce_of(header@) == header.nonce@,
        salt_of(header@) == header.salt@,
{
    assert(nonce_of(header@) =~= header.nonce@);
    assert(salt_of(header@) =~= header.salt@);
}

/// Two headers with the same serialized form are the same header.
pub proof fn lemma_header_bytes_injective(a: ToDecData, b: ToDecData)
    requires
        a@ == b@,
    ensures
        a == b,
{
    lemma_header_round_trip(a);
    lemma_header_round_trip(b);
    assert(a.nonce =~= b.nonce);
    assert(a.salt =~= b.salt);
}

impl ToDecData {
    /// Create a header with a random nonce and a random salt, both fresh from
    /// the system's random source: one draw for each, handed to
    /// [`ToDecData::from_draws`].
    pub fn new() -> (h: ToDecData)
        ensures
            h@.len() == TO_DEC_DATA_BYTES,
    {
        let h = ToDecData::from_draws(random_nonce(), random_salt());
        proof {
            lemma_header_round_trip(h);
        }
        h
    }

    /// Create the header that holds the given draws: the first is its nonce,
    /// the second its salt, each whole and unchanged. Draws that do not
    /// repeat therefore give headers that differ in nonce and in salt.
    pub fn from_draws(nonce: [u8; NONCEBYTES], salt: [u8; SALTBYTES]) -> (h: ToDecData)
        ensures
            h.nonce == nonce,
            h.salt == salt,
            h@ == nonce@ + salt@,
    {
        ToDecData { nonce, salt }
    }

    /// Return its nonce.
    pub fn nonce(&self) -> (n: &[u8; NONCEBYTES])
        ensures
            *n == self.nonce,
    {
        &self.nonce
    }

    /// Return its salt.
    pub fn salt(&self) -> (s: &[u8; SALTBYTES])
        ensures
            *s == self.salt,
    {
        &self.salt
    }

    /// Decode the header at the front of `bytes`. Bytes past the header are
    /// ignored; fewer bytes than a header holds give `None`.
    pub fn from_slice(bytes: &[u8]) -> (r: Option<ToDecData>)
        ensures
            r is Some <==> bytes@.len() >= TO_DEC_DATA_BYTES,
            r matches Some(h) ==> {
                &&& h.nonce@ == nonce_of(bytes@)
                &&& h.salt@ == salt_of(bytes@)
                &&& h@ == bytes@.subrange(0, TO_DEC_DATA_BYTES as int)
            },
    {
        if bytes.len() < TO_DEC_DATA_BYTES {
            return None;
        }
        let mut nonce = [0u8; NONCEBYTES];
        let mut salt = [0u8; SALTBYTES];
        let mut i: usize = 0;
        while i < NONCEBYTES
            invariant
                i <= NONCEBYTES,
                bytes@.len() >= TO_DEC_DATA_BYTES,
                forall|j: int| 0 <= j < i ==> nonce@[j] == bytes@[j],
            decreases NONCEBYTES - i,
        {
            nonce[i] = bytes[i];
            i += 1;
        }
        let mut k: usize = 0;
        while k < SALTBYTES
            invariant
                k <= SALTBYTES,
                bytes@.len() >= TO_DEC_DATA_BYTES,
                forall|j: int| 0 <= j < k ==> salt@[j] == bytes@[NONCEBYTES + j],
            decreases SALTBYTES - k,
        {
            salt[k] = bytes[NONCEBYTES + k];
            k += 1;
        }
        assert(nonce@ =~= nonce_of(bytes@));
        assert(salt@ =~= salt_of(bytes@));
        assert(nonce@ + salt@ =~= bytes@.subrange(0, TO_DEC_DATA_BYTES as int));
        Some(ToDecData { nonce, salt })
    }

    /// Encode the header into bytes: the nonce first, the salt second.
    pub fn as_bytes(&self) -> (out: Vec<u8>)
        ensures
            out@ == self@,
            out@.len() == TO_DEC_DATA_BYTES,
    {
        let mut result: Vec<u8> = Vec::with_capacity(TO_DEC_DATA_BYTES);
        result.extend_from_slice(self.nonce.as_slice());
        result.extend_from_slice(self.salt.as_slice());
        assert(result@ =~= self.nonce@ + self.salt@);
        result
    }
}

} // verus!
