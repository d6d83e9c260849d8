//! The ways in which an operation on a sealed message fails.

use vstd::prelude::*;

verus! {

/// Why an operation gave no result.
#[derive(Clone, Copy, Debug, PartialEq, Eq, Structural)]
pub enum Error {
    /// The input is shorter than any sealed message, so it holds no
    /// complete header and tag.
    Malformed,
    /// The text form of a message could not be turned back into bytes.
    EncodingInvalid,
    /// The password hash did not complete, usually for want of memory.
    DerivationFailed,
    /// The tag did not verify: the password is wrong or the message was
    /// altered. The two are not told apart.
    AuthenticationFailed,
}

/// The outcome of an operation with a returned buffer seen as a sequence.
pub open spec fn outcome(r: Result<Vec<u8>, Error>) -> Result<Seq<u8>, Error> {
    match r {
        Ok(bytes) => Ok(bytes@),
        Err(e) => Err(e),
    }
}

} // verus!
