//! SHA-256, computed by the `crypto` crate.

use crypto::digest::Digest;
use crypto::sha2::Sha256;
use vstd::prelude::*;

verus! {

/// Number of bytes in a SHA-256 digest.
pub const HASH_BYTE_SIZE: usize = 32;

/// A SHA-256 digest.
pub type Sha256Hash = [u8; HASH_BYTE_SIZE];

/// The longest message, in bytes, that SHA-256 is defined for: its length in
/// bits has to fit in 64 bits.
pub const MAX_MESSAGE_LEN: u64 = 0x1fff_ffff_ffff_ffff;

/// The SHA-256 digest of `message`, as the `crypto` crate computes it.
pub uninterp spec fn sha256_spec(message: Seq<u8>) -> Seq<u8>;

/// Hashes `message` with `crypto::sha2::Sha256`: a fresh hasher from
/// `Sha256::new`, the whole message through `Digest::input`, the 32 bytes
/// written by `Digest::result`.
///
/// Trusted: the 32 bytes are `sha256_spec` of the message, a function of the
/// message alone. `input` panics on a message of 2^61 bytes or more, which
/// the precondition leaves out.
#[verifier::external_body]
pub(crate) fn sha256(message: &[u8]) -> (digest: Sha256Hash)
    requires
        message@.len() <= MAX_MESSAGE_LEN,
    ensures
        digest@ == sha256_spec(message@),
{
    let mut hasher = Sha256::new();
    let mut digest = [0u8; 32];
    hasher.input(message);
    hasher.result(&mut digest);
    digest
}

/// Tells whether two digests hold the same bytes.
pub fn same_hash(a: &Sha256Hash, b: &Sha256Hash) -> (same: bool)
    ensures
        same == (a@ == b@),
{
    let mut index: usize = 0;
    while index < 32
        invariant
            index <= 32,
            forall|j: int| 0 <= j < index ==> a@[j] == b@[j],
        decreases 32 - index,
    {
        if a[index] != b[index] {
            return false;
        }
        index += 1;
    }
    assert(a@ =~= b@);
    true
}

} // verus!
