//! Content hashes: the fixed-length digest that identifies immutable
//! contract bytecode. Identical bytecode always yields the identical hash,
//! which serves as the module store's key and as the only way dispatch
//! operations name "which contract".

use vstd::prelude::*;
use sha2::Digest;
use crate::error::BoundaryError;

verus! {

/// The length in bytes of a content hash.
pub const CHECKSUM_LEN: usize = 32;

/// The digest of a byte sequence. The digest is a pure function of the bytes
/// alone, so equal bytecode is always keyed identically.
pub uninterp spec fn digest_of(bytes: Seq<u8>) -> Seq<u8>;

/// Relies on `sha2::Sha256::digest`: the SHA-256 digest of the input, a pure
/// function of the input bytes alone, whose output is always 32 bytes.
#[verifier::external_body]
fn sha256_digest(bytes: &Vec<u8>) -> (r: Vec<u8>)
    ensures
        r@ == digest_of(bytes@),
        r@.len() == CHECKSUM_LEN,
{
    sha2::Sha256::digest(bytes.as_slice()).to_vec()
}

/// A content hash of stored contract bytecode.
#[derive(Debug, Clone, PartialEq, Eq)]
pub struct Checksum {
    bytes: Vec<u8>,
}

impl View for Checksum {
    type V = Seq<u8>;

    closed spec fn view(&self) -> Seq<u8> {
        self.bytes@
    }
}

impl Checksum {
    /// A checksum is well-formed when it holds exactly the digest length.
    pub open spec fn wf(&self) -> bool {
        self@.len() == CHECKSUM_LEN
    }

    /// Computes the content hash of the given bytecode.
    pub fn generate(bytecode: &Vec<u8>) -> (r: Checksum)
        ensures
            r@ == digest_of(bytecode@),
            r@.len() == CHECKSUM_LEN,
            r.wf(),
    {
        Checksum { bytes: sha256_digest(bytecode) }
    }

    /// Decodes a checksum from raw bytes; fails exactly when the input is
    /// not of the digest length.
    pub fn try_from_bytes(bytes: &Vec<u8>) -> (r: Result<Checksum, BoundaryError>)
        ensures
            r is Ok <==> bytes@.len() == CHECKSUM_LEN,
            r is Ok ==> r.unwrap()@ == bytes@ && r.unwrap().wf(),
            r is Err ==> r.unwrap_err() == BoundaryError::InvalidChecksumLength,
    {
        if bytes.len() == CHECKSUM_LEN {
            Ok(Checksum { bytes: bytes.clone() })
        } else {
            Err(BoundaryError::InvalidChecksumLength)
        }
    }

    /// An identical copy of the checksum.
    pub fn duplicate(&self) -> (r: Checksum)
        ensures
            r@ == self@,
    {
        Checksum { bytes: self.bytes.clone() }
    }

    /// Borrows the checksum's bytes.
    pub fn as_bytes(&self) -> (r: &Vec<u8>)
        ensures
            r@ == self@,
    {
        &self.bytes
    }

    /// Hands the checksum's bytes out for transfer across the boundary.
    pub fn into_bytes(self) -> (r: Vec<u8>)
        ensures
            r@ == self@,
    {
        self.bytes
    }

    /// Compares this checksum against raw key bytes.
    pub fn matches(&self, other: &Vec<u8>) -> (r: bool)
        ensures
            r <==> self@ == other@,
    {
        bytes_equal(&self.bytes, other)
    }
}

/// Byte-for-byte equality of two vectors.
pub fn bytes_equal(a: &Vec<u8>, b: &Vec<u8>) -> (r: bool)
    ensures
        r <==> a@ == b@,
{
    if a.len() != b.len() {
        assert(a@ != b@);
        return false;
    }
    let n: usize = a.len();
    for i in 0..n
        invariant
            n == a@.len() == b@.len(),
            forall|j: int| 0 <= j < i ==> a@[j] == b@[j],
    {
        if a[i] != b[i] {
            assert(a@ != b@);
            return false;
        }
    }
    proof {
        assert(a@ =~= b@);
    }
    true
}

} // verus!
