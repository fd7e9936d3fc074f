//! Transfer buffers: the self-describing, ownership-explicit byte ranges in
//! which every value crosses the boundary (bytecode, content hashes, message
//! payloads, error text).
//!
//! Two ownership states are distinguished at every call site: caller-owned,
//! read-only input that the boundary must never retain or free, and
//! callee-owned output whose ownership has been transferred to the receiver,
//! who must release it exactly once. The null sentinel (`Absent`) is a valid
//! "no value" marker, distinct from a present but empty byte range.

use vstd::prelude::*;

verus! {

/// A byte range crossing the boundary, tagged with its ownership state.
///
/// `Absent` models the null sentinel. A zero-length `Borrowed` or `Owned`
/// buffer is present but empty, which is distinct from `Absent`; argument
/// presence checks downstream treat both as a missing argument, while `read`
/// still yields an empty slice for the present-but-empty case.
pub enum TransferBuffer {
    /// The null sentinel: no value is present.
    Absent,
    /// Caller-owned, read-only input data. The boundary must never release it.
    Borrowed(Vec<u8>),
    /// Callee-owned data whose ownership has been transferred to the
    /// receiver, who must release it exactly once.
    Owned(Vec<u8>),
}

impl View for TransferBuffer {
    type V = Option<Seq<u8>>;

    open spec fn view(&self) -> Option<Seq<u8>> {
        match self {
            TransferBuffer::Absent => None,
            TransferBuffer::Borrowed(bytes) => Some(bytes@),
            TransferBuffer::Owned(bytes) => Some(bytes@),
        }
    }
}

/// What a release of the given buffer reclaims: the transferred bytes for an
/// owned buffer, nothing for the null sentinel or for borrowed input.
pub open spec fn freed_by(b: TransferBuffer) -> Option<Seq<u8>> {
    match b {
        TransferBuffer::Owned(bytes) => Some(bytes@),
        _ => None,
    }
}

impl TransferBuffer {
    /// Interprets the buffer as borrowed, read-only data. Returns `None` for
    /// the null sentinel. Never takes ownership, so it is safe to call
    /// repeatedly; a present but empty buffer reads as an empty slice.
    pub fn read(&self) -> (r: Option<&Vec<u8>>)
        ensures
            r is Some <==> self@ is Some,
            r is Some ==> r.unwrap()@ == self@.unwrap(),
    {
        match self {
            TransferBuffer::Absent => None,
            TransferBuffer::Borrowed(bytes) => Some(bytes),
            TransferBuffer::Owned(bytes) => Some(bytes),
        }
    }

    /// Converts an owned byte sequence into a callee-owned buffer that the
    /// receiver must later release. The backing storage is handed off, not
    /// copied.
    pub fn from_owned_bytes(bytes: Vec<u8>) -> (r: TransferBuffer)
        ensures
            r == TransferBuffer::Owned(bytes),
            r@ == Some(bytes@),
    {
        TransferBuffer::Owned(bytes)
    }

    /// Reconstructs ownership of a previously transferred buffer and hands
    /// the reclaimed allocation back to be dropped. A no-op on the null
    /// sentinel. Must never be called on a caller-owned input buffer, which
    /// the precondition enforces.
    ///
    /// Because `release` consumes the buffer, a second release of the same
    /// buffer is ruled out by ownership, and a release can never reach the
    /// storage of any other buffer.
    pub fn release(self) -> (freed: Option<Vec<u8>>)
        requires
            !(self is Borrowed),
        ensures
            freed is Some <==> freed_by(self) is Some,
            freed is Some ==> freed.unwrap()@ == freed_by(self).unwrap(),
            self is Absent ==> freed is None,
    {
        match self {
            TransferBuffer::Absent => None,
            TransferBuffer::Borrowed(_) => None,
            TransferBuffer::Owned(bytes) => Some(bytes),
        }
    }
}

/// Law: releasing reclaims storage only from the released buffer itself.
/// What a release frees is a function of that buffer alone, the null sentinel
/// frees nothing, and borrowed caller data is never freed; together with
/// `release` consuming its argument, a single release can neither repeat nor
/// corrupt any unrelated buffer.
pub proof fn lemma_release_frees_only_own_storage(b: TransferBuffer)
    ensures
        b is Absent ==> freed_by(b) is None,
        b is Borrowed ==> freed_by(b) is None,
        b is Owned ==> freed_by(b) == Some(b@.unwrap()),
{
}

/// Law: releasing exactly one buffer out of any collection the host holds
/// removes exactly that buffer; every other buffer is carried over with its
/// contents unchanged.
pub proof fn lemma_release_leaves_others_unchanged(buffers: Seq<TransferBuffer>, i: int)
    requires
        0 <= i < buffers.len(),
    ensures
        buffers.remove(i).len() == buffers.len() - 1,
        forall|j: int| 0 <= j < i ==> buffers.remove(i)[j] == buffers[j],
        forall|j: int| i <= j < buffers.len() - 1 ==> buffers.remove(i)[j] == buffers[j + 1],
{
}

} // verus!
