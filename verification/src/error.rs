//! The error channel: every internal failure kind is translated into a
//! human-readable message written into a host-provided output slot, plus a
//! success/failure signal that the host can test without inspecting the
//! message. No global error state exists: the slot is an explicit per-call
//! out-parameter, cleared on success and populated on failure.

use vstd::prelude::*;
use vstd::string::StringExecFns;
use vstd::string::StrSliceExecFns;
use vstd::string::StringSliceAdditionalSpecFns;
use crate::buffer::TransferBuffer;

verus! {

/// The boundary argument whose absence or malformation an error reports.
#[derive(Clone, Copy, Debug, PartialEq, Eq, Structural)]
pub enum ArgName {
    DataDir,
    SupportedFeatures,
    CacheHandle,
    Wasm,
    CodeId,
    Params,
    Msg,
    GasUsed,
}

impl ArgName {
    /// The argument's name as it appears in error messages.
    pub open spec fn spec_text(&self) -> Seq<char> {
        match self {
            ArgName::DataDir => "data_dir"@,
            ArgName::SupportedFeatures => "supported_features"@,
            ArgName::CacheHandle => "cache"@,
            ArgName::Wasm => "wasm"@,
            ArgName::CodeId => "code_id"@,
            ArgName::Params => "params"@,
            ArgName::Msg => "msg"@,
            ArgName::GasUsed => "gas_used"@,
        }
    }

    /// Returns the argument's display name.
    pub fn as_text(&self) -> (r: &'static str)
        ensures
            r@ == self.spec_text(),
    {
        match self {
            ArgName::DataDir => "data_dir",
            ArgName::SupportedFeatures => "supported_features",
            ArgName::CacheHandle => "cache",
            ArgName::Wasm => "wasm",
            ArgName::CodeId => "code_id",
            ArgName::Params => "params",
            ArgName::Msg => "msg",
            ArgName::GasUsed => "gas_used",
        }
    }
}

/// Every failure kind that can surface at the boundary. Each kind yields a
/// distinguishable message but collapses to the same failure signal (an
/// empty direct result plus a populated error slot).
#[derive(Debug, Clone, PartialEq, Eq)]
pub enum BoundaryError {
    /// A required argument buffer was the null sentinel or zero-length.
    /// Also reports a null cache handle, under the `cache` argument name.
    EmptyArg(ArgName),
    /// An argument that must be text was not valid UTF-8.
    InvalidUtf8,
    /// A content-hash buffer did not hold exactly the digest length.
    InvalidChecksumLength,
    /// No stored module matches the given content hash.
    UnknownChecksum,
    /// The engine reported a failure (compilation, instantiation or
    /// execution); the engine's own message is carried through.
    EngineErr(String),
    /// An unexpected internal abort was intercepted at the boundary.
    InternalFault,
}

/// The message text for each failure kind.
pub open spec fn spec_message(e: BoundaryError) -> Seq<char> {
    match e {
        BoundaryError::EmptyArg(name) => "Null/Empty argument: "@ + name.spec_text(),
        BoundaryError::InvalidUtf8 => "Cannot decode UTF8 bytes into string"@,
        BoundaryError::InvalidChecksumLength => "Checksum not of length 32"@,
        BoundaryError::UnknownChecksum => "Cache error: unknown checksum"@,
        BoundaryError::EngineErr(msg) => "Error calling the VM: "@ + msg@,
        BoundaryError::InternalFault => "Caught panic"@,
    }
}

impl BoundaryError {
    /// Renders the failure as its message text.
    pub fn message(&self) -> (r: String)
        ensures
            r@ == spec_message(*self),
    {
        match self {
            BoundaryError::EmptyArg(name) => String::from_str("Null/Empty argument: ").concat(
                name.as_text(),
            ),
            BoundaryError::InvalidUtf8 => String::from_str("Cannot decode UTF8 bytes into string"),
            BoundaryError::InvalidChecksumLength => String::from_str("Checksum not of length 32"),
            BoundaryError::UnknownChecksum => String::from_str("Cache error: unknown checksum"),
            BoundaryError::EngineErr(msg) => String::from_str("Error calling the VM: ").concat(
                msg.as_str(),
            ),
            BoundaryError::InternalFault => String::from_str("Caught panic"),
        }
    }

    /// The message as the UTF-8 bytes that cross the boundary.
    pub fn message_bytes(&self) -> (r: Vec<u8>)
        ensures
            r@ == spec_message_bytes(*self),
    {
        let m = self.message();
        m.as_str().as_bytes_vec()
    }
}

/// The byte encoding of a failure's message, as written into the error slot.
pub open spec fn spec_message_bytes(e: BoundaryError) -> Seq<u8> {
    vstd::utf8::encode_utf8(spec_message(e))
}

/// The host-provided error output slot. The host may decline to supply one
/// (`Missing`); a supplied slot carries a transfer buffer that is the null
/// sentinel when no error is pending and a transferred message buffer after
/// a failure.
pub enum ErrorSlot {
    /// The host supplied no error slot; failures are still signalled by the
    /// empty direct result, but no message can be delivered.
    Missing,
    /// A host-supplied slot and its current contents.
    Present(TransferBuffer),
}

impl View for ErrorSlot {
    type V = Option<Option<Seq<u8>>>;

    open spec fn view(&self) -> Option<Option<Seq<u8>>> {
        match self {
            ErrorSlot::Missing => None,
            ErrorSlot::Present(b) => Some(b@),
        }
    }
}

/// The slot contents after a call completes: a missing slot stays missing; a
/// supplied slot is cleared to the null sentinel on success and holds the
/// failure's message bytes, as a transferred buffer, on failure.
pub open spec fn spec_slot_after(
    before: Option<Option<Seq<u8>>>,
    r: Result<Seq<u8>, BoundaryError>,
) -> Option<Option<Seq<u8>>> {
    match before {
        None => None,
        Some(_) => match r {
            Ok(_) => Some(None),
            Err(e) => Some(Some(spec_message_bytes(e))),
        },
    }
}

/// The direct result that crosses the boundary: the payload on success, the
/// empty value on failure (the host learns the cause from the error slot).
pub open spec fn spec_payload_after(r: Result<Seq<u8>, BoundaryError>) -> Seq<u8> {
    match r {
        Ok(payload) => payload,
        Err(_) => Seq::empty(),
    }
}

/// The view of a result whose payload is a byte vector.
pub open spec fn result_view(r: Result<Vec<u8>, BoundaryError>) -> Result<Seq<u8>, BoundaryError> {
    match r {
        Ok(payload) => Ok(payload@),
        Err(e) => Err(e),
    }
}

/// Settles a call's outcome against the host's error slot: on success the
/// slot is cleared and the payload returned; on failure the failure's
/// message is serialized into the slot as a transferred buffer and the empty
/// payload returned.
pub fn handle_result(r: Result<Vec<u8>, BoundaryError>, err: &mut ErrorSlot) -> (out: Vec<u8>)
    ensures
        out@ == spec_payload_after(result_view(r)),
        final(err)@ == spec_slot_after(old(err)@, result_view(r)),
{
    let supplied = match err {
        ErrorSlot::Missing => false,
        ErrorSlot::Present(_) => true,
    };
    match r {
        Ok(payload) => {
            if supplied {
                *err = ErrorSlot::Present(TransferBuffer::Absent);
            }
            payload
        },
        Err(e) => {
            if supplied {
                *err = ErrorSlot::Present(TransferBuffer::Owned(e.message_bytes()));
            }
            Vec::new()
        },
    }
}

/// The host's gas-usage output slot. `Missing` models the host passing no
/// slot, which every dispatch entry point rejects; a supplied slot starts
/// `Unset` and is written exactly when the engine ran far enough to report
/// consumption.
#[derive(Clone, Copy, Debug, PartialEq, Eq, Structural)]
pub enum GasSlot {
    /// The host supplied no gas-usage slot.
    Missing,
    /// A supplied slot that has not been written.
    Unset,
    /// A supplied slot holding the reported gas consumption.
    Reported(u64),
}

} // verus!
