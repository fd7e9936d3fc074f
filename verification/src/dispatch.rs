//! Execution dispatch: the symmetric boundary entry points (create, get
//! code, instantiate, execute, migrate, query) that validate the host's raw
//! arguments, resolve an instance through the module cache, hand the call to
//! the engine and report gas usage unconditionally.
//!
//! The engine itself is an external collaborator: acquiring a real instance,
//! running the contract call and intercepting any internal abort happen on
//! the other side of the boundary. They enter the verified core as an
//! `EngineOutcome`, and the dispatch logic is specified and proved for every
//! possible outcome, including engine failure and a contained fault.

use vstd::prelude::*;
use crate::buffer::TransferBuffer;
use crate::cache::{buffer_filled, cache_t, spec_init_error};
use crate::checksum::{digest_of, Checksum, CHECKSUM_LEN};
use crate::error::{
    handle_result, result_view, spec_payload_after, spec_slot_after, ArgName, BoundaryError,
    ErrorSlot, GasSlot,
};

verus! {

/// Which engine call a dispatch operation drives.
#[derive(Clone, Copy, Debug, PartialEq, Eq, Structural)]
pub enum CallKind {
    Instantiate,
    Execute,
    Migrate,
    Query,
}

impl CallKind {
    /// Whether the call takes an environment-parameters buffer; a query
    /// carries only its message.
    pub open spec fn spec_uses_params(&self) -> bool {
        !(self is Query)
    }

    /// Returns whether the call takes an environment-parameters buffer.
    pub fn uses_params(&self) -> (r: bool)
        ensures
            r == self.spec_uses_params(),
    {
        match self {
            CallKind::Query => false,
            _ => true,
        }
    }
}

/// A validated call, bound to a resolved module and a gas limit: ready to be
/// run by the engine exactly once.
#[derive(Debug)]
pub struct PreparedCall {
    pub kind: CallKind,
    pub checksum: Checksum,
    pub params: Option<Vec<u8>>,
    pub msg: Vec<u8>,
    pub gas_limit: u64,
}

/// How the engine finished a prepared call, as handed back across the
/// boundary.
pub enum EngineOutcome {
    /// The instance ran to a result: the contract's payload on success, the
    /// engine's failure message otherwise. Either way the instance reported
    /// its gas consumption.
    Completed { outcome: Result<Vec<u8>, String>, gas_used: u64 },
    /// The engine could not acquire an instance for the resolved module
    /// (loading or compiling it failed) before any metered execution began:
    /// it reports a failure message but no gas figure, and the gas-usage
    /// slot stays as it was.
    AcquisitionFailed { message: String },
    /// An unexpected internal abort was intercepted before the engine
    /// returned; the gas counter is carried along when it could still be
    /// read.
    Faulted { gas_used: Option<u64> },
}

/// The validation an entry point performs before the engine is involved, in
/// checking order: live cache handle, supplied gas-usage slot, present
/// content hash of the digest length, present parameters (where the call
/// kind takes them), present message, and a module resolved under the hash.
/// A module resolves when this handle's own store holds it or when the
/// engine's persistent store answers for it (`engine_has_module`, supplied
/// by the driver: an earlier process or another handle over the same
/// directory may have stored modules this handle never saw).
/// Yields the resolved content hash, or the first failure.
pub open spec fn spec_prepare(
    cache: cache_t,
    gas: GasSlot,
    code_id: Option<Seq<u8>>,
    params: Option<Seq<u8>>,
    msg: Option<Seq<u8>>,
    uses_params: bool,
    engine_has_module: bool,
) -> Result<Seq<u8>, BoundaryError> {
    if !cache.is_live() {
        Err(BoundaryError::EmptyArg(ArgName::CacheHandle))
    } else if gas is Missing {
        Err(BoundaryError::EmptyArg(ArgName::GasUsed))
    } else if !buffer_filled(code_id) {
        Err(BoundaryError::EmptyArg(ArgName::CodeId))
    } else if code_id.unwrap().len() != CHECKSUM_LEN {
        Err(BoundaryError::InvalidChecksumLength)
    } else if uses_params && !buffer_filled(params) {
        Err(BoundaryError::EmptyArg(ArgName::Params))
    } else if !buffer_filled(msg) {
        Err(BoundaryError::EmptyArg(ArgName::Msg))
    } else if !cache.stored().contains_key(code_id.unwrap()) && !engine_has_module {
        Err(BoundaryError::UnknownChecksum)
    } else {
        Ok(code_id.unwrap())
    }
}

/// The call's result once the engine finished: the payload on success, the
/// engine's message as an engine error, or the internal-fault error for an
/// intercepted abort.
pub open spec fn spec_finish(outcome: EngineOutcome) -> Result<Seq<u8>, BoundaryError> {
    match outcome {
        EngineOutcome::Completed { outcome: engine_result, .. } => match engine_result {
            Ok(payload) => Ok(payload@),
            Err(message) => Err(BoundaryError::EngineErr(message)),
        },
        EngineOutcome::AcquisitionFailed { message } => Err(BoundaryError::EngineErr(message)),
        EngineOutcome::Faulted { .. } => Err(BoundaryError::InternalFault),
    }
}

/// The gas-usage slot once the engine finished: written with the reported
/// consumption whenever the engine could report it — on success, on engine
/// failure, and on a fault whose counter was still readable — and left as
/// it was only when a fault made the counter unreadable.
pub open spec fn spec_gas_after(before: GasSlot, outcome: EngineOutcome) -> GasSlot {
    match outcome {
        EngineOutcome::Completed { gas_used, .. } => GasSlot::Reported(gas_used),
        EngineOutcome::AcquisitionFailed { .. } => before,
        EngineOutcome::Faulted { gas_used } => match gas_used {
            Some(g) => GasSlot::Reported(g),
            None => before,
        },
    }
}

/// A whole dispatch call's result: the first validation failure, or the
/// engine's finished result.
pub open spec fn spec_dispatch_result(
    cache: cache_t,
    gas_before: GasSlot,
    code_id: Option<Seq<u8>>,
    params: Option<Seq<u8>>,
    msg: Option<Seq<u8>>,
    uses_params: bool,
    engine_has_module: bool,
    outcome: EngineOutcome,
) -> Result<Seq<u8>, BoundaryError> {
    match spec_prepare(cache, gas_before, code_id, params, msg, uses_params, engine_has_module) {
        Err(e) => Err(e),
        Ok(_) => spec_finish(outcome),
    }
}

/// A whole dispatch call's effect on the gas-usage slot: untouched unless an
/// instance was acquired, then written as the engine's completion dictates.
pub open spec fn spec_dispatch_gas(
    cache: cache_t,
    gas_before: GasSlot,
    code_id: Option<Seq<u8>>,
    params: Option<Seq<u8>>,
    msg: Option<Seq<u8>>,
    uses_params: bool,
    engine_has_module: bool,
    outcome: EngineOutcome,
) -> GasSlot {
    if spec_prepare(cache, gas_before, code_id, params, msg, uses_params, engine_has_module) is Ok {
        spec_gas_after(gas_before, outcome)
    } else {
        gas_before
    }
}

/// Validates an entry point's raw arguments and resolves the module,
/// yielding a call ready for the engine, or the first failure in checking
/// order.
pub fn prepare_call(
    cache: &cache_t,
    kind: CallKind,
    code_id: &TransferBuffer,
    params: &TransferBuffer,
    msg: &TransferBuffer,
    gas: GasSlot,
    gas_limit: u64,
    engine_has_module: bool,
) -> (r: Result<PreparedCall, BoundaryError>)
    ensures
        r is Ok <==> spec_prepare(
            *cache,
            gas,
            code_id@,
            params@,
            msg@,
            kind.spec_uses_params(),
            engine_has_module,
        ) is Ok,
        r is Err ==> (spec_prepare(
            *cache,
            gas,
            code_id@,
            params@,
            msg@,
            kind.spec_uses_params(),
            engine_has_module,
        ) matches Err(e) && r.unwrap_err() == e),
        r is Ok ==> {
            &&& r.unwrap().kind == kind
            &&& r.unwrap().checksum@ == code_id@.unwrap()
            &&& r.unwrap().checksum.wf()
            &&& (kind.spec_uses_params() ==> (r.unwrap().params matches Some(p) && p@
                == params@.unwrap()))
            &&& (!kind.spec_uses_params() ==> r.unwrap().params is None)
            &&& r.unwrap().msg@ == msg@.unwrap()
            &&& r.unwrap().gas_limit == gas_limit
        },
{
    if !cache.check_live() {
        return Err(BoundaryError::EmptyArg(ArgName::CacheHandle));
    }
    match gas {
        GasSlot::Missing => { return Err(BoundaryError::EmptyArg(ArgName::GasUsed)); },
        _ => {},
    }
    let id_bytes = match crate::cache::required(code_id, ArgName::CodeId) {
        Ok(b) => b,
        Err(e) => { return Err(e); },
    };
    let checksum = match Checksum::try_from_bytes(id_bytes) {
        Ok(c) => c,
        Err(e) => { return Err(e); },
    };
    let call_params: Option<Vec<u8>> = if kind.uses_params() {
        match crate::cache::required(params, ArgName::Params) {
            Ok(b) => Option::Some(b.clone()),
            Err(e) => { return Err(e); },
        }
    } else {
        Option::None
    };
    let msg_bytes = match crate::cache::required(msg, ArgName::Msg) {
        Ok(b) => b,
        Err(e) => { return Err(e); },
    };
    if !cache.contains_code(&checksum) && !engine_has_module {
        return Err(BoundaryError::UnknownChecksum);
    }
    Ok(PreparedCall {
        kind,
        checksum,
        params: call_params,
        msg: msg_bytes.clone(),
        gas_limit,
    })
}

/// Settles a finished engine call: writes the gas-usage slot exactly as the
/// outcome allows — unconditionally on completion, on a fault whenever the
/// counter was still readable, and never when no instance was acquired —
/// then propagates the engine's result, with an intercepted abort surfacing
/// as the internal-fault error.
pub fn finish_call(outcome: EngineOutcome, gas: &mut GasSlot) -> (r: Result<Vec<u8>, BoundaryError>)
    ensures
        *final(gas) == spec_gas_after(*old(gas), outcome),
        result_view(r) == spec_finish(outcome),
{
    match outcome {
        EngineOutcome::Completed { outcome: engine_result, gas_used } => {
            *gas = GasSlot::Reported(gas_used);
            match engine_result {
                Ok(payload) => Ok(payload),
                Err(message) => Err(BoundaryError::EngineErr(message)),
            }
        },
        EngineOutcome::AcquisitionFailed { message } => Err(BoundaryError::EngineErr(message)),
        EngineOutcome::Faulted { gas_used } => {
            match gas_used {
                Option::Some(g) => {
                    *gas = GasSlot::Reported(g);
                },
                Option::None => {},
            }
            Err(BoundaryError::InternalFault)
        },
    }
}

/// One whole dispatch entry point over the module cache: validation,
/// instance resolution, the engine's completion, unconditional gas
/// reporting, and the settling of the result against the host's error slot.
/// The direct result is always a transferred buffer: the payload on success,
/// empty on failure.
pub fn dispatch_call(
    cache: &cache_t,
    kind: CallKind,
    code_id: &TransferBuffer,
    params: &TransferBuffer,
    msg: &TransferBuffer,
    gas_limit: u64,
    engine_has_module: bool,
    outcome: EngineOutcome,
    gas: &mut GasSlot,
    err: &mut ErrorSlot,
) -> (out: TransferBuffer)
    ensures
        out is Owned,
        out@ == Some(
            spec_payload_after(
                spec_dispatch_result(
                    *cache,
                    *old(gas),
                    code_id@,
                    params@,
                    msg@,
                    kind.spec_uses_params(),
                    engine_has_module,
                    outcome,
                ),
            ),
        ),
        *final(gas) == spec_dispatch_gas(
            *cache,
            *old(gas),
            code_id@,
            params@,
            msg@,
            kind.spec_uses_params(),
            engine_has_module,
            outcome,
        ),
        final(err)@ == spec_slot_after(
            old(err)@,
            spec_dispatch_result(
                *cache,
                *old(gas),
                code_id@,
                params@,
                msg@,
                kind.spec_uses_params(),
                engine_has_module,
                outcome,
            ),
        ),
{
    let gas_before: GasSlot = *gas;
    let call_result: Result<Vec<u8>, BoundaryError> = match prepare_call(
        cache,
        kind,
        code_id,
        params,
        msg,
        gas_before,
        gas_limit,
        engine_has_module,
    ) {
        Ok(_prepared) => finish_call(outcome, gas),
        Err(e) => Err(e),
    };
    let data = handle_result(call_result, err);
    TransferBuffer::from_owned_bytes(data)
}

/// What storing bytecode returns: the bytecode's content hash, or the
/// missing-cache error for a null handle, or the missing-argument error for
/// an absent or empty bytecode buffer.
pub open spec fn spec_create_result(cache: cache_t, wasm: Option<Seq<u8>>) -> Result<
    Seq<u8>,
    BoundaryError,
> {
    if !cache.is_live() {
        Err(BoundaryError::EmptyArg(ArgName::CacheHandle))
    } else if !buffer_filled(wasm) {
        Err(BoundaryError::EmptyArg(ArgName::Wasm))
    } else {
        Ok(digest_of(wasm.unwrap()))
    }
}

/// The engine's answer for a load that this handle's own store cannot
/// serve: the bytecode the engine's persistent store holds under the hash
/// (an earlier process or another handle may have stored it), or nothing.
pub open spec fn opt_bytes_view(bytes: Option<Vec<u8>>) -> Option<Seq<u8>> {
    match bytes {
        Some(b) => Some(b@),
        None => None,
    }
}

/// What loading bytecode returns, in checking order: null handle, absent or
/// empty hash buffer, wrong hash length; then the bytecode this handle
/// stored under the hash, else what the engine's persistent store answered
/// (`engine_code`, supplied by the driver), else the unknown-checksum error.
pub open spec fn spec_get_code_result(
    cache: cache_t,
    id: Option<Seq<u8>>,
    engine_code: Option<Seq<u8>>,
) -> Result<Seq<u8>, BoundaryError> {
    if !cache.is_live() {
        Err(BoundaryError::EmptyArg(ArgName::CacheHandle))
    } else if !buffer_filled(id) {
        Err(BoundaryError::EmptyArg(ArgName::CodeId))
    } else if id.unwrap().len() != CHECKSUM_LEN {
        Err(BoundaryError::InvalidChecksumLength)
    } else if cache.stored().contains_key(id.unwrap()) {
        Ok(cache.stored()[id.unwrap()])
    } else if engine_code is Some {
        Ok(engine_code.unwrap())
    } else {
        Err(BoundaryError::UnknownChecksum)
    }
}

/// What cache initialization settles against the error slot: success
/// carries no payload, failure carries the first failing check's error.
pub open spec fn spec_init_result(
    data_dir: Option<Seq<u8>>,
    supported_features: Option<Seq<u8>>,
) -> Result<Seq<u8>, BoundaryError> {
    if crate::cache::spec_init_ok(data_dir, supported_features) {
        Ok(Seq::empty())
    } else {
        Err(spec_init_error(data_dir, supported_features))
    }
}

/// Boundary entry point: creates the module cache from the host's raw
/// directory and capability-set buffers. Returns the live handle, or
/// nothing with the error slot populated.
pub fn init_cache(
    data_dir: &TransferBuffer,
    supported_features: &TransferBuffer,
    err: &mut ErrorSlot,
) -> (r: Option<cache_t>)
    ensures
        r is Some <==> crate::cache::spec_init_ok(data_dir@, supported_features@),
        r is Some ==> {
            &&& r.unwrap().is_live()
            &&& r.unwrap().wf()
            &&& r.unwrap().spec_base_dir() == vstd::utf8::decode_utf8(data_dir@.unwrap())
            &&& r.unwrap().spec_capabilities() == crate::cache::capabilities_of_csv(
                vstd::utf8::decode_utf8(supported_features@.unwrap()),
            )
            &&& r.unwrap().stored() == Map::<Seq<u8>, Seq<u8>>::empty()
        },
        final(err)@ == spec_slot_after(old(err)@, spec_init_result(data_dir@, supported_features@)),
{
    match cache_t::init(data_dir, supported_features) {
        Ok(handle) => {
            let _ = handle_result(Ok(Vec::new()), err);
            Some(handle)
        },
        Err(e) => {
            let _ = handle_result(Err(e), err);
            None
        },
    }
}

/// Boundary entry point: validates and stores bytecode, answering with its
/// content hash in a transferred buffer, and settles the error slot. On
/// failure the cache is untouched and the returned buffer is empty.
pub fn create_code(cache: &mut cache_t, wasm: &TransferBuffer, err: &mut ErrorSlot) -> (out:
    TransferBuffer)
    requires
        old(cache).wf(),
    ensures
        out is Owned,
        out@ == Some(spec_payload_after(spec_create_result(*old(cache), wasm@))),
        final(err)@ == spec_slot_after(old(err)@, spec_create_result(*old(cache), wasm@)),
        final(cache).wf(),
        final(cache).is_live() == old(cache).is_live(),
        spec_create_result(*old(cache), wasm@) is Ok ==> {
            &&& final(cache).stored() == old(cache).stored().insert(
                digest_of(wasm@.unwrap()),
                wasm@.unwrap(),
            )
            &&& final(cache).spec_base_dir() == old(cache).spec_base_dir()
            &&& final(cache).spec_capabilities() == old(cache).spec_capabilities()
            &&& out@.unwrap().len() == CHECKSUM_LEN
        },
        spec_create_result(*old(cache), wasm@) is Err ==> *final(cache) == *old(cache),
{
    let call_result: Result<Vec<u8>, BoundaryError> = if !cache.check_live() {
        Err(BoundaryError::EmptyArg(ArgName::CacheHandle))
    } else {
        match crate::cache::required(wasm, ArgName::Wasm) {
            Err(e) => Err(e),
            Ok(bytecode) => {
                let checksum = cache.save_code(bytecode);
                Ok(checksum.into_bytes())
            },
        }
    };
    let data = handle_result(call_result, err);
    TransferBuffer::from_owned_bytes(data)
}

/// Boundary entry point: loads the bytecode stored under a content hash
/// into a transferred buffer, and settles the error slot. A hash this
/// handle never stored is served from the engine's answer where the engine
/// holds one; on failure the returned buffer is empty.
pub fn get_code(
    cache: &cache_t,
    id: &TransferBuffer,
    engine_code: Option<Vec<u8>>,
    err: &mut ErrorSlot,
) -> (out: TransferBuffer)
    ensures
        out is Owned,
        out@ == Some(
            spec_payload_after(spec_get_code_result(*cache, id@, opt_bytes_view(engine_code))),
        ),
        final(err)@ == spec_slot_after(
            old(err)@,
            spec_get_code_result(*cache, id@, opt_bytes_view(engine_code)),
        ),
{
    let call_result: Result<Vec<u8>, BoundaryError> = if !cache.check_live() {
        Err(BoundaryError::EmptyArg(ArgName::CacheHandle))
    } else {
        match crate::cache::required(id, ArgName::CodeId) {
            Err(e) => Err(e),
            Ok(id_bytes) => match Checksum::try_from_bytes(id_bytes) {
                Err(e) => Err(e),
                Ok(checksum) => match cache.load_code(&checksum) {
                    Ok(code) => Ok(code),
                    Err(_) => match engine_code {
                        Option::Some(code) => Ok(code),
                        Option::None => Err(BoundaryError::UnknownChecksum),
                    },
                },
            },
        }
    };
    let data = handle_result(call_result, err);
    TransferBuffer::from_owned_bytes(data)
}

/// Boundary entry point: runs a contract's initialization call.
pub fn instantiate(
    cache: &cache_t,
    code_id: &TransferBuffer,
    params: &TransferBuffer,
    msg: &TransferBuffer,
    gas_limit: u64,
    engine_has_module: bool,
    outcome: EngineOutcome,
    gas: &mut GasSlot,
    err: &mut ErrorSlot,
) -> (out: TransferBuffer)
    ensures
        out is Owned,
        out@ == Some(
            spec_payload_after(
                spec_dispatch_result(
                    *cache,
                    *old(gas),
                    code_id@,
                    params@,
                    msg@,
                    true,
                    engine_has_module,
                    outcome,
                ),
            ),
        ),
        *final(gas) == spec_dispatch_gas(
            *cache,
            *old(gas),
            code_id@,
            params@,
            msg@,
            true,
            engine_has_module,
            outcome,
        ),
        final(err)@ == spec_slot_after(
            old(err)@,
            spec_dispatch_result(
                *cache,
                *old(gas),
                code_id@,
                params@,
                msg@,
                true,
                engine_has_module,
                outcome,
            ),
        ),
{
    dispatch_call(
        cache,
        CallKind::Instantiate,
        code_id,
        params,
        msg,
        gas_limit,
        engine_has_module,
        outcome,
        gas,
        err,
    )
}

/// Boundary entry point: runs a contract's message-handling call.
pub fn execute(
    cache: &cache_t,
    code_id: &TransferBuffer,
    params: &TransferBuffer,
    msg: &TransferBuffer,
    gas_limit: u64,
    engine_has_module: bool,
    outcome: EngineOutcome,
    gas: &mut GasSlot,
    err: &mut ErrorSlot,
) -> (out: TransferBuffer)
    ensures
        out is Owned,
        out@ == Some(
            spec_payload_after(
                spec_dispatch_result(
                    *cache,
                    *old(gas),
                    code_id@,
                    params@,
                    msg@,
                    true,
                    engine_has_module,
                    outcome,
                ),
            ),
        ),
        *final(gas) == spec_dispatch_gas(
            *cache,
            *old(gas),
            code_id@,
            params@,
            msg@,
            true,
            engine_has_module,
            outcome,
        ),
        final(err)@ == spec_slot_after(
            old(err)@,
            spec_dispatch_result(
                *cache,
                *old(gas),
                code_id@,
                params@,
                msg@,
                true,
                engine_has_module,
                outcome,
            ),
        ),
{
    dispatch_call(
        cache,
        CallKind::Execute,
        code_id,
        params,
        msg,
        gas_limit,
        engine_has_module,
        outcome,
        gas,
        err,
    )
}

/// Boundary entry point: runs a contract's migration call.
pub fn migrate(
    cache: &cache_t,
    code_id: &TransferBuffer,
    params: &TransferBuffer,
    msg: &TransferBuffer,
    gas_limit: u64,
    engine_has_module: bool,
    outcome: EngineOutcome,
    gas: &mut GasSlot,
    err: &mut ErrorSlot,
) -> (out: TransferBuffer)
    ensures
        out is Owned,
        out@ == Some(
            spec_payload_after(
                spec_dispatch_result(
                    *cache,
                    *old(gas),
                    code_id@,
                    params@,
                    msg@,
                    true,
                    engine_has_module,
                    outcome,
                ),
            ),
        ),
        *final(gas) == spec_dispatch_gas(
            *cache,
            *old(gas),
            code_id@,
            params@,
            msg@,
            true,
            engine_has_module,
            outcome,
        ),
        final(err)@ == spec_slot_after(
            old(err)@,
            spec_dispatch_result(
                *cache,
                *old(gas),
                code_id@,
                params@,
                msg@,
                true,
                engine_has_module,
                outcome,
            ),
        ),
{
    dispatch_call(
        cache,
        CallKind::Migrate,
        code_id,
        params,
        msg,
        gas_limit,
        engine_has_module,
        outcome,
        gas,
        err,
    )
}

/// Boundary entry point: runs a contract's query call, which carries only
/// its message.
pub fn query(
    cache: &cache_t,
    code_id: &TransferBuffer,
    msg: &TransferBuffer,
    gas_limit: u64,
    engine_has_module: bool,
    outcome: EngineOutcome,
    gas: &mut GasSlot,
    err: &mut ErrorSlot,
) -> (out: TransferBuffer)
    ensures
        out is Owned,
        out@ == Some(
            spec_payload_after(
                spec_dispatch_result(
                    *cache,
                    *old(gas),
                    code_id@,
                    None,
                    msg@,
                    false,
                    engine_has_module,
                    outcome,
                ),
            ),
        ),
        *final(gas) == spec_dispatch_gas(
            *cache,
            *old(gas),
            code_id@,
            None,
            msg@,
            false,
            engine_has_module,
            outcome,
        ),
        final(err)@ == spec_slot_after(
            old(err)@,
            spec_dispatch_result(
                *cache,
                *old(gas),
                code_id@,
                None,
                msg@,
                false,
                engine_has_module,
                outcome,
            ),
        ),
{
    let no_params = TransferBuffer::Absent;
    dispatch_call(
        cache,
        CallKind::Query,
        code_id,
        &no_params,
        msg,
        gas_limit,
        engine_has_module,
        outcome,
        gas,
        err,
    )
}

/// Law: storing bytecode and then loading by the returned content hash
/// yields byte-identical bytecode, whatever the cache held before and
/// whatever the engine's persistent store would answer.
pub proof fn lemma_create_then_get_roundtrip(
    before: cache_t,
    after: cache_t,
    wasm: Option<Seq<u8>>,
    engine_code: Option<Seq<u8>>,
)
    requires
        spec_create_result(before, wasm) is Ok,
        digest_of(wasm.unwrap()).len() == CHECKSUM_LEN,
        after.is_live(),
        after.stored() == before.stored().insert(digest_of(wasm.unwrap()), wasm.unwrap()),
    ensures
        spec_get_code_result(after, Some(digest_of(wasm.unwrap())), engine_code) == Ok::<
            Seq<u8>,
            BoundaryError,
        >(wasm.unwrap()),
{
}

/// Law: a freshly initialized store, which holds no modules, accepts any
/// present bytecode, keys it by its content hash, and then resolves exactly
/// that hash: create answers with the digest, and a following load by the
/// returned hash yields the original bytes, whatever the engine's
/// persistent store would answer.
pub proof fn lemma_fresh_store_roundtrip(
    fresh: cache_t,
    after: cache_t,
    wasm: Option<Seq<u8>>,
    engine_code: Option<Seq<u8>>,
)
    requires
        fresh.is_live(),
        fresh.stored() == Map::<Seq<u8>, Seq<u8>>::empty(),
        buffer_filled(wasm),
        digest_of(wasm.unwrap()).len() == CHECKSUM_LEN,
        after.is_live(),
        after.stored() == fresh.stored().insert(digest_of(wasm.unwrap()), wasm.unwrap()),
    ensures
        spec_create_result(fresh, wasm) == Ok::<Seq<u8>, BoundaryError>(digest_of(wasm.unwrap())),
        spec_get_code_result(after, Some(digest_of(wasm.unwrap())), engine_code) == Ok::<
            Seq<u8>,
            BoundaryError,
        >(wasm.unwrap()),
        after.stored().dom() =~= Set::<Seq<u8>>::empty().insert(digest_of(wasm.unwrap())),
{
}

/// Law: whenever an instance is acquired (validation and module resolution
/// succeed) and the engine completes, the gas-usage slot is populated with
/// the reported consumption — whether the engine's own result is success or
/// failure.
pub proof fn lemma_gas_reported_when_instance_acquired(
    cache: cache_t,
    gas_before: GasSlot,
    code_id: Option<Seq<u8>>,
    params: Option<Seq<u8>>,
    msg: Option<Seq<u8>>,
    uses_params: bool,
    engine_has_module: bool,
    engine_result: Result<Vec<u8>, String>,
    gas_used: u64,
)
    requires
        spec_prepare(cache, gas_before, code_id, params, msg, uses_params, engine_has_module)
            is Ok,
    ensures
        spec_dispatch_gas(
            cache,
            gas_before,
            code_id,
            params,
            msg,
            uses_params,
            engine_has_module,
            EngineOutcome::Completed { outcome: engine_result, gas_used },
        ) == GasSlot::Reported(gas_used),
{
}

/// Law: every boundary operation rejects the null cache handle with the
/// missing-cache error, before any other argument is examined, and touches
/// neither the gas slot nor the store.
pub proof fn lemma_null_handle_rejected(
    cache: cache_t,
    gas_before: GasSlot,
    code_id: Option<Seq<u8>>,
    params: Option<Seq<u8>>,
    msg: Option<Seq<u8>>,
    uses_params: bool,
    engine_has_module: bool,
    wasm: Option<Seq<u8>>,
    engine_code: Option<Seq<u8>>,
    outcome: EngineOutcome,
)
    requires
        !cache.is_live(),
    ensures
        spec_dispatch_result(
            cache,
            gas_before,
            code_id,
            params,
            msg,
            uses_params,
            engine_has_module,
            outcome,
        ) == Err::<Seq<u8>, BoundaryError>(BoundaryError::EmptyArg(ArgName::CacheHandle)),
        spec_dispatch_gas(
            cache,
            gas_before,
            code_id,
            params,
            msg,
            uses_params,
            engine_has_module,
            outcome,
        ) == gas_before,
        spec_create_result(cache, wasm) == Err::<Seq<u8>, BoundaryError>(
            BoundaryError::EmptyArg(ArgName::CacheHandle),
        ),
        spec_get_code_result(cache, code_id, engine_code) == Err::<Seq<u8>, BoundaryError>(
            BoundaryError::EmptyArg(ArgName::CacheHandle),
        ),
{
}

/// Law: an absent or zero-length content-hash buffer is rejected as a
/// missing argument — it is never decoded — and the gas slot is untouched.
pub proof fn lemma_empty_code_id_rejected(
    cache: cache_t,
    gas_before: GasSlot,
    code_id: Option<Seq<u8>>,
    params: Option<Seq<u8>>,
    msg: Option<Seq<u8>>,
    uses_params: bool,
    engine_has_module: bool,
    engine_code: Option<Seq<u8>>,
    outcome: EngineOutcome,
)
    requires
        cache.is_live(),
        !(gas_before is Missing),
        !buffer_filled(code_id),
    ensures
        spec_dispatch_result(
            cache,
            gas_before,
            code_id,
            params,
            msg,
            uses_params,
            engine_has_module,
            outcome,
        ) == Err::<Seq<u8>, BoundaryError>(BoundaryError::EmptyArg(ArgName::CodeId)),
        spec_dispatch_gas(
            cache,
            gas_before,
            code_id,
            params,
            msg,
            uses_params,
            engine_has_module,
            outcome,
        ) == gas_before,
        spec_get_code_result(cache, code_id, engine_code) == Err::<Seq<u8>, BoundaryError>(
            BoundaryError::EmptyArg(ArgName::CodeId),
        ),
{
}

/// Law: a well-formed content hash that neither this handle's store nor
/// the engine's persistent store resolves fails with the unknown-checksum
/// error and leaves the gas-usage slot exactly as it was: the host must
/// detect the failure from the error, not from gas.
pub proof fn lemma_unknown_checksum_leaves_gas_unset(
    cache: cache_t,
    gas_before: GasSlot,
    code_id: Option<Seq<u8>>,
    params: Option<Seq<u8>>,
    msg: Option<Seq<u8>>,
    uses_params: bool,
    outcome: EngineOutcome,
)
    requires
        !cache.stored().contains_key(code_id.unwrap()),
        buffer_filled(code_id),
    ensures
        spec_dispatch_result(cache, gas_before, code_id, params, msg, uses_params, false, outcome)
            is Err,
        spec_prepare(cache, gas_before, code_id, params, msg, uses_params, false) is Ok == false,
        spec_dispatch_gas(cache, gas_before, code_id, params, msg, uses_params, false, outcome)
            == gas_before,
        (cache.is_live() && !(gas_before is Missing) && code_id.unwrap().len() == CHECKSUM_LEN
            && (uses_params ==> buffer_filled(params)) && buffer_filled(msg))
            ==> spec_dispatch_result(
            cache,
            gas_before,
            code_id,
            params,
            msg,
            uses_params,
            false,
            outcome,
        ) == Err::<Seq<u8>, BoundaryError>(BoundaryError::UnknownChecksum),
{
}

/// Law: an intercepted internal abort during a dispatched call surfaces as
/// the internal-fault error, never as an unwind; the gas-usage slot carries
/// the consumption up to the fault when the counter was still readable, and
/// stays exactly as it was otherwise.
pub proof fn lemma_fault_contained(
    cache: cache_t,
    gas_before: GasSlot,
    code_id: Option<Seq<u8>>,
    params: Option<Seq<u8>>,
    msg: Option<Seq<u8>>,
    uses_params: bool,
    engine_has_module: bool,
    fault_gas: Option<u64>,
)
    requires
        spec_prepare(cache, gas_before, code_id, params, msg, uses_params, engine_has_module)
            is Ok,
    ensures
        spec_dispatch_result(
            cache,
            gas_before,
            code_id,
            params,
            msg,
            uses_params,
            engine_has_module,
            EngineOutcome::Faulted { gas_used: fault_gas },
        ) == Err::<Seq<u8>, BoundaryError>(BoundaryError::InternalFault),
        fault_gas matches Some(g) ==> spec_dispatch_gas(
            cache,
            gas_before,
            code_id,
            params,
            msg,
            uses_params,
            engine_has_module,
            EngineOutcome::Faulted { gas_used: fault_gas },
        ) == GasSlot::Reported(g),
        fault_gas is None ==> spec_dispatch_gas(
            cache,
            gas_before,
            code_id,
            params,
            msg,
            uses_params,
            engine_has_module,
            EngineOutcome::Faulted { gas_used: fault_gas },
        ) == gas_before,
{
}

/// Law: when the engine cannot acquire an instance for a call that passed
/// validation and resolution, the failure surfaces as an engine error with
/// the engine's own message and the gas-usage slot stays exactly as it was:
/// no consumption is invented for an execution that never began.
pub proof fn lemma_acquisition_failure_leaves_gas_unset(
    cache: cache_t,
    gas_before: GasSlot,
    code_id: Option<Seq<u8>>,
    params: Option<Seq<u8>>,
    msg: Option<Seq<u8>>,
    uses_params: bool,
    engine_has_module: bool,
    message: String,
)
    requires
        spec_prepare(cache, gas_before, code_id, params, msg, uses_params, engine_has_module)
            is Ok,
    ensures
        spec_dispatch_result(
            cache,
            gas_before,
            code_id,
            params,
            msg,
            uses_params,
            engine_has_module,
            EngineOutcome::AcquisitionFailed { message },
        ) == Err::<Seq<u8>, BoundaryError>(BoundaryError::EngineErr(message)),
        spec_dispatch_gas(
            cache,
            gas_before,
            code_id,
            params,
            msg,
            uses_params,
            engine_has_module,
            EngineOutcome::AcquisitionFailed { message },
        ) == gas_before,
{
}

} // verus!
