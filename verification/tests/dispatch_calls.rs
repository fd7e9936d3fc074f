use wasmvm::buffer::TransferBuffer;
use wasmvm::cache::cache_t;
use wasmvm::dispatch::{create_code, execute, instantiate, migrate, query, EngineOutcome};
use wasmvm::error::{ErrorSlot, GasSlot};

fn slot_text(err: &ErrorSlot) -> String {
    match err {
        ErrorSlot::Present(buf) => match buf.read() {
            Some(bytes) => String::from_utf8(bytes.clone()).unwrap(),
            None => panic!("error slot holds the null sentinel, not a message"),
        },
        ErrorSlot::Missing => panic!("error slot is missing"),
    }
}

fn slot_is_cleared(err: &ErrorSlot) -> bool {
    match err {
        ErrorSlot::Present(buf) => buf.read().is_none(),
        ErrorSlot::Missing => false,
    }
}

fn fresh_slot() -> ErrorSlot {
    ErrorSlot::Present(TransferBuffer::Absent)
}

fn borrowed(bytes: &[u8]) -> TransferBuffer {
    TransferBuffer::Borrowed(bytes.to_vec())
}

const WASM: &[u8] = b"\x00asm\x01\x00\x00\x00";
const GAS_LIMIT: u64 = 5_000_000;

fn cache_with_module() -> (cache_t, Vec<u8>) {
    let mut err = fresh_slot();
    let mut cache = wasmvm::dispatch::init_cache(
        &borrowed(b"/tmp/x"),
        &borrowed(b"feature1,feature2"),
        &mut err,
    )
    .expect("valid arguments");
    let out = create_code(&mut cache, &borrowed(WASM), &mut err);
    let checksum = out.read().expect("checksum present").clone();
    let _ = out.release();
    (cache, checksum)
}

fn completed_ok(payload: &[u8], gas_used: u64) -> EngineOutcome {
    EngineOutcome::Completed {
        outcome: Ok(payload.to_vec()),
        gas_used,
    }
}

#[test]
fn instantiate_success_returns_payload_and_gas() {
    let (cache, checksum) = cache_with_module();
    let mut gas = GasSlot::Unset;
    let mut err = fresh_slot();
    let out = instantiate(
        &cache,
        &borrowed(&checksum),
        &borrowed(b"{\"params\":1}"),
        &borrowed(b"{\"msg\":2}"),
        GAS_LIMIT,
        false,
        completed_ok(b"result", 77),
        &mut gas,
        &mut err,
    );
    assert_eq!(out.read().unwrap(), &b"result".to_vec());
    assert_eq!(gas, GasSlot::Reported(77));
    assert!(slot_is_cleared(&err));
    let _ = out.release();
}

#[test]
fn execute_engine_failure_still_reports_gas() {
    let (cache, checksum) = cache_with_module();
    let mut gas = GasSlot::Unset;
    let mut err = fresh_slot();
    let out = execute(
        &cache,
        &borrowed(&checksum),
        &borrowed(b"{}"),
        &borrowed(b"{}"),
        GAS_LIMIT,
        false,
        EngineOutcome::Completed {
            outcome: Err("boom".to_string()),
            gas_used: 1234,
        },
        &mut gas,
        &mut err,
    );
    assert_eq!(out.read().unwrap().len(), 0);
    assert_eq!(gas, GasSlot::Reported(1234));
    assert_eq!(slot_text(&err), "Error calling the VM: boom");
}

#[test]
fn execute_panic_is_contained_and_gas_kept_if_readable() {
    let (cache, checksum) = cache_with_module();
    let mut gas = GasSlot::Unset;
    let mut err = fresh_slot();
    let out = execute(
        &cache,
        &borrowed(&checksum),
        &borrowed(b"{}"),
        &borrowed(b"{}"),
        GAS_LIMIT,
        false,
        EngineOutcome::Faulted { gas_used: Some(55) },
        &mut gas,
        &mut err,
    );
    assert_eq!(out.read().unwrap().len(), 0);
    assert_eq!(slot_text(&err), "Caught panic");
    assert_eq!(gas, GasSlot::Reported(55));
}

#[test]
fn execute_panic_without_readable_counter_leaves_gas_unset() {
    let (cache, checksum) = cache_with_module();
    let mut gas = GasSlot::Unset;
    let mut err = fresh_slot();
    let _ = execute(
        &cache,
        &borrowed(&checksum),
        &borrowed(b"{}"),
        &borrowed(b"{}"),
        GAS_LIMIT,
        false,
        EngineOutcome::Faulted { gas_used: None },
        &mut gas,
        &mut err,
    );
    assert_eq!(slot_text(&err), "Caught panic");
    assert_eq!(gas, GasSlot::Unset);
}

#[test]
fn dispatch_null_handle_yields_missing_cache_error() {
    let null_cache = cache_t::null();
    let checksum = [7u8; 32];
    for entry in 0..4u8 {
        let mut gas = GasSlot::Unset;
        let mut err = fresh_slot();
        let out = match entry {
            0 => instantiate(
                &null_cache,
                &borrowed(&checksum),
                &borrowed(b"{}"),
                &borrowed(b"{}"),
                GAS_LIMIT,
                false,
                completed_ok(b"x", 1),
                &mut gas,
                &mut err,
            ),
            1 => execute(
                &null_cache,
                &borrowed(&checksum),
                &borrowed(b"{}"),
                &borrowed(b"{}"),
                GAS_LIMIT,
                false,
                completed_ok(b"x", 1),
                &mut gas,
                &mut err,
            ),
            2 => migrate(
                &null_cache,
                &borrowed(&checksum),
                &borrowed(b"{}"),
                &borrowed(b"{}"),
                GAS_LIMIT,
                false,
                completed_ok(b"x", 1),
                &mut gas,
                &mut err,
            ),
            _ => query(
                &null_cache,
                &borrowed(&checksum),
                &borrowed(b"{}"),
                GAS_LIMIT,
                false,
                completed_ok(b"x", 1),
                &mut gas,
                &mut err,
            ),
        };
        assert_eq!(out.read().unwrap().len(), 0);
        assert_eq!(slot_text(&err), "Null/Empty argument: cache");
        assert_eq!(gas, GasSlot::Unset);
    }
}

#[test]
fn dispatch_empty_code_id_yields_missing_argument_error() {
    let (cache, _) = cache_with_module();
    for entry in 0..4u8 {
        let mut gas = GasSlot::Unset;
        let mut err = fresh_slot();
        let empty_id = borrowed(b"");
        let out = match entry {
            0 => instantiate(
                &cache,
                &empty_id,
                &borrowed(b"{}"),
                &borrowed(b"{}"),
                GAS_LIMIT,
                false,
                completed_ok(b"x", 1),
                &mut gas,
                &mut err,
            ),
            1 => execute(
                &cache,
                &empty_id,
                &borrowed(b"{}"),
                &borrowed(b"{}"),
                GAS_LIMIT,
                false,
                completed_ok(b"x", 1),
                &mut gas,
                &mut err,
            ),
            2 => migrate(
                &cache,
                &empty_id,
                &borrowed(b"{}"),
                &borrowed(b"{}"),
                GAS_LIMIT,
                false,
                completed_ok(b"x", 1),
                &mut gas,
                &mut err,
            ),
            _ => query(
                &cache,
                &empty_id,
                &borrowed(b"{}"),
                GAS_LIMIT,
                false,
                completed_ok(b"x", 1),
                &mut gas,
                &mut err,
            ),
        };
        assert_eq!(out.read().unwrap().len(), 0);
        assert_eq!(slot_text(&err), "Null/Empty argument: code_id");
        assert_eq!(gas, GasSlot::Unset);
    }
}

#[test]
fn dispatch_missing_gas_slot_is_rejected() {
    let (cache, checksum) = cache_with_module();
    let mut gas = GasSlot::Missing;
    let mut err = fresh_slot();
    let out = execute(
        &cache,
        &borrowed(&checksum),
        &borrowed(b"{}"),
        &borrowed(b"{}"),
        GAS_LIMIT,
        false,
        completed_ok(b"x", 1),
        &mut gas,
        &mut err,
    );
    assert_eq!(out.read().unwrap().len(), 0);
    assert_eq!(slot_text(&err), "Null/Empty argument: gas_used");
    assert_eq!(gas, GasSlot::Missing);
}

#[test]
fn instantiate_unknown_checksum_leaves_gas_unset() {
    let (cache, _) = cache_with_module();
    let never_stored = [9u8; 32];
    let mut gas = GasSlot::Unset;
    let mut err = fresh_slot();
    let out = instantiate(
        &cache,
        &borrowed(&never_stored),
        &borrowed(b"{}"),
        &borrowed(b"{}"),
        GAS_LIMIT,
        false,
        completed_ok(b"x", 1),
        &mut gas,
        &mut err,
    );
    assert_eq!(out.read().unwrap().len(), 0);
    assert_eq!(slot_text(&err), "Cache error: unknown checksum");
    assert_eq!(gas, GasSlot::Unset);
}

#[test]
fn instantiate_missing_params_is_rejected_but_query_needs_none() {
    let (cache, checksum) = cache_with_module();
    let mut gas = GasSlot::Unset;
    let mut err = fresh_slot();
    let out = instantiate(
        &cache,
        &borrowed(&checksum),
        &TransferBuffer::Absent,
        &borrowed(b"{}"),
        GAS_LIMIT,
        false,
        completed_ok(b"x", 1),
        &mut gas,
        &mut err,
    );
    assert_eq!(out.read().unwrap().len(), 0);
    assert_eq!(slot_text(&err), "Null/Empty argument: params");
    assert_eq!(gas, GasSlot::Unset);

    let mut gas = GasSlot::Unset;
    let mut err = fresh_slot();
    let out = query(
        &cache,
        &borrowed(&checksum),
        &borrowed(b"{\"q\":1}"),
        GAS_LIMIT,
        false,
        completed_ok(b"answer", 21),
        &mut gas,
        &mut err,
    );
    assert_eq!(out.read().unwrap(), &b"answer".to_vec());
    assert_eq!(gas, GasSlot::Reported(21));
    assert!(slot_is_cleared(&err));
}

#[test]
fn dispatch_empty_msg_is_rejected() {
    let (cache, checksum) = cache_with_module();
    let mut gas = GasSlot::Unset;
    let mut err = fresh_slot();
    let out = migrate(
        &cache,
        &borrowed(&checksum),
        &borrowed(b"{}"),
        &TransferBuffer::Absent,
        GAS_LIMIT,
        false,
        completed_ok(b"x", 1),
        &mut gas,
        &mut err,
    );
    assert_eq!(out.read().unwrap().len(), 0);
    assert_eq!(slot_text(&err), "Null/Empty argument: msg");
    assert_eq!(gas, GasSlot::Unset);
}

#[test]
fn execute_engine_resolved_module_is_accepted() {
    let (cache, _) = cache_with_module();
    let stored_elsewhere = [8u8; 32];
    let mut gas = GasSlot::Unset;
    let mut err = fresh_slot();
    let out = execute(
        &cache,
        &borrowed(&stored_elsewhere),
        &borrowed(b"{}"),
        &borrowed(b"{}"),
        GAS_LIMIT,
        true,
        completed_ok(b"res", 42),
        &mut gas,
        &mut err,
    );
    assert_eq!(out.read().unwrap(), &b"res".to_vec());
    assert_eq!(gas, GasSlot::Reported(42));
    assert!(slot_is_cleared(&err));
}

#[test]
fn execute_acquisition_failure_leaves_gas_unset() {
    let (cache, checksum) = cache_with_module();
    let mut gas = GasSlot::Unset;
    let mut err = fresh_slot();
    let out = execute(
        &cache,
        &borrowed(&checksum),
        &borrowed(b"{}"),
        &borrowed(b"{}"),
        GAS_LIMIT,
        false,
        EngineOutcome::AcquisitionFailed {
            message: "could not compile module".to_string(),
        },
        &mut gas,
        &mut err,
    );
    assert_eq!(out.read().unwrap().len(), 0);
    assert_eq!(slot_text(&err), "Error calling the VM: could not compile module");
    assert_eq!(gas, GasSlot::Unset);
}
