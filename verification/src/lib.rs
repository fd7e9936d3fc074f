//! Safety boundary between a managed host runtime and a sandboxed
//! smart-contract virtual machine.
//!
//! The host drives contract lifecycle operations (create, instantiate,
//! execute, migrate, query) across a foreign-function boundary. This crate
//! holds the verified core of that boundary: the ownership-explicit transfer
//! buffers, the error channel, the content-hash keyed module store behind the
//! opaque cache handle, and the dispatch state machine that sequences
//! validation, engine invocation and unconditional gas reporting.
//!
//! The virtual-machine engine itself and the host-supplied storage, API and
//! querier backends are external collaborators: they appear here only through
//! their interface (an engine outcome handed back to the dispatch logic).

pub mod buffer;
pub mod cache;
pub mod checksum;
pub mod dispatch;
pub mod error;
