//! A typed, verified memory-access layer over a host that exposes the memory
//! of a live foreign process.
//!
//! The host hands out a small set of fallible primitives (attach, detach,
//! liveness check, raw byte copy, module and signature lookup); the `Host`
//! trait states their contract. On top of them the library builds typed
//! single-value reads, slice reads and multi-level pointer-path resolution,
//! all proved against a byte-level model of the target's address space.

pub mod host;
pub mod mock;
pub mod process;
pub mod sys;
pub mod timer;
pub mod value;

pub use host::Host;
pub use host::HostState;
pub use mock::MockHost;
pub use process::Process;
pub use sys::Address;
pub use sys::NonZeroAddress;
pub use sys::ProcessId;
pub use value::MemValue;

use vstd::prelude::*;

verus! {

/// The opaque failure marker: the requested memory operation could not be
/// completed. No distinction is made between unmapped memory, a terminated
/// process, a missing module or an empty pointer path.
#[derive(Clone, Copy, Debug)]
pub struct Error;

} // verus!
