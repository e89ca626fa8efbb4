//! The boundary contract between this library and the host environment that
//! owns the actual process handle and memory.
//!
//! The host hands the plugin six primitive operations (attach, detach,
//! liveness check, raw byte copy, module lookup, signature lookup); this
//! module states what each one does over a byte-level model of the host's
//! visible state. Everything else in the library is proved against this
//! contract alone, so it can be exercised against an in-process mock exactly
//! as against the live host adapter.

use vstd::prelude::*;
use crate::sys::Address;
use crate::sys::NonZeroAddress;
use crate::sys::ProcessId;
use crate::sys::wrap_add64;

verus! {

/// The host's visible state at one instant: whether the attached process is
/// live, which bytes of its address space are mapped and what they hold, and
/// the name tables the lookup primitives answer from. Mutation from outside
/// this interface (the target writing its own memory, the process dying)
/// happens between calls, never during one: each primitive is a single
/// bounded, synchronous operation.
pub struct HostState {
    /// Whether the attached process is currently live.
    pub live: bool,
    /// The mapped bytes of the target's address space.
    pub mem: Map<u64, u8>,
    /// Attachable process names and the non-zero session id each would get.
    pub procs: Map<Seq<char>, u64>,
    /// Loaded module names and their non-zero base addresses.
    pub modules: Map<Seq<char>, u64>,
    /// Known signature patterns and their non-zero match addresses.
    pub signatures: Map<Seq<char>, u64>,
}

/// Every byte of `addr .. addr + len` (wrapping around the 64-bit address
/// space) is mapped in `m`.
pub open spec fn readable(m: Map<u64, u8>, addr: u64, len: nat) -> bool {
    forall|i: int| 0 <= i < len ==> m.contains_key(#[trigger] wrap_add64(addr, i as u64))
}

/// The `len` bytes of `m` starting at `addr`, wrapping around the 64-bit
/// address space.
pub open spec fn bytes_of(m: Map<u64, u8>, addr: u64, len: nat) -> Seq<u8> {
    Seq::new(len, |i: int| m[wrap_add64(addr, i as u64)])
}

/// The six host primitives, with the contract this library relies on.
///
/// Each call is a single attempt with no internal retry. The ghost `reads`
/// and `detaches` counters record how many byte copies and detachments the
/// host has been asked for, so that callers can account for every foreign
/// call they cause. A byte copy may always fail (the host decides); what the
/// contract fixes is that a copy of mapped memory in a live session succeeds,
/// that a successful copy returns exactly the mapped bytes, and that a failed
/// copy leaves the caller's buffer untouched.
pub trait Host {
    /// The host's visible state.
    spec fn st(&self) -> HostState;

    /// How many byte-copy calls have been issued to this host.
    spec fn reads(&self) -> nat;

    /// How many detach calls have been issued to this host.
    spec fn detaches(&self) -> nat;

    /// Attaches to a process by name: one attempt, no retry. Succeeds
    /// exactly when the host knows a live process of that name, and then
    /// returns its non-zero session id.
    fn attach(&mut self, name: &str) -> (r: Option<ProcessId>)
        ensures
            final(self).st() == old(self).st(),
            final(self).reads() == old(self).reads(),
            final(self).detaches() == old(self).detaches(),
            r is Some <==> old(self).st().procs.contains_key(name@),
            r matches Some(pid) ==> pid.spec_value() == old(self).st().procs[name@],
    ;

    /// Detaches the session. Must be issued exactly once per session; the
    /// counter lets callers account for that.
    fn detach(&mut self, pid: ProcessId)
        ensures
            final(self).st() == old(self).st(),
            final(self).reads() == old(self).reads(),
            final(self).detaches() == old(self).detaches() + 1,
    ;

    /// Reports whether the attached process is live right now; never cached.
    fn is_open(&mut self, pid: ProcessId) -> (r: bool)
        ensures
            final(self).st() == old(self).st(),
            final(self).reads() == old(self).reads(),
            final(self).detaches() == old(self).detaches(),
            r == old(self).st().live,
    ;

    /// Copies `buf.len()` bytes starting at `addr` out of the target into
    /// `buf`, or fails as a unit: on failure the buffer is untouched. A copy
    /// of fully mapped memory in a live session succeeds; any copy may fail
    /// once the process is gone or the range is unmapped.
    fn read_mem(&mut self, pid: ProcessId, addr: Address, buf: &mut Vec<u8>) -> (ok: bool)
        ensures
            final(self).st() == old(self).st(),
            final(self).detaches() == old(self).detaches(),
            final(self).reads() == old(self).reads() + 1,
            final(buf)@.len() == old(buf)@.len(),
            ok ==> old(self).st().live && readable(
                old(self).st().mem,
                addr.0,
                old(buf)@.len() as nat,
            ) && final(buf)@ == bytes_of(old(self).st().mem, addr.0, old(buf)@.len() as nat),
            old(self).st().live && readable(old(self).st().mem, addr.0, old(buf)@.len() as nat)
                ==> ok,
            !ok ==> final(buf)@ == old(buf)@,
    ;

    /// Base address of a named loaded module, if any; never zero.
    fn module_address(&mut self, pid: ProcessId, name: &str) -> (r: Option<NonZeroAddress>)
        ensures
            final(self).st() == old(self).st(),
            final(self).reads() == old(self).reads(),
            final(self).detaches() == old(self).detaches(),
            r is Some <==> old(self).st().modules.contains_key(name@),
            r matches Some(a) ==> a.spec_value() == old(self).st().modules[name@],
    ;

    /// Address of the first match of a byte-pattern signature, if any; never
    /// zero. The pattern grammar is the host's own.
    fn scan_signature(&mut self, pid: ProcessId, signature: &str) -> (r: Option<NonZeroAddress>)
        ensures
            final(self).st() == old(self).st(),
            final(self).reads() == old(self).reads(),
            final(self).detaches() == old(self).detaches(),
            r is Some <==> old(self).st().signatures.contains_key(signature@),
            r matches Some(a) ==> a.spec_value() == old(self).st().signatures[signature@],
    ;
}

} // verus!
