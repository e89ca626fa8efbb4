//! The plain value types shared with the host: addresses in the target
//! process's address space and the opaque session identifier.

use vstd::prelude::*;

verus! {

/// A location in the target process's address space. It carries no validity
/// guarantee: it is only meaningful when paired with a live session, and is
/// never a pointer into this process.
///
/// The only supported arithmetic is adding an unsigned offset, which wraps
/// around the 64-bit address space and never faults.
#[derive(Debug, Copy, Clone, PartialEq, Eq, Structural)]
pub struct Address(pub u64);

/// `a + b` in the 64-bit address space: wraps around instead of faulting.
pub open spec fn wrap_add64(a: u64, b: u64) -> u64 {
    ((a + b) % 0x1_0000_0000_0000_0000) as u64
}

/// `a + b` in a 32-bit address space: wraps around instead of faulting.
pub open spec fn wrap_add32(a: u32, b: u32) -> u32 {
    ((a + b) % 0x1_0000_0000) as u32
}

/// `a + b` in a 32-bit address space, as an executable operation.
pub fn wadd32(a: u32, b: u32) -> (r: u32)
    ensures
        r == wrap_add32(a, b),
{
    a.wrapping_add(b)
}

/// Adding offsets one after the other lands where adding their sum does:
/// wraparound addition is associative.
pub proof fn lemma_wrap_add64_assoc(a: u64, b: u64, c: u64)
    requires
        b + c <= u64::MAX,
    ensures
        wrap_add64(wrap_add64(a, b), c) == wrap_add64(a, (b + c) as u64),
{
    let m: int = 0x1_0000_0000_0000_0000;
    vstd::arithmetic::div_mod::lemma_add_mod_noop(a + b, c as int, m);
    vstd::arithmetic::div_mod::lemma_small_mod(c as nat, m as nat);
}

impl Address {
    /// The address `offset` bytes past `self`, wrapping around the 64-bit
    /// address space.
    pub fn add_u64(self, offset: u64) -> (r: Address)
        ensures
            r.0 == wrap_add64(self.0, offset),
    {
        Address(self.0.wrapping_add(offset))
    }

    /// The address `offset` bytes past `self`, wrapping around the 64-bit
    /// address space.
    pub fn add_u32(self, offset: u32) -> (r: Address)
        ensures
            r.0 == wrap_add64(self.0, offset as u64),
    {
        Address(self.0.wrapping_add(offset as u64))
    }

    /// Widens a 32-bit address (zero-extension).
    pub fn from_u32(addr: u32) -> (r: Address)
        ensures
            r.0 == addr as u64,
    {
        Address(addr as u64)
    }

    /// Wraps a full 64-bit address.
    pub fn from_u64(addr: u64) -> (r: Address)
        ensures
            r.0 == addr,
    {
        Address(addr)
    }
}

impl From<u32> for Address {
    /// Widens a 32-bit address (zero-extension).
    fn from(addr: u32) -> (r: Address) {
        Address(addr as u64)
    }
}

impl vstd::std_specs::convert::FromSpecImpl<u32> for Address {
    open spec fn obeys_from_spec() -> bool {
        true
    }

    open spec fn from_spec(addr: u32) -> Address {
        Address(addr as u64)
    }
}

impl From<u64> for Address {
    /// Wraps a full 64-bit address.
    fn from(addr: u64) -> (r: Address) {
        Address(addr)
    }
}

impl vstd::std_specs::convert::FromSpecImpl<u64> for Address {
    open spec fn obeys_from_spec() -> bool {
        true
    }

    open spec fn from_spec(addr: u64) -> Address {
        Address(addr)
    }
}

/// An address that the host vouches is non-zero, as returned by module and
/// signature lookups. A zero answer from those primitives means "not found",
/// so a found address is always non-zero.
#[derive(Clone, Copy, Debug, PartialEq, Eq, Structural)]
pub struct NonZeroAddress {
    value: u64,
}

impl NonZeroAddress {
    #[verifier::type_invariant]
    pub closed spec fn inv(self) -> bool {
        self.value != 0
    }

    /// The underlying 64-bit address.
    pub closed spec fn spec_value(self) -> u64 {
        self.value
    }

    pub fn new(value: u64) -> (r: NonZeroAddress)
        requires
            value != 0,
        ensures
            r.spec_value() == value,
    {
        NonZeroAddress { value }
    }

    pub fn get(self) -> (r: u64)
        ensures
            r == self.spec_value(),
            r != 0,
    {
        proof {
            use_type_invariant(self);
        }
        self.value
    }
}

/// The raw timer-state word as the host's timer reports it: 0 for not
/// running, 1 for running, 2 for paused, 3 for ended. Decoding into the
/// typed state lives with the timer state type itself.
#[derive(Debug, Copy, Clone, PartialEq, Eq, Structural)]
pub struct TimerState(pub u32);

/// The host-assigned opaque identifier of one attachment session. Non-zero;
/// equality only, no arithmetic.
#[derive(Clone, Copy, Debug, PartialEq, Eq, Structural)]
pub struct ProcessId {
    value: u64,
}

impl ProcessId {
    #[verifier::type_invariant]
    pub closed spec fn inv(self) -> bool {
        self.value != 0
    }

    /// The underlying 64-bit identifier.
    pub closed spec fn spec_value(self) -> u64 {
        self.value
    }

    pub fn new(value: u64) -> (r: ProcessId)
        requires
            value != 0,
        ensures
            r.spec_value() == value,
    {
        ProcessId { value }
    }

    pub fn get(self) -> (r: u64)
        ensures
            r == self.spec_value(),
            r != 0,
    {
        proof {
            use_type_invariant(self);
        }
        self.value
    }
}

} // verus!
