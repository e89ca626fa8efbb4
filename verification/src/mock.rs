//! An in-process host, for exercising the library without a foreign process.
//!
//! `MockHost` implements the `Host` boundary contract over plain data: a byte
//! image of the target's address space, name tables for processes, modules
//! and signatures, and a liveness flag that can be flipped between calls. It
//! also counts every byte-copy and detach call it receives, so a caller can
//! check how many foreign calls an operation issued.

use vstd::prelude::*;
use std::collections::HashMap;
use crate::host::Host;
use crate::host::HostState;
use crate::host::bytes_of;
use crate::host::readable;
use crate::sys::Address;
use crate::sys::NonZeroAddress;
use crate::sys::ProcessId;
use crate::sys::wrap_add64;

verus! {

broadcast use
    vstd::std_specs::hash::group_hash_axioms,
    vstd::string::to_string_from_display_ensures_for_str,
;

/// The map a name table denotes: entries are added left to right, so a later
/// entry for the same name wins.
pub open spec fn table_map(entries: Seq<(String, u64)>) -> Map<Seq<char>, u64>
    decreases entries.len(),
{
    if entries.len() == 0 {
        Map::empty()
    } else {
        table_map(entries.drop_last()).insert(entries.last().0@, entries.last().1)
    }
}

/// Entries at or past `i` that never mention `name` cannot affect what the
/// table says about `name`.
proof fn lemma_table_skip(entries: Seq<(String, u64)>, name: Seq<char>, i: int)
    requires
        0 <= i <= entries.len(),
        forall|j: int| i <= j < entries.len() ==> (#[trigger] entries[j].0)@ != name,
    ensures
        table_map(entries).contains_key(name) == table_map(entries.take(i)).contains_key(name),
        table_map(entries).contains_key(name) ==> table_map(entries)[name] == table_map(
            entries.take(i),
        )[name],
    decreases entries.len() - i,
{
    if i < entries.len() {
        let shorter = entries.drop_last();
        assert(entries.last().0@ != name);
        lemma_table_skip(shorter, name, i);
        assert(shorter.take(i) =~= entries.take(i));
    } else {
        assert(entries.take(i) =~= entries);
    }
}

/// The memory image after the first `count` bytes of `data` have been laid
/// down one at a time starting at `addr` (wrapping around the 64-bit address
/// space); a later byte wins if the range wraps onto itself.
pub open spec fn written_map(mem: Map<u64, u8>, addr: u64, data: Seq<u8>, count: int) -> Map<
    u64,
    u8,
>
    decreases count,
{
    if count <= 0 {
        mem
    } else {
        written_map(mem, addr, data, count - 1).insert(
            wrap_add64(addr, (count - 1) as u64),
            data[count - 1],
        )
    }
}

/// Looks a name up in a table, last matching entry first.
fn table_lookup(entries: &Vec<(String, u64)>, name: &str) -> (r: Option<u64>)
    ensures
        r is Some <==> table_map(entries@).contains_key(name@),
        r matches Some(v) ==> v == table_map(entries@)[name@] && exists|j: int|
            0 <= j < entries@.len() && (#[trigger] entries@[j]).1 == v,
{
    let key: String = name.to_string();
    let mut i: usize = entries.len();
    while i > 0
        invariant
            i <= entries@.len(),
            key@ == name@,
            forall|j: int| i <= j < entries@.len() ==> (#[trigger] entries@[j].0)@ != name@,
        decreases i,
    {
        i = i - 1;
        let entry = &entries[i];
        if entry.0 == key {
            proof {
                let upto = entries@.take(i + 1);
                assert(upto.drop_last() =~= entries@.take(i as int));
                assert(table_map(upto) == table_map(entries@.take(i as int)).insert(
                    entries@[i as int].0@,
                    entries@[i as int].1,
                ));
                lemma_table_skip(entries@, name@, i + 1);
            }
            return Some(entry.1);
        }
    }
    proof {
        lemma_table_skip(entries@, name@, 0);
        assert(entries@.take(0) =~= Seq::<(String, u64)>::empty());
    }
    None
}

/// A call counter that never loses the true count: the executable value
/// saturates at `u64::MAX`, the ghost shadow is exact and the two agree as
/// long as the true count still fits.
struct CallCounter {
    calls: u64,
    total: Ghost<nat>,
}

impl CallCounter {
    #[verifier::type_invariant]
    closed spec fn inv(self) -> bool {
        self.total@ <= u64::MAX ==> self.calls == self.total@
    }

    /// The exact number of calls counted.
    closed spec fn total_spec(self) -> nat {
        self.total@
    }

    fn new() -> (r: CallCounter)
        ensures
            r.total_spec() == 0,
    {
        CallCounter { calls: 0, total: Ghost(0) }
    }

    fn bump(&mut self)
        ensures
            final(self).total_spec() == old(self).total_spec() + 1,
        no_unwind
    {
        proof {
            use_type_invariant(&*self);
        }
        let next = if self.calls < u64::MAX {
            self.calls + 1
        } else {
            u64::MAX
        };
        let ghost exact = self.total@ + 1;
        *self = CallCounter { calls: next, total: Ghost(exact) };
    }

    fn get(&self) -> (r: u64)
        ensures
            self.total_spec() <= u64::MAX ==> r == self.total_spec(),
    {
        proof {
            use_type_invariant(self);
        }
        self.calls
    }
}

/// A host whose whole state is plain local data.
pub struct MockHost {
    live: bool,
    procs: Vec<(String, u64)>,
    modules: Vec<(String, u64)>,
    signatures: Vec<(String, u64)>,
    mem: HashMap<u64, u8>,
    reads_ctr: CallCounter,
    detaches_ctr: CallCounter,
}

impl MockHost {
    /// Every name table holds only non-zero ids or addresses, as the host
    /// interface promises.
    #[verifier::type_invariant]
    closed spec fn inv(self) -> bool {
        &&& forall|j: int| 0 <= j < self.procs@.len() ==> (#[trigger] self.procs@[j]).1 != 0
        &&& forall|j: int| 0 <= j < self.modules@.len() ==> (#[trigger] self.modules@[j]).1 != 0
        &&& forall|j: int|
            0 <= j < self.signatures@.len() ==> (#[trigger] self.signatures@[j]).1 != 0
    }

    /// An empty, live host: nothing attachable, nothing mapped, no calls
    /// received yet.
    pub fn new() -> (r: MockHost)
        ensures
            r.st().live,
            r.st().mem == Map::<u64, u8>::empty(),
            r.st().procs == Map::<Seq<char>, u64>::empty(),
            r.st().modules == Map::<Seq<char>, u64>::empty(),
            r.st().signatures == Map::<Seq<char>, u64>::empty(),
            r.reads() == 0,
            r.detaches() == 0,
    {
        MockHost {
            live: true,
            procs: Vec::new(),
            modules: Vec::new(),
            signatures: Vec::new(),
            mem: HashMap::new(),
            reads_ctr: CallCounter::new(),
            detaches_ctr: CallCounter::new(),
        }
    }

    /// Flips the liveness flag, as the target terminating (or restarting)
    /// between two calls would.
    pub fn set_live(&mut self, live: bool)
        ensures
            final(self).st() == (HostState { live, ..old(self).st() }),
            final(self).reads() == old(self).reads(),
            final(self).detaches() == old(self).detaches(),
    {
        proof {
            use_type_invariant(&*self);
        }
        self.live = live;
    }

    /// Declares a process that `attach` will find under `name`, with the
    /// non-zero session id it will hand out.
    pub fn add_process(&mut self, name: &str, pid: u64)
        requires
            pid != 0,
        ensures
            final(self).st() == (HostState {
                procs: old(self).st().procs.insert(name@, pid),
                ..old(self).st()
            }),
            final(self).reads() == old(self).reads(),
            final(self).detaches() == old(self).detaches(),
    {
        proof {
            use_type_invariant(&*self);
        }
        let ghost before = self.procs@;
        let mut table: Vec<(String, u64)> = Vec::new();
        core::mem::swap(&mut table, &mut self.procs);
        table.push((name.to_string(), pid));
        core::mem::swap(&mut table, &mut self.procs);
        proof {
            assert(self.procs@.drop_last() =~= before);
        }
    }

    /// Declares a loaded module with its non-zero base address.
    pub fn add_module(&mut self, name: &str, address: u64)
        requires
            address != 0,
        ensures
            final(self).st() == (HostState {
                modules: old(self).st().modules.insert(name@, address),
                ..old(self).st()
            }),
            final(self).reads() == old(self).reads(),
            final(self).detaches() == old(self).detaches(),
    {
        proof {
            use_type_invariant(&*self);
        }
        let ghost before = self.modules@;
        let mut table: Vec<(String, u64)> = Vec::new();
        core::mem::swap(&mut table, &mut self.modules);
        table.push((name.to_string(), address));
        core::mem::swap(&mut table, &mut self.modules);
        proof {
            assert(self.modules@.drop_last() =~= before);
        }
    }

    /// Declares a signature pattern with its non-zero match address.
    pub fn add_signature(&mut self, pattern: &str, address: u64)
        requires
            address != 0,
        ensures
            final(self).st() == (HostState {
                signatures: old(self).st().signatures.insert(pattern@, address),
                ..old(self).st()
            }),
            final(self).reads() == old(self).reads(),
            final(self).detaches() == old(self).detaches(),
    {
        proof {
            use_type_invariant(&*self);
        }
        let ghost before = self.signatures@;
        let mut table: Vec<(String, u64)> = Vec::new();
        core::mem::swap(&mut table, &mut self.signatures);
        table.push((pattern.to_string(), address));
        core::mem::swap(&mut table, &mut self.signatures);
        proof {
            assert(self.signatures@.drop_last() =~= before);
        }
    }

    /// Maps the bytes of `data` at `addr .. addr + data.len()` (wrapping),
    /// leaving every other address as it was.
    pub fn write_bytes(&mut self, addr: u64, data: &Vec<u8>)
        ensures
            final(self).reads() == old(self).reads(),
            final(self).detaches() == old(self).detaches(),
            final(self).st().live == old(self).st().live,
            final(self).st().procs == old(self).st().procs,
            final(self).st().modules == old(self).st().modules,
            final(self).st().signatures == old(self).st().signatures,
            final(self).st().mem == written_map(
                old(self).st().mem,
                addr,
                data@,
                data@.len() as int,
            ),
    {
        proof {
            use_type_invariant(&*self);
        }
        let ghost mem0 = self.mem@;
        let mut image: HashMap<u64, u8> = HashMap::new();
        core::mem::swap(&mut image, &mut self.mem);
        let ghost me = *self;
        let n = data.len();
        let mut i: usize = 0;
        while i < n
            invariant
                n == data@.len(),
                i <= n,
                *self == me,
                me.live == old(self).live,
                me.procs == old(self).procs,
                me.modules == old(self).modules,
                me.signatures == old(self).signatures,
                me.reads_ctr == old(self).reads_ctr,
                me.detaches_ctr == old(self).detaches_ctr,
                mem0 == old(self).mem@,
                image@ == written_map(mem0, addr, data@, i as int),
            decreases n - i,
        {
            let target = Address::from_u64(addr).add_u64(i as u64);
            let value = data[i];
            image.insert(target.0, value);
            i = i + 1;
        }
        core::mem::swap(&mut image, &mut self.mem);
    }

    /// Maps one byte.
    pub fn write_byte(&mut self, addr: u64, value: u8)
        ensures
            final(self).reads() == old(self).reads(),
            final(self).detaches() == old(self).detaches(),
            final(self).st().live == old(self).st().live,
            final(self).st().procs == old(self).st().procs,
            final(self).st().modules == old(self).st().modules,
            final(self).st().signatures == old(self).st().signatures,
            final(self).st().mem == old(self).st().mem.insert(addr, value),
    {
        proof {
            use_type_invariant(&*self);
        }
        let mut image: HashMap<u64, u8> = HashMap::new();
        core::mem::swap(&mut image, &mut self.mem);
        image.insert(addr, value);
        core::mem::swap(&mut image, &mut self.mem);
    }

    /// How many byte-copy calls this host has received (saturating).
    pub fn read_count(&self) -> (r: u64)
        ensures
            self.reads() <= u64::MAX ==> r == self.reads(),
    {
        self.reads_ctr.get()
    }

    /// How many detach calls this host has received (saturating).
    pub fn detach_count(&self) -> (r: u64)
        ensures
            self.detaches() <= u64::MAX ==> r == self.detaches(),
    {
        self.detaches_ctr.get()
    }
}

impl Host for MockHost {
    closed spec fn st(&self) -> HostState {
        HostState {
            live: self.live,
            mem: self.mem@,
            procs: table_map(self.procs@),
            modules: table_map(self.modules@),
            signatures: table_map(self.signatures@),
        }
    }

    closed spec fn reads(&self) -> nat {
        self.reads_ctr.total_spec()
    }

    closed spec fn detaches(&self) -> nat {
        self.detaches_ctr.total_spec()
    }

    fn attach(&mut self, name: &str) -> (r: Option<ProcessId>) {
        proof {
            use_type_invariant(&*self);
        }
        match table_lookup(&self.procs, name) {
            Some(pid) => Some(ProcessId::new(pid)),
            None => None,
        }
    }

    fn detach(&mut self, pid: ProcessId) {
        proof {
            use_type_invariant(&*self);
        }
        self.detaches_ctr.bump();
    }

    fn is_open(&mut self, pid: ProcessId) -> (r: bool) {
        self.live
    }

    fn read_mem(&mut self, pid: ProcessId, addr: Address, buf: &mut Vec<u8>) -> (ok: bool) {
        proof {
            use_type_invariant(&*self);
        }
        self.reads_ctr.bump();
        if !self.live {
            return false;
        }
        let ghost me = *self;
        let n = buf.len();
        let mut collected: Vec<u8> = Vec::new();
        let mut i: usize = 0;
        while i < n
            invariant
                i <= n,
                *self == me,
                me.st() == old(self).st(),
                me.reads() == old(self).reads() + 1,
                me.detaches() == old(self).detaches(),
                me.live,
                n == old(buf)@.len(),
                collected@.len() == i,
                forall|j: int|
                    0 <= j < i ==> me.mem@.contains_key(#[trigger] wrap_add64(addr.0, j as u64))
                        && collected@[j] == me.mem@[wrap_add64(addr.0, j as u64)],
            decreases n - i,
        {
            let target = Address::from_u64(addr.0).add_u64(i as u64);
            match self.mem.get(&target.0) {
                Some(value) => {
                    collected.push(*value);
                    i = i + 1;
                },
                None => {
                    proof {
                        assert(!readable(me.mem@, addr.0, n as nat));
                    }
                    return false;
                },
            }
        }
        proof {
            assert(collected@ =~= bytes_of(me.mem@, addr.0, n as nat));
            assert(readable(me.mem@, addr.0, n as nat));
        }
        *buf = collected;
        true
    }

    fn module_address(&mut self, pid: ProcessId, name: &str) -> (r: Option<NonZeroAddress>) {
        proof {
            use_type_invariant(&*self);
        }
        match table_lookup(&self.modules, name) {
            Some(address) => Some(NonZeroAddress::new(address)),
            None => None,
        }
    }

    fn scan_signature(&mut self, pid: ProcessId, signature: &str) -> (r: Option<NonZeroAddress>) {
        proof {
            use_type_invariant(&*self);
        }
        match table_lookup(&self.signatures, signature) {
            Some(address) => Some(NonZeroAddress::new(address)),
            None => None,
        }
    }
}

} // verus!
