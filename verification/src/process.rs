//! The handle to one attachment session, and every memory operation that may
//! be issued through it.
//!
//! A `Process` owns the host-assigned session id. It is created by `attach`,
//! consumed by `detach` (so a detachment can never be issued twice), and all
//! reads in between go through the `Host` byte channel it is given.

use vstd::prelude::*;
use vstd::bytes::spec_u32_from_le_bytes;
use vstd::bytes::spec_u64_from_le_bytes;
use vstd::slice::slice_index_get;
use crate::Error;
use crate::host::Host;
use crate::host::bytes_of;
use crate::host::readable;
use crate::sys::Address;
use crate::sys::ProcessId;
use crate::sys::lemma_wrap_add64_assoc;
use crate::sys::wadd32;
use crate::sys::wrap_add32;
use crate::sys::wrap_add64;
use crate::value::MemValue;

verus! {

/// The pointer value the 64-bit resolver holds just before consuming
/// `path[i]`: the base for the first offset, afterwards the little-endian
/// 64-bit value read at the previous step's address.
pub open spec fn cursor64(m: Map<u64, u8>, base: u64, path: Seq<u64>, i: int) -> u64
    decreases i, 0int,
{
    if i <= 0 {
        base
    } else {
        spec_u64_from_le_bytes(bytes_of(m, step_addr64(m, base, path, i - 1), 8))
    }
}

/// The address the 64-bit resolver reads at step `i`: the cursor plus
/// `path[i]`, wrapping. Steps before the last read an 8-byte pointer there;
/// the last step reads the caller's requested type there.
pub open spec fn step_addr64(m: Map<u64, u8>, base: u64, path: Seq<u64>, i: int) -> u64
    decreases i, 1int,
{
    wrap_add64(cursor64(m, base, path, i), path[i])
}

/// The first `k` intermediate pointers of the 64-bit chain are all mapped.
pub open spec fn chain_readable64(m: Map<u64, u8>, base: u64, path: Seq<u64>, k: int) -> bool {
    forall|j: int| 0 <= j < k ==> readable(m, #[trigger] step_addr64(m, base, path, j), 8)
}

/// The pointer value the 32-bit resolver holds just before consuming
/// `path[i]`: as `cursor64`, but all arithmetic is 32-bit and intermediate
/// pointers are little-endian 32-bit values, zero-extended only to address
/// the foreign read.
pub open spec fn cursor32(m: Map<u64, u8>, base: u32, path: Seq<u32>, i: int) -> u32
    decreases i, 0int,
{
    if i <= 0 {
        base
    } else {
        spec_u32_from_le_bytes(bytes_of(m, step_addr32(m, base, path, i - 1) as u64, 4))
    }
}

/// The 32-bit address the 32-bit resolver reads at step `i`, before
/// zero-extension to the full address space.
pub open spec fn step_addr32(m: Map<u64, u8>, base: u32, path: Seq<u32>, i: int) -> u32
    decreases i, 1int,
{
    wrap_add32(cursor32(m, base, path, i), path[i])
}

/// The first `k` intermediate pointers of the 32-bit chain are all mapped.
pub open spec fn chain_readable32(m: Map<u64, u8>, base: u32, path: Seq<u32>, k: int) -> bool {
    forall|j: int| 0 <= j < k ==> readable(m, #[trigger] step_addr32(m, base, path, j) as u64, 4)
}

/// Ownership of one attachment session to a foreign process.
///
/// The handle does not track liveness: whether the target is still running is
/// a mutable external fact, polled through `is_open` or discovered when a
/// read fails. Detachment is issued exactly once, by `detach`, which consumes
/// the handle; no operation can be issued through a handle that has been
/// released, because it no longer exists.
#[derive(Debug, PartialEq, Eq, Structural)]
pub struct Process {
    pid: ProcessId,
}

impl Process {
    /// The session id this handle owns.
    pub closed spec fn id(&self) -> u64 {
        self.pid.spec_value()
    }

    /// Attaches to a process by name: a single attempt, no retry. Returns a
    /// handle exactly when the host knows a live process of that name.
    pub fn attach<H: Host>(host: &mut H, name: &str) -> (r: Option<Process>)
        ensures
            final(host).st() == old(host).st(),
            final(host).reads() == old(host).reads(),
            final(host).detaches() == old(host).detaches(),
            r is Some <==> old(host).st().procs.contains_key(name@),
            r matches Some(p) ==> p.id() == old(host).st().procs[name@],
    {
        match host.attach(name) {
            Some(pid) => Some(Process { pid }),
            None => None,
        }
    }

    /// Releases the session: issues exactly one detach call, and consumes
    /// the handle so that no further operation, and no second detachment,
    /// can ever be issued through it.
    pub fn detach<H: Host>(self, host: &mut H)
        ensures
            final(host).st() == old(host).st(),
            final(host).reads() == old(host).reads(),
            final(host).detaches() == old(host).detaches() + 1,
    {
        host.detach(self.pid)
    }

    /// Asks the host whether the target is live right now. Nothing is
    /// cached: the answer is the host's flag at call time, every time.
    pub fn is_open<H: Host>(&self, host: &mut H) -> (r: bool)
        ensures
            final(host).st() == old(host).st(),
            final(host).reads() == old(host).reads(),
            final(host).detaches() == old(host).detaches(),
            r == old(host).st().live,
    {
        host.is_open(self.pid)
    }

    /// Resolves the base address of a named loaded module. Fails exactly
    /// when no such module is loaded; a resolved address is never zero.
    pub fn get_module<H: Host>(&self, host: &mut H, name: &str) -> (r: Result<Address, Error>)
        ensures
            final(host).st() == old(host).st(),
            final(host).reads() == old(host).reads(),
            final(host).detaches() == old(host).detaches(),
            r is Ok <==> old(host).st().modules.contains_key(name@),
            r matches Ok(a) ==> a.0 == old(host).st().modules[name@] && a.0 != 0,
    {
        match host.module_address(self.pid, name) {
            Some(address) => Ok(Address(address.get())),
            None => Err(Error),
        }
    }

    /// Finds the first match of a byte-pattern signature in the target.
    /// Fails exactly when the host reports no match; a match is never at
    /// address zero. The pattern grammar is owned by the host.
    pub fn scan_signature<H: Host>(&self, host: &mut H, signature: &str) -> (r: Result<
        Address,
        Error,
    >)
        ensures
            final(host).st() == old(host).st(),
            final(host).reads() == old(host).reads(),
            final(host).detaches() == old(host).detaches(),
            r is Ok <==> old(host).st().signatures.contains_key(signature@),
            r matches Ok(a) ==> a.0 == old(host).st().signatures[signature@] && a.0 != 0,
    {
        match host.scan_signature(self.pid, signature) {
            Some(address) => Ok(Address(address.get())),
            None => Err(Error),
        }
    }

    /// Copies `buf.len()` raw bytes out of the target, starting at
    /// `address`, into `buf`. This is the single chokepoint every other read
    /// is built on: it issues exactly one foreign call, succeeds exactly when
    /// the session is live and the whole range is mapped, and on failure
    /// leaves `buf` untouched.
    pub fn read_into_buf<H: Host>(
        &self,
        host: &mut H,
        address: Address,
        buf: &mut Vec<u8>,
    ) -> (r: Result<(), Error>)
        ensures
            final(host).st() == old(host).st(),
            final(host).detaches() == old(host).detaches(),
            final(host).reads() == old(host).reads() + 1,
            final(buf)@.len() == old(buf)@.len(),
            r is Ok <==> old(host).st().live && readable(
                old(host).st().mem,
                address.0,
                old(buf)@.len() as nat,
            ),
            r is Ok ==> final(buf)@ == bytes_of(
                old(host).st().mem,
                address.0,
                old(buf)@.len() as nat,
            ),
            r is Err ==> final(buf)@ == old(buf)@,
    {
        if host.read_mem(self.pid, address, buf) {
            Ok(())
        } else {
            Err(Error)
        }
    }

    /// Reads one value of type `T` at `address`. One foreign call; succeeds
    /// exactly when the session is live and all `T::size_spec()` bytes are
    /// mapped, and then returns the value those bytes denote. On failure no
    /// value of type `T` is ever observed: the read fails as a unit.
    pub fn read<T: MemValue, H: Host>(&self, host: &mut H, address: Address) -> (r: Result<
        T,
        Error,
    >)
        ensures
            final(host).st() == old(host).st(),
            final(host).detaches() == old(host).detaches(),
            final(host).reads() == old(host).reads() + 1,
            r is Ok <==> old(host).st().live && readable(
                old(host).st().mem,
                address.0,
                T::size_spec(),
            ),
            r matches Ok(v) ==> v == T::decode_spec(
                bytes_of(old(host).st().mem, address.0, T::size_spec()),
            ),
    {
        let n = T::byte_size();
        let mut buf: Vec<u8> = Vec::new();
        let mut filled: usize = 0;
        while filled < n
            invariant
                buf@.len() == filled,
                filled <= n,
            decreases n - filled,
        {
            buf.push(0);
            filled = filled + 1;
        }
        match self.read_into_buf(host, address, &mut buf) {
            Ok(()) => Ok(T::decode(buf.as_slice())),
            Err(e) => Err(e),
        }
    }

    /// Reads `out.len()` consecutive values of type `T` starting at
    /// `address`, with one foreign call for the whole range. Either every
    /// element of `out` is replaced by the value its bytes denote, or the
    /// read fails as a unit and `out` is untouched: no partially populated
    /// sequence is ever observed.
    pub fn read_into_slice<T: MemValue, H: Host>(
        &self,
        host: &mut H,
        address: Address,
        out: &mut Vec<T>,
    ) -> (r: Result<(), Error>)
        requires
            old(out)@.len() * T::size_spec() <= usize::MAX,
        ensures
            final(host).st() == old(host).st(),
            final(host).detaches() == old(host).detaches(),
            final(host).reads() == old(host).reads() + 1,
            final(out)@.len() == old(out)@.len(),
            r is Ok <==> old(host).st().live && readable(
                old(host).st().mem,
                address.0,
                old(out)@.len() * T::size_spec(),
            ),
            r is Ok ==> forall|i: int|
                0 <= i < old(out)@.len() ==> final(out)@[i] == T::decode_spec(
                    bytes_of(
                        old(host).st().mem,
                        wrap_add64(address.0, (i * T::size_spec()) as u64),
                        T::size_spec(),
                    ),
                ),
            r is Err ==> final(out)@ == old(out)@,
    {
        let ghost m = host.st().mem;
        let count = out.len();
        let size = T::byte_size();
        let total = count * size;
        let mut buf: Vec<u8> = Vec::new();
        let mut filled: usize = 0;
        while filled < total
            invariant
                buf@.len() == filled,
                filled <= total,
            decreases total - filled,
        {
            buf.push(0);
            filled = filled + 1;
        }
        match self.read_into_buf(host, address, &mut buf) {
            Err(e) => Err(e),
            Ok(()) => {
                let mut decoded: Vec<T> = Vec::new();
                let mut i: usize = 0;
                while i < count
                    invariant
                        decoded@.len() == i,
                        i <= count,
                        size as nat == T::size_spec(),
                        total == count * size,
                        total <= usize::MAX,
                        buf@.len() == total,
                        buf@ == bytes_of(m, address.0, total as nat),
                        forall|j: int|
                            0 <= j < i ==> decoded@[j] == T::decode_spec(
                                bytes_of(
                                    m,
                                    wrap_add64(address.0, (j * T::size_spec()) as u64),
                                    T::size_spec(),
                                ),
                            ),
                    decreases count - i,
                {
                    proof {
                        assert(i * size + size <= count * size) by (nonlinear_arith)
                            requires
                                i < count,
                                0 <= size,
                                0 <= i,
                        ;
                        assert(0 <= i * size) by (nonlinear_arith)
                            requires
                                0 <= i,
                                0 <= size,
                        ;
                    }
                    let piece = vstd::slice::slice_subrange(buf.as_slice(), i * size, i * size + size);
                    let v = T::decode(piece);
                    proof {
                        let start = (i * size) as int;
                        assert forall|k: int| 0 <= k < size implies piece@[k] == bytes_of(
                            m,
                            wrap_add64(address.0, start as u64),
                            T::size_spec(),
                        )[k] by {
                            lemma_wrap_add64_assoc(address.0, start as u64, k as u64);
                        }
                        assert(piece@ =~= bytes_of(
                            m,
                            wrap_add64(address.0, start as u64),
                            T::size_spec(),
                        ));
                    }
                    decoded.push(v);
                    i = i + 1;
                }
                *out = decoded;
                Ok(())
            },
        }
    }

    /// Resolves a 64-bit pointer path and reads a `T` at its end.
    ///
    /// Starting from `base`, each offset but the last is added (wrapping,
    /// 64-bit) and an 8-byte pointer is read at the sum, which becomes the
    /// next starting point; the last offset is added to the final pointer and
    /// a `T` is read there. An empty path fails before any foreign call. The
    /// first failing step aborts the whole resolution: no later read is
    /// issued and no partial chain is returned.
    pub fn read_pointer_path64<T: MemValue, H: Host>(
        &self,
        host: &mut H,
        base: u64,
        path: &[u64],
    ) -> (r: Result<T, Error>)
        ensures
            final(host).st() == old(host).st(),
            final(host).detaches() == old(host).detaches(),
            ({
                let m = old(host).st().mem;
                let live = old(host).st().live;
                let n = path@.len() as int;
                &&& (n == 0 ==> r is Err && final(host).reads() == old(host).reads())
                &&& (n > 0 && !live ==> r is Err && final(host).reads() == old(host).reads() + 1)
                &&& (n > 0 ==> (r is Ok <==> live && chain_readable64(m, base, path@, n - 1)
                    && readable(m, step_addr64(m, base, path@, n - 1), T::size_spec())))
                &&& (r matches Ok(v) ==> v == T::decode_spec(
                    bytes_of(m, step_addr64(m, base, path@, n - 1), T::size_spec()),
                ) && final(host).reads() == old(host).reads() + n)
                &&& (n > 0 && live && r is Err ==> exists|k: int|
                    0 <= k < n && final(host).reads() == old(host).reads() + k + 1
                        && chain_readable64(m, base, path@, k) && !readable(
                        m,
                        #[trigger] step_addr64(m, base, path@, k),
                        if k < n - 1 {
                            8nat
                        } else {
                            T::size_spec()
                        },
                    ))
            }),
    {
        let ghost m = host.st().mem;
        let ghost live = host.st().live;
        let ghost st0 = host.st();
        let ghost reads0 = host.reads();
        let ghost det0 = host.detaches();
        let n = path.len();
        if n == 0 {
            return Err(Error);
        }
        let mut address: u64 = base;
        let mut i: usize = 0;
        while i < n - 1
            invariant
                n == path@.len(),
                1 <= n,
                0 <= i < n,
                st0 == old(host).st(),
                reads0 == old(host).reads(),
                det0 == old(host).detaches(),
                host.st() == st0,
                host.reads() == reads0 + i,
                host.detaches() == det0,
                m == st0.mem,
                live == st0.live,
                i > 0 ==> live,
                address == cursor64(m, base, path@, i as int),
                chain_readable64(m, base, path@, i as int),
            decreases n - 1 - i,
        {
            let offset = *slice_index_get(path, i);
            let a = Address::from_u64(address).add_u64(offset);
            proof {
                assert(a.0 == step_addr64(m, base, path@, i as int));
            }
            match self.read::<u64, H>(host, a) {
                Ok(pointer) => {
                    proof {
                        assert(pointer == cursor64(m, base, path@, i + 1));
                        assert forall|j: int| 0 <= j < i + 1 implies readable(
                            m,
                            #[trigger] step_addr64(m, base, path@, j),
                            8,
                        ) by {}
                    }
                    address = pointer;
                    i = i + 1;
                },
                Err(_) => {
                    proof {
                        if live {
                            assert(chain_readable64(m, base, path@, i as int));
                            assert(!readable(m, step_addr64(m, base, path@, i as int), 8));
                        }
                    }
                    return Err(Error);
                },
            }
        }
        let offset = *slice_index_get(path, n - 1);
        let a = Address::from_u64(address).add_u64(offset);
        proof {
            assert(a.0 == step_addr64(m, base, path@, n - 1));
        }
        let r = self.read::<T, H>(host, a);
        proof {
            if live && r is Err {
                assert(0 <= n - 1 < path@.len() && host.reads() == reads0 + (n - 1) + 1
                    && chain_readable64(m, base, path@, n - 1) && !readable(
                    m,
                    step_addr64(m, base, path@, n - 1),
                    T::size_spec(),
                ));
            }
        }
        r
    }

    /// Resolves a 32-bit pointer path and reads a `T` at its end.
    ///
    /// As `read_pointer_path64`, but every address computation wraps in the
    /// 32-bit space and intermediate pointers are 4-byte values; each 32-bit
    /// address is zero-extended only to issue the foreign read. Widths are
    /// never mixed within one resolution.
    pub fn read_pointer_path32<T: MemValue, H: Host>(
        &self,
        host: &mut H,
        base: u32,
        path: &[u32],
    ) -> (r: Result<T, Error>)
        ensures
            final(host).st() == old(host).st(),
            final(host).detaches() == old(host).detaches(),
            ({
                let m = old(host).st().mem;
                let live = old(host).st().live;
                let n = path@.len() as int;
                &&& (n == 0 ==> r is Err && final(host).reads() == old(host).reads())
                &&& (n > 0 && !live ==> r is Err && final(host).reads() == old(host).reads() + 1)
                &&& (n > 0 ==> (r is Ok <==> live && chain_readable32(m, base, path@, n - 1)
                    && readable(m, step_addr32(m, base, path@, n - 1) as u64, T::size_spec())))
                &&& (r matches Ok(v) ==> v == T::decode_spec(
                    bytes_of(m, step_addr32(m, base, path@, n - 1) as u64, T::size_spec()),
                ) && final(host).reads() == old(host).reads() + n)
                &&& (n > 0 && live && r is Err ==> exists|k: int|
                    0 <= k < n && final(host).reads() == old(host).reads() + k + 1
                        && chain_readable32(m, base, path@, k) && !readable(
                        m,
                        #[trigger] step_addr32(m, base, path@, k) as u64,
                        if k < n - 1 {
                            4nat
                        } else {
                            T::size_spec()
                        },
                    ))
            }),
    {
        let ghost m = host.st().mem;
        let ghost live = host.st().live;
        let ghost st0 = host.st();
        let ghost reads0 = host.reads();
        let ghost det0 = host.detaches();
        let n = path.len();
        if n == 0 {
            return Err(Error);
        }
        let mut address: u32 = base;
        let mut i: usize = 0;
        while i < n - 1
            invariant
                n == path@.len(),
                1 <= n,
                0 <= i < n,
                st0 == old(host).st(),
                reads0 == old(host).reads(),
                det0 == old(host).detaches(),
                host.st() == st0,
                host.reads() == reads0 + i,
                host.detaches() == det0,
                m == st0.mem,
                live == st0.live,
                i > 0 ==> live,
                address == cursor32(m, base, path@, i as int),
                chain_readable32(m, base, path@, i as int),
            decreases n - 1 - i,
        {
            let offset = *slice_index_get(path, i);
            let narrow = wadd32(address, offset);
            let a = Address::from_u64(narrow as u64);
            proof {
                assert(a.0 == step_addr32(m, base, path@, i as int) as u64);
            }
            match self.read::<u32, H>(host, a) {
                Ok(pointer) => {
                    proof {
                        assert(pointer == cursor32(m, base, path@, i + 1));
                        assert forall|j: int| 0 <= j < i + 1 implies readable(
                            m,
                            #[trigger] step_addr32(m, base, path@, j) as u64,
                            4,
                        ) by {}
                    }
                    address = pointer;
                    i = i + 1;
                },
                Err(_) => {
                    proof {
                        if live {
                            assert(chain_readable32(m, base, path@, i as int));
                            assert(!readable(m, step_addr32(m, base, path@, i as int) as u64, 4));
                        }
                    }
                    return Err(Error);
                },
            }
        }
        let offset = *slice_index_get(path, n - 1);
        let narrow = wadd32(address, offset);
        let a = Address::from_u64(narrow as u64);
        proof {
            assert(a.0 == step_addr32(m, base, path@, n - 1) as u64);
        }
        let r = self.read::<T, H>(host, a);
        proof {
            if live && r is Err {
                assert(0 <= n - 1 < path@.len() && host.reads() == reads0 + (n - 1) + 1
                    && chain_readable32(m, base, path@, n - 1) && !readable(
                    m,
                    step_addr32(m, base, path@, n - 1) as u64,
                    T::size_spec(),
                ));
            }
        }
        r
    }
}

} // verus!
