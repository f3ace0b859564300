//! The physical memory window: bounds-checked reads and writes of physical
//! memory by physical address.
use vstd::prelude::*;

verus! {

/// Kernel virtual address at which the whole physical range is mapped.
pub const PMEM_BASE: u64 = 0x8_0000_0000;

/// Size of the emulated physical range (16 MiB).
pub const PMEM_SIZE: usize = 0x100_0000;

/// Virtual alias of physical address `paddr` inside the physical memory
/// window.
pub fn phys_to_virt(paddr: usize) -> (r: u64)
    requires
        paddr <= PMEM_SIZE,
    ensures
        r == PMEM_BASE + paddr,
{
    PMEM_BASE + paddr as u64
}

/// Why a physical memory access was refused.
#[derive(Clone, Copy, Debug, PartialEq, Eq, Structural)]
pub enum PmemError {
    /// The accessed range does not lie inside the physical range.
    OutOfRange,
}

/// Contents of the physical range, one byte per physical address.
pub struct PhysMemory {
    bytes: Vec<u8>,
}

impl View for PhysMemory {
    type V = Seq<u8>;

    closed spec fn view(&self) -> Seq<u8> {
        self.bytes@
    }
}

/// True when `[paddr, paddr + len)` lies inside a physical range of `size`
/// bytes.
pub open spec fn in_range(size: int, paddr: int, len: int) -> bool {
    paddr + len <= size
}

/// `mem` with the bytes at `[paddr, paddr + data.len())` replaced by `data`.
pub open spec fn spec_overwrite(mem: Seq<u8>, paddr: int, data: Seq<u8>) -> Seq<u8> {
    Seq::new(
        mem.len(),
        |i: int|
            if paddr <= i < paddr + data.len() {
                data[i - paddr]
            } else {
                mem[i]
            },
    )
}

/// Check that `[paddr, paddr + len)` lies inside a physical range of `size`
/// bytes.
pub fn check_range(size: usize, paddr: usize, len: usize) -> (r: Result<(), PmemError>)
    ensures
        (r is Ok) == in_range(size as int, paddr as int, len as int),
        r is Err ==> r == Err::<(), PmemError>(PmemError::OutOfRange),
{
    if paddr > size || len > size - paddr {
        Err(PmemError::OutOfRange)
    } else {
        Ok(())
    }
}

/// Check that `[paddr, paddr + len)` lies inside the emulated physical
/// range.
pub fn pmem_check(paddr: usize, len: usize) -> (r: Result<(), PmemError>)
    ensures
        (r is Ok) == in_range(PMEM_SIZE as int, paddr as int, len as int),
        r is Err ==> r == Err::<(), PmemError>(PmemError::OutOfRange),
{
    check_range(PMEM_SIZE, paddr, len)
}

impl PhysMemory {
    /// A zero-filled physical range of `size` bytes.
    pub fn new(size: usize) -> (r: PhysMemory)
        ensures
            r@ == Seq::new(size as nat, |i: int| 0u8),
    {
        let mut bytes: Vec<u8> = Vec::new();
        let mut i: usize = 0;
        while i < size
            invariant
                i <= size,
                bytes@ == Seq::new(i as nat, |k: int| 0u8),
            decreases size - i,
        {
            bytes.push(0u8);
            i = i + 1;
            assert(bytes@ =~= Seq::new(i as nat, |k: int| 0u8));
        }
        PhysMemory { bytes }
    }

    /// Size of the physical range in bytes.
    pub fn size(&self) -> (r: usize)
        ensures
            r == self@.len(),
    {
        self.bytes.len()
    }
}

/// Copy physical memory at `paddr` into `buf`; refused, with `buf` left as it
/// was, when the range does not lie inside physical memory.
pub fn pmem_read(mem: &PhysMemory, paddr: usize, buf: &mut [u8]) -> (r: Result<(), PmemError>)
    ensures
        final(buf)@.len() == old(buf)@.len(),
        (r is Ok) == in_range(mem@.len() as int, paddr as int, old(buf)@.len() as int),
        r is Ok ==> final(buf)@ == mem@.subrange(paddr as int, paddr + old(buf)@.len()),
        r is Err ==> r == Err::<(), PmemError>(PmemError::OutOfRange) && final(buf)@ == old(buf)@,
{
    let len = buf.len();
    if check_range(mem.bytes.len(), paddr, len).is_err() {
        return Err(PmemError::OutOfRange);
    }
    let mut i: usize = 0;
    while i < len
        invariant
            len == buf@.len(),
            paddr + len <= mem@.len(),
            paddr + len <= usize::MAX,
            i <= len,
            forall|k: int| 0 <= k < i ==> buf@[k] == mem@[paddr + k],
        decreases len - i,
    {
        buf[i] = mem.bytes[paddr + i];
        i = i + 1;
    }
    assert(buf@ =~= mem@.subrange(paddr as int, paddr + len));
    Ok(())
}

/// Copy `buf` into physical memory at `paddr`; refused, with memory left as
/// it was, when the range does not lie inside physical memory.
pub fn pmem_write(mem: &mut PhysMemory, paddr: usize, buf: &[u8]) -> (r: Result<(), PmemError>)
    ensures
        (r is Ok) == in_range(old(mem)@.len() as int, paddr as int, buf@.len() as int),
        r is Ok ==> final(mem)@ == spec_overwrite(old(mem)@, paddr as int, buf@),
        r is Err ==> r == Err::<(), PmemError>(PmemError::OutOfRange) && final(mem)@ == old(mem)@,
{
    let len = buf.len();
    if check_range(mem.bytes.len(), paddr, len).is_err() {
        return Err(PmemError::OutOfRange);
    }
    let ghost before = mem@;
    let mut i: usize = 0;
    while i < len
        invariant
            len == buf@.len(),
            paddr + len <= before.len(),
            paddr + len <= usize::MAX,
            i <= len,
            mem@.len() == before.len(),
            forall|k: int|
                0 <= k < mem@.len() ==> mem@[k] == if paddr <= k < paddr + i {
                    buf@[k - paddr]
                } else {
                    before[k]
                },
        decreases len - i,
    {
        mem.bytes.set(paddr + i, buf[i]);
        i = i + 1;
    }
    assert(mem@ =~= spec_overwrite(before, paddr as int, buf@));
    Ok(())
}

/// Writing a buffer inside physical memory and reading the same range back
/// gives the buffer; and the write leaves every byte outside that range as
/// it was.
pub proof fn lemma_write_then_read(mem: Seq<u8>, paddr: int, data: Seq<u8>)
    requires
        0 <= paddr,
        in_range(mem.len() as int, paddr, data.len() as int),
    ensures
        spec_overwrite(mem, paddr, data).subrange(paddr, paddr + data.len()) == data,
        forall|i: int|
            0 <= i < mem.len() && !(paddr <= i < paddr + data.len()) ==> #[trigger] spec_overwrite(
                mem,
                paddr,
                data,
            )[i] == mem[i],
        spec_overwrite(mem, paddr, data).len() == mem.len(),
{
    assert(spec_overwrite(mem, paddr, data).subrange(paddr, paddr + data.len()) =~= data);
}

} // verus!
