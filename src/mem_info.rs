//! Where the kernel sits in physical and virtual memory, computed at boot
//! from the program counter while it still runs at its physical address.
use vstd::prelude::*;

verus! {

/// Size of a gigabyte page.
pub const GIB: usize = 0x4000_0000;

/// Start of the gigabyte page that holds `addr`.
pub open spec fn gib_floor(addr: usize) -> usize {
    (addr - addr % GIB) as usize
}

/// Location of the kernel image.
#[derive(Clone, Copy, Debug, PartialEq, Eq, Structural)]
pub struct KernelMemInfo {
    /// Start of the physical gigabyte page that holds the kernel; also the
    /// start of main memory.
    pub paddr_base: usize,
    /// Start of the virtual gigabyte page that the kernel is linked at: the
    /// last gigabyte page of the address space.
    pub vaddr_base: usize,
}

impl KernelMemInfo {
    /// The layout seen from program counter `pc`, read while execution is
    /// still at physical addresses.
    pub fn new(pc: usize) -> (r: KernelMemInfo)
        ensures
            r.paddr_base == gib_floor(pc),
            r.vaddr_base == gib_floor(usize::MAX),
            r.paddr_base <= r.vaddr_base,
    {
        let paddr_base = pc - pc % GIB;
        let vaddr_base = usize::MAX - usize::MAX % GIB;
        assert(paddr_base <= vaddr_base) by (nonlinear_arith)
            requires
                paddr_base == pc - pc % GIB,
                vaddr_base == usize::MAX - usize::MAX % GIB,
                pc <= usize::MAX,
                GIB > 0,
        ;
        KernelMemInfo { paddr_base, vaddr_base }
    }

    /// Distance from a physical address to its kernel virtual alias.
    pub fn offset(&self) -> (r: usize)
        requires
            self.paddr_base <= self.vaddr_base,
        ensures
            r == self.vaddr_base - self.paddr_base,
    {
        self.vaddr_base - self.paddr_base
    }
}

} // verus!
