//! The x86-64 page table. Each translation is kept as a hardware page-table
//! entry (physical address in bits 12..52, permission bits around it). A
//! page can only be mapped once the three table levels below the root that
//! cover it exist (a page-directory-pointer table per 512 GiB, a directory
//! per 1 GiB, a last-level table per 2 MiB); each missing level takes one
//! frame from the frame allocator. The upper half of the address space is
//! the kernel's window: a new table starts out with the kernel table's
//! window and nothing else. Translations that were looked up are cached, as
//! the hardware's translation cache does; every change to a page's entry
//! invalidates the cached translation of that page, so the cache never
//! disagrees with the table.
use vstd::prelude::*;
use std::collections::HashMap;
use crate::frame::{FrameAllocator, PhysFrame};
use crate::mmu::{MMUFlags, PAGE_SIZE, PTE_NO_EXECUTE, is_page_aligned};
use crate::page_table::PageTableError;

verus! {

broadcast use vstd::std_specs::hash::group_hash_axioms;

/// Bits of a page-table entry that hold the physical frame address.
pub const PTE_ADDR_MASK: u64 = 0x000f_ffff_ffff_f000;

/// Physical addresses must lie below 2^52.
pub const PHYS_ADDR_LIMIT: u64 = 0x10_0000_0000_0000;

/// Bytes covered by one last-level table, one directory and one
/// page-directory-pointer table.
pub const PT_SPAN: u64 = 0x20_0000;
pub const PD_SPAN: u64 = 0x4000_0000;
pub const PDPT_SPAN: u64 = 0x80_0000_0000;

/// First address of the kernel's half of the address space.
pub const KERNEL_BASE: u64 = 0xffff_8000_0000_0000;

/// The entry that maps to `paddr` with `flags`.
pub open spec fn pte_of(paddr: u64, flags: MMUFlags) -> u64 {
    paddr | (flags.spec_ptf() as u64)
}

/// Physical frame address held by an entry.
pub open spec fn pte_addr(pte: u64) -> u64 {
    pte & PTE_ADDR_MASK
}

/// Page base of an address.
pub open spec fn page_base(vaddr: u64) -> u64 {
    (vaddr - vaddr % (PAGE_SIZE as u64)) as u64
}

/// A valid physical page address: aligned and below the architectural limit.
pub open spec fn valid_paddr(paddr: u64) -> bool {
    &&& is_page_aligned(paddr as int)
    &&& paddr < PHYS_ADDR_LIMIT
}

/// Whether `vaddr` lies in the kernel's half.
pub open spec fn is_kernel_half(vaddr: u64) -> bool {
    vaddr >= KERNEL_BASE
}

/// The kernel's window of a table's entries: those in the kernel's half.
pub open spec fn kernel_window(m: Map<u64, u64>) -> Map<u64, u64> {
    Map::new(|v: u64| m.contains_key(v) && is_kernel_half(v), |v: u64| m[v])
}

/// Physical address that `vaddr` translates to under entries `m`: the frame
/// of its page plus its offset within the page.
pub open spec fn translate(m: Map<u64, u64>, vaddr: u64) -> Option<u64> {
    if m.contains_key(page_base(vaddr)) {
        Some((pte_addr(m[page_base(vaddr)]) + vaddr % (PAGE_SIZE as u64)) as u64)
    } else {
        None
    }
}

/// 1 when `b` holds, else 0.
pub open spec fn count_if(b: bool) -> nat {
    if b {
        1
    } else {
        0
    }
}

/// Entries and table frames of one half of an address space. Tables are
/// keyed by the address divided by the span they cover.
struct Space {
    entries: HashMap<u64, u64>,
    pdpts: HashMap<u64, usize>,
    pds: HashMap<u64, usize>,
    pts: HashMap<u64, usize>,
}

impl Space {
    /// Every table has its parent table, every entry its last-level table,
    /// and every entry lies in the half the space stands for.
    spec fn wf(&self, kernel: bool) -> bool {
        &&& forall|v: u64| #[trigger]
            self.entries@.contains_key(v) ==> self.pts@.contains_key(v / PT_SPAN)
                && is_kernel_half(v) == kernel
        &&& forall|k: u64| #[trigger]
            self.pts@.contains_key(k) ==> self.pds@.contains_key(k / 512)
        &&& forall|k: u64| #[trigger]
            self.pds@.contains_key(k) ==> self.pdpts@.contains_key(k / 512)
    }

    /// Number of table levels that mapping `vaddr` has to create.
    spec fn missing(&self, vaddr: u64) -> nat {
        count_if(!self.pdpts@.contains_key(vaddr / PDPT_SPAN)) + count_if(
            !self.pds@.contains_key(vaddr / PD_SPAN),
        ) + count_if(!self.pts@.contains_key(vaddr / PT_SPAN))
    }

    fn empty() -> (r: Space)
        ensures
            r.wf(false),
            r.wf(true),
            r.entries@ == Map::<u64, u64>::empty(),
    {
        Space {
            entries: HashMap::new(),
            pdpts: HashMap::new(),
            pds: HashMap::new(),
            pts: HashMap::new(),
        }
    }

    fn copy(&self) -> (r: Space)
        ensures
            r.entries@ == self.entries@,
            r.pdpts@ == self.pdpts@,
            r.pds@ == self.pds@,
            r.pts@ == self.pts@,
    {
        Space {
            entries: self.entries.clone(),
            pdpts: self.pdpts.clone(),
            pds: self.pds.clone(),
            pts: self.pts.clone(),
        }
    }

    /// Install the entry `pte` for page `vaddr`, first creating the missing
    /// table levels from `allocator`, which must have enough frames.
    fn install(&mut self, allocator: &mut FrameAllocator, vaddr: u64, pte: u64, kernel: bool)
        requires
            old(self).wf(kernel),
            old(allocator).wf(),
            is_kernel_half(vaddr) == kernel,
            old(self).missing(vaddr) <= old(allocator).remaining(),
        ensures
            final(self).wf(kernel),
            final(allocator).wf(),
            final(self).entries@ == old(self).entries@.insert(vaddr, pte),
            final(self).missing(vaddr) == 0,
            final(allocator).remaining() + old(self).missing(vaddr) == old(allocator).remaining(),
            final(allocator).range_end() == old(allocator).range_end(),
            old(allocator).issued().is_prefix_of(final(allocator).issued()),
    {
        ensure_table(&mut self.pdpts, vaddr / PDPT_SPAN, allocator);
        ensure_table(&mut self.pds, vaddr / PD_SPAN, allocator);
        ensure_table(&mut self.pts, vaddr / PT_SPAN, allocator);
        self.entries.insert(vaddr, pte);
        proof {
            assert(vaddr / PT_SPAN / 512 == vaddr / PD_SPAN) by (nonlinear_arith);
            assert(vaddr / PD_SPAN / 512 == vaddr / PDPT_SPAN) by (nonlinear_arith);
        }
    }
}

/// Make sure `tables` holds a table under `key`, taking its frame from
/// `allocator` when it does not.
fn ensure_table(tables: &mut HashMap<u64, usize>, key: u64, allocator: &mut FrameAllocator)
    requires
        old(allocator).wf(),
        !old(tables)@.contains_key(key) ==> old(allocator).remaining() > 0,
    ensures
        final(allocator).wf(),
        final(tables)@.dom() == old(tables)@.dom().insert(key),
        final(allocator).remaining() + count_if(!old(tables)@.contains_key(key)) == old(
            allocator,
        ).remaining(),
        final(allocator).range_end() == old(allocator).range_end(),
        old(allocator).issued().is_prefix_of(final(allocator).issued()),
{
    if !tables.contains_key(&key) {
        let frame = PhysFrame::allocate(allocator);
        match frame {
            Some(f) => {
                tables.insert(key, f.paddr());
            },
            None => {},
        }
    }
    assert(tables@.dom() =~= old(tables)@.dom().insert(key));
}

/// Page table of the x86-64 backend.
pub struct PageTableImpl {
    root_paddr: usize,
    user: Space,
    kernel: Space,
    tlb: HashMap<u64, u64>,
}

impl View for PageTableImpl {
    type V = Map<u64, u64>;

    /// Entry of each mapped virtual page.
    closed spec fn view(&self) -> Map<u64, u64> {
        self.user.entries@.union_prefer_right(self.kernel.entries@)
    }
}

/// The frame bits of an entry built from a valid address are that address.
proof fn lemma_pte_addr_of(paddr: u64, flags: MMUFlags)
    requires
        valid_paddr(paddr),
    ensures
        pte_addr(pte_of(paddr, flags)) == paddr,
{
    let f = flags.spec_ptf() as u64;
    assert(f <= 7 || (PTE_NO_EXECUTE <= f && f <= PTE_NO_EXECUTE + 7));
    assert(f & PTE_ADDR_MASK == 0) by (bit_vector)
        requires
            f <= 7 || (0x8000_0000_0000_0000u64 <= f && f <= 0x8000_0000_0000_0007u64),
    ;
    assert(paddr & 0xfff == 0) by (bit_vector)
        requires
            paddr % 4096 == 0,
    ;
    assert((paddr | f) & PTE_ADDR_MASK == paddr) by (bit_vector)
        requires
            paddr & 0xfff == 0,
            paddr < 0x10_0000_0000_0000u64,
            f & PTE_ADDR_MASK == 0,
    ;
}

impl PageTableImpl {
    /// The table's invariant: both halves are well formed, and every
    /// cached translation is the page's current entry.
    pub closed spec fn wf(&self) -> bool {
        &&& self.user.wf(false)
        &&& self.kernel.wf(true)
        &&& forall|v: u64| #[trigger]
            self.tlb@.contains_key(v) ==> self@.contains_key(v) && self@[v] == self.tlb@[v]
    }

    /// Cached translations, by virtual page.
    pub closed spec fn cached(&self) -> Map<u64, u64> {
        self.tlb@
    }

    /// Number of table frames that mapping `vaddr` has to take.
    pub closed spec fn missing_tables(&self, vaddr: u64) -> nat {
        if is_kernel_half(vaddr) {
            self.kernel.missing(vaddr)
        } else {
            self.user.missing(vaddr)
        }
    }

    /// Physical address of the root table frame.
    pub closed spec fn spec_root(&self) -> usize {
        self.root_paddr
    }

    /// An empty table whose root frame comes from `allocator`, with no
    /// kernel window: the table of the kernel itself. `NoMemory` when no
    /// frame is left.
    pub fn new_root(allocator: &mut FrameAllocator) -> (r: Result<PageTableImpl, PageTableError>)
        requires
            old(allocator).wf(),
        ensures
            final(allocator).wf(),
            (r is Ok) == (old(allocator).remaining() > 0),
            r is Err ==> r == Err::<PageTableImpl, PageTableError>(PageTableError::NoMemory)
                && *final(allocator) == *old(allocator),
            r is Ok ==> {
                let t = r->Ok_0;
                &&& t.wf()
                &&& t@ == Map::<u64, u64>::empty()
                &&& final(allocator).issued() == old(allocator).issued().push(t.spec_root())
                &&& !old(allocator).issued().contains(t.spec_root())
            },
    {
        match PhysFrame::allocate(allocator) {
            Some(frame) => {
                let t = PageTableImpl {
                    root_paddr: frame.paddr(),
                    user: Space::empty(),
                    kernel: Space::empty(),
                    tlb: HashMap::new(),
                };
                assert(t@ =~= Map::<u64, u64>::empty());
                Ok(t)
            },
            None => Err(PageTableError::NoMemory),
        }
    }

    /// A table whose root frame comes from `allocator`, holding exactly the
    /// kernel window of `kernel` so that kernel code stays mapped after a
    /// switch to it; the user half is empty. `NoMemory` when no frame is
    /// left.
    pub fn new(allocator: &mut FrameAllocator, kernel: &PageTableImpl) -> (r: Result<
        PageTableImpl,
        PageTableError,
    >)
        requires
            old(allocator).wf(),
            kernel.wf(),
        ensures
            final(allocator).wf(),
            (r is Ok) == (old(allocator).remaining() > 0),
            r is Err ==> r == Err::<PageTableImpl, PageTableError>(PageTableError::NoMemory)
                && *final(allocator) == *old(allocator),
            r is Ok ==> {
                let t = r->Ok_0;
                &&& t.wf()
                &&& t@ == kernel_window(kernel@)
                &&& t.cached() == Map::<u64, u64>::empty()
                &&& forall|v: u64| is_kernel_half(v) ==> t.missing_tables(v) == kernel.missing_tables(v)
                &&& final(allocator).issued() == old(allocator).issued().push(t.spec_root())
                &&& !old(allocator).issued().contains(t.spec_root())
            },
    {
        match PhysFrame::allocate(allocator) {
            Some(frame) => {
                let t = PageTableImpl {
                    root_paddr: frame.paddr(),
                    user: Space::empty(),
                    kernel: kernel.kernel.copy(),
                    tlb: HashMap::new(),
                };
                assert(t@ =~= kernel_window(kernel@));
                Ok(t)
            },
            None => Err(PageTableError::NoMemory),
        }
    }

    /// Physical address of the root table frame.
    pub fn root_paddr(&self) -> (r: usize)
        ensures
            r == self.spec_root(),
    {
        self.root_paddr
    }

    /// Translate the page at `vaddr` to the frame at `paddr` with `flags`,
    /// replacing any translation it had. The missing table levels that
    /// cover the page are first taken from `allocator`; when it has fewer
    /// frames left than are missing, the call fails with `NoMemory` and
    /// changes nothing.
    pub fn map(&mut self, allocator: &mut FrameAllocator, vaddr: u64, paddr: u64, flags: MMUFlags)
        -> (r: Result<(), PageTableError>)
        requires
            old(self).wf(),
            old(allocator).wf(),
            is_page_aligned(vaddr as int),
            valid_paddr(paddr),
        ensures
            final(self).wf(),
            final(allocator).wf(),
            (r is Ok) == (old(self).missing_tables(vaddr) <= old(allocator).remaining()),
            r is Err ==> r == Err::<(), PageTableError>(PageTableError::NoMemory)
                && *final(self) == *old(self) && *final(allocator) == *old(allocator),
            r is Ok ==> {
                &&& final(self)@ == old(self)@.insert(vaddr, pte_of(paddr, flags))
                &&& !final(self).cached().contains_key(vaddr)
                &&& final(self).missing_tables(vaddr) == 0
                &&& final(allocator).remaining() + old(self).missing_tables(vaddr) == old(
                    allocator,
                ).remaining()
                &&& old(allocator).issued().is_prefix_of(final(allocator).issued())
                &&& final(allocator).range_end() == old(allocator).range_end()
                &&& final(self).spec_root() == old(self).spec_root()
            },
    {
        let kernel_half = vaddr >= KERNEL_BASE;
        let available = allocator.available();
        let pte = paddr | flags.to_ptf();
        if kernel_half {
            let missing = count_missing(&self.kernel, vaddr);
            if missing > available {
                return Err(PageTableError::NoMemory);
            }
            self.kernel.install(allocator, vaddr, pte, true);
        } else {
            let missing = count_missing(&self.user, vaddr);
            if missing > available {
                return Err(PageTableError::NoMemory);
            }
            self.user.install(allocator, vaddr, pte, false);
        }
        self.tlb.remove(&vaddr);
        assert(self@ =~= old(self)@.insert(vaddr, pte_of(paddr, flags)));
        Ok(())
    }

    /// Remove the translation of the page at `vaddr`.
    pub fn unmap(&mut self, vaddr: u64) -> (r: Result<(), PageTableError>)
        requires
            old(self).wf(),
            is_page_aligned(vaddr as int),
        ensures
            final(self).wf(),
            (r is Ok) == old(self)@.contains_key(vaddr),
            r is Err ==> r == Err::<(), PageTableError>(PageTableError::NotMapped),
            final(self)@ == old(self)@.remove(vaddr),
            !final(self).cached().contains_key(vaddr),
            forall|v: u64| final(self).missing_tables(v) == old(self).missing_tables(v),
            final(self).spec_root() == old(self).spec_root(),
    {
        let removed = if vaddr >= KERNEL_BASE {
            self.kernel.entries.remove(&vaddr)
        } else {
            self.user.entries.remove(&vaddr)
        };
        self.tlb.remove(&vaddr);
        assert(self@ =~= old(self)@.remove(vaddr));
        match removed {
            Some(_) => Ok(()),
            None => Err(PageTableError::NotMapped),
        }
    }

    /// Replace the permissions of the page at `vaddr`, keeping its frame.
    pub fn protect(&mut self, vaddr: u64, flags: MMUFlags) -> (r: Result<(), PageTableError>)
        requires
            old(self).wf(),
            is_page_aligned(vaddr as int),
        ensures
            final(self).wf(),
            (r is Ok) == old(self)@.contains_key(vaddr),
            r is Err ==> r == Err::<(), PageTableError>(PageTableError::NotMapped)
                && final(self)@ == old(self)@,
            r is Ok ==> final(self)@ == old(self)@.insert(
                vaddr,
                pte_of(pte_addr(old(self)@[vaddr]), flags),
            ),
            !final(self).cached().contains_key(vaddr),
            forall|v: u64| final(self).missing_tables(v) == old(self).missing_tables(v),
            final(self).spec_root() == old(self).spec_root(),
    {
        let kernel_half = vaddr >= KERNEL_BASE;
        let current = if kernel_half {
            self.kernel.entries.get(&vaddr)
        } else {
            self.user.entries.get(&vaddr)
        };
        let r = match current {
            Some(pte) => {
                let new_pte = (*pte & PTE_ADDR_MASK) | flags.to_ptf();
                if kernel_half {
                    self.kernel.entries.insert(vaddr, new_pte);
                } else {
                    self.user.entries.insert(vaddr, new_pte);
                }
                Ok(())
            },
            None => Err(PageTableError::NotMapped),
        };
        self.tlb.remove(&vaddr);
        proof {
            if r is Ok {
                assert(self@ =~= old(self)@.insert(
                    vaddr,
                    pte_of(pte_addr(old(self)@[vaddr]), flags),
                ));
            } else {
                assert(self@ =~= old(self)@);
            }
        }
        r
    }

    /// Physical address that `vaddr` translates to: the frame of its page
    /// plus its offset within the page.
    pub fn query(&mut self, vaddr: u64) -> (r: Result<u64, PageTableError>)
        requires
            old(self).wf(),
        ensures
            final(self).wf(),
            final(self)@ == old(self)@,
            forall|v: u64| final(self).missing_tables(v) == old(self).missing_tables(v),
            final(self).spec_root() == old(self).spec_root(),
            translate(old(self)@, vaddr) matches Some(p) ==> r == Ok::<u64, PageTableError>(p),
            translate(old(self)@, vaddr) is None ==> r == Err::<u64, PageTableError>(
                PageTableError::NotMapped,
            ),
    {
        let offset = vaddr % (PAGE_SIZE as u64);
        assert(offset <= vaddr) by (nonlinear_arith)
            requires
                offset == vaddr % 4096,
        ;
        let page = vaddr - offset;
        let pte = match self.tlb.get(&page) {
            Some(cached) => *cached,
            None => {
                let entry = if page >= KERNEL_BASE {
                    self.kernel.entries.get(&page)
                } else {
                    self.user.entries.get(&page)
                };
                match entry {
                    Some(entry) => {
                        let entry = *entry;
                        self.tlb.insert(page, entry);
                        entry
                    },
                    None => {
                        return Err(PageTableError::NotMapped);
                    },
                }
            },
        };
        let frame_bits = pte & PTE_ADDR_MASK;
        assert(frame_bits <= PTE_ADDR_MASK) by (bit_vector)
            requires
                frame_bits == pte & 0x000f_ffff_ffff_f000u64,
        ;
        Ok(frame_bits + offset)
    }
}

/// Number of table levels that mapping `vaddr` into `s` has to create.
fn count_missing(s: &Space, vaddr: u64) -> (r: usize)
    ensures
        r == s.missing(vaddr),
{
    let mut n: usize = 0;
    if !s.pdpts.contains_key(&(vaddr / PDPT_SPAN)) {
        n = n + 1;
    }
    if !s.pds.contains_key(&(vaddr / PD_SPAN)) {
        n = n + 1;
    }
    if !s.pts.contains_key(&(vaddr / PT_SPAN)) {
        n = n + 1;
    }
    n
}

/// A page-aligned address is its own page base.
proof fn lemma_aligned_page_base(vaddr: u64)
    requires
        is_page_aligned(vaddr as int),
    ensures
        page_base(vaddr) == vaddr,
        vaddr % (PAGE_SIZE as u64) == 0,
{
}

/// Mapping a page makes it translate to the mapped frame, whatever the
/// flags; unmapping it afterwards leaves it without a translation.
pub proof fn lemma_map_query_unmap(m: Map<u64, u64>, vaddr: u64, paddr: u64, flags: MMUFlags)
    requires
        is_page_aligned(vaddr as int),
        valid_paddr(paddr),
    ensures
        translate(m.insert(vaddr, pte_of(paddr, flags)), vaddr) == Some(paddr),
        translate(m.insert(vaddr, pte_of(paddr, flags)).remove(vaddr), vaddr) is None,
{
    lemma_aligned_page_base(vaddr);
    lemma_pte_addr_of(paddr, flags);
}

/// Protecting a freshly mapped page with the flags it was mapped with
/// leaves its entry, and so its frame and its permissions, exactly as the
/// map made them, and the page still translates to the mapped frame.
pub proof fn lemma_protect_same_flags(m: Map<u64, u64>, vaddr: u64, paddr: u64, flags: MMUFlags)
    requires
        is_page_aligned(vaddr as int),
        valid_paddr(paddr),
    ensures
        ({
            let mapped = m.insert(vaddr, pte_of(paddr, flags));
            let protected = mapped.insert(vaddr, pte_of(pte_addr(mapped[vaddr]), flags));
            &&& protected == mapped
            &&& translate(protected, vaddr) == Some(paddr)
        }),
{
    lemma_aligned_page_base(vaddr);
    lemma_pte_addr_of(paddr, flags);
    let mapped = m.insert(vaddr, pte_of(paddr, flags));
    assert(mapped.insert(vaddr, pte_of(pte_addr(mapped[vaddr]), flags)) =~= mapped);
}

} // verus!
