//! The page table of the emulation backend: one translation per virtual
//! page, each carrying its physical target and permissions. The host
//! mapping calls that make a translation effective are issued by the caller
//! with `MMUFlags::to_mmap_prot` of the same flags.
use vstd::prelude::*;
use std::collections::HashMap;
use crate::mmu::{MMUFlags, is_page_aligned};

verus! {

broadcast use vstd::std_specs::hash::group_hash_axioms;

/// Why a page-table operation failed.
#[derive(Clone, Copy, Debug, PartialEq, Eq, Structural)]
pub enum PageTableError {
    /// No frame was left for an intermediate table.
    NoMemory,
    /// The virtual page has no translation.
    NotMapped,
}

/// Physical target and permissions of one virtual page.
#[derive(Clone, Copy, Debug, PartialEq, Eq, Structural)]
pub struct Mapping {
    pub paddr: usize,
    pub flags: MMUFlags,
}

/// Translations of one address space, keyed by virtual page address.
pub struct PageTable {
    entries: HashMap<usize, Mapping>,
}

impl View for PageTable {
    type V = Map<usize, Mapping>;

    closed spec fn view(&self) -> Map<usize, Mapping> {
        self.entries@
    }
}

impl PageTable {
    /// An address space with no translation.
    pub fn new() -> (r: PageTable)
        ensures
            r@ == Map::<usize, Mapping>::empty(),
    {
        PageTable { entries: HashMap::new() }
    }

    /// Translate the page at `vaddr` to the frame at `paddr` with `flags`,
    /// replacing any translation it had.
    pub fn map(&mut self, vaddr: usize, paddr: usize, flags: MMUFlags) -> (r: Result<
        (),
        PageTableError,
    >)
        requires
            is_page_aligned(vaddr as int),
            is_page_aligned(paddr as int),
        ensures
            r is Ok,
            final(self)@ == old(self)@.insert(vaddr, Mapping { paddr, flags }),
    {
        self.entries.insert(vaddr, Mapping { paddr, flags });
        Ok(())
    }

    /// Remove the translation of the page at `vaddr`.
    pub fn unmap(&mut self, vaddr: usize) -> (r: Result<(), PageTableError>)
        requires
            is_page_aligned(vaddr as int),
        ensures
            (r is Ok) == old(self)@.contains_key(vaddr),
            r is Err ==> r == Err::<(), PageTableError>(PageTableError::NotMapped),
            final(self)@ == old(self)@.remove(vaddr),
    {
        match self.entries.remove(&vaddr) {
            Some(_) => Ok(()),
            None => Err(PageTableError::NotMapped),
        }
    }

    /// Replace the permissions of the page at `vaddr`, keeping its target.
    pub fn protect(&mut self, vaddr: usize, flags: MMUFlags) -> (r: Result<(), PageTableError>)
        requires
            is_page_aligned(vaddr as int),
        ensures
            (r is Ok) == old(self)@.contains_key(vaddr),
            r is Err ==> r == Err::<(), PageTableError>(PageTableError::NotMapped)
                && final(self)@ == old(self)@,
            r is Ok ==> final(self)@ == old(self)@.insert(
                vaddr,
                Mapping { paddr: old(self)@[vaddr].paddr, flags },
            ),
    {
        match self.entries.get(&vaddr) {
            Some(m) => {
                let paddr = m.paddr;
                self.entries.insert(vaddr, Mapping { paddr, flags });
                Ok(())
            },
            None => Err(PageTableError::NotMapped),
        }
    }

    /// Physical target of the page at `vaddr`.
    pub fn query(&mut self, vaddr: usize) -> (r: Result<usize, PageTableError>)
        requires
            is_page_aligned(vaddr as int),
        ensures
            *final(self) == *old(self),
            old(self)@.contains_key(vaddr) ==> r == Ok::<usize, PageTableError>(
                old(self)@[vaddr].paddr,
            ),
            !old(self)@.contains_key(vaddr) ==> r == Err::<usize, PageTableError>(
                PageTableError::NotMapped,
            ),
    {
        match self.entries.get(&vaddr) {
            Some(m) => Ok(m.paddr),
            None => Err(PageTableError::NotMapped),
        }
    }

    /// Permissions of the page at `vaddr`, if it has a translation.
    pub fn flags_of(&self, vaddr: usize) -> (r: Option<MMUFlags>)
        ensures
            self@.contains_key(vaddr) ==> r == Some(self@[vaddr].flags),
            !self@.contains_key(vaddr) ==> r is None,
    {
        match self.entries.get(&vaddr) {
            Some(m) => Some(m.flags),
            None => None,
        }
    }
}

/// Mapping a page makes a query of it return the mapped frame, whatever the
/// flags; unmapping it afterwards makes the query fail.
pub proof fn lemma_map_query_unmap(
    m: Map<usize, Mapping>,
    vaddr: usize,
    paddr: usize,
    flags: MMUFlags,
)
    ensures
        ({
            let mapped = m.insert(vaddr, Mapping { paddr, flags });
            &&& mapped.contains_key(vaddr)
            &&& mapped[vaddr].paddr == paddr
            &&& !mapped.remove(vaddr).contains_key(vaddr)
        }),
{
}

/// Protecting a freshly mapped page with the flags it was mapped with
/// leaves its translation, frame and permissions, exactly as the map made
/// it.
pub proof fn lemma_protect_same_flags(
    m: Map<usize, Mapping>,
    vaddr: usize,
    paddr: usize,
    flags: MMUFlags,
)
    ensures
        ({
            let mapped = m.insert(vaddr, Mapping { paddr, flags });
            mapped.insert(vaddr, Mapping { paddr: mapped[vaddr].paddr, flags }) == mapped
        }),
{
    let mapped = m.insert(vaddr, Mapping { paddr, flags });
    assert(mapped.insert(vaddr, Mapping { paddr: mapped[vaddr].paddr, flags }) =~= mapped);
}

} // verus!
