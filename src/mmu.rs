//! Architecture-neutral mapping permissions and their translation into each
//! backend's native encoding.
use vstd::prelude::*;

verus! {

/// Size of a page and of a physical frame, in bytes.
pub const PAGE_SIZE: usize = 0x1000;

/// True when `x` is a multiple of the page size.
pub open spec fn is_page_aligned(x: int) -> bool {
    x % (PAGE_SIZE as int) == 0
}

/// Whether `x` is aligned to a page boundary.
pub fn page_aligned(x: usize) -> (r: bool)
    ensures
        r == is_page_aligned(x as int),
{
    x % PAGE_SIZE == 0
}

/// Permission set of one mapping: readable, writable, executable and
/// accessible from user mode.
#[derive(Clone, Copy, Debug, PartialEq, Eq, Structural)]
pub struct MMUFlags {
    pub read: bool,
    pub write: bool,
    pub execute: bool,
    pub user: bool,
}

/// Bit value of a permission in the packed form of `MMUFlags`.
pub const READ_BIT: usize = 1;
pub const WRITE_BIT: usize = 2;
pub const EXECUTE_BIT: usize = 4;
pub const USER_BIT: usize = 8;

/// 1 when `b` holds, else 0.
pub open spec fn indicator(b: bool) -> int {
    if b {
        1
    } else {
        0
    }
}

impl MMUFlags {
    /// The packed form: bit 0 read, bit 1 write, bit 2 execute, bit 3 user.
    pub open spec fn spec_bits(self) -> int {
        indicator(self.read) + 2 * indicator(self.write) + 4 * indicator(self.execute) + 8
            * indicator(self.user)
    }

    /// The flags of a packed value below 16.
    pub open spec fn spec_from_bits(bits: int) -> MMUFlags {
        MMUFlags {
            read: bits % 2 == 1,
            write: (bits / 2) % 2 == 1,
            execute: (bits / 4) % 2 == 1,
            user: (bits / 8) % 2 == 1,
        }
    }

    /// The set with no permission.
    pub fn empty() -> (r: MMUFlags)
        ensures
            !r.read && !r.write && !r.execute && !r.user,
    {
        MMUFlags { read: false, write: false, execute: false, user: false }
    }

    /// Packed form of the set.
    pub fn bits(self) -> (r: usize)
        ensures
            r as int == self.spec_bits(),
            r < 16,
    {
        let mut r: usize = 0;
        if self.read {
            r = r + READ_BIT;
        }
        if self.write {
            r = r + WRITE_BIT;
        }
        if self.execute {
            r = r + EXECUTE_BIT;
        }
        if self.user {
            r = r + USER_BIT;
        }
        r
    }

    /// The set whose packed form is `bits`; `None` when a bit above the
    /// four known ones is set.
    pub fn from_bits(bits: usize) -> (r: Option<MMUFlags>)
        ensures
            bits < 16 ==> r == Some(MMUFlags::spec_from_bits(bits as int)),
            bits >= 16 ==> r is None,
    {
        if bits >= 16 {
            None
        } else {
            Some(
                MMUFlags {
                    read: bits % 2 == 1,
                    write: (bits / 2) % 2 == 1,
                    execute: (bits / 4) % 2 == 1,
                    user: (bits / 8) % 2 == 1,
                },
            )
        }
    }

    /// Whether every permission of `other` is in `self`.
    pub fn contains(self, other: MMUFlags) -> (r: bool)
        ensures
            r == ((other.read ==> self.read) && (other.write ==> self.write) && (other.execute
                ==> self.execute) && (other.user ==> self.user)),
    {
        (!other.read || self.read) && (!other.write || self.write) && (!other.execute
            || self.execute) && (!other.user || self.user)
    }

    /// The permissions that are in `self` or in `other`.
    pub fn union(self, other: MMUFlags) -> (r: MMUFlags)
        ensures
            r.read == (self.read || other.read),
            r.write == (self.write || other.write),
            r.execute == (self.execute || other.execute),
            r.user == (self.user || other.user),
    {
        MMUFlags {
            read: self.read || other.read,
            write: self.write || other.write,
            execute: self.execute || other.execute,
            user: self.user || other.user,
        }
    }
}

/// `x` has exactly one bit set.
pub open spec fn single_bit(x: i32) -> bool {
    x > 0 && x & ((x - 1) as i32) == 0
}

/// Host memory-protection bits for read, write and execute access, as a
/// host defines them: three distinct single bits.
pub open spec fn valid_host_prot(prot: (i32, i32, i32)) -> bool {
    &&& single_bit(prot.0)
    &&& single_bit(prot.1)
    &&& single_bit(prot.2)
    &&& prot.0 != prot.1
    &&& prot.0 != prot.2
    &&& prot.1 != prot.2
}

/// Relies on libc's PROT_READ, PROT_WRITE and PROT_EXEC constants of the
/// host being built for; every host that libc defines them for gives three
/// distinct single bits.
#[verifier::external_body]
fn host_prot_bits() -> (r: (i32, i32, i32))
    ensures
        valid_host_prot(r),
{
    (libc::PROT_READ, libc::PROT_WRITE, libc::PROT_EXEC)
}

/// x86-64 page-table-entry flag bits.
pub const PTE_PRESENT: u64 = 0x1;
pub const PTE_WRITABLE: u64 = 0x2;
pub const PTE_USER: u64 = 0x4;
pub const PTE_NO_EXECUTE: u64 = 0x8000_0000_0000_0000;

impl MMUFlags {
    /// The protection value that grants exactly these permissions, given a
    /// host's read, write and execute bits `prot`: the bits of the granted
    /// permissions, or-ed together (user access has no host counterpart).
    pub open spec fn spec_prot_with(self, prot: (i32, i32, i32)) -> i32 {
        (if self.read {
            prot.0
        } else {
            0i32
        }) | (if self.write {
            prot.1
        } else {
            0i32
        }) | (if self.execute {
            prot.2
        } else {
            0i32
        })
    }

    /// The x86-64 entry flags: readable sets the present bit, writable the
    /// writable bit, user the user bit, and a set without execute sets the
    /// no-execute bit.
    pub open spec fn spec_ptf(self) -> int {
        PTE_PRESENT * indicator(self.read) + PTE_WRITABLE * indicator(self.write) + PTE_USER
            * indicator(self.user) + PTE_NO_EXECUTE * indicator(!self.execute)
    }

    /// The protection value that grants exactly these permissions, given a
    /// host's read, write and execute bits `prot`.
    pub fn prot_with(self, prot: (i32, i32, i32)) -> (r: i32)
        ensures
            r == self.spec_prot_with(prot),
    {
        let read = if self.read {
            prot.0
        } else {
            0i32
        };
        let write = if self.write {
            prot.1
        } else {
            0i32
        };
        let execute = if self.execute {
            prot.2
        } else {
            0i32
        };
        read | write | execute
    }

    /// Translate into the host's memory-protection flags: the host's bits
    /// of the granted permissions, or-ed together.
    pub fn to_mmap_prot(self) -> (r: i32)
        ensures
            exists|prot: (i32, i32, i32)| valid_host_prot(prot) && r == self.spec_prot_with(prot),
    {
        let prot = host_prot_bits();
        self.prot_with(prot)
    }

    /// Translate into x86-64 page-table-entry flags.
    pub fn to_ptf(self) -> (r: u64)
        ensures
            r as int == self.spec_ptf(),
    {
        let mut flags: u64 = 0;
        if self.read {
            flags = flags + PTE_PRESENT;
        }
        if self.write {
            flags = flags + PTE_WRITABLE;
        }
        if self.user {
            flags = flags + PTE_USER;
        }
        if !self.execute {
            flags = flags + PTE_NO_EXECUTE;
        }
        flags
    }
}

/// Packing and unpacking agree on every set of flags.
pub proof fn lemma_bits_round_trip(f: MMUFlags)
    ensures
        MMUFlags::spec_from_bits(f.spec_bits()) == f,
        0 <= f.spec_bits() < 16,
{
}

} // verus!
