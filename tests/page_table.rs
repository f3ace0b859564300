use kernel_hal::frame::{FrameAllocator, PhysFrame};
use kernel_hal::mmu::MMUFlags;
use kernel_hal::page_table::{PageTable, PageTableError};
use kernel_hal::pmem::{pmem_read, pmem_write, PhysMemory, PMEM_SIZE};
use kernel_hal::x86_page_table::PageTableImpl;

/// A valid virtual address base to map at.
const VBASE: usize = 0x2_0000_0000;

fn rw() -> MMUFlags {
    MMUFlags::empty().union(MMUFlags { read: true, write: true, execute: false, user: false })
}

#[test]
fn map_unmap() {
    let mut pt = PageTable::new();
    let flags = rw();
    let mut pmem = PhysMemory::new(PMEM_SIZE);
    // map 2 pages to 1 frame
    pt.map(VBASE, 0x1000, flags).unwrap();
    pt.map(VBASE + 0x1000, 0x1000, flags).unwrap();

    const MAGIC: usize = 0xdead_beaf;
    let through_first = pt.query(VBASE).unwrap();
    pmem_write(&mut pmem, through_first, &MAGIC.to_ne_bytes()).unwrap();
    let through_second = pt.query(VBASE + 0x1000).unwrap();
    let mut buf = [0u8; 8];
    pmem_read(&pmem, through_second, &mut buf).unwrap();
    assert_eq!(usize::from_ne_bytes(buf), MAGIC);

    pt.unmap(VBASE + 0x1000).unwrap();
}

#[test]
fn map_then_query_then_unmap() {
    let mut pt = PageTable::new();
    let flags = MMUFlags { read: true, write: false, execute: true, user: true };
    pt.map(0x4000, 0x9000, flags).unwrap();
    assert_eq!(pt.query(0x4000), Ok(0x9000));
    assert_eq!(pt.flags_of(0x4000), Some(flags));
    assert_eq!(pt.unmap(0x4000), Ok(()));
    assert_eq!(pt.query(0x4000), Err(PageTableError::NotMapped));
}

#[test]
fn unmap_and_protect_unmapped_fail() {
    let mut pt = PageTable::new();
    assert_eq!(pt.unmap(0x1000), Err(PageTableError::NotMapped));
    assert_eq!(pt.protect(0x1000, rw()), Err(PageTableError::NotMapped));
    assert_eq!(pt.query(0x1000), Err(PageTableError::NotMapped));
}

#[test]
fn map_overwrites_translation() {
    let mut pt = PageTable::new();
    pt.map(0x1000, 0x2000, rw()).unwrap();
    pt.map(0x1000, 0x3000, MMUFlags::empty()).unwrap();
    assert_eq!(pt.query(0x1000), Ok(0x3000));
    assert_eq!(pt.flags_of(0x1000), Some(MMUFlags::empty()));
}

#[test]
fn protect_same_flags_is_idempotent() {
    for bits in 0..16usize {
        let flags = MMUFlags::from_bits(bits).unwrap();
        let mut pt = PageTable::new();
        pt.map(0x7000, 0x5000, flags).unwrap();
        pt.protect(0x7000, flags).unwrap();
        assert_eq!(pt.query(0x7000), Ok(0x5000));
        assert_eq!(pt.flags_of(0x7000), Some(flags));
    }
}

#[test]
fn protect_changes_flags_only() {
    let mut pt = PageTable::new();
    pt.map(0x7000, 0x5000, rw()).unwrap();
    let rx = MMUFlags { read: true, write: false, execute: true, user: false };
    pt.protect(0x7000, rx).unwrap();
    assert_eq!(pt.query(0x7000), Ok(0x5000));
    assert_eq!(pt.flags_of(0x7000), Some(rx));
}

/// A kernel table and a fresh address space that shares its window.
fn spaces(frames: &mut FrameAllocator) -> (PageTableImpl, PageTableImpl) {
    let kernel = PageTableImpl::new_root(frames).unwrap();
    let pt = PageTableImpl::new(frames, &kernel).unwrap();
    (kernel, pt)
}

#[test]
fn x86_map_query_unmap() {
    let mut frames = FrameAllocator::new(16);
    let (kernel, mut pt) = spaces(&mut frames);
    assert_eq!(kernel.root_paddr(), 0x1000);
    assert_eq!(pt.root_paddr(), 0x2000);
    let flags = rw();
    pt.map(&mut frames, 0x40_0000, 0x8000, flags).unwrap();
    assert_eq!(pt.query(0x40_0000), Ok(0x8000));
    assert_eq!(pt.query(0x40_0123), Ok(0x8123));
    pt.unmap(0x40_0000).unwrap();
    assert_eq!(pt.query(0x40_0000), Err(PageTableError::NotMapped));
    assert_eq!(pt.unmap(0x40_0000), Err(PageTableError::NotMapped));
}

#[test]
fn x86_protect_keeps_frame() {
    let mut frames = FrameAllocator::new(16);
    let (_kernel, mut pt) = spaces(&mut frames);
    pt.map(&mut frames, 0x1000, 0xabc000, rw()).unwrap();
    let none = MMUFlags::empty();
    pt.protect(0x1000, none).unwrap();
    assert_eq!(pt.query(0x1000), Ok(0xabc000));
    assert_eq!(pt.protect(0x2000, none), Err(PageTableError::NotMapped));
}

#[test]
fn x86_table_levels_exhaustion() {
    // Frame 0 is never handed out: 6 frames give two roots and the three
    // table levels of one 2 MiB region.
    let mut frames = FrameAllocator::new(6);
    let (_kernel, mut pt) = spaces(&mut frames);
    pt.map(&mut frames, 0x1000, 0x1000, rw()).unwrap();
    // Same 2 MiB region: no new table needed.
    pt.map(&mut frames, 0x2000, 0x1000, rw()).unwrap();
    // A new region needs a last-level table, and none is left.
    assert_eq!(pt.map(&mut frames, 0x40_0000, 0x1000, rw()), Err(PageTableError::NoMemory));
    assert_eq!(pt.query(0x40_0000), Err(PageTableError::NotMapped));
    assert_eq!(pt.query(0x2000), Ok(0x1000));
}

#[test]
fn x86_new_region_needs_every_missing_level() {
    // Two roots plus two frames: one short of the three levels.
    let mut frames = FrameAllocator::new(5);
    let (_kernel, mut pt) = spaces(&mut frames);
    assert_eq!(pt.map(&mut frames, 0x1000, 0x1000, rw()), Err(PageTableError::NoMemory));
    assert_eq!(pt.query(0x1000), Err(PageTableError::NotMapped));
    // The failed call took no frame.
    assert!(PhysFrame::allocate(&mut frames).is_some());
}

#[test]
fn x86_new_without_frames_fails() {
    let mut frames = FrameAllocator::new(2);
    let kernel = PageTableImpl::new_root(&mut frames).unwrap();
    assert!(matches!(PageTableImpl::new(&mut frames, &kernel), Err(PageTableError::NoMemory)));
    assert!(matches!(PageTableImpl::new_root(&mut frames), Err(PageTableError::NoMemory)));
}

#[test]
fn x86_new_table_holds_kernel_window() {
    let mut frames = FrameAllocator::new(32);
    let mut kernel = PageTableImpl::new_root(&mut frames).unwrap();
    let kernel_code: u64 = 0xffff_ff80_0010_0000;
    let rx = MMUFlags { read: true, write: false, execute: true, user: false };
    kernel.map(&mut frames, kernel_code, 0x20_0000, rx).unwrap();
    kernel.map(&mut frames, 0x5000, 0x9000, rw()).unwrap();
    let mut pt = PageTableImpl::new(&mut frames, &kernel).unwrap();
    assert_eq!(pt.query(kernel_code + 0x10), Ok(0x20_0010));
    assert_eq!(pt.query(0x5000), Err(PageTableError::NotMapped));
    // Mapping more kernel pages in the same region needs no table frame.
    let mut none_left = FrameAllocator::new(0);
    pt.map(&mut none_left, kernel_code + 0x1000, 0x20_1000, rx).unwrap();
    assert_eq!(pt.query(kernel_code + 0x1000), Ok(0x20_1000));
}

#[test]
fn frames_are_distinct_and_aligned() {
    let mut frames = FrameAllocator::new(64);
    let mut seen: Vec<usize> = Vec::new();
    for _ in 0..63 {
        let f = PhysFrame::allocate(&mut frames).unwrap();
        let p = f.paddr();
        assert_eq!(p % 0x1000, 0);
        assert_ne!(p, 0);
        assert!(!seen.contains(&p));
        seen.push(p);
    }
    assert!(PhysFrame::allocate(&mut frames).is_none());
}

#[test]
fn first_frames_follow_counter() {
    let mut frames = FrameAllocator::new(8);
    let a = PhysFrame::allocate(&mut frames).unwrap();
    let b = PhysFrame::allocate(&mut frames).unwrap();
    assert_eq!(a.paddr(), 0x1000);
    assert_eq!(b.paddr(), 0x2000);
    a.dealloc(&mut frames);
    let c = PhysFrame::allocate(&mut frames).unwrap();
    assert_eq!(c.paddr(), 0x3000);
}

#[test]
fn empty_allocator_gives_nothing() {
    let mut frames = FrameAllocator::new(0);
    assert!(PhysFrame::allocate(&mut frames).is_none());
}

#[test]
fn x86_remap_after_query_is_seen() {
    let mut frames = FrameAllocator::new(16);
    let (_kernel, mut pt) = spaces(&mut frames);
    pt.map(&mut frames, 0x5000, 0x1000, rw()).unwrap();
    assert_eq!(pt.query(0x5000), Ok(0x1000));
    pt.map(&mut frames, 0x5000, 0x2000, rw()).unwrap();
    assert_eq!(pt.query(0x5000), Ok(0x2000));
    pt.unmap(0x5000).unwrap();
    assert_eq!(pt.query(0x5000), Err(PageTableError::NotMapped));
}

#[test]
fn x86_protect_same_flags_keeps_query() {
    for bits in 0..16usize {
        let flags = MMUFlags::from_bits(bits).unwrap();
        let mut frames = FrameAllocator::new(8);
        let (_kernel, mut pt) = spaces(&mut frames);
        pt.map(&mut frames, 0x3000, 0x7000, flags).unwrap();
        assert_eq!(pt.query(0x3000), Ok(0x7000));
        pt.protect(0x3000, flags).unwrap();
        assert_eq!(pt.query(0x3000), Ok(0x7000));
    }
}
