use kernel_hal::mem_info::KernelMemInfo;
use kernel_hal::mmu::{page_aligned, MMUFlags};
use kernel_hal::pmem::{phys_to_virt, pmem_read, pmem_write, PhysMemory, PmemError};

#[test]
fn write_then_read_round_trip() {
    let mut pmem = PhysMemory::new(0x4000);
    let data: Vec<u8> = (0..200u32).map(|i| (i * 7 % 256) as u8).collect();
    pmem_write(&mut pmem, 0x1ff0, &data).unwrap();
    let mut back = vec![0u8; data.len()];
    pmem_read(&pmem, 0x1ff0, &mut back).unwrap();
    assert_eq!(back, data);
    let mut before = [1u8; 1];
    pmem_read(&pmem, 0x1fef, &mut before).unwrap();
    assert_eq!(before, [0]);
}

#[test]
fn out_of_range_access_is_rejected() {
    let mut pmem = PhysMemory::new(0x1000);
    assert_eq!(pmem_write(&mut pmem, 0xfff, &[1, 2]), Err(PmemError::OutOfRange));
    let mut buf = [9u8; 2];
    assert_eq!(pmem_read(&pmem, 0xfff, &mut buf), Err(PmemError::OutOfRange));
    assert_eq!(buf, [9, 9]);
    assert_eq!(pmem_read(&pmem, usize::MAX, &mut buf), Err(PmemError::OutOfRange));
    let mut last = [5u8; 1];
    pmem_read(&pmem, 0xfff, &mut last).unwrap();
    assert_eq!(last, [0]);
}

#[test]
fn window_alias_adds_base() {
    assert_eq!(phys_to_virt(0), 0x8_0000_0000);
    assert_eq!(phys_to_virt(0x1234), 0x8_0000_1234);
}

#[test]
fn alignment() {
    assert!(page_aligned(0));
    assert!(page_aligned(0x3000));
    assert!(!page_aligned(0x3001));
}

#[test]
fn flag_translations() {
    let all = MMUFlags { read: true, write: true, execute: true, user: true };
    assert_eq!(all.to_mmap_prot(), 7);
    assert_eq!(MMUFlags::empty().to_mmap_prot(), 0);
    let r = MMUFlags { read: true, write: false, execute: false, user: false };
    assert_eq!(r.to_mmap_prot(), 1);
    let w = MMUFlags { read: false, write: true, execute: false, user: false };
    assert_eq!(w.to_mmap_prot(), 2);
    let x = MMUFlags { read: false, write: false, execute: true, user: false };
    assert_eq!(x.to_mmap_prot(), 4);
    assert_eq!(MMUFlags::empty().to_ptf(), 0x8000_0000_0000_0000);
    assert_eq!(all.to_ptf(), 0x7);
    assert_eq!(r.to_ptf(), 0x8000_0000_0000_0001);
    assert_eq!(w.to_ptf(), 0x8000_0000_0000_0002);
}

#[test]
fn flag_bits_round_trip() {
    for bits in 0..16usize {
        assert_eq!(MMUFlags::from_bits(bits).unwrap().bits(), bits);
    }
    assert_eq!(MMUFlags::from_bits(16), None);
    let rw = MMUFlags { read: true, write: true, execute: false, user: false };
    assert!(rw.contains(MMUFlags { read: true, write: false, execute: false, user: false }));
    assert!(!rw.contains(MMUFlags { read: false, write: false, execute: true, user: false }));
}

#[test]
fn kernel_layout_from_pc() {
    let info = KernelMemInfo::new(0x8020_1234);
    assert_eq!(info.paddr_base, 0x8000_0000);
    assert_eq!(info.vaddr_base, usize::MAX - ((1usize << 30) - 1));
    assert_eq!(info.offset(), info.vaddr_base - 0x8000_0000);
}

#[test]
fn protection_from_host_bits() {
    let rw = MMUFlags { read: true, write: true, execute: false, user: true };
    assert_eq!(rw.prot_with((1, 2, 4)), 3);
    assert_eq!(rw.prot_with((0x100, 0x200, 0x400)), 0x300);
    let x = MMUFlags { read: false, write: false, execute: true, user: false };
    assert_eq!(x.prot_with((4, 2, 1)), 1);
    assert_eq!(MMUFlags::empty().prot_with((4, 2, 1)), 0);
}
