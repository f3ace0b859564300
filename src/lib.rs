//! Hardware-abstraction layer core: physical frames, page tables, physical
//! memory access, trap classification, the IRQ registry, timers, the
//! park/wake protocol of execution contexts, the kernel's memory layout and
//! framebuffer drawing.

pub mod mmu;
pub mod frame;
pub mod pmem;
pub mod page_table;
pub mod x86_page_table;
pub mod irq;
pub mod trap;
pub mod timer;
pub mod thread;
pub mod mem_info;
pub mod display;
