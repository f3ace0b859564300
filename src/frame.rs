//! Physical frame allocation by a monotonic frame counter.
use vstd::prelude::*;
use crate::mmu::{PAGE_SIZE, is_page_aligned};

verus! {

/// Exclusive ownership of one physical page, created only by a
/// `FrameAllocator`.
#[derive(Debug)]
pub struct PhysFrame {
    paddr: usize,
}

impl View for PhysFrame {
    type V = usize;

    /// The frame's physical start address.
    closed spec fn view(&self) -> usize {
        self.paddr
    }
}

/// Source of fresh physical frames: frame number `next` is handed out next,
/// and every frame number below `limit` may be handed out. Frame number 0 is
/// never handed out, so no frame starts at physical address 0. Frames are not
/// reclaimed: a frame number is handed out at most once.
pub struct FrameAllocator {
    next: usize,
    limit: usize,
}

impl FrameAllocator {
    /// The allocator's invariant.
    pub closed spec fn wf(&self) -> bool {
        &&& 1 <= self.next
        &&& self.next <= self.limit || self.next == 1
        &&& self.limit <= usize::MAX / PAGE_SIZE
    }

    /// Number of frames that the allocator can still hand out.
    pub closed spec fn remaining(&self) -> nat {
        if self.next < self.limit {
            (self.limit - self.next) as nat
        } else {
            0
        }
    }

    /// Addresses of the frames handed out so far, in order.
    pub closed spec fn issued(&self) -> Seq<usize> {
        Seq::new((self.next - 1) as nat, |i: int| ((i + 1) * PAGE_SIZE) as usize)
    }

    /// Exclusive upper bound of the physical range that frames come from.
    pub closed spec fn range_end(&self) -> int {
        self.limit * PAGE_SIZE
    }

    /// An allocator over the physical range `[0, frames * PAGE_SIZE)`.
    pub fn new(frames: usize) -> (r: FrameAllocator)
        requires
            frames <= usize::MAX / PAGE_SIZE,
        ensures
            r.wf(),
            r.issued() == Seq::<usize>::empty(),
            r.remaining() == if frames == 0 { 0 } else { (frames - 1) as nat },
            r.range_end() == frames * PAGE_SIZE,
    {
        let r = FrameAllocator { next: 1, limit: frames };
        assert(r.issued() =~= Seq::<usize>::empty());
        r
    }
}

impl FrameAllocator {
    /// Number of frames that can still be handed out.
    pub fn available(&self) -> (r: usize)
        requires
            self.wf(),
        ensures
            r == self.remaining(),
    {
        if self.next < self.limit {
            self.limit - self.next
        } else {
            0
        }
    }
}

impl PhysFrame {
    /// Physical start address of the frame.
    pub fn paddr(&self) -> (r: usize)
        ensures
            r == self@,
    {
        self.paddr
    }

    /// Take the next fresh frame from `allocator`; `None` once the range is
    /// exhausted, with the allocator unchanged.
    pub fn allocate(allocator: &mut FrameAllocator) -> (r: Option<PhysFrame>)
        requires
            old(allocator).wf(),
        ensures
            final(allocator).wf(),
            (r is Some) == (old(allocator).remaining() > 0),
            r is None ==> *final(allocator) == *old(allocator),
            r is Some ==> {
                let p = r->0@;
                &&& p == (old(allocator).issued().len() + 1) * PAGE_SIZE
                &&& is_page_aligned(p as int)
                &&& p != 0
                &&& p + PAGE_SIZE <= old(allocator).range_end()
                &&& !old(allocator).issued().contains(p)
                &&& final(allocator).issued() == old(allocator).issued().push(p)
                &&& final(allocator).remaining() + 1 == old(allocator).remaining()
                &&& final(allocator).range_end() == old(allocator).range_end()
            },
    {
        if allocator.next >= allocator.limit {
            return None;
        }
        let frame_id = allocator.next;
        proof {
            lemma_page_mul_bound(frame_id as int, allocator.limit as int);
        }
        let paddr = frame_id * PAGE_SIZE;
        let ghost before = allocator.issued();
        allocator.next = frame_id + 1;
        proof {
            assert(allocator.issued() =~= before.push(paddr));
            assert forall|i: int| 0 <= i < before.len() implies before[i] != paddr by {
                lemma_page_mul_bound(i + 1, allocator.limit as int);
                assert((i + 1) * PAGE_SIZE < frame_id * PAGE_SIZE) by (nonlinear_arith)
                    requires
                        i + 1 < frame_id,
                ;
            }
            assert(paddr as int % PAGE_SIZE as int == 0) by (nonlinear_arith)
                requires
                    paddr == frame_id * PAGE_SIZE,
            ;
            assert(paddr + PAGE_SIZE <= allocator.limit * PAGE_SIZE) by (nonlinear_arith)
                requires
                    paddr == frame_id * PAGE_SIZE,
                    frame_id < allocator.limit,
            ;
        }
        Some(PhysFrame { paddr })
    }

    /// Give the frame back. Frames are never reused, so the allocator is
    /// left as it was.
    pub fn dealloc(self, allocator: &mut FrameAllocator)
        ensures
            *final(allocator) == *old(allocator),
    {
    }
}

/// A frame number below the limit gives an address that fits in `usize`.
proof fn lemma_page_mul_bound(id: int, limit: int)
    requires
        0 <= id < limit,
        limit <= usize::MAX / PAGE_SIZE,
    ensures
        0 <= id * PAGE_SIZE < limit * PAGE_SIZE,
        limit * PAGE_SIZE <= usize::MAX,
{
    assert(id * PAGE_SIZE < limit * PAGE_SIZE) by (nonlinear_arith)
        requires
            0 <= id < limit,
    ;
    assert(limit * PAGE_SIZE <= usize::MAX) by (nonlinear_arith)
        requires
            limit <= usize::MAX / PAGE_SIZE,
    ;
    assert(0 <= id * PAGE_SIZE) by (nonlinear_arith)
        requires
            0 <= id,
    ;
}

/// Every frame that an allocator has handed out has its own address: a run
/// of allocations never returns one address twice, and each address is a
/// nonzero page-aligned address inside the allocator's range.
pub proof fn lemma_issued_frames_distinct(a: &FrameAllocator)
    requires
        a.wf(),
    ensures
        a.issued().no_duplicates(),
        forall|i: int|
            0 <= i < a.issued().len() ==> {
                let p = #[trigger] a.issued()[i];
                &&& is_page_aligned(p as int)
                &&& p != 0
                &&& p + PAGE_SIZE <= a.range_end()
            },
{
    assert forall|i: int, j: int|
        0 <= i < a.issued().len() && 0 <= j < a.issued().len() && i != j implies a.issued()[i]
        != a.issued()[j] by {
        lemma_page_mul_bound(i + 1, a.limit as int);
        lemma_page_mul_bound(j + 1, a.limit as int);
        if i < j {
            assert((i + 1) * PAGE_SIZE < (j + 1) * PAGE_SIZE) by (nonlinear_arith)
                requires
                    i < j,
            ;
        } else {
            assert((j + 1) * PAGE_SIZE < (i + 1) * PAGE_SIZE) by (nonlinear_arith)
                requires
                    j < i,
            ;
        }
    }
    assert forall|i: int| 0 <= i < a.issued().len() implies {
        let p = #[trigger] a.issued()[i];
        &&& is_page_aligned(p as int)
        &&& p != 0
        &&& p + PAGE_SIZE <= a.range_end()
    } by {
        lemma_page_mul_bound(i + 1, a.limit as int);
        assert((i + 1) * PAGE_SIZE % PAGE_SIZE as int == 0) by (nonlinear_arith);
        assert((i + 1) * PAGE_SIZE + PAGE_SIZE <= a.limit * PAGE_SIZE) by (nonlinear_arith)
            requires
                i + 1 < a.limit,
        ;
    }
}

} // verus!
