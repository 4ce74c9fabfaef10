//! Per-frame linear allocator over an upload-type GPU memory region.
//!
//! Requests are rounded up to a 256-byte boundary and served by bumping a
//! size counter, so every address handed out is 256-byte aligned and ranges
//! never overlap. Exhaustion is a signal, not an error: the allocator returns
//! `None` and the caller flushes in-flight work, waits for the GPU, and
//! retries against the reset heap. The owning context resets the heap once
//! per frame, after the frame fence shows its previous contents are consumed.

use vstd::prelude::*;

verus! {

/// Alignment every upload allocation is rounded up to.
pub const UPLOAD_ALLOC_ALIGNMENT: u32 = 256;

/// `size` rounded up to the next multiple of 256.
pub open spec fn round_up_256(size: int) -> int {
    ((size + 255) / 256) * 256
}

/// Linear allocator over one mapped upload buffer. `heap` is the native
/// buffer's identifier; `gpu_base` its GPU virtual address. CPU-side
/// locations are expressed as byte offsets from the mapped base.
#[derive(Debug, Clone, Copy, PartialEq, Eq, Structural)]
pub struct GpuMemoryHeap {
    pub heap: u64,
    pub gpu_base: u64,
    pub size: u32,
    pub capacity: u32,
}

impl GpuMemoryHeap {
    /// Well-formedness: the GPU base is itself 256-byte aligned, consumption
    /// is an aligned amount within capacity, and GPU address arithmetic
    /// cannot wrap.
    pub open spec fn wf(self) -> bool {
        &&& self.heap != 0
        &&& self.gpu_base != 0
        &&& self.gpu_base % 256 == 0
        &&& self.size % 256 == 0
        &&& self.size <= self.capacity
        &&& self.gpu_base + self.capacity <= u64::MAX
    }

    /// Exact effect of an allocation: the request, rounded up to 256 bytes,
    /// is served from the current consumption mark iff it leaves the heap
    /// strictly under capacity; otherwise nothing changes and the caller must
    /// flush and retry.
    pub open spec fn allocate_post(
        pre: GpuMemoryHeap,
        post: GpuMemoryHeap,
        size: u32,
        r: Option<(u32, u64)>,
    ) -> bool {
        match r {
            None => pre.size + round_up_256(size as int) >= pre.capacity && post == pre,
            Some((offset, gpu_addr)) => {
                &&& pre.size + round_up_256(size as int) < pre.capacity
                &&& offset == pre.size
                &&& gpu_addr == pre.gpu_base + pre.size
                &&& offset % 256 == 0
                &&& gpu_addr % 256 == 0
                &&& post == (GpuMemoryHeap {
                    size: (pre.size + round_up_256(size as int)) as u32,
                    ..pre
                })
            },
        }
    }

    /// Fresh heap over a mapped native buffer handed in by the caller.
    pub fn new(heap: u64, gpu_base: u64, capacity: u32) -> (h: GpuMemoryHeap)
        requires
            heap != 0,
            gpu_base != 0,
            gpu_base % 256 == 0,
            gpu_base + capacity <= u64::MAX,
        ensures
            h == (GpuMemoryHeap { heap, gpu_base, size: 0, capacity }),
            h.wf(),
    {
        GpuMemoryHeap { heap, gpu_base, size: 0, capacity }
    }

    /// Allocates `size` bytes, rounded up to a 256-byte boundary; returns the
    /// byte offset from the mapped CPU base together with the GPU virtual
    /// address, or `None` when the heap is exhausted.
    pub fn allocate(&mut self, size: u32) -> (r: Option<(u32, u64)>)
        requires
            old(self).wf(),
            size > 0,
        ensures
            final(self).wf(),
            GpuMemoryHeap::allocate_post(*old(self), *final(self), size, r),
    {
        let rounded: u64 = (((size as u64) + 255) / 256) * 256;
        assert(rounded == round_up_256(size as int));

        if (self.size as u64) + rounded >= (self.capacity as u64) {
            return None;
        }

        let offset = self.size;
        let gpu_addr = self.gpu_base + (self.size as u64);
        proof {
            assert((old(self).gpu_base + old(self).size) % 256 == 0) by {
                vstd::arithmetic::div_mod::lemma_add_mod_noop(
                    old(self).gpu_base as int,
                    old(self).size as int,
                    256,
                );
            }
            assert((old(self).size + round_up_256(size as int)) % 256 == 0) by {
                vstd::arithmetic::div_mod::lemma_add_mod_noop(
                    old(self).size as int,
                    round_up_256(size as int),
                    256,
                );
                vstd::arithmetic::div_mod::lemma_mod_multiples_basic(
                    (size as int + 255) / 256,
                    256,
                );
            }
        }
        self.size = self.size + (rounded as u32);
        Some((offset, gpu_addr))
    }

    /// Per-frame wholesale reset: forgets every range handed out. Only valid
    /// once the owning context has observed, via the frame fence, that the
    /// GPU no longer reads the heap's previous contents.
    pub fn reset(&mut self)
        requires
            old(self).wf(),
        ensures
            final(self).wf(),
            *final(self) == (GpuMemoryHeap { size: 0, ..*old(self) }),
    {
        self.size = 0;
    }
}

/// Every address an upload allocation returns is 256-byte aligned, and two
/// consecutive successful allocations never overlap: the second range starts
/// at or past the end of the first request.
pub proof fn lemma_upload_allocations_aligned_and_disjoint(
    h0: GpuMemoryHeap,
    h1: GpuMemoryHeap,
    h2: GpuMemoryHeap,
    s1: u32,
    s2: u32,
    r1: (u32, u64),
    r2: (u32, u64),
)
    requires
        h0.wf(),
        s1 > 0,
        s2 > 0,
        GpuMemoryHeap::allocate_post(h0, h1, s1, Some(r1)),
        GpuMemoryHeap::allocate_post(h1, h2, s2, Some(r2)),
    ensures
        r1.1 % 256 == 0,
        r2.1 % 256 == 0,
        r1.1 + s1 <= r2.1,
        r1.0 + s1 <= r2.0,
{
    assert(s1 <= round_up_256(s1 as int)) by {
        vstd::arithmetic::div_mod::lemma_fundamental_div_mod(s1 as int + 255, 256);
    }
}

} // verus!
