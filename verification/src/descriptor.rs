//! Linear descriptor-heap allocator.
//!
//! Hands out contiguous descriptor ranges by bumping a size counter; there is
//! no per-range deallocation. A request that does not fit is refused outright
//! (the heap never wraps). Shader-visible heaps additionally carry a GPU base
//! address and are wholesale-reset once per frame by the owning context after
//! the frame fence shows the GPU is done with their previous contents.

use vstd::prelude::*;

verus! {

/// Linear allocator over one native descriptor heap. `heap` is the native
/// heap object's identifier; `cpu_base` and `gpu_base` are the native base
/// addresses (`gpu_base` is 0 for heaps that are not shader-visible);
/// `descriptor_size` is the stride between adjacent descriptors.
#[derive(Debug, Clone, Copy, PartialEq, Eq, Structural)]
pub struct DescriptorHeap {
    pub heap: u64,
    pub cpu_base: u64,
    pub gpu_base: u64,
    pub size: u32,
    pub capacity: u32,
    pub descriptor_size: u32,
}

impl DescriptorHeap {
    /// Well-formedness: a real CPU base, a positive capacity, consumption
    /// within capacity, and address arithmetic that cannot wrap.
    pub open spec fn wf(self) -> bool {
        &&& self.cpu_base != 0
        &&& self.capacity > 0
        &&& self.size <= self.capacity
        &&& self.cpu_base + self.capacity * self.descriptor_size <= u64::MAX
        &&& self.gpu_base + self.capacity * self.descriptor_size <= u64::MAX
    }

    /// Whether the heap is visible to shaders (allocations then also carry a
    /// GPU-side address).
    pub open spec fn shader_visible(self) -> bool {
        self.gpu_base != 0
    }

    /// CPU address of the descriptor at offset `at` from the heap start.
    pub open spec fn cpu_at(self, at: int) -> int {
        self.cpu_base + at * self.descriptor_size
    }

    /// GPU address of the descriptor at offset `at` from the heap start.
    pub open spec fn gpu_at(self, at: int) -> int {
        self.gpu_base + at * self.descriptor_size
    }

    /// Exact effect of an allocation of `num` descriptors: it succeeds if and
    /// only if the request fits under the capacity, the range starts at the
    /// previous consumption mark, and only the consumption mark moves. A
    /// request that does not fit changes nothing.
    pub open spec fn allocate_post(
        pre: DescriptorHeap,
        post: DescriptorHeap,
        num: u32,
        granted: bool,
        at: int,
    ) -> bool {
        &&& (granted <==> pre.size + num < pre.capacity)
        &&& (!granted ==> post == pre)
        &&& (granted ==> {
            &&& at == pre.size
            &&& post == (DescriptorHeap { size: (pre.size + num) as u32, ..pre })
        })
    }

    /// Fresh heap over native bases handed in by the caller.
    pub fn new(heap: u64, cpu_base: u64, gpu_base: u64, capacity: u32, descriptor_size: u32) -> (h:
        DescriptorHeap)
        requires
            cpu_base != 0,
            capacity > 0,
            cpu_base + capacity * descriptor_size <= u64::MAX,
            gpu_base + capacity * descriptor_size <= u64::MAX,
        ensures
            h == (DescriptorHeap { heap, cpu_base, gpu_base, size: 0, capacity, descriptor_size }),
            h.wf(),
    {
        DescriptorHeap { heap, cpu_base, gpu_base, size: 0, capacity, descriptor_size }
    }

    /// Allocates `num` descriptors from a CPU-only heap and returns the CPU
    /// address of the first; `None` iff the request does not fit.
    pub fn allocate_cpu_descriptors(&mut self, num: u32) -> (r: Option<u64>)
        requires
            old(self).wf(),
            !old(self).shader_visible(),
        ensures
            final(self).wf(),
            !final(self).shader_visible(),
            DescriptorHeap::allocate_post(*old(self), *final(self), num, r is Some, old(self).size as int),
            r matches Some(cpu) ==> cpu == old(self).cpu_at(old(self).size as int),
    {
        if (self.size as u64) + (num as u64) >= (self.capacity as u64) {
            return None;
        }
        proof {
            mul_le_mono(self.size as int, self.capacity as int, self.descriptor_size as int);
        }
        let cpu = self.cpu_base + (self.size as u64) * (self.descriptor_size as u64);
        self.size = self.size + num;
        Some(cpu)
    }

    /// Allocates `num` descriptors from a shader-visible heap and returns the
    /// CPU and GPU addresses of the first; `None` iff the request does not
    /// fit.
    pub fn allocate_gpu_descriptors(&mut self, num: u32) -> (r: Option<(u64, u64)>)
        requires
            old(self).wf(),
            old(self).shader_visible(),
        ensures
            final(self).wf(),
            final(self).shader_visible(),
            DescriptorHeap::allocate_post(*old(self), *final(self), num, r is Some, old(self).size as int),
            r matches Some(pair) ==> pair.0 == old(self).cpu_at(old(self).size as int)
                && pair.1 == old(self).gpu_at(old(self).size as int),
    {
        if (self.size as u64) + (num as u64) >= (self.capacity as u64) {
            return None;
        }
        proof {
            mul_le_mono(self.size as int, self.capacity as int, self.descriptor_size as int);
        }
        let cpu = self.cpu_base + (self.size as u64) * (self.descriptor_size as u64);
        let gpu = self.gpu_base + (self.size as u64) * (self.descriptor_size as u64);
        self.size = self.size + num;
        Some((cpu, gpu))
    }

    /// Per-frame wholesale reset: forgets every range handed out. Only valid
    /// once the owning context has observed, via the frame fence, that the
    /// GPU no longer reads the heap's previous contents.
    pub fn reset(&mut self)
        requires
            old(self).wf(),
        ensures
            final(self).wf(),
            *final(self) == (DescriptorHeap { size: 0, ..*old(self) }),
    {
        self.size = 0;
    }
}

/// Multiplication keeps `<=` on non-negative values.
proof fn mul_le_mono(a: int, b: int, c: int)
    requires
        0 <= a <= b,
        0 <= c,
    ensures
        a * c <= b * c,
{
    vstd::arithmetic::mul::lemma_mul_inequality(a, b, c);
}

/// The consumption counter of a descriptor heap never passes its capacity:
/// an allocation succeeds exactly when the request still fits under the
/// capacity, and a refused request leaves the heap unchanged.
pub proof fn lemma_descriptor_heap_never_overflows(
    pre: DescriptorHeap,
    post: DescriptorHeap,
    num: u32,
    granted: bool,
    at: int,
)
    requires
        pre.wf(),
        DescriptorHeap::allocate_post(pre, post, num, granted, at),
    ensures
        post.size <= post.capacity,
        pre.size + num >= pre.capacity ==> !granted && post == pre,
        granted ==> post.size == pre.size + num,
{
}

} // verus!
