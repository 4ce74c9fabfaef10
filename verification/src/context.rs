//! The frame/device context: owner of the pools and per-frame allocators,
//! and the synchronization state machine of the double-buffered frame loop.
//!
//! The native device, queue, swap chain, command list and fence are external
//! capabilities; the context carries them only as opaque identifiers. Every
//! native side effect an operation requires (a barrier to submit, a pipeline
//! to bind, a fence value to signal or wait for) is returned to the caller as
//! a plain action value, while the context's own bookkeeping — handle
//! validation, tracked resource states, allocator consumption, the frame
//! counter and the one-frame-ahead pacing rule — is all decided, and proved,
//! here.

use vstd::prelude::*;
use crate::handles::Dx12ResourceHandle;
use crate::handles::Dx12PipelineHandle;
use crate::pool::ResourcePool;
use crate::pool::ResourceState;
use crate::pool::PipelinePool;
use crate::pool::MAX_NUM_RESOURCES;
use crate::pool::MAX_NUM_PIPELINES;
use crate::descriptor::DescriptorHeap;
use crate::upload::GpuMemoryHeap;
use crate::upload::round_up_256;
use crate::pipeline::Dx12GraphicsPipelineDesc;
use crate::pipeline::Dx12ComputePipelineDesc;
use crate::pipeline::graphics_pipeline_hash;
use crate::pipeline::compute_pipeline_hash;
use crate::pipeline::calc_graphics_pipeline_hash;
use crate::pipeline::calc_compute_pipeline_hash;
use crate::d3d12::Dx12ResourceBarrier;
use crate::d3d12::D3D12_DESCRIPTOR_HEAP_TYPE_RTV;
use crate::d3d12::D3D12_DESCRIPTOR_HEAP_TYPE_DSV;
use crate::d3d12::D3D12_DESCRIPTOR_HEAP_TYPE_CBV_SRV_UAV;
use crate::d3d12::D3D12_RESOURCE_STATE_PRESENT;
use crate::d3d12::DXGI_FORMAT_R8G8B8A8_UNORM;

verus! {

/// Descriptor capacity of the render-target-view heap.
pub const RTV_HEAP_CAPACITY: u32 = 1024;

/// Descriptor capacity of the depth-stencil-view heap.
pub const DSV_HEAP_CAPACITY: u32 = 1024;

/// Descriptor capacity of each CBV/SRV/UAV heap, CPU-side and shader-visible.
pub const CBV_SRV_UAV_HEAP_CAPACITY: u32 = 16 * 1024;

/// Byte capacity of each per-frame upload memory heap.
pub const UPLOAD_HEAP_CAPACITY: u32 = 32 * 1024;

/// Number of buffered frames (the double-buffering depth).
pub const NUM_BUFFERED_FRAMES: u32 = 2;

/// Number of swap-chain back buffers.
pub const NUM_SWAP_BUFFERS: u32 = 4;

/// Native identifiers and base addresses the caller obtained from the native
/// API when it created the device, queue, swap chain, heaps and fence; the
/// context's construction is pure bookkeeping over these plain values.
#[derive(Debug, Clone, Copy)]
pub struct Dx12ContextParams {
    pub device: u64,
    pub cmdqueue: u64,
    pub cmdlist: u64,
    pub swapchain: u64,
    pub frame_fence: u64,
    pub window: u64,
    pub resolution: [u32; 2],
    pub cmdallocs: [u64; 2],
    pub rtv_heap: u64,
    pub rtv_cpu_base: u64,
    pub rtv_descriptor_size: u32,
    pub dsv_heap: u64,
    pub dsv_cpu_base: u64,
    pub dsv_descriptor_size: u32,
    pub cpu_cbv_srv_uav_heap: u64,
    pub cpu_cbv_srv_uav_base: u64,
    pub cbv_srv_uav_descriptor_size: u32,
    pub gpu_cbv_srv_uav_heaps: [u64; 2],
    pub gpu_cbv_srv_uav_cpu_bases: [u64; 2],
    pub gpu_cbv_srv_uav_gpu_bases: [u64; 2],
    pub upload_heaps: [u64; 2],
    pub upload_gpu_bases: [u64; 2],
    pub swap_buffers: [u64; 4],
    pub back_buffer_index: u32,
}

impl Dx12ContextParams {
    /// The native values are real and their address arithmetic cannot wrap.
    pub open spec fn wf(self) -> bool {
        &&& self.rtv_cpu_base != 0
        &&& self.rtv_cpu_base + RTV_HEAP_CAPACITY * self.rtv_descriptor_size <= u64::MAX
        &&& self.dsv_cpu_base != 0
        &&& self.dsv_cpu_base + DSV_HEAP_CAPACITY * self.dsv_descriptor_size <= u64::MAX
        &&& self.cpu_cbv_srv_uav_base != 0
        &&& self.cpu_cbv_srv_uav_base + CBV_SRV_UAV_HEAP_CAPACITY * self.cbv_srv_uav_descriptor_size
            <= u64::MAX
        &&& forall|i: int|
            0 <= i < 2 ==> {
                &&& (#[trigger] self.gpu_cbv_srv_uav_cpu_bases[i]) != 0
                &&& self.gpu_cbv_srv_uav_gpu_bases[i] != 0
                &&& self.gpu_cbv_srv_uav_cpu_bases[i] + CBV_SRV_UAV_HEAP_CAPACITY
                    * self.cbv_srv_uav_descriptor_size <= u64::MAX
                &&& self.gpu_cbv_srv_uav_gpu_bases[i] + CBV_SRV_UAV_HEAP_CAPACITY
                    * self.cbv_srv_uav_descriptor_size <= u64::MAX
            }
        &&& forall|i: int|
            0 <= i < 2 ==> {
                &&& (#[trigger] self.upload_heaps[i]) != 0
                &&& self.upload_gpu_bases[i] != 0
                &&& self.upload_gpu_bases[i] % 256 == 0
                &&& self.upload_gpu_bases[i] + UPLOAD_HEAP_CAPACITY <= u64::MAX
            }
        &&& forall|i: int| 0 <= i < 4 ==> (#[trigger] self.swap_buffers[i]) != 0
        &&& self.back_buffer_index < NUM_SWAP_BUFFERS
    }
}

/// The context: device-lifetime identity, the pools, the descriptor and
/// upload allocators (one per buffered frame where transient), and the frame
/// synchronization state.
pub struct Dx12Context {
    pub device: u64,
    pub cmdqueue: u64,
    pub cmdlist: u64,
    pub swapchain: u64,
    pub frame_fence: u64,
    pub window: u64,
    pub resolution: [u32; 2],
    pub cmdallocs: [u64; 2],
    pub frame_index: u32,
    pub back_buffer_index: u32,
    pub num_frames: u64,
    pub rtv_heap: DescriptorHeap,
    pub dsv_heap: DescriptorHeap,
    pub cpu_cbv_srv_uav_heap: DescriptorHeap,
    pub gpu_cbv_srv_uav_heaps: [DescriptorHeap; 2],
    pub gpu_upload_memory_heaps: [GpuMemoryHeap; 2],
    pub swap_buffers: [Dx12ResourceHandle; 4],
    pub resource_pool: ResourcePool,
    pub pipeline_pool: PipelinePool,
    pub current_pipeline: Dx12PipelineHandle,
}

impl Dx12Context {
    /// Well-formedness of the whole context: well-formed pools, each heap
    /// well-formed with its fixed capacity and the right visibility, and the
    /// frame indices in range.
    pub open spec fn wf(self) -> bool {
        &&& self.resource_pool.wf()
        &&& self.pipeline_pool.wf()
        &&& self.rtv_heap.wf()
        &&& !self.rtv_heap.shader_visible()
        &&& self.rtv_heap.capacity == RTV_HEAP_CAPACITY
        &&& self.dsv_heap.wf()
        &&& !self.dsv_heap.shader_visible()
        &&& self.dsv_heap.capacity == DSV_HEAP_CAPACITY
        &&& self.cpu_cbv_srv_uav_heap.wf()
        &&& !self.cpu_cbv_srv_uav_heap.shader_visible()
        &&& self.cpu_cbv_srv_uav_heap.capacity == CBV_SRV_UAV_HEAP_CAPACITY
        &&& self.gpu_cbv_srv_uav_heaps[0].wf()
        &&& self.gpu_cbv_srv_uav_heaps[0].shader_visible()
        &&& self.gpu_cbv_srv_uav_heaps[0].capacity == CBV_SRV_UAV_HEAP_CAPACITY
        &&& self.gpu_cbv_srv_uav_heaps[1].wf()
        &&& self.gpu_cbv_srv_uav_heaps[1].shader_visible()
        &&& self.gpu_cbv_srv_uav_heaps[1].capacity == CBV_SRV_UAV_HEAP_CAPACITY
        &&& self.gpu_upload_memory_heaps[0].wf()
        &&& self.gpu_upload_memory_heaps[0].capacity == UPLOAD_HEAP_CAPACITY
        &&& self.gpu_upload_memory_heaps[1].wf()
        &&& self.gpu_upload_memory_heaps[1].capacity == UPLOAD_HEAP_CAPACITY
        &&& self.frame_index < NUM_BUFFERED_FRAMES
        &&& self.back_buffer_index < NUM_SWAP_BUFFERS
    }

    /// Builds the context over the native values: fresh pools and allocators,
    /// the four swap-chain images registered as ordinary pooled resources in
    /// slots 1 through 4 (with render-target views taking the first four
    /// descriptors of the RTV heap), frame counter zero, no pipeline bound.
    pub fn new(params: Dx12ContextParams) -> (c: Dx12Context)
        requires
            params.wf(),
        ensures
            c.wf(),
            c.device == params.device,
            c.cmdqueue == params.cmdqueue,
            c.cmdlist == params.cmdlist,
            c.swapchain == params.swapchain,
            c.frame_fence == params.frame_fence,
            c.window == params.window,
            c.resolution == params.resolution,
            c.cmdallocs == params.cmdallocs,
            c.frame_index == 0,
            c.back_buffer_index == params.back_buffer_index,
            c.num_frames == 0,
            c.current_pipeline == Dx12PipelineHandle::spec_invalid(),
            c.rtv_heap == (DescriptorHeap {
                heap: params.rtv_heap,
                cpu_base: params.rtv_cpu_base,
                gpu_base: 0,
                size: NUM_SWAP_BUFFERS,
                capacity: RTV_HEAP_CAPACITY,
                descriptor_size: params.rtv_descriptor_size,
            }),
            c.dsv_heap.size == 0,
            c.cpu_cbv_srv_uav_heap.size == 0,
            forall|i: int|
                0 <= i < 2 ==> (#[trigger] c.gpu_cbv_srv_uav_heaps[i]) == (DescriptorHeap {
                    heap: params.gpu_cbv_srv_uav_heaps[i],
                    cpu_base: params.gpu_cbv_srv_uav_cpu_bases[i],
                    gpu_base: params.gpu_cbv_srv_uav_gpu_bases[i],
                    size: 0,
                    capacity: CBV_SRV_UAV_HEAP_CAPACITY,
                    descriptor_size: params.cbv_srv_uav_descriptor_size,
                }),
            forall|i: int|
                0 <= i < 2 ==> (#[trigger] c.gpu_upload_memory_heaps[i]) == (GpuMemoryHeap {
                    heap: params.upload_heaps[i],
                    gpu_base: params.upload_gpu_bases[i],
                    size: 0,
                    capacity: UPLOAD_HEAP_CAPACITY,
                }),
            forall|k: int|
                0 <= k < 4 ==> (#[trigger] c.swap_buffers[k]) == (Dx12ResourceHandle {
                    index: (k + 1) as u16,
                    generation: 1,
                }),
            forall|k: int|
                0 <= k < 4 ==> #[trigger] c.resource_pool.resources@[k + 1] == (ResourceState {
                    ptr: params.swap_buffers[k],
                    state: D3D12_RESOURCE_STATE_PRESENT,
                    format: DXGI_FORMAT_R8G8B8A8_UNORM,
                }),
            forall|k: int| 0 <= k < 4 ==> c.resource_pool.handle_valid(#[trigger] c.swap_buffers[k]),
            forall|i: int| 5 <= i <= MAX_NUM_RESOURCES ==> !c.resource_pool.slot_live(i),
            forall|i: int| 0 <= i <= MAX_NUM_RESOURCES ==> !c.pipeline_pool.slot_live(i),
            c.pipeline_pool.map@ == Map::<u64, Dx12PipelineHandle>::empty(),
    {
        let mut rtv_heap = DescriptorHeap::new(
            params.rtv_heap,
            params.rtv_cpu_base,
            0,
            RTV_HEAP_CAPACITY,
            params.rtv_descriptor_size,
        );
        let dsv_heap = DescriptorHeap::new(
            params.dsv_heap,
            params.dsv_cpu_base,
            0,
            DSV_HEAP_CAPACITY,
            params.dsv_descriptor_size,
        );
        let cpu_cbv_srv_uav_heap = DescriptorHeap::new(
            params.cpu_cbv_srv_uav_heap,
            params.cpu_cbv_srv_uav_base,
            0,
            CBV_SRV_UAV_HEAP_CAPACITY,
            params.cbv_srv_uav_descriptor_size,
        );
        let gpu_heap0 = DescriptorHeap::new(
            params.gpu_cbv_srv_uav_heaps[0],
            params.gpu_cbv_srv_uav_cpu_bases[0],
            params.gpu_cbv_srv_uav_gpu_bases[0],
            CBV_SRV_UAV_HEAP_CAPACITY,
            params.cbv_srv_uav_descriptor_size,
        );
        let gpu_heap1 = DescriptorHeap::new(
            params.gpu_cbv_srv_uav_heaps[1],
            params.gpu_cbv_srv_uav_cpu_bases[1],
            params.gpu_cbv_srv_uav_gpu_bases[1],
            CBV_SRV_UAV_HEAP_CAPACITY,
            params.cbv_srv_uav_descriptor_size,
        );
        let upload_heap0 = GpuMemoryHeap::new(
            params.upload_heaps[0],
            params.upload_gpu_bases[0],
            UPLOAD_HEAP_CAPACITY,
        );
        let upload_heap1 = GpuMemoryHeap::new(
            params.upload_heaps[1],
            params.upload_gpu_bases[1],
            UPLOAD_HEAP_CAPACITY,
        );

        let mut resource_pool = ResourcePool::new();
        let pipeline_pool = PipelinePool::new();

        // Render-target views for the four swap-chain images occupy the first
        // four RTV descriptors; the caller creates the native views there.
        let rtv_range = rtv_heap.allocate_cpu_descriptors(NUM_SWAP_BUFFERS);
        assert(rtv_range is Some);

        proof {
            assert(!resource_pool.slot_live(1));
        }
        let b0 = resource_pool.add(
            params.swap_buffers[0],
            D3D12_RESOURCE_STATE_PRESENT,
            DXGI_FORMAT_R8G8B8A8_UNORM,
        );
        assert(b0 matches Some(h) && h.index == 1 && h.generation == 1);
        proof {
            assert(!resource_pool.slot_live(2));
        }
        let b1 = resource_pool.add(
            params.swap_buffers[1],
            D3D12_RESOURCE_STATE_PRESENT,
            DXGI_FORMAT_R8G8B8A8_UNORM,
        );
        assert(b1 matches Some(h) && h.index == 2 && h.generation == 1);
        proof {
            assert(!resource_pool.slot_live(3));
        }
        let b2 = resource_pool.add(
            params.swap_buffers[2],
            D3D12_RESOURCE_STATE_PRESENT,
            DXGI_FORMAT_R8G8B8A8_UNORM,
        );
        assert(b2 matches Some(h) && h.index == 3 && h.generation == 1);
        proof {
            assert(!resource_pool.slot_live(4));
        }
        let b3 = resource_pool.add(
            params.swap_buffers[3],
            D3D12_RESOURCE_STATE_PRESENT,
            DXGI_FORMAT_R8G8B8A8_UNORM,
        );
        assert(b3 matches Some(h) && h.index == 4 && h.generation == 1);

        let swap_buffers = [b0.unwrap(), b1.unwrap(), b2.unwrap(), b3.unwrap()];

        Dx12Context {
            device: params.device,
            cmdqueue: params.cmdqueue,
            cmdlist: params.cmdlist,
            swapchain: params.swapchain,
            frame_fence: params.frame_fence,
            window: params.window,
            resolution: params.resolution,
            cmdallocs: params.cmdallocs,
            frame_index: 0,
            back_buffer_index: params.back_buffer_index,
            num_frames: 0,
            rtv_heap,
            dsv_heap,
            cpu_cbv_srv_uav_heap,
            gpu_cbv_srv_uav_heaps: [gpu_heap0, gpu_heap1],
            gpu_upload_memory_heaps: [upload_heap0, upload_heap1],
            swap_buffers,
            resource_pool,
            pipeline_pool,
            current_pipeline: Dx12PipelineHandle::invalid(),
        }
    }

    /// The shared command list's native identifier.
    pub fn current_command_list(&self) -> (r: u64)
        ensures
            r == self.cmdlist,
    {
        self.cmdlist
    }

    /// Generation-checked validation of a resource handle.
    pub fn validate_resource_state(&self, handle: Dx12ResourceHandle) -> (ok: bool)
        requires
            self.wf(),
        ensures
            ok == self.resource_pool.handle_valid(handle),
    {
        self.resource_pool.validate(handle)
    }

    /// Generation-checked validation of a pipeline handle.
    pub fn validate_pipeline_state(&self, handle: Dx12PipelineHandle) -> (ok: bool)
        requires
            self.wf(),
        ensures
            ok == self.pipeline_pool.handle_valid(handle),
    {
        self.pipeline_pool.validate(handle)
    }

    /// Resolves a handle to the native resource it references.
    pub fn resource(&self, handle: Dx12ResourceHandle) -> (r: u64)
        requires
            self.wf(),
            self.resource_pool.handle_valid(handle),
        ensures
            r == self.resource_pool.resources@[handle.index as int].ptr,
            r != 0,
    {
        self.resource_pool.resources[handle.index as usize].ptr
    }

    /// Resolves a handle to its native pipeline-state object and root
    /// signature.
    pub fn pipeline_state(&self, handle: Dx12PipelineHandle) -> (r: (u64, u64))
        requires
            self.wf(),
            self.pipeline_pool.handle_valid(handle),
        ensures
            r.0 == self.pipeline_pool.pipelines@[handle.index as int].pso,
            r.1 == self.pipeline_pool.pipelines@[handle.index as int].rsignature,
            r.0 != 0,
            r.1 != 0,
    {
        let index = handle.index as usize;
        (self.pipeline_pool.pipelines[index].pso, self.pipeline_pool.pipelines[index].rsignature)
    }

    /// Registers a native resource the caller created (as a committed
    /// allocation) in the resource pool, with its initial usage state and
    /// format; `None` iff the pool is full.
    pub fn create_committed_resource(&mut self, resource: u64, initial_state: u32, format: u32) -> (r:
        Option<Dx12ResourceHandle>)
        requires
            old(self).wf(),
            resource != 0,
        ensures
            final(self).wf(),
            ResourcePool::add_post(
                old(self).resource_pool,
                final(self).resource_pool,
                resource,
                initial_state,
                format,
                r,
            ),
            *final(self) == (Dx12Context { resource_pool: final(self).resource_pool, ..*old(self) }),
            r matches Some(h) ==> final(self).resource_pool.handle_valid(h),
    {
        self.resource_pool.add(resource, initial_state, format)
    }

    /// Unregisters a resource and hands back the native object identifier the
    /// caller must release (asserting its reference count reaches zero). The
    /// slot keeps its generation, so the stale handle can never validate
    /// again.
    pub fn destroy_resource(&mut self, handle: Dx12ResourceHandle) -> (ptr: u64)
        requires
            old(self).wf(),
            old(self).resource_pool.handle_valid(handle),
        ensures
            final(self).wf(),
            ResourcePool::destroy_post(old(self).resource_pool, final(self).resource_pool, handle),
            *final(self) == (Dx12Context { resource_pool: final(self).resource_pool, ..*old(self) }),
            ptr == old(self).resource_pool.resources@[handle.index as int].ptr,
            !final(self).resource_pool.handle_valid(handle),
    {
        self.resource_pool.destroy(handle)
    }

    /// Compares the resource's tracked usage state with the requested one;
    /// when they differ, updates the tracked state and returns the transition
    /// barrier the caller must submit. A request for the state the resource
    /// is already in returns `None` and changes nothing: redundant barriers
    /// are suppressed.
    pub fn transition_barrier(&mut self, resource_handle: Dx12ResourceHandle, state_after: u32) -> (r:
        Option<Dx12ResourceBarrier>)
        requires
            old(self).wf(),
            old(self).resource_pool.handle_valid(resource_handle),
        ensures
            final(self).wf(),
            ({
                let i = resource_handle.index as int;
                let slot = old(self).resource_pool.resources@[i];
                &&& (r is Some <==> slot.state != state_after)
                &&& (r is None ==> *final(self) == *old(self))
                &&& (r matches Some(b) ==> {
                    &&& b == Dx12ResourceBarrier::spec_transition(slot.ptr, slot.state, state_after)
                    &&& final(self).resource_pool.resources@ == old(
                        self,
                    ).resource_pool.resources@.update(
                        i,
                        ResourceState { ptr: slot.ptr, state: state_after, format: slot.format },
                    )
                    &&& final(self).resource_pool.generations@ == old(
                        self,
                    ).resource_pool.generations@
                    &&& *final(self) == (Dx12Context {
                        resource_pool: final(self).resource_pool,
                        ..*old(self)
                    })
                })
                &&& final(self).resource_pool.handle_valid(resource_handle)
                &&& final(self).resource_pool.resources@[i].state == state_after
            }),
    {
        let index = resource_handle.index as usize;
        let slot = self.resource_pool.resources[index];
        if slot.state != state_after {
            self.resource_pool.resources.set(
                index,
                ResourceState { ptr: slot.ptr, state: state_after, format: slot.format },
            );
            Some(Dx12ResourceBarrier::transition(slot.ptr, slot.state, state_after))
        } else {
            None
        }
    }

    /// Binds a pipeline: when the handle differs from the one currently
    /// bound, records it and returns the native objects the caller must set
    /// on the command list; a redundant bind is elided and returns `None`.
    pub fn set_graphics_pipeline(&mut self, handle: Dx12PipelineHandle) -> (r: Option<
        Dx12PipelineBind,
    >)
        requires
            old(self).wf(),
            old(self).pipeline_pool.handle_valid(handle),
        ensures
            final(self).wf(),
            r is Some <==> handle != old(self).current_pipeline,
            final(self).current_pipeline == handle,
            *final(self) == (Dx12Context { current_pipeline: handle, ..*old(self) }),
            r matches Some(b) ==> b == (Dx12PipelineBind {
                pso: old(self).pipeline_pool.pipelines@[handle.index as int].pso,
                rsignature: old(self).pipeline_pool.pipelines@[handle.index as int].rsignature,
            }),
    {
        if handle != self.current_pipeline {
            let index = handle.index as usize;
            let bind = Dx12PipelineBind {
                pso: self.pipeline_pool.pipelines[index].pso,
                rsignature: self.pipeline_pool.pipelines[index].rsignature,
            };
            self.current_pipeline = handle;
            Some(bind)
        } else {
            None
        }
    }
}

/// Native objects the caller must bind on the command list after a pipeline
/// change.
#[derive(Debug, Clone, Copy, PartialEq, Eq, Structural)]
pub struct Dx12PipelineBind {
    pub pso: u64,
    pub rsignature: u64,
}

/// Answer of a pipeline-cache query: either the pooled handle already
/// registered for the description's content hash, or the hash under which
/// the caller must create the native objects and install them.
#[derive(Debug, Clone, Copy, PartialEq, Eq, Structural)]
pub enum Dx12PipelineQuery {
    Found(Dx12PipelineHandle),
    Missing(u64),
}

impl Dx12Context {
    /// What a cache query answers for a given content hash.
    pub open spec fn spec_pipeline_query(self, hash: u64) -> Dx12PipelineQuery {
        if self.pipeline_pool.map@.dom().contains(hash) {
            Dx12PipelineQuery::Found(self.pipeline_pool.map@[hash])
        } else {
            Dx12PipelineQuery::Missing(hash)
        }
    }

    /// Get-or-create, first phase, for a graphics pipeline: hashes the full
    /// description and looks the hash up in the cache. `Found` returns the
    /// existing handle without creating anything — the dominant path once the
    /// working set of pipelines is warm. On `Missing` the caller creates the
    /// native root signature and pipeline object and hands them to
    /// `install_pipeline` under the returned hash.
    pub fn create_graphics_pipeline(&self, desc: &Dx12GraphicsPipelineDesc) -> (r:
        Dx12PipelineQuery)
        requires
            self.wf(),
        ensures
            r == self.spec_pipeline_query(graphics_pipeline_hash(*desc)),
            r matches Dx12PipelineQuery::Found(h) ==> self.pipeline_pool.handle_valid(h),
    {
        let hash = calc_graphics_pipeline_hash(desc);
        match self.pipeline_pool.lookup(hash) {
            Some(h) => Dx12PipelineQuery::Found(h),
            None => Dx12PipelineQuery::Missing(hash),
        }
    }

    /// Get-or-create, first phase, for a compute pipeline; the cache map is
    /// shared with graphics pipelines.
    pub fn create_compute_pipeline(&self, desc: &Dx12ComputePipelineDesc) -> (r: Dx12PipelineQuery)
        requires
            self.wf(),
        ensures
            r == self.spec_pipeline_query(compute_pipeline_hash(*desc)),
            r matches Dx12PipelineQuery::Found(h) ==> self.pipeline_pool.handle_valid(h),
    {
        let hash = calc_compute_pipeline_hash(desc);
        match self.pipeline_pool.lookup(hash) {
            Some(h) => Dx12PipelineQuery::Found(h),
            None => Dx12PipelineQuery::Missing(hash),
        }
    }

    /// Get-or-create, second phase: pools the native pipeline objects the
    /// caller created for a `Missing` hash and registers the hash in the
    /// cache; `None` iff the pipeline pool is full. Afterwards a query for
    /// the same hash finds the returned handle.
    pub fn install_pipeline(&mut self, hash: u64, pso: u64, rsignature: u64) -> (r: Option<
        Dx12PipelineHandle,
    >)
        requires
            old(self).wf(),
            pso != 0,
            rsignature != 0,
            !old(self).pipeline_pool.map@.dom().contains(hash),
        ensures
            final(self).wf(),
            PipelinePool::add_post(
                old(self).pipeline_pool,
                final(self).pipeline_pool,
                hash,
                pso,
                rsignature,
                r,
            ),
            *final(self) == (Dx12Context { pipeline_pool: final(self).pipeline_pool, ..*old(self) }),
            r matches Some(h) ==> final(self).pipeline_pool.handle_valid(h),
            r matches Some(h) ==> final(self).spec_pipeline_query(hash)
                == Dx12PipelineQuery::Found(h),
    {
        self.pipeline_pool.add(hash, pso, rsignature)
    }

    /// Unregisters a pipeline: removes the one cache entry registered for the
    /// handle (provably unique), frees the slot, and hands back both native
    /// object identifiers the caller must release.
    pub fn destroy_pipeline(&mut self, handle: Dx12PipelineHandle) -> (r: (u64, u64))
        requires
            old(self).wf(),
            old(self).pipeline_pool.handle_valid(handle),
        ensures
            final(self).wf(),
            PipelinePool::destroy_post(old(self).pipeline_pool, final(self).pipeline_pool, handle),
            *final(self) == (Dx12Context { pipeline_pool: final(self).pipeline_pool, ..*old(self) }),
            r.0 == old(self).pipeline_pool.pipelines@[handle.index as int].pso,
            r.1 == old(self).pipeline_pool.pipelines@[handle.index as int].rsignature,
            !final(self).pipeline_pool.handle_valid(handle),
    {
        self.pipeline_pool.destroy(handle)
    }
}

/// A flush of in-flight GPU work: the caller must close and submit the
/// current command list, signal the frame fence with `signal_value`, block
/// until the fence reaches `wait_value`, and then begin a new command list.
#[derive(Debug, Clone, Copy, PartialEq, Eq, Structural)]
pub struct Dx12FlushAction {
    pub signal_value: u64,
    pub wait_value: u64,
}

/// Result of an upload-memory allocation. When `flush` is present, the
/// allocator ran out mid-frame: the caller must perform the flush before
/// touching the returned range, which then starts at the reset heap's base.
#[derive(Debug, Clone, Copy)]
pub struct Dx12UploadAllocation {
    pub flush: Option<Dx12FlushAction>,
    pub offset: u32,
    pub gpu_address: u64,
}

/// A region of the per-frame upload buffer: the native buffer it lives in
/// and the byte offset of the range within it (also the offset from the
/// mapped CPU base).
#[derive(Debug, Clone, Copy)]
pub struct Dx12UploadRegion {
    pub flush: Option<Dx12FlushAction>,
    pub buffer: u64,
    pub offset: u64,
    pub gpu_address: u64,
}

/// A descriptor copy the caller must perform on the native device: `num`
/// descriptors from `src_cpu` into the shader-visible heap range starting at
/// `dest_cpu`, to be bound through `dest_gpu`.
#[derive(Debug, Clone, Copy, PartialEq, Eq, Structural)]
pub struct Dx12DescriptorCopy {
    pub num: u32,
    pub src_cpu: u64,
    pub dest_cpu: u64,
    pub dest_gpu: u64,
}

impl Dx12Context {
    /// Allocates descriptors from one of the CPU-only heaps, selected by
    /// heap type, and returns the CPU address of the first; `None` iff the
    /// request does not fit under that heap's capacity. These allocations
    /// are never reset: they are stable for the context's lifetime.
    pub fn allocate_cpu_descriptors(&mut self, heap_type: u32, num: u32) -> (r: Option<u64>)
        requires
            old(self).wf(),
            heap_type == D3D12_DESCRIPTOR_HEAP_TYPE_RTV || heap_type
                == D3D12_DESCRIPTOR_HEAP_TYPE_DSV || heap_type
                == D3D12_DESCRIPTOR_HEAP_TYPE_CBV_SRV_UAV,
        ensures
            final(self).wf(),
            heap_type == D3D12_DESCRIPTOR_HEAP_TYPE_RTV ==> {
                &&& DescriptorHeap::allocate_post(
                    old(self).rtv_heap,
                    final(self).rtv_heap,
                    num,
                    r is Some,
                    old(self).rtv_heap.size as int,
                )
                &&& *final(self) == (Dx12Context { rtv_heap: final(self).rtv_heap, ..*old(self) })
                &&& (r matches Some(cpu) ==> cpu == old(self).rtv_heap.cpu_at(
                    old(self).rtv_heap.size as int,
                ))
            },
            heap_type == D3D12_DESCRIPTOR_HEAP_TYPE_DSV ==> {
                &&& DescriptorHeap::allocate_post(
                    old(self).dsv_heap,
                    final(self).dsv_heap,
                    num,
                    r is Some,
                    old(self).dsv_heap.size as int,
                )
                &&& *final(self) == (Dx12Context { dsv_heap: final(self).dsv_heap, ..*old(self) })
                &&& (r matches Some(cpu) ==> cpu == old(self).dsv_heap.cpu_at(
                    old(self).dsv_heap.size as int,
                ))
            },
            heap_type == D3D12_DESCRIPTOR_HEAP_TYPE_CBV_SRV_UAV ==> {
                &&& DescriptorHeap::allocate_post(
                    old(self).cpu_cbv_srv_uav_heap,
                    final(self).cpu_cbv_srv_uav_heap,
                    num,
                    r is Some,
                    old(self).cpu_cbv_srv_uav_heap.size as int,
                )
                &&& *final(self) == (Dx12Context {
                    cpu_cbv_srv_uav_heap: final(self).cpu_cbv_srv_uav_heap,
                    ..*old(self)
                })
                &&& (r matches Some(cpu) ==> cpu == old(self).cpu_cbv_srv_uav_heap.cpu_at(
                    old(self).cpu_cbv_srv_uav_heap.size as int,
                ))
            },
    {
        if heap_type == D3D12_DESCRIPTOR_HEAP_TYPE_RTV {
            self.rtv_heap.allocate_cpu_descriptors(num)
        } else if heap_type == D3D12_DESCRIPTOR_HEAP_TYPE_DSV {
            self.dsv_heap.allocate_cpu_descriptors(num)
        } else {
            self.cpu_cbv_srv_uav_heap.allocate_cpu_descriptors(num)
        }
    }

    /// Allocates descriptors from the current frame's shader-visible heap
    /// and returns the CPU and GPU addresses of the first; `None` iff the
    /// request does not fit. The heap is reset once per frame by
    /// `present_frame` after the fence shows its previous contents consumed.
    pub fn allocate_gpu_descriptors(&mut self, num: u32) -> (r: Option<(u64, u64)>)
        requires
            old(self).wf(),
        ensures
            final(self).wf(),
            final(self).frame_index == old(self).frame_index,
            ({
                let fi = old(self).frame_index as int;
                let h0 = old(self).gpu_cbv_srv_uav_heaps[fi];
                &&& DescriptorHeap::allocate_post(
                    h0,
                    final(self).gpu_cbv_srv_uav_heaps[fi],
                    num,
                    r is Some,
                    h0.size as int,
                )
                &&& final(self).gpu_cbv_srv_uav_heaps[1 - fi] == old(self).gpu_cbv_srv_uav_heaps[1
                    - fi]
                &&& *final(self) == (Dx12Context {
                    gpu_cbv_srv_uav_heaps: final(self).gpu_cbv_srv_uav_heaps,
                    ..*old(self)
                })
                &&& (r matches Some(pair) ==> pair.0 == h0.cpu_at(h0.size as int) && pair.1
                    == h0.gpu_at(h0.size as int))
            }),
    {
        let idx = self.frame_index as usize;
        let mut heap = self.gpu_cbv_srv_uav_heaps[idx];
        let r = heap.allocate_gpu_descriptors(num);
        self.gpu_cbv_srv_uav_heaps[idx] = heap;
        r
    }

    /// Allocates a range in the current frame's shader-visible heap and
    /// returns the descriptor copy the caller must perform into it, together
    /// with the GPU address to bind; `None` iff the heap is exhausted.
    pub fn copy_descriptors_to_gpu_heap(&mut self, num_descriptors: u32, src_cpu_base: u64) -> (r:
        Option<Dx12DescriptorCopy>)
        requires
            old(self).wf(),
        ensures
            final(self).wf(),
            final(self).frame_index == old(self).frame_index,
            ({
                let fi = old(self).frame_index as int;
                let h0 = old(self).gpu_cbv_srv_uav_heaps[fi];
                &&& DescriptorHeap::allocate_post(
                    h0,
                    final(self).gpu_cbv_srv_uav_heaps[fi],
                    num_descriptors,
                    r is Some,
                    h0.size as int,
                )
                &&& final(self).gpu_cbv_srv_uav_heaps[1 - fi] == old(self).gpu_cbv_srv_uav_heaps[1
                    - fi]
                &&& *final(self) == (Dx12Context {
                    gpu_cbv_srv_uav_heaps: final(self).gpu_cbv_srv_uav_heaps,
                    ..*old(self)
                })
                &&& (r matches Some(copy) ==> copy == (Dx12DescriptorCopy {
                    num: num_descriptors,
                    src_cpu: src_cpu_base,
                    dest_cpu: h0.cpu_at(h0.size as int) as u64,
                    dest_gpu: h0.gpu_at(h0.size as int) as u64,
                }))
            }),
    {
        match self.allocate_gpu_descriptors(num_descriptors) {
            Some((dest_cpu, dest_gpu)) => Some(
                Dx12DescriptorCopy { num: num_descriptors, src_cpu: src_cpu_base, dest_cpu, dest_gpu },
            ),
            None => None,
        }
    }

    /// Exact effect of an upload-memory allocation of `size` bytes, over the
    /// components of the returned record. When the request fits in the
    /// current frame's heap it is served in place and no flush is demanded;
    /// when it does not, the context performs the state effects of a hard
    /// flush (`finish` plus a fresh command list: frame counter bumped, this
    /// frame's transient allocators reset, no pipeline bound) and serves the
    /// request from the reset heap's base, handing the caller the fence
    /// values to flush with.
    pub open spec fn upload_alloc_post(
        pre: Dx12Context,
        post: Dx12Context,
        size: u32,
        flush: Option<Dx12FlushAction>,
        offset: u32,
        gpu_address: u64,
    ) -> bool {
        let fi = pre.frame_index as int;
        let h0 = pre.gpu_upload_memory_heaps[fi];
        if h0.size + round_up_256(size as int) < h0.capacity {
            &&& flush is None
            &&& offset == h0.size
            &&& gpu_address == h0.gpu_base + h0.size
            &&& post.gpu_upload_memory_heaps[fi] == (GpuMemoryHeap {
                size: (h0.size + round_up_256(size as int)) as u32,
                ..h0
            })
            &&& post.gpu_upload_memory_heaps[1 - fi] == pre.gpu_upload_memory_heaps[1 - fi]
            &&& post == (Dx12Context {
                gpu_upload_memory_heaps: post.gpu_upload_memory_heaps,
                ..pre
            })
        } else {
            &&& flush == Some(Dx12FlushAction {
                signal_value: (pre.num_frames + 1) as u64,
                wait_value: (pre.num_frames + 1) as u64,
            })
            &&& offset == 0
            &&& gpu_address == h0.gpu_base
            &&& post.num_frames == pre.num_frames + 1
            &&& post.current_pipeline == Dx12PipelineHandle::spec_invalid()
            &&& post.gpu_cbv_srv_uav_heaps[fi] == (DescriptorHeap {
                size: 0,
                ..pre.gpu_cbv_srv_uav_heaps[fi]
            })
            &&& post.gpu_cbv_srv_uav_heaps[1 - fi] == pre.gpu_cbv_srv_uav_heaps[1 - fi]
            &&& post.gpu_upload_memory_heaps[fi] == (GpuMemoryHeap {
                size: round_up_256(size as int) as u32,
                ..h0
            })
            &&& post.gpu_upload_memory_heaps[1 - fi] == pre.gpu_upload_memory_heaps[1 - fi]
            &&& post == (Dx12Context {
                num_frames: post.num_frames,
                current_pipeline: post.current_pipeline,
                gpu_cbv_srv_uav_heaps: post.gpu_cbv_srv_uav_heaps,
                gpu_upload_memory_heaps: post.gpu_upload_memory_heaps,
                ..pre
            })
        }
    }

    /// Allocates `size` bytes of per-frame upload memory, rounded up to a
    /// 256-byte boundary. Exhaustion is never an error: a request that does
    /// not fit triggers the two-phase flush-and-retry protocol of
    /// `upload_alloc_post`, so every logically sound request (one that fits
    /// an empty heap) is served.
    pub fn allocate_upload_memory(&mut self, size: u32) -> (r: Dx12UploadAllocation)
        requires
            old(self).wf(),
            size > 0,
            round_up_256(size as int) < UPLOAD_HEAP_CAPACITY,
            old(self).num_frames < u64::MAX,
        ensures
            final(self).wf(),
            final(self).frame_index == old(self).frame_index,
            Dx12Context::upload_alloc_post(
                *old(self),
                *final(self),
                size,
                r.flush,
                r.offset,
                r.gpu_address,
            ),
    {
        let idx = self.frame_index as usize;
        let mut heap = self.gpu_upload_memory_heaps[idx];
        match heap.allocate(size) {
            Some((offset, gpu_address)) => {
                self.gpu_upload_memory_heaps[idx] = heap;
                Dx12UploadAllocation { flush: None, offset, gpu_address }
            },
            None => {
                // Hard-flush state effects: the caller must submit the
                // current list, wait for the fence, and begin a new list;
                // only then is the reset range below safe to write.
                self.num_frames = self.num_frames + 1;
                let flush = Dx12FlushAction {
                    signal_value: self.num_frames,
                    wait_value: self.num_frames,
                };
                let mut gheap = self.gpu_cbv_srv_uav_heaps[idx];
                gheap.reset();
                self.gpu_cbv_srv_uav_heaps[idx] = gheap;
                heap.reset();
                self.current_pipeline = Dx12PipelineHandle::invalid();
                match heap.allocate(size) {
                    Some((offset, gpu_address)) => {
                        self.gpu_upload_memory_heaps[idx] = heap;
                        Dx12UploadAllocation { flush: Some(flush), offset, gpu_address }
                    },
                    None => {
                        proof {
                            assert(false);
                        }
                        Dx12UploadAllocation { flush: None, offset: 0, gpu_address: 0 }
                    },
                }
            },
        }
    }

    /// Allocates an upload buffer region of `size` bytes (rounded up to a
    /// 256-byte boundary) and names the native buffer it lives in together
    /// with the byte offset of the region, for recording copy commands.
    pub fn allocate_upload_buffer_region(&mut self, size: u32) -> (r: Dx12UploadRegion)
        requires
            old(self).wf(),
            size > 0,
            round_up_256(size as int) < UPLOAD_HEAP_CAPACITY,
            old(self).num_frames < u64::MAX,
        ensures
            final(self).wf(),
            final(self).frame_index == old(self).frame_index,
            r.buffer == old(self).gpu_upload_memory_heaps[old(self).frame_index as int].heap,
            r.offset <= u32::MAX,
            Dx12Context::upload_alloc_post(
                *old(self),
                *final(self),
                size,
                r.flush,
                r.offset as u32,
                r.gpu_address,
            ),
    {
        let idx = self.frame_index as usize;
        let buffer = self.gpu_upload_memory_heaps[idx].heap;
        let r = self.allocate_upload_memory(size);
        Dx12UploadRegion {
            flush: r.flush,
            buffer,
            offset: r.offset as u64,
            gpu_address: r.gpu_address,
        }
    }
}

/// Native steps a frame presentation demands of the caller, in order:
/// present the swap chain with `present_interval`, signal the frame fence
/// with `signal_value`, read the fence's completed value, and — only when
/// `wait_value` is present — block until the fence reaches it.
#[derive(Debug, Clone, Copy)]
pub struct Dx12PresentActions {
    pub present_interval: u32,
    pub signal_value: u64,
    pub wait_value: Option<u64>,
}

/// Native steps to begin recording a frame: reset `cmdalloc`, reset
/// `cmdlist` against it, and bind `descriptor_heap` (the current frame's
/// shader-visible heap) on the list.
#[derive(Debug, Clone, Copy, PartialEq, Eq, Structural)]
pub struct Dx12CommandListSetup {
    pub cmdlist: u64,
    pub cmdalloc: u64,
    pub descriptor_heap: u64,
}

/// Native objects the caller must release after tearing the context down:
/// per resource slot its resource, per pipeline slot its pipeline-state
/// object and root signature (0 entries were free slots). Each release must
/// observe the reference count reaching zero.
#[derive(Debug)]
pub struct Dx12Teardown {
    pub resources: Vec<u64>,
    pub pipelines: Vec<(u64, u64)>,
}

impl Dx12Context {
    /// Exact effect of presenting a frame, given the fence value the GPU had
    /// completed when read after the signal: the frame counter advances and
    /// is signalled; the caller is told to wait exactly when the CPU would
    /// otherwise run two or more frames ahead, and then only up to one frame
    /// past the observed completion; the buffered-frame index toggles; and
    /// the now-current frame's transient allocators are reset — their
    /// contents from two frames ago are complete by the pacing rule.
    pub open spec fn present_post(
        pre: Dx12Context,
        post: Dx12Context,
        swap_interval: u32,
        gpu_completed_frames: u64,
        current_back_buffer_index: u32,
        r: Dx12PresentActions,
    ) -> bool {
        let next = pre.num_frames + 1;
        let nfi = ((pre.frame_index + 1) % 2) as int;
        &&& r.present_interval == swap_interval
        &&& r.signal_value == next
        &&& post.num_frames == next
        &&& (r.wait_value is Some <==> next - gpu_completed_frames >= 2)
        &&& (r.wait_value matches Some(w) ==> w == gpu_completed_frames + 1)
        &&& post.frame_index == nfi
        &&& post.back_buffer_index == current_back_buffer_index
        &&& post.gpu_cbv_srv_uav_heaps[nfi] == (DescriptorHeap {
            size: 0,
            ..pre.gpu_cbv_srv_uav_heaps[nfi]
        })
        &&& post.gpu_cbv_srv_uav_heaps[1 - nfi] == pre.gpu_cbv_srv_uav_heaps[1 - nfi]
        &&& post.gpu_upload_memory_heaps[nfi] == (GpuMemoryHeap {
            size: 0,
            ..pre.gpu_upload_memory_heaps[nfi]
        })
        &&& post.gpu_upload_memory_heaps[1 - nfi] == pre.gpu_upload_memory_heaps[1 - nfi]
        &&& post == (Dx12Context {
            num_frames: post.num_frames,
            frame_index: post.frame_index,
            back_buffer_index: post.back_buffer_index,
            gpu_cbv_srv_uav_heaps: post.gpu_cbv_srv_uav_heaps,
            gpu_upload_memory_heaps: post.gpu_upload_memory_heaps,
            ..pre
        })
    }

    /// Ends the frame: advances the frame counter and decides the whole
    /// presentation protocol. `gpu_completed_frames` is the fence value the
    /// caller reads back after signalling (it never exceeds the values
    /// signalled so far); `current_back_buffer_index` is re-queried from the
    /// presentation surface. The wait fires exactly when the CPU is two or
    /// more frames ahead of the GPU, which caps in-flight transient memory
    /// at two frames' worth.
    pub fn present_frame(
        &mut self,
        swap_interval: u32,
        gpu_completed_frames: u64,
        current_back_buffer_index: u32,
    ) -> (r: Dx12PresentActions)
        requires
            old(self).wf(),
            old(self).num_frames < u64::MAX,
            gpu_completed_frames <= old(self).num_frames,
            current_back_buffer_index < NUM_SWAP_BUFFERS,
        ensures
            final(self).wf(),
            Dx12Context::present_post(
                *old(self),
                *final(self),
                swap_interval,
                gpu_completed_frames,
                current_back_buffer_index,
                r,
            ),
    {
        self.num_frames = self.num_frames + 1;
        let signal_value = self.num_frames;

        let wait_value: Option<u64> = if self.num_frames - gpu_completed_frames >= 2 {
            Some(gpu_completed_frames + 1)
        } else {
            None
        };

        self.frame_index = (self.frame_index + 1) % 2;
        self.back_buffer_index = current_back_buffer_index;

        let idx = self.frame_index as usize;
        let mut gheap = self.gpu_cbv_srv_uav_heaps[idx];
        gheap.reset();
        self.gpu_cbv_srv_uav_heaps[idx] = gheap;
        let mut uheap = self.gpu_upload_memory_heaps[idx];
        uheap.reset();
        self.gpu_upload_memory_heaps[idx] = uheap;

        Dx12PresentActions { present_interval: swap_interval, signal_value, wait_value }
    }

    /// Begins recording a frame: clears the bound-pipeline tracking (so the
    /// next bind is never elided) and names the native steps — reset the
    /// current frame's command allocator, reset the shared list against it,
    /// and rebind the current frame's shader-visible descriptor heap.
    pub fn new_command_list(&mut self) -> (r: Dx12CommandListSetup)
        requires
            old(self).wf(),
        ensures
            final(self).wf(),
            *final(self) == (Dx12Context {
                current_pipeline: Dx12PipelineHandle::spec_invalid(),
                ..*old(self)
            }),
            r == (Dx12CommandListSetup {
                cmdlist: old(self).cmdlist,
                cmdalloc: old(self).cmdallocs[old(self).frame_index as int],
                descriptor_heap: old(self).gpu_cbv_srv_uav_heaps[old(
                    self,
                ).frame_index as int].heap,
            }),
    {
        let idx = self.frame_index as usize;
        self.current_pipeline = Dx12PipelineHandle::invalid();
        Dx12CommandListSetup {
            cmdlist: self.cmdlist,
            cmdalloc: self.cmdallocs[idx],
            descriptor_heap: self.gpu_cbv_srv_uav_heaps[idx].heap,
        }
    }

    /// Hard flush, for shutdown or mid-frame exhaustion: advances the frame
    /// counter and demands an unconditional signal-and-wait on exactly that
    /// value; once the wait completes the GPU is fully idle, so the current
    /// frame's transient allocators are reset. The buffered-frame index does
    /// not toggle.
    pub fn finish(&mut self) -> (r: Dx12FlushAction)
        requires
            old(self).wf(),
            old(self).num_frames < u64::MAX,
        ensures
            final(self).wf(),
            final(self).num_frames == old(self).num_frames + 1,
            r == (Dx12FlushAction {
                signal_value: (old(self).num_frames + 1) as u64,
                wait_value: (old(self).num_frames + 1) as u64,
            }),
            ({
                let fi = old(self).frame_index as int;
                &&& final(self).gpu_cbv_srv_uav_heaps[fi] == (DescriptorHeap {
                    size: 0,
                    ..old(self).gpu_cbv_srv_uav_heaps[fi]
                })
                &&& final(self).gpu_cbv_srv_uav_heaps[1 - fi] == old(self).gpu_cbv_srv_uav_heaps[1
                    - fi]
                &&& final(self).gpu_upload_memory_heaps[fi] == (GpuMemoryHeap {
                    size: 0,
                    ..old(self).gpu_upload_memory_heaps[fi]
                })
                &&& final(self).gpu_upload_memory_heaps[1 - fi] == old(
                    self,
                ).gpu_upload_memory_heaps[1 - fi]
                &&& *final(self) == (Dx12Context {
                    num_frames: final(self).num_frames,
                    gpu_cbv_srv_uav_heaps: final(self).gpu_cbv_srv_uav_heaps,
                    gpu_upload_memory_heaps: final(self).gpu_upload_memory_heaps,
                    ..*old(self)
                })
            }),
    {
        self.num_frames = self.num_frames + 1;
        let r = Dx12FlushAction { signal_value: self.num_frames, wait_value: self.num_frames };

        let idx = self.frame_index as usize;
        let mut gheap = self.gpu_cbv_srv_uav_heaps[idx];
        gheap.reset();
        self.gpu_cbv_srv_uav_heaps[idx] = gheap;
        let mut uheap = self.gpu_upload_memory_heaps[idx];
        uheap.reset();
        self.gpu_upload_memory_heaps[idx] = uheap;

        r
    }

    /// The handle of the back buffer currently presented to, and the CPU
    /// address of its render-target view in the RTV heap.
    pub fn back_buffer(&self) -> (r: (Dx12ResourceHandle, u64))
        requires
            self.wf(),
        ensures
            r.0 == self.swap_buffers[self.back_buffer_index as int],
            r.1 == self.rtv_heap.cpu_at(self.back_buffer_index as int),
    {
        proof {
            vstd::arithmetic::mul::lemma_mul_inequality(
                self.back_buffer_index as int,
                self.rtv_heap.capacity as int,
                self.rtv_heap.descriptor_size as int,
            );
        }
        let offset = (self.back_buffer_index as u64) * (self.rtv_heap.descriptor_size as u64);
        (self.swap_buffers[self.back_buffer_index as usize], self.rtv_heap.cpu_base + offset)
    }

    /// Tears the pools down: clears every slot and the cache map, and hands
    /// back every native object identifier still pooled so the caller can
    /// release them (and then release the device-lifetime objects it owns).
    pub fn destroy(&mut self) -> (r: Dx12Teardown)
        requires
            old(self).wf(),
        ensures
            final(self).wf(),
            r.resources@.len() == MAX_NUM_RESOURCES,
            forall|j: int|
                0 <= j < MAX_NUM_RESOURCES ==> r.resources@[j] == old(
                    self,
                ).resource_pool.resources@[j + 1].ptr,
            r.pipelines@.len() == MAX_NUM_PIPELINES,
            forall|j: int|
                0 <= j < MAX_NUM_PIPELINES ==> #[trigger] r.pipelines@[j] == (
                old(self).pipeline_pool.pipelines@[j + 1].pso,
                old(self).pipeline_pool.pipelines@[j + 1].rsignature,
                ),
            forall|i: int| 0 <= i <= MAX_NUM_RESOURCES ==> !final(self).resource_pool.slot_live(i),
            forall|i: int| 0 <= i <= MAX_NUM_PIPELINES ==> !final(self).pipeline_pool.slot_live(i),
            final(self).pipeline_pool.map@ == Map::<u64, Dx12PipelineHandle>::empty(),
            *final(self) == (Dx12Context {
                resource_pool: final(self).resource_pool,
                pipeline_pool: final(self).pipeline_pool,
                ..*old(self)
            }),
    {
        let resources = self.resource_pool.destroy_all();
        let pipelines = self.pipeline_pool.destroy_all();
        Dx12Teardown { resources, pipelines }
    }
}

/// Frame pacing: under the presentation protocol the wait fires exactly when
/// the CPU has run two or more frames ahead of the observed GPU completion,
/// and honoring the demanded wait always leaves the CPU at most one frame
/// ahead — by induction, a loop of `present_frame` calls whose waits are
/// honored keeps the CPU within one frame of the GPU forever.
pub proof fn lemma_frame_pacing(
    c0: Dx12Context,
    c1: Dx12Context,
    swap_interval: u32,
    gpu_completed_frames: u64,
    current_back_buffer_index: u32,
    r: Dx12PresentActions,
)
    requires
        c0.wf(),
        gpu_completed_frames <= c0.num_frames,
        Dx12Context::present_post(
            c0,
            c1,
            swap_interval,
            gpu_completed_frames,
            current_back_buffer_index,
            r,
        ),
    ensures
        r.wait_value is Some <==> c1.num_frames - gpu_completed_frames >= 2,
        match r.wait_value {
            // the CPU was at most one frame ahead before this call, so after
            // the wait completes it is at most one frame ahead again
            Some(w) => c0.num_frames - gpu_completed_frames <= 1 ==> c1.num_frames - w <= 1,
            // no wait was needed: the CPU is already at most one frame ahead
            None => c1.num_frames - gpu_completed_frames <= 1,
        },
{
}

/// The pipeline cache never aliases: two queries that find the same pooled
/// handle were keyed by the same content hash. Together with hash
/// determinism this means descriptions that hash differently always resolve
/// to distinct pipelines.
pub proof fn lemma_pipeline_cache_injective(
    c: Dx12Context,
    hash1: u64,
    hash2: u64,
    h: Dx12PipelineHandle,
)
    requires
        c.wf(),
        c.spec_pipeline_query(hash1) == Dx12PipelineQuery::Found(h),
        c.spec_pipeline_query(hash2) == Dx12PipelineQuery::Found(h),
    ensures
        hash1 == hash2,
{
    assert(c.pipeline_pool.cache_entry_ok(hash1));
    assert(c.pipeline_pool.cache_entry_ok(hash2));
    assert(c.pipeline_pool.pipelines@[h.index as int].hash == hash1);
}

/// The pipeline cache is idempotent: once the handle created for a missed
/// query has been installed, a second query with any description of the same
/// content hash finds exactly that handle, so no second native pipeline
/// object is ever requested for byte-identical descriptions.
pub proof fn lemma_pipeline_cache_idempotent(
    c0: Dx12Context,
    c1: Dx12Context,
    hash: u64,
    pso: u64,
    rsignature: u64,
    h: Dx12PipelineHandle,
)
    requires
        c0.wf(),
        c0.spec_pipeline_query(hash) == Dx12PipelineQuery::Missing(hash),
        PipelinePool::add_post(c0.pipeline_pool, c1.pipeline_pool, hash, pso, rsignature, Some(h)),
    ensures
        c1.spec_pipeline_query(hash) == Dx12PipelineQuery::Found(h),
{
    assert(c1.pipeline_pool.map@ == c0.pipeline_pool.map@.insert(hash, h));
}

} // verus!
