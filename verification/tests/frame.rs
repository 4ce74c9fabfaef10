use dx12_core::context::Dx12Context;
use dx12_core::context::Dx12ContextParams;
use dx12_core::context::Dx12PipelineQuery;
use dx12_core::context::UPLOAD_HEAP_CAPACITY;
use dx12_core::pipeline::Dx12GraphicsPipelineDesc;
use dx12_core::d3d12::D3D12_DESCRIPTOR_HEAP_TYPE_RTV;
use dx12_core::d3d12::D3D12_DESCRIPTOR_HEAP_TYPE_CBV_SRV_UAV;
use dx12_core::d3d12::D3D12_RESOURCE_STATE_COPY_DEST;
use dx12_core::d3d12::D3D12_RESOURCE_STATE_RENDER_TARGET;
use dx12_core::d3d12::D3D12_RESOURCE_STATE_NON_PIXEL_SHADER_RESOURCE;
use dx12_core::d3d12::DXGI_FORMAT_UNKNOWN;
use dx12_core::d3d12::DXGI_FORMAT_R8G8B8A8_UNORM;

fn params() -> Dx12ContextParams {
    Dx12ContextParams {
        device: 1,
        cmdqueue: 2,
        cmdlist: 3,
        swapchain: 4,
        frame_fence: 5,
        window: 6,
        resolution: [1920, 1080],
        cmdallocs: [7, 8],
        rtv_heap: 10,
        rtv_cpu_base: 0x10_0000,
        rtv_descriptor_size: 32,
        dsv_heap: 11,
        dsv_cpu_base: 0x20_0000,
        dsv_descriptor_size: 32,
        cpu_cbv_srv_uav_heap: 12,
        cpu_cbv_srv_uav_base: 0x30_0000,
        cbv_srv_uav_descriptor_size: 64,
        gpu_cbv_srv_uav_heaps: [13, 14],
        gpu_cbv_srv_uav_cpu_bases: [0x40_0000, 0x50_0000],
        gpu_cbv_srv_uav_gpu_bases: [0x6000_0000, 0x7000_0000],
        upload_heaps: [15, 16],
        upload_gpu_bases: [0x8000_0000, 0x8001_0000],
        swap_buffers: [101, 102, 103, 104],
        back_buffer_index: 0,
    }
}

fn context() -> Dx12Context {
    Dx12Context::new(params())
}

#[test]
fn new_context_registers_swap_buffers_and_rtv_views() {
    let ctx = context();
    assert_eq!(ctx.frame_index, 0);
    assert_eq!(ctx.num_frames, 0);
    assert_eq!(ctx.rtv_heap.size, 4);
    for (k, h) in ctx.swap_buffers.iter().enumerate() {
        assert_eq!(h.index as usize, k + 1);
        assert_eq!(h.generation, 1);
        assert!(ctx.validate_resource_state(*h));
    }
    assert_eq!(ctx.resource(ctx.swap_buffers[2]), 103);

    let (bb, rtv) = ctx.back_buffer();
    assert_eq!(bb, ctx.swap_buffers[0]);
    assert_eq!(rtv, 0x10_0000);
}

#[test]
fn resource_lifecycle_through_the_context() {
    let mut ctx = context();
    let h = ctx
        .create_committed_resource(900, D3D12_RESOURCE_STATE_COPY_DEST, DXGI_FORMAT_UNKNOWN)
        .expect("pool has room");
    assert_eq!(h.index, 5);  // slots 1..4 hold the swap-chain images
    assert!(ctx.validate_resource_state(h));
    assert_eq!(ctx.resource(h), 900);

    let ptr = ctx.destroy_resource(h);
    assert_eq!(ptr, 900);
    assert!(!ctx.validate_resource_state(h));
}

#[test]
fn same_state_transition_emits_no_barrier() {
    let mut ctx = context();
    let h = ctx
        .create_committed_resource(900, D3D12_RESOURCE_STATE_COPY_DEST, DXGI_FORMAT_UNKNOWN)
        .unwrap();

    // transition to the state the resource is already in: no barrier, no change
    assert!(ctx.transition_barrier(h, D3D12_RESOURCE_STATE_COPY_DEST).is_none());
    assert_eq!(
        ctx.resource_pool.resources[h.index as usize].state,
        D3D12_RESOURCE_STATE_COPY_DEST
    );

    // a real change emits exactly one barrier and updates the tracked state
    let b = ctx
        .transition_barrier(h, D3D12_RESOURCE_STATE_NON_PIXEL_SHADER_RESOURCE)
        .expect("state differs");
    assert_eq!(b.resource, 900);
    assert_eq!(b.state_before, D3D12_RESOURCE_STATE_COPY_DEST);
    assert_eq!(b.state_after, D3D12_RESOURCE_STATE_NON_PIXEL_SHADER_RESOURCE);
    assert_eq!(
        ctx.resource_pool.resources[h.index as usize].state,
        D3D12_RESOURCE_STATE_NON_PIXEL_SHADER_RESOURCE
    );

    // and the same request again is a no-op
    assert!(ctx.transition_barrier(h, D3D12_RESOURCE_STATE_NON_PIXEL_SHADER_RESOURCE).is_none());
}

#[test]
fn pipeline_cache_get_or_create_is_idempotent() {
    let mut ctx = context();
    let desc = Dx12GraphicsPipelineDesc::new(vec![1, 2, 3], vec![4, 5, 6]);

    let hash = match ctx.create_graphics_pipeline(&desc) {
        Dx12PipelineQuery::Missing(hash) => hash,
        Dx12PipelineQuery::Found(_) => panic!("empty cache cannot hit"),
    };
    let h = ctx.install_pipeline(hash, 700, 701).expect("pool has room");

    // a second call with a byte-identical description returns the same
    // handle and demands no second native pipeline object
    assert_eq!(ctx.create_graphics_pipeline(&desc), Dx12PipelineQuery::Found(h));
    let copy = Dx12GraphicsPipelineDesc::new(vec![1, 2, 3], vec![4, 5, 6]);
    assert_eq!(ctx.create_graphics_pipeline(&copy), Dx12PipelineQuery::Found(h));
}

#[test]
fn pipeline_cache_distinguishes_descriptions() {
    let mut ctx = context();
    let a = Dx12GraphicsPipelineDesc::new(vec![1, 2, 3], vec![4, 5, 6]);
    let mut b = Dx12GraphicsPipelineDesc::new(vec![1, 2, 3], vec![4, 5, 6]);
    b.rtv_formats[0] = DXGI_FORMAT_R8G8B8A8_UNORM;

    let hash_a = match ctx.create_graphics_pipeline(&a) {
        Dx12PipelineQuery::Missing(hash) => hash,
        Dx12PipelineQuery::Found(_) => panic!("empty cache cannot hit"),
    };
    let ha = ctx.install_pipeline(hash_a, 700, 701).unwrap();

    // one changed field gives a different hash, so the query misses and a
    // distinct handle is created
    let hash_b = match ctx.create_graphics_pipeline(&b) {
        Dx12PipelineQuery::Missing(hash) => hash,
        Dx12PipelineQuery::Found(_) => panic!("changed description must miss"),
    };
    assert_ne!(hash_a, hash_b);
    let hb = ctx.install_pipeline(hash_b, 702, 703).unwrap();
    assert_ne!(ha, hb);
}

#[test]
fn destroyed_pipeline_leaves_the_cache() {
    let mut ctx = context();
    let desc = Dx12GraphicsPipelineDesc::new(vec![1], vec![2]);
    let hash = match ctx.create_graphics_pipeline(&desc) {
        Dx12PipelineQuery::Missing(hash) => hash,
        Dx12PipelineQuery::Found(_) => panic!("empty cache cannot hit"),
    };
    let h = ctx.install_pipeline(hash, 700, 701).unwrap();

    let (pso, rsig) = ctx.destroy_pipeline(h);
    assert_eq!((pso, rsig), (700, 701));
    assert!(!ctx.validate_pipeline_state(h));
    assert!(matches!(ctx.create_graphics_pipeline(&desc), Dx12PipelineQuery::Missing(_)));
}

#[test]
fn redundant_pipeline_binds_are_elided() {
    let mut ctx = context();
    let desc = Dx12GraphicsPipelineDesc::new(vec![1], vec![2]);
    let hash = match ctx.create_graphics_pipeline(&desc) {
        Dx12PipelineQuery::Missing(hash) => hash,
        Dx12PipelineQuery::Found(_) => panic!("empty cache cannot hit"),
    };
    let h = ctx.install_pipeline(hash, 700, 701).unwrap();

    let bind = ctx.set_graphics_pipeline(h).expect("first bind is real");
    assert_eq!((bind.pso, bind.rsignature), (700, 701));
    assert!(ctx.set_graphics_pipeline(h).is_none());

    // a fresh command list clears the tracking, so the next bind is real
    let setup = ctx.new_command_list();
    assert_eq!(setup.cmdlist, 3);
    assert_eq!(setup.cmdalloc, 7);
    assert_eq!(setup.descriptor_heap, 13);
    assert!(ctx.set_graphics_pipeline(h).is_some());
}

#[test]
fn descriptor_allocation_dispatches_by_heap_type() {
    let mut ctx = context();
    // the four swap-chain RTVs already occupy the first four descriptors
    let rtv = ctx.allocate_cpu_descriptors(D3D12_DESCRIPTOR_HEAP_TYPE_RTV, 2).unwrap();
    assert_eq!(rtv, 0x10_0000 + 4 * 32);

    let srv = ctx.allocate_cpu_descriptors(D3D12_DESCRIPTOR_HEAP_TYPE_CBV_SRV_UAV, 1).unwrap();
    assert_eq!(srv, 0x30_0000);

    let copy = ctx.copy_descriptors_to_gpu_heap(3, srv).unwrap();
    assert_eq!(copy.num, 3);
    assert_eq!(copy.src_cpu, srv);
    assert_eq!(copy.dest_cpu, 0x40_0000);
    assert_eq!(copy.dest_gpu, 0x6000_0000);
    assert_eq!(ctx.gpu_cbv_srv_uav_heaps[0].size, 3);

    let copy2 = ctx.copy_descriptors_to_gpu_heap(1, srv).unwrap();
    assert_eq!(copy2.dest_cpu, 0x40_0000 + 3 * 64);
    assert_eq!(copy2.dest_gpu, 0x6000_0000 + 3 * 64);
}

#[test]
fn frame_pacing_waits_exactly_when_two_ahead() {
    let mut ctx = context();
    let mut gpu_completed: u64 = 0;

    // frame 1: the CPU is one ahead after the signal; no wait
    let r1 = ctx.present_frame(0, gpu_completed, 1);
    assert_eq!(r1.signal_value, 1);
    assert!(r1.wait_value.is_none());
    assert_eq!(ctx.frame_index, 1);
    assert_eq!(ctx.back_buffer_index, 1);

    // frame 2: the GPU has not progressed; two ahead now, so the wait fires
    // for completed + 1
    let r2 = ctx.present_frame(0, gpu_completed, 2);
    assert_eq!(r2.signal_value, 2);
    assert_eq!(r2.wait_value, Some(1));
    assert_eq!(ctx.frame_index, 0);
    // honoring the wait brings the fence to 1
    gpu_completed = r2.wait_value.unwrap();

    // frame 3: again exactly two ahead after the signal
    let r3 = ctx.present_frame(0, gpu_completed, 3);
    assert_eq!(r3.signal_value, 3);
    assert_eq!(r3.wait_value, Some(2));
    gpu_completed = r3.wait_value.unwrap();

    // a GPU that caught up fully needs no wait
    gpu_completed = 3;
    let r4 = ctx.present_frame(0, gpu_completed, 0);
    assert_eq!(r4.signal_value, 4);
    assert!(r4.wait_value.is_none());
    assert_eq!(ctx.num_frames, 4);

    // the wait triggered exactly when signal - completed >= 2, never else
}

#[test]
fn present_resets_the_incoming_frames_allocators() {
    let mut ctx = context();
    ctx.copy_descriptors_to_gpu_heap(5, 0x30_0000).unwrap();
    let a = ctx.allocate_upload_memory(100);
    assert!(a.flush.is_none());
    assert_eq!(ctx.gpu_cbv_srv_uav_heaps[0].size, 5);
    assert_eq!(ctx.gpu_upload_memory_heaps[0].size, 256);

    // presenting toggles to frame 1 and resets frame 1's allocators only
    ctx.present_frame(0, 0, 1);
    assert_eq!(ctx.frame_index, 1);
    assert_eq!(ctx.gpu_cbv_srv_uav_heaps[1].size, 0);
    assert_eq!(ctx.gpu_upload_memory_heaps[1].size, 0);
    assert_eq!(ctx.gpu_cbv_srv_uav_heaps[0].size, 5);
    assert_eq!(ctx.gpu_upload_memory_heaps[0].size, 256);

    // presenting again comes back to frame 0 and resets its allocators
    ctx.present_frame(0, 1, 0);
    assert_eq!(ctx.frame_index, 0);
    assert_eq!(ctx.gpu_cbv_srv_uav_heaps[0].size, 0);
    assert_eq!(ctx.gpu_upload_memory_heaps[0].size, 0);
}

#[test]
fn upload_exhaustion_flushes_and_retries_in_one_call() {
    let mut ctx = context();

    // nearly fill the 32 KiB frame heap
    let first = ctx.allocate_upload_memory(UPLOAD_HEAP_CAPACITY - 512);
    assert!(first.flush.is_none());
    assert_eq!(first.offset, 0);
    assert_eq!(ctx.gpu_upload_memory_heaps[0].size, UPLOAD_HEAP_CAPACITY - 512);

    // this request cannot fit: the allocator demands a flush, resets the
    // frame's transient allocators, and serves the request from the base
    let second = ctx.allocate_upload_memory(1024);
    let flush = second.flush.expect("heap was exhausted");
    assert_eq!(flush.signal_value, 1);
    assert_eq!(flush.wait_value, 1);
    assert_eq!(second.offset, 0);
    assert_eq!(second.gpu_address, 0x8000_0000);
    assert_eq!(ctx.num_frames, 1);
    assert_eq!(ctx.gpu_upload_memory_heaps[0].size, 1024);
    // the flush also began a new command list: no pipeline is bound
    assert_eq!(ctx.current_pipeline.index, 0);
}

#[test]
fn upload_buffer_region_names_buffer_and_offset() {
    let mut ctx = context();
    let r1 = ctx.allocate_upload_buffer_region(300);
    assert!(r1.flush.is_none());
    assert_eq!(r1.buffer, 15);
    assert_eq!(r1.offset, 0);

    let r2 = ctx.allocate_upload_buffer_region(10);
    assert_eq!(r2.buffer, 15);
    assert_eq!(r2.offset, 512);
    assert_eq!(r2.gpu_address, 0x8000_0000 + 512);
}

#[test]
fn finish_flushes_unconditionally_and_resets_the_frame() {
    let mut ctx = context();
    ctx.allocate_upload_memory(100);
    ctx.copy_descriptors_to_gpu_heap(2, 0x30_0000).unwrap();

    let flush = ctx.finish();
    assert_eq!(flush.signal_value, 1);
    assert_eq!(flush.wait_value, 1);
    assert_eq!(ctx.num_frames, 1);
    assert_eq!(ctx.frame_index, 0);  // finish does not toggle frames
    assert_eq!(ctx.gpu_upload_memory_heaps[0].size, 0);
    assert_eq!(ctx.gpu_cbv_srv_uav_heaps[0].size, 0);
}

#[test]
fn destroy_returns_everything_still_pooled() {
    let mut ctx = context();
    let h = ctx
        .create_committed_resource(900, D3D12_RESOURCE_STATE_RENDER_TARGET, DXGI_FORMAT_UNKNOWN)
        .unwrap();
    let hash = match ctx.create_graphics_pipeline(
        &Dx12GraphicsPipelineDesc::new(vec![1], vec![2]),
    ) {
        Dx12PipelineQuery::Missing(hash) => hash,
        Dx12PipelineQuery::Found(_) => panic!("empty cache cannot hit"),
    };
    ctx.install_pipeline(hash, 700, 701).unwrap();

    let teardown = ctx.destroy();
    // the four swap-chain images and the one committed resource
    assert_eq!(&teardown.resources[0..5], &[101, 102, 103, 104, 900]);
    assert!(teardown.resources[5..].iter().all(|p| *p == 0));
    assert_eq!(teardown.pipelines[0], (700, 701));
    assert!(teardown.pipelines[1..].iter().all(|p| *p == (0, 0)));
    assert!(!ctx.validate_resource_state(h));
}
