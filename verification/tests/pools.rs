use dx12_core::pool::ResourcePool;
use dx12_core::pool::PipelinePool;
use dx12_core::pool::MAX_NUM_RESOURCES;
use dx12_core::pool::MAX_NUM_PIPELINES;
use dx12_core::handles::Dx12ResourceHandle;
use dx12_core::d3d12::D3D12_RESOURCE_STATE_COPY_DEST;
use dx12_core::d3d12::DXGI_FORMAT_UNKNOWN;

fn filled_pool() -> (ResourcePool, Vec<Dx12ResourceHandle>) {
    let mut pool = ResourcePool::new();
    let mut handles = Vec::new();
    for i in 0..MAX_NUM_RESOURCES {
        let h = pool
            .add(1000 + i as u64, D3D12_RESOURCE_STATE_COPY_DEST, DXGI_FORMAT_UNKNOWN)
            .expect("pool should have room");
        handles.push(h);
    }
    (pool, handles)
}

#[test]
fn pool_fills_to_capacity_then_hard_fails() {
    let (mut pool, handles) = filled_pool();
    assert_eq!(handles.len(), 256);
    for (i, h) in handles.iter().enumerate() {
        assert_eq!(h.index as usize, i + 1);
        assert_eq!(h.generation, 1);
        assert!(pool.validate(*h));
    }
    // the 257th add must fail: no free slot is left
    assert!(pool.add(9999, D3D12_RESOURCE_STATE_COPY_DEST, DXGI_FORMAT_UNKNOWN).is_none());
}

#[test]
fn destroyed_slot_is_reused_with_bumped_generation() {
    let (mut pool, handles) = filled_pool();
    let old5 = handles[4];
    assert_eq!(old5.index, 5);

    let ptr = pool.destroy(old5);
    assert_eq!(ptr, 1000 + 4);
    assert!(!pool.validate(old5));

    // the next add reuses index 5 with the generation bumped by exactly 1
    let new5 = pool
        .add(7777, D3D12_RESOURCE_STATE_COPY_DEST, DXGI_FORMAT_UNKNOWN)
        .expect("slot 5 is free again");
    assert_eq!(new5.index, 5);
    assert_eq!(new5.generation, old5.generation + 1);
    assert!(pool.validate(new5));

    // the handle captured for the original occupant must now fail validation
    assert!(!pool.validate(old5));
}

#[test]
fn stale_handle_fails_after_destroy_and_reuse() {
    let mut pool = ResourcePool::new();
    let h = pool.add(42, D3D12_RESOURCE_STATE_COPY_DEST, DXGI_FORMAT_UNKNOWN).unwrap();
    assert!(pool.validate(h));

    pool.destroy(h);
    assert!(!pool.validate(h));

    let h2 = pool.add(43, D3D12_RESOURCE_STATE_COPY_DEST, DXGI_FORMAT_UNKNOWN).unwrap();
    assert_eq!(h2.index, h.index);
    assert_ne!(h2.generation, h.generation);
    assert!(pool.validate(h2));
    assert!(!pool.validate(h));
}

#[test]
fn validate_rejects_reserved_and_out_of_range_indices() {
    let mut pool = ResourcePool::new();
    let h = pool.add(1, D3D12_RESOURCE_STATE_COPY_DEST, DXGI_FORMAT_UNKNOWN).unwrap();

    assert!(!pool.validate(Dx12ResourceHandle { index: 0, generation: 0 }));
    assert!(!pool.validate(Dx12ResourceHandle { index: 257, generation: 1 }));
    assert!(!pool.validate(Dx12ResourceHandle { index: h.index, generation: h.generation + 1 }));
    assert!(!pool.validate(Dx12ResourceHandle { index: 2, generation: 0 }));
}

#[test]
fn destroy_all_returns_every_pooled_pointer() {
    let mut pool = ResourcePool::new();
    let h1 = pool.add(11, D3D12_RESOURCE_STATE_COPY_DEST, DXGI_FORMAT_UNKNOWN).unwrap();
    let _h2 = pool.add(22, D3D12_RESOURCE_STATE_COPY_DEST, DXGI_FORMAT_UNKNOWN).unwrap();

    let released = pool.destroy_all();
    assert_eq!(released.len(), MAX_NUM_RESOURCES);
    assert_eq!(released[0], 11);
    assert_eq!(released[1], 22);
    assert!(released[2..].iter().all(|p| *p == 0));
    assert!(!pool.validate(h1));
}

#[test]
fn pipeline_pool_add_lookup_destroy() {
    let mut pool = PipelinePool::new();
    assert!(pool.lookup(0xfeed).is_none());

    let h = pool.add(0xfeed, 501, 502).expect("pool has room");
    assert_eq!(h.index, 1);
    assert_eq!(h.generation, 1);
    assert!(pool.validate(h));
    assert_eq!(pool.lookup(0xfeed), Some(h));

    let (pso, rsig) = pool.destroy(h);
    assert_eq!((pso, rsig), (501, 502));
    assert!(!pool.validate(h));
    assert!(pool.lookup(0xfeed).is_none());

    // reuse bumps the generation, so the stale handle keeps failing
    let h2 = pool.add(0xbeef, 601, 602).unwrap();
    assert_eq!(h2.index, h.index);
    assert_eq!(h2.generation, h.generation + 1);
    assert!(!pool.validate(h));
}

#[test]
fn pipeline_pool_fills_to_capacity_then_hard_fails() {
    let mut pool = PipelinePool::new();
    for i in 0..MAX_NUM_PIPELINES {
        let h = pool.add(i as u64 + 1, 10_000 + i as u64, 20_000 + i as u64).unwrap();
        assert_eq!(h.index as usize, i + 1);
    }
    assert!(pool.add(0x5000, 1, 2).is_none());
}
