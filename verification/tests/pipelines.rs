use dx12_core::pipeline::Dx12GraphicsPipelineDesc;
use dx12_core::pipeline::Dx12ComputePipelineDesc;
use dx12_core::pipeline::Dx12RasterizerDesc;
use dx12_core::pipeline::Dx12BlendDesc;
use dx12_core::pipeline::Dx12DepthStencilDesc;
use dx12_core::pipeline::Dx12InputElementDesc;
use dx12_core::pipeline::calc_graphics_pipeline_hash;
use dx12_core::pipeline::calc_compute_pipeline_hash;
use dx12_core::d3d12::Dx12ResourceDesc;
use dx12_core::d3d12::Dx12HeapProperties;
use dx12_core::d3d12::Dx12ResourceBarrier;
use dx12_core::d3d12::D3D12_FILL_MODE_SOLID;
use dx12_core::d3d12::D3D12_CULL_MODE_BACK;
use dx12_core::d3d12::D3D12_BLEND_ONE;
use dx12_core::d3d12::D3D12_BLEND_ZERO;
use dx12_core::d3d12::D3D12_COMPARISON_FUNC_LESS;
use dx12_core::d3d12::D3D12_STENCIL_OP_KEEP;
use dx12_core::d3d12::D3D12_RESOURCE_DIMENSION_BUFFER;
use dx12_core::d3d12::D3D12_HEAP_TYPE_UPLOAD;
use dx12_core::d3d12::D3D12_RESOURCE_BARRIER_TYPE_TRANSITION;
use dx12_core::d3d12::D3D12_RESOURCE_BARRIER_ALL_SUBRESOURCES;
use dx12_core::d3d12::DXGI_FORMAT_UNKNOWN;
use dx12_core::d3d12::DXGI_FORMAT_R8G8B8A8_UNORM;
use dx12_core::d3d12::DXGI_FORMAT_R32_UINT;
use dx12_core::fnv::hash_raw_bytes;
use dx12_core::fnv::FNV_OFFSET_BASIS;

fn sample_desc() -> Dx12GraphicsPipelineDesc {
    let mut d = Dx12GraphicsPipelineDesc::new(vec![1, 2, 3, 4], vec![5, 6, 7, 8]);
    d.num_render_targets = 1;
    d.rtv_formats[0] = DXGI_FORMAT_R8G8B8A8_UNORM;
    d.input_layout.push(Dx12InputElementDesc::new(b"POSITION".to_vec(), 6, 0));
    d.input_layout.push(Dx12InputElementDesc::new(b"COLOR".to_vec(), 6, 12));
    d
}

#[test]
fn graphics_hash_is_deterministic() {
    let a = sample_desc();
    let b = sample_desc();
    assert_eq!(calc_graphics_pipeline_hash(&a), calc_graphics_pipeline_hash(&b));
    // and stable across repeated computation on the same value
    assert_eq!(calc_graphics_pipeline_hash(&a), calc_graphics_pipeline_hash(&a));
}

#[test]
fn graphics_hash_changes_with_one_render_target_format() {
    let a = sample_desc();
    let mut b = sample_desc();
    b.rtv_formats[0] = DXGI_FORMAT_R32_UINT;
    assert_ne!(calc_graphics_pipeline_hash(&a), calc_graphics_pipeline_hash(&b));
}

#[test]
fn graphics_hash_changes_with_one_shader_byte() {
    let a = sample_desc();
    let mut b = sample_desc();
    b.vs_bytecode[2] ^= 1;
    assert_ne!(calc_graphics_pipeline_hash(&a), calc_graphics_pipeline_hash(&b));

    let mut c = sample_desc();
    c.ps_bytecode[0] = 99;
    assert_ne!(calc_graphics_pipeline_hash(&a), calc_graphics_pipeline_hash(&c));
}

#[test]
fn graphics_hash_distinguishes_shader_split() {
    // the length prefix keeps the two binaries apart even when their
    // concatenation is identical
    let a = Dx12GraphicsPipelineDesc::new(vec![1, 2, 3], vec![4]);
    let b = Dx12GraphicsPipelineDesc::new(vec![1, 2], vec![3, 4]);
    assert_ne!(calc_graphics_pipeline_hash(&a), calc_graphics_pipeline_hash(&b));
}

#[test]
fn graphics_hash_sees_fixed_function_fields() {
    let a = sample_desc();

    let mut b = sample_desc();
    b.sample_mask = 0x7fffffff;
    assert_ne!(calc_graphics_pipeline_hash(&a), calc_graphics_pipeline_hash(&b));

    let mut c = sample_desc();
    c.rasterizer_state.cull_mode += 1;
    assert_ne!(calc_graphics_pipeline_hash(&a), calc_graphics_pipeline_hash(&c));

    let mut d = sample_desc();
    d.depth_stencil_state.depth_enable = !d.depth_stencil_state.depth_enable;
    assert_ne!(calc_graphics_pipeline_hash(&a), calc_graphics_pipeline_hash(&d));

    let mut e = sample_desc();
    e.input_layout[1].aligned_byte_offset = 16;
    assert_ne!(calc_graphics_pipeline_hash(&a), calc_graphics_pipeline_hash(&e));

    let mut f = sample_desc();
    f.blend_state.render_target[0].blend_enable = true;
    assert_ne!(calc_graphics_pipeline_hash(&a), calc_graphics_pipeline_hash(&f));
}

#[test]
fn compute_hash_depends_on_the_shader_alone() {
    let a = Dx12ComputePipelineDesc { cs_bytecode: vec![9, 9, 9] };
    let b = Dx12ComputePipelineDesc { cs_bytecode: vec![9, 9, 9] };
    let c = Dx12ComputePipelineDesc { cs_bytecode: vec![9, 9, 8] };
    assert_eq!(calc_compute_pipeline_hash(&a), calc_compute_pipeline_hash(&b));
    assert_ne!(calc_compute_pipeline_hash(&a), calc_compute_pipeline_hash(&c));
}

#[test]
fn rasterizer_default_matches_native_defaults() {
    let r = Dx12RasterizerDesc::default();
    assert_eq!(r.fill_mode, D3D12_FILL_MODE_SOLID);
    assert_eq!(r.cull_mode, D3D12_CULL_MODE_BACK);
    assert!(!r.front_counter_clockwise);
    assert_eq!(r.depth_bias, 0);
    assert!(r.depth_clip_enable);
    assert!(!r.multisample_enable);
    assert_eq!(r.forced_sample_count, 0);
}

#[test]
fn blend_default_disables_blending_on_all_targets() {
    let b = Dx12BlendDesc::default();
    assert!(!b.alpha_to_coverage_enable);
    assert!(!b.independent_blend_enable);
    for rt in b.render_target.iter() {
        assert!(!rt.blend_enable);
        assert!(!rt.logic_op_enable);
        assert_eq!(rt.src_blend, D3D12_BLEND_ONE);
        assert_eq!(rt.dest_blend, D3D12_BLEND_ZERO);
        assert_eq!(rt.render_target_write_mask, 0x0f);
    }
}

#[test]
fn depth_stencil_default_tests_less_with_stencil_off() {
    let d = Dx12DepthStencilDesc::default();
    assert!(d.depth_enable);
    assert_eq!(d.depth_func, D3D12_COMPARISON_FUNC_LESS);
    assert!(!d.stencil_enable);
    assert_eq!(d.stencil_read_mask, 0xff);
    assert_eq!(d.front_face.stencil_fail_op, D3D12_STENCIL_OP_KEEP);
    assert_eq!(d.back_face, d.front_face);
}

#[test]
fn input_element_new_fills_per_vertex_slot_zero() {
    let e = Dx12InputElementDesc::new(b"TEXCOORD".to_vec(), 42, 24);
    assert_eq!(e.semantic_name, b"TEXCOORD".to_vec());
    assert_eq!(e.semantic_index, 0);
    assert_eq!(e.format, 42);
    assert_eq!(e.input_slot, 0);
    assert_eq!(e.aligned_byte_offset, 24);
    assert_eq!(e.instance_data_step_rate, 0);
}

#[test]
fn buffer_desc_and_heap_properties() {
    let d = Dx12ResourceDesc::buffer(4096);
    assert_eq!(d.dimension, D3D12_RESOURCE_DIMENSION_BUFFER);
    assert_eq!(d.width, 4096);
    assert_eq!(d.height, 1);
    assert_eq!(d.format, DXGI_FORMAT_UNKNOWN);
    assert_eq!(d.sample_count, 1);

    let p = Dx12HeapProperties::new(D3D12_HEAP_TYPE_UPLOAD);
    assert_eq!(p.heap_type, D3D12_HEAP_TYPE_UPLOAD);
    assert_eq!(p.creation_node_mask, 1);
    assert_eq!(p.visible_node_mask, 1);
}

#[test]
fn transition_barrier_record_covers_all_subresources() {
    let b = Dx12ResourceBarrier::transition(77, 1, 4);
    assert_eq!(b.barrier_type, D3D12_RESOURCE_BARRIER_TYPE_TRANSITION);
    assert_eq!(b.resource, 77);
    assert_eq!(b.subresource, D3D12_RESOURCE_BARRIER_ALL_SUBRESOURCES);
    assert_eq!(b.state_before, 1);
    assert_eq!(b.state_after, 4);
}

#[test]
fn fnv1a_matches_published_test_vectors() {
    assert_eq!(hash_raw_bytes(FNV_OFFSET_BASIS, &Vec::new()), FNV_OFFSET_BASIS);
    assert_eq!(hash_raw_bytes(FNV_OFFSET_BASIS, &b"a".to_vec()), 0xaf63dc4c8601ec8c);
    assert_eq!(hash_raw_bytes(FNV_OFFSET_BASIS, &b"foobar".to_vec()), 0x85944171f73967e8);
}
