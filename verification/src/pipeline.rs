//! Pipeline descriptions and the deterministic content hash the pipeline
//! cache keys on.
//!
//! A graphics pipeline is described by its two shader binaries and the full
//! fixed-function state. The description is serialized field by field into a
//! byte stream (variable-length parts carry a length prefix) and hashed with
//! 64-bit FNV-1a, so byte-identical descriptions always produce the same
//! cache key: that is what makes the pipeline cache content-addressed.

use vstd::prelude::*;
use crate::d3d12::D3D12_FILL_MODE_SOLID;
use crate::d3d12::D3D12_CULL_MODE_BACK;
use crate::d3d12::D3D12_DEFAULT_DEPTH_BIAS;
use crate::d3d12::D3D12_DEFAULT_DEPTH_BIAS_CLAMP_BITS;
use crate::d3d12::D3D12_DEFAULT_SLOPE_SCALED_DEPTH_BIAS_BITS;
use crate::d3d12::D3D12_CONSERVATIVE_RASTERIZATION_MODE_OFF;
use crate::d3d12::D3D12_BLEND_ONE;
use crate::d3d12::D3D12_BLEND_ZERO;
use crate::d3d12::D3D12_BLEND_OP_ADD;
use crate::d3d12::D3D12_LOGIC_OP_NOOP;
use crate::d3d12::D3D12_STENCIL_OP_KEEP;
use crate::d3d12::D3D12_COMPARISON_FUNC_ALWAYS;
use crate::d3d12::D3D12_COMPARISON_FUNC_LESS;
use crate::d3d12::D3D12_DEPTH_WRITE_MASK_ALL;
use crate::d3d12::D3D12_DEFAULT_STENCIL_READ_MASK;
use crate::d3d12::D3D12_DEFAULT_STENCIL_WRITE_MASK;
use crate::d3d12::D3D12_INPUT_CLASSIFICATION_PER_VERTEX_DATA;
use crate::d3d12::D3D12_PRIMITIVE_TOPOLOGY_TYPE_TRIANGLE;
use crate::d3d12::D3D12_INDEX_BUFFER_STRIP_CUT_VALUE_DISABLED;
use crate::d3d12::DXGI_FORMAT_UNKNOWN;
use crate::fnv::FNV_OFFSET_BASIS;
use crate::fnv::fnv1a;
use crate::fnv::enc_u8;
use crate::fnv::enc_bool;
use crate::fnv::enc_u32;
use crate::fnv::enc_i32;
use crate::fnv::enc_u64;
use crate::fnv::enc_bytes;
use crate::fnv::hash_u8;
use crate::fnv::hash_bool;
use crate::fnv::hash_u32;
use crate::fnv::hash_i32;
use crate::fnv::hash_u64;
use crate::fnv::hash_bytes;

verus! {

use crate::fnv::lemma_fnv1a_concat;

/// Blend configuration for one render target.
#[derive(Debug, Clone, Copy, PartialEq, Eq, Structural)]
pub struct Dx12RenderTargetBlendDesc {
    pub blend_enable: bool,
    pub logic_op_enable: bool,
    pub src_blend: u32,
    pub dest_blend: u32,
    pub blend_op: u32,
    pub src_blend_alpha: u32,
    pub dest_blend_alpha: u32,
    pub blend_op_alpha: u32,
    pub logic_op: u32,
    pub render_target_write_mask: u8,
}

impl Dx12RenderTargetBlendDesc {
    /// Blending disabled, straight write of all four channels.
    pub fn default() -> (d: Dx12RenderTargetBlendDesc)
        ensures
            d == (Dx12RenderTargetBlendDesc {
                blend_enable: false,
                logic_op_enable: false,
                src_blend: D3D12_BLEND_ONE,
                dest_blend: D3D12_BLEND_ZERO,
                blend_op: D3D12_BLEND_OP_ADD,
                src_blend_alpha: D3D12_BLEND_ONE,
                dest_blend_alpha: D3D12_BLEND_ZERO,
                blend_op_alpha: D3D12_BLEND_OP_ADD,
                logic_op: D3D12_LOGIC_OP_NOOP,
                render_target_write_mask: 0x0f,
            }),
    {
        Dx12RenderTargetBlendDesc {
            blend_enable: false,
            logic_op_enable: false,
            src_blend: D3D12_BLEND_ONE,
            dest_blend: D3D12_BLEND_ZERO,
            blend_op: D3D12_BLEND_OP_ADD,
            src_blend_alpha: D3D12_BLEND_ONE,
            dest_blend_alpha: D3D12_BLEND_ZERO,
            blend_op_alpha: D3D12_BLEND_OP_ADD,
            logic_op: D3D12_LOGIC_OP_NOOP,
            render_target_write_mask: 0x0f,
        }
    }
}

/// Whole-pipeline blend state: one entry per possible render target.
#[derive(Debug, Clone, Copy, PartialEq, Eq)]
pub struct Dx12BlendDesc {
    pub alpha_to_coverage_enable: bool,
    pub independent_blend_enable: bool,
    pub render_target: [Dx12RenderTargetBlendDesc; 8],
}

impl Dx12BlendDesc {
    /// Blending disabled on every render target.
    pub fn default() -> (d: Dx12BlendDesc)
        ensures
            !d.alpha_to_coverage_enable,
            !d.independent_blend_enable,
            forall|i: int|
                0 <= i < 8 ==> #[trigger] d.render_target[i] == (Dx12RenderTargetBlendDesc {
                    blend_enable: false,
                    logic_op_enable: false,
                    src_blend: D3D12_BLEND_ONE,
                    dest_blend: D3D12_BLEND_ZERO,
                    blend_op: D3D12_BLEND_OP_ADD,
                    src_blend_alpha: D3D12_BLEND_ONE,
                    dest_blend_alpha: D3D12_BLEND_ZERO,
                    blend_op_alpha: D3D12_BLEND_OP_ADD,
                    logic_op: D3D12_LOGIC_OP_NOOP,
                    render_target_write_mask: 0x0f,
                }),
    {
        let rt = Dx12RenderTargetBlendDesc::default();
        Dx12BlendDesc {
            alpha_to_coverage_enable: false,
            independent_blend_enable: false,
            render_target: [rt, rt, rt, rt, rt, rt, rt, rt],
        }
    }
}

/// Rasterizer state. The two depth-bias scale factors are carried by their
/// IEEE-754 bit patterns, which is also how they enter the content hash.
#[derive(Debug, Clone, Copy, PartialEq, Eq, Structural)]
pub struct Dx12RasterizerDesc {
    pub fill_mode: u32,
    pub cull_mode: u32,
    pub front_counter_clockwise: bool,
    pub depth_bias: i32,
    pub depth_bias_clamp_bits: u32,
    pub slope_scaled_depth_bias_bits: u32,
    pub depth_clip_enable: bool,
    pub multisample_enable: bool,
    pub antialiased_line_enable: bool,
    pub forced_sample_count: u32,
    pub conservative_raster: u32,
}

impl Dx12RasterizerDesc {
    /// Solid fill, back-face culling, depth clip on, no bias.
    pub fn default() -> (d: Dx12RasterizerDesc)
        ensures
            d == (Dx12RasterizerDesc {
                fill_mode: D3D12_FILL_MODE_SOLID,
                cull_mode: D3D12_CULL_MODE_BACK,
                front_counter_clockwise: false,
                depth_bias: D3D12_DEFAULT_DEPTH_BIAS,
                depth_bias_clamp_bits: D3D12_DEFAULT_DEPTH_BIAS_CLAMP_BITS,
                slope_scaled_depth_bias_bits: D3D12_DEFAULT_SLOPE_SCALED_DEPTH_BIAS_BITS,
                depth_clip_enable: true,
                multisample_enable: false,
                antialiased_line_enable: false,
                forced_sample_count: 0,
                conservative_raster: D3D12_CONSERVATIVE_RASTERIZATION_MODE_OFF,
            }),
    {
        Dx12RasterizerDesc {
            fill_mode: D3D12_FILL_MODE_SOLID,
            cull_mode: D3D12_CULL_MODE_BACK,
            front_counter_clockwise: false,
            depth_bias: D3D12_DEFAULT_DEPTH_BIAS,
            depth_bias_clamp_bits: D3D12_DEFAULT_DEPTH_BIAS_CLAMP_BITS,
            slope_scaled_depth_bias_bits: D3D12_DEFAULT_SLOPE_SCALED_DEPTH_BIAS_BITS,
            depth_clip_enable: true,
            multisample_enable: false,
            antialiased_line_enable: false,
            forced_sample_count: 0,
            conservative_raster: D3D12_CONSERVATIVE_RASTERIZATION_MODE_OFF,
        }
    }
}

/// Stencil operations for one face.
#[derive(Debug, Clone, Copy, PartialEq, Eq, Structural)]
pub struct Dx12DepthStencilOpDesc {
    pub stencil_fail_op: u32,
    pub stencil_depth_fail_op: u32,
    pub stencil_pass_op: u32,
    pub stencil_func: u32,
}

/// Depth/stencil state.
#[derive(Debug, Clone, Copy, PartialEq, Eq, Structural)]
pub struct Dx12DepthStencilDesc {
    pub depth_enable: bool,
    pub depth_write_mask: u32,
    pub depth_func: u32,
    pub stencil_enable: bool,
    pub stencil_read_mask: u8,
    pub stencil_write_mask: u8,
    pub front_face: Dx12DepthStencilOpDesc,
    pub back_face: Dx12DepthStencilOpDesc,
}

impl Dx12DepthStencilDesc {
    /// Depth test on with less-than comparison, stencil off.
    pub fn default() -> (d: Dx12DepthStencilDesc)
        ensures
            d == (Dx12DepthStencilDesc {
                depth_enable: true,
                depth_write_mask: D3D12_DEPTH_WRITE_MASK_ALL,
                depth_func: D3D12_COMPARISON_FUNC_LESS,
                stencil_enable: false,
                stencil_read_mask: D3D12_DEFAULT_STENCIL_READ_MASK,
                stencil_write_mask: D3D12_DEFAULT_STENCIL_WRITE_MASK,
                front_face: Dx12DepthStencilOpDesc {
                    stencil_fail_op: D3D12_STENCIL_OP_KEEP,
                    stencil_depth_fail_op: D3D12_STENCIL_OP_KEEP,
                    stencil_pass_op: D3D12_STENCIL_OP_KEEP,
                    stencil_func: D3D12_COMPARISON_FUNC_ALWAYS,
                },
                back_face: Dx12DepthStencilOpDesc {
                    stencil_fail_op: D3D12_STENCIL_OP_KEEP,
                    stencil_depth_fail_op: D3D12_STENCIL_OP_KEEP,
                    stencil_pass_op: D3D12_STENCIL_OP_KEEP,
                    stencil_func: D3D12_COMPARISON_FUNC_ALWAYS,
                },
            }),
    {
        let ds_op = Dx12DepthStencilOpDesc {
            stencil_fail_op: D3D12_STENCIL_OP_KEEP,
            stencil_depth_fail_op: D3D12_STENCIL_OP_KEEP,
            stencil_pass_op: D3D12_STENCIL_OP_KEEP,
            stencil_func: D3D12_COMPARISON_FUNC_ALWAYS,
        };
        Dx12DepthStencilDesc {
            depth_enable: true,
            depth_write_mask: D3D12_DEPTH_WRITE_MASK_ALL,
            depth_func: D3D12_COMPARISON_FUNC_LESS,
            stencil_enable: false,
            stencil_read_mask: D3D12_DEFAULT_STENCIL_READ_MASK,
            stencil_write_mask: D3D12_DEFAULT_STENCIL_WRITE_MASK,
            front_face: ds_op,
            back_face: ds_op,
        }
    }
}

/// Multisampling configuration.
#[derive(Debug, Clone, Copy, PartialEq, Eq, Structural)]
pub struct Dx12SampleDesc {
    pub count: u32,
    pub quality: u32,
}

/// One vertex-input element; the semantic name is the raw byte string the
/// shader declares.
#[derive(Debug, Clone)]
pub struct Dx12InputElementDesc {
    pub semantic_name: Vec<u8>,
    pub semantic_index: u32,
    pub format: u32,
    pub input_slot: u32,
    pub aligned_byte_offset: u32,
    pub input_slot_class: u32,
    pub instance_data_step_rate: u32,
}

impl Dx12InputElementDesc {
    /// Per-vertex element in slot 0 with the given name, format and offset.
    pub fn new(name: Vec<u8>, format: u32, offset: u32) -> (d: Dx12InputElementDesc)
        ensures
            d.semantic_name@ == name@,
            d.semantic_index == 0,
            d.format == format,
            d.input_slot == 0,
            d.aligned_byte_offset == offset,
            d.input_slot_class == D3D12_INPUT_CLASSIFICATION_PER_VERTEX_DATA,
            d.instance_data_step_rate == 0,
    {
        Dx12InputElementDesc {
            semantic_name: name,
            semantic_index: 0,
            format,
            input_slot: 0,
            aligned_byte_offset: offset,
            input_slot_class: D3D12_INPUT_CLASSIFICATION_PER_VERTEX_DATA,
            instance_data_step_rate: 0,
        }
    }
}

/// Full description of a graphics pipeline: both shader binaries plus every
/// piece of fixed-function state that distinguishes one native pipeline
/// object from another.
#[derive(Debug, Clone)]
pub struct Dx12GraphicsPipelineDesc {
    pub vs_bytecode: Vec<u8>,
    pub ps_bytecode: Vec<u8>,
    pub blend_state: Dx12BlendDesc,
    pub sample_mask: u32,
    pub rasterizer_state: Dx12RasterizerDesc,
    pub depth_stencil_state: Dx12DepthStencilDesc,
    pub input_layout: Vec<Dx12InputElementDesc>,
    pub ib_strip_cut_value: u32,
    pub primitive_topology_type: u32,
    pub num_render_targets: u32,
    pub rtv_formats: [u32; 8],
    pub dsv_format: u32,
    pub sample_desc: Dx12SampleDesc,
}

impl Dx12GraphicsPipelineDesc {
    /// A description with default fixed-function state, no input layout and
    /// no render targets declared; callers fill in what they need.
    pub fn new(vs_bytecode: Vec<u8>, ps_bytecode: Vec<u8>) -> (d: Dx12GraphicsPipelineDesc)
        ensures
            d.vs_bytecode@ == vs_bytecode@,
            d.ps_bytecode@ == ps_bytecode@,
            !d.blend_state.alpha_to_coverage_enable,
            !d.blend_state.independent_blend_enable,
            d.sample_mask == 0xffffffffu32,
            d.rasterizer_state == (Dx12RasterizerDesc {
                fill_mode: D3D12_FILL_MODE_SOLID,
                cull_mode: D3D12_CULL_MODE_BACK,
                front_counter_clockwise: false,
                depth_bias: D3D12_DEFAULT_DEPTH_BIAS,
                depth_bias_clamp_bits: D3D12_DEFAULT_DEPTH_BIAS_CLAMP_BITS,
                slope_scaled_depth_bias_bits: D3D12_DEFAULT_SLOPE_SCALED_DEPTH_BIAS_BITS,
                depth_clip_enable: true,
                multisample_enable: false,
                antialiased_line_enable: false,
                forced_sample_count: 0,
                conservative_raster: D3D12_CONSERVATIVE_RASTERIZATION_MODE_OFF,
            }),
            d.input_layout@.len() == 0,
            d.ib_strip_cut_value == D3D12_INDEX_BUFFER_STRIP_CUT_VALUE_DISABLED,
            d.primitive_topology_type == D3D12_PRIMITIVE_TOPOLOGY_TYPE_TRIANGLE,
            d.num_render_targets == 0,
            forall|i: int| 0 <= i < 8 ==> #[trigger] d.rtv_formats[i] == DXGI_FORMAT_UNKNOWN,
            d.dsv_format == DXGI_FORMAT_UNKNOWN,
            d.sample_desc == (Dx12SampleDesc { count: 1, quality: 0 }),
    {
        Dx12GraphicsPipelineDesc {
            vs_bytecode,
            ps_bytecode,
            blend_state: Dx12BlendDesc::default(),
            sample_mask: 0xffffffff,
            rasterizer_state: Dx12RasterizerDesc::default(),
            depth_stencil_state: Dx12DepthStencilDesc::default(),
            input_layout: Vec::new(),
            ib_strip_cut_value: D3D12_INDEX_BUFFER_STRIP_CUT_VALUE_DISABLED,
            primitive_topology_type: D3D12_PRIMITIVE_TOPOLOGY_TYPE_TRIANGLE,
            num_render_targets: 0,
            rtv_formats: [
                DXGI_FORMAT_UNKNOWN,
                DXGI_FORMAT_UNKNOWN,
                DXGI_FORMAT_UNKNOWN,
                DXGI_FORMAT_UNKNOWN,
                DXGI_FORMAT_UNKNOWN,
                DXGI_FORMAT_UNKNOWN,
                DXGI_FORMAT_UNKNOWN,
                DXGI_FORMAT_UNKNOWN,
            ],
            dsv_format: DXGI_FORMAT_UNKNOWN,
            sample_desc: Dx12SampleDesc { count: 1, quality: 0 },
        }
    }
}

/// Full description of a compute pipeline: the compute shader binary.
#[derive(Debug, Clone)]
pub struct Dx12ComputePipelineDesc {
    pub cs_bytecode: Vec<u8>,
}

// Byte encodings of the description, segment by segment, in a fixed order.
pub open spec fn enc_rt_blend(rt: Dx12RenderTargetBlendDesc) -> Seq<u8> {
    enc_bool(rt.blend_enable) + enc_bool(rt.logic_op_enable) + enc_u32(rt.src_blend) + enc_u32(
        rt.dest_blend,
    ) + enc_u32(rt.blend_op) + enc_u32(rt.src_blend_alpha) + enc_u32(rt.dest_blend_alpha)
        + enc_u32(rt.blend_op_alpha) + enc_u32(rt.logic_op) + enc_u8(rt.render_target_write_mask)
}

pub open spec fn enc_blend(b: Dx12BlendDesc) -> Seq<u8> {
    enc_bool(b.alpha_to_coverage_enable) + enc_bool(b.independent_blend_enable) + enc_rt_blend(
        b.render_target[0],
    ) + enc_rt_blend(b.render_target[1]) + enc_rt_blend(b.render_target[2]) + enc_rt_blend(
        b.render_target[3],
    ) + enc_rt_blend(b.render_target[4]) + enc_rt_blend(b.render_target[5]) + enc_rt_blend(
        b.render_target[6],
    ) + enc_rt_blend(b.render_target[7])
}

pub open spec fn enc_rasterizer(r: Dx12RasterizerDesc) -> Seq<u8> {
    enc_u32(r.fill_mode) + enc_u32(r.cull_mode) + enc_bool(r.front_counter_clockwise) + enc_i32(
        r.depth_bias,
    ) + enc_u32(r.depth_bias_clamp_bits) + enc_u32(r.slope_scaled_depth_bias_bits) + enc_bool(
        r.depth_clip_enable,
    ) + enc_bool(r.multisample_enable) + enc_bool(r.antialiased_line_enable) + enc_u32(
        r.forced_sample_count,
    ) + enc_u32(r.conservative_raster)
}

pub open spec fn enc_ds_op(o: Dx12DepthStencilOpDesc) -> Seq<u8> {
    enc_u32(o.stencil_fail_op) + enc_u32(o.stencil_depth_fail_op) + enc_u32(o.stencil_pass_op)
        + enc_u32(o.stencil_func)
}

pub open spec fn enc_depth_stencil(d: Dx12DepthStencilDesc) -> Seq<u8> {
    enc_bool(d.depth_enable) + enc_u32(d.depth_write_mask) + enc_u32(d.depth_func) + enc_bool(
        d.stencil_enable,
    ) + enc_u8(d.stencil_read_mask) + enc_u8(d.stencil_write_mask) + enc_ds_op(d.front_face)
        + enc_ds_op(d.back_face)
}

pub open spec fn enc_input_element(e: Dx12InputElementDesc) -> Seq<u8> {
    enc_bytes(e.semantic_name@) + enc_u32(e.semantic_index) + enc_u32(e.format) + enc_u32(
        e.input_slot,
    ) + enc_u32(e.aligned_byte_offset) + enc_u32(e.input_slot_class) + enc_u32(
        e.instance_data_step_rate,
    )
}

pub open spec fn enc_input_elements(s: Seq<Dx12InputElementDesc>) -> Seq<u8>
    decreases s.len(),
{
    if s.len() <= 0 {
        Seq::empty()
    } else {
        enc_input_element(s[0]) + enc_input_elements(s.drop_first())
    }
}

pub open spec fn enc_sample(s: Dx12SampleDesc) -> Seq<u8> {
    enc_u32(s.count) + enc_u32(s.quality)
}

pub open spec fn enc_rtv_formats(a: [u32; 8]) -> Seq<u8> {
    enc_u32(a[0]) + enc_u32(a[1]) + enc_u32(a[2]) + enc_u32(a[3]) + enc_u32(a[4]) + enc_u32(a[5])
        + enc_u32(a[6]) + enc_u32(a[7])
}

pub open spec fn enc_graphics_pipeline(d: Dx12GraphicsPipelineDesc) -> Seq<u8> {
    enc_bytes(d.vs_bytecode@) + enc_bytes(d.ps_bytecode@) + enc_blend(d.blend_state) + enc_u32(
        d.sample_mask,
    ) + enc_rasterizer(d.rasterizer_state) + enc_depth_stencil(d.depth_stencil_state) + enc_u64(
        d.input_layout@.len() as u64,
    ) + enc_input_elements(d.input_layout@) + enc_u32(d.ib_strip_cut_value) + enc_u32(
        d.primitive_topology_type,
    ) + enc_u32(d.num_render_targets) + enc_rtv_formats(d.rtv_formats) + enc_u32(d.dsv_format)
        + enc_sample(d.sample_desc)
}

pub open spec fn enc_compute_pipeline(d: Dx12ComputePipelineDesc) -> Seq<u8> {
    enc_bytes(d.cs_bytecode@)
}

/// The cache key of a graphics pipeline description.
pub open spec fn graphics_pipeline_hash(d: Dx12GraphicsPipelineDesc) -> u64 {
    fnv1a(FNV_OFFSET_BASIS, enc_graphics_pipeline(d))
}

/// The cache key of a compute pipeline description.
pub open spec fn compute_pipeline_hash(d: Dx12ComputePipelineDesc) -> u64 {
    fnv1a(FNV_OFFSET_BASIS, enc_compute_pipeline(d))
}

/// Folds one render target's blend configuration into the running hash.
fn hash_rt_blend(h: u64, rt: &Dx12RenderTargetBlendDesc) -> (r: u64)
    ensures
        r == fnv1a(h, enc_rt_blend(*rt)),
{
    let h1 = hash_bool(h, rt.blend_enable);
    let h2 = hash_bool(h1, rt.logic_op_enable);
    let h3 = hash_u32(h2, rt.src_blend);
    let h4 = hash_u32(h3, rt.dest_blend);
    let h5 = hash_u32(h4, rt.blend_op);
    let h6 = hash_u32(h5, rt.src_blend_alpha);
    let h7 = hash_u32(h6, rt.dest_blend_alpha);
    let h8 = hash_u32(h7, rt.blend_op_alpha);
    let h9 = hash_u32(h8, rt.logic_op);
    let h10 = hash_u8(h9, rt.render_target_write_mask);
    proof {
        lemma_fnv1a_concat(h, enc_bool(rt.blend_enable), enc_bool(rt.logic_op_enable));
        lemma_fnv1a_concat(h, enc_bool(rt.blend_enable) + enc_bool(rt.logic_op_enable), enc_u32(rt.src_blend));
        lemma_fnv1a_concat(h, enc_bool(rt.blend_enable) + enc_bool(rt.logic_op_enable) + enc_u32(rt.src_blend), enc_u32(rt.dest_blend));
        lemma_fnv1a_concat(h, enc_bool(rt.blend_enable) + enc_bool(rt.logic_op_enable) + enc_u32(rt.src_blend) + enc_u32(rt.dest_blend), enc_u32(rt.blend_op));
        lemma_fnv1a_concat(h, enc_bool(rt.blend_enable) + enc_bool(rt.logic_op_enable) + enc_u32(rt.src_blend) + enc_u32(rt.dest_blend) + enc_u32(rt.blend_op), enc_u32(rt.src_blend_alpha));
        lemma_fnv1a_concat(h, enc_bool(rt.blend_enable) + enc_bool(rt.logic_op_enable) + enc_u32(rt.src_blend) + enc_u32(rt.dest_blend) + enc_u32(rt.blend_op) + enc_u32(rt.src_blend_alpha), enc_u32(rt.dest_blend_alpha));
        lemma_fnv1a_concat(h, enc_bool(rt.blend_enable) + enc_bool(rt.logic_op_enable) + enc_u32(rt.src_blend) + enc_u32(rt.dest_blend) + enc_u32(rt.blend_op) + enc_u32(rt.src_blend_alpha) + enc_u32(rt.dest_blend_alpha), enc_u32(rt.blend_op_alpha));
        lemma_fnv1a_concat(h, enc_bool(rt.blend_enable) + enc_bool(rt.logic_op_enable) + enc_u32(rt.src_blend) + enc_u32(rt.dest_blend) + enc_u32(rt.blend_op) + enc_u32(rt.src_blend_alpha) + enc_u32(rt.dest_blend_alpha) + enc_u32(rt.blend_op_alpha), enc_u32(rt.logic_op));
        lemma_fnv1a_concat(h, enc_bool(rt.blend_enable) + enc_bool(rt.logic_op_enable) + enc_u32(rt.src_blend) + enc_u32(rt.dest_blend) + enc_u32(rt.blend_op) + enc_u32(rt.src_blend_alpha) + enc_u32(rt.dest_blend_alpha) + enc_u32(rt.blend_op_alpha) + enc_u32(rt.logic_op), enc_u8(rt.render_target_write_mask));
    }
    h10
}

/// Folds the whole blend state into the running hash.
fn hash_blend(h: u64, b: &Dx12BlendDesc) -> (r: u64)
    ensures
        r == fnv1a(h, enc_blend(*b)),
{
    let h1 = hash_bool(h, b.alpha_to_coverage_enable);
    let h2 = hash_bool(h1, b.independent_blend_enable);
    let h3 = hash_rt_blend(h2, &b.render_target[0]);
    let h4 = hash_rt_blend(h3, &b.render_target[1]);
    let h5 = hash_rt_blend(h4, &b.render_target[2]);
    let h6 = hash_rt_blend(h5, &b.render_target[3]);
    let h7 = hash_rt_blend(h6, &b.render_target[4]);
    let h8 = hash_rt_blend(h7, &b.render_target[5]);
    let h9 = hash_rt_blend(h8, &b.render_target[6]);
    let h10 = hash_rt_blend(h9, &b.render_target[7]);
    proof {
        lemma_fnv1a_concat(h, enc_bool(b.alpha_to_coverage_enable), enc_bool(b.independent_blend_enable));
        lemma_fnv1a_concat(h, enc_bool(b.alpha_to_coverage_enable) + enc_bool(b.independent_blend_enable), enc_rt_blend(b.render_target[0]));
        lemma_fnv1a_concat(h, enc_bool(b.alpha_to_coverage_enable) + enc_bool(b.independent_blend_enable) + enc_rt_blend(b.render_target[0]), enc_rt_blend(b.render_target[1]));
        lemma_fnv1a_concat(h, enc_bool(b.alpha_to_coverage_enable) + enc_bool(b.independent_blend_enable) + enc_rt_blend(b.render_target[0]) + enc_rt_blend(b.render_target[1]), enc_rt_blend(b.render_target[2]));
        lemma_fnv1a_concat(h, enc_bool(b.alpha_to_coverage_enable) + enc_bool(b.independent_blend_enable) + enc_rt_blend(b.render_target[0]) + enc_rt_blend(b.render_target[1]) + enc_rt_blend(b.render_target[2]), enc_rt_blend(b.render_target[3]));
        lemma_fnv1a_concat(h, enc_bool(b.alpha_to_coverage_enable) + enc_bool(b.independent_blend_enable) + enc_rt_blend(b.render_target[0]) + enc_rt_blend(b.render_target[1]) + enc_rt_blend(b.render_target[2]) + enc_rt_blend(b.render_target[3]), enc_rt_blend(b.render_target[4]));
        lemma_fnv1a_concat(h, enc_bool(b.alpha_to_coverage_enable) + enc_bool(b.independent_blend_enable) + enc_rt_blend(b.render_target[0]) + enc_rt_blend(b.render_target[1]) + enc_rt_blend(b.render_target[2]) + enc_rt_blend(b.render_target[3]) + enc_rt_blend(b.render_target[4]), enc_rt_blend(b.render_target[5]));
        lemma_fnv1a_concat(h, enc_bool(b.alpha_to_coverage_enable) + enc_bool(b.independent_blend_enable) + enc_rt_blend(b.render_target[0]) + enc_rt_blend(b.render_target[1]) + enc_rt_blend(b.render_target[2]) + enc_rt_blend(b.render_target[3]) + enc_rt_blend(b.render_target[4]) + enc_rt_blend(b.render_target[5]), enc_rt_blend(b.render_target[6]));
        lemma_fnv1a_concat(h, enc_bool(b.alpha_to_coverage_enable) + enc_bool(b.independent_blend_enable) + enc_rt_blend(b.render_target[0]) + enc_rt_blend(b.render_target[1]) + enc_rt_blend(b.render_target[2]) + enc_rt_blend(b.render_target[3]) + enc_rt_blend(b.render_target[4]) + enc_rt_blend(b.render_target[5]) + enc_rt_blend(b.render_target[6]), enc_rt_blend(b.render_target[7]));
    }
    h10
}

/// Folds the rasterizer state into the running hash.
fn hash_rasterizer(h: u64, r: &Dx12RasterizerDesc) -> (res: u64)
    ensures
        res == fnv1a(h, enc_rasterizer(*r)),
{
    let h1 = hash_u32(h, r.fill_mode);
    let h2 = hash_u32(h1, r.cull_mode);
    let h3 = hash_bool(h2, r.front_counter_clockwise);
    let h4 = hash_i32(h3, r.depth_bias);
    let h5 = hash_u32(h4, r.depth_bias_clamp_bits);
    let h6 = hash_u32(h5, r.slope_scaled_depth_bias_bits);
    let h7 = hash_bool(h6, r.depth_clip_enable);
    let h8 = hash_bool(h7, r.multisample_enable);
    let h9 = hash_bool(h8, r.antialiased_line_enable);
    let h10 = hash_u32(h9, r.forced_sample_count);
    let h11 = hash_u32(h10, r.conservative_raster);
    proof {
        lemma_fnv1a_concat(h, enc_u32(r.fill_mode), enc_u32(r.cull_mode));
        lemma_fnv1a_concat(h, enc_u32(r.fill_mode) + enc_u32(r.cull_mode), enc_bool(r.front_counter_clockwise));
        lemma_fnv1a_concat(h, enc_u32(r.fill_mode) + enc_u32(r.cull_mode) + enc_bool(r.front_counter_clockwise), enc_i32(r.depth_bias));
        lemma_fnv1a_concat(h, enc_u32(r.fill_mode) + enc_u32(r.cull_mode) + enc_bool(r.front_counter_clockwise) + enc_i32(r.depth_bias), enc_u32(r.depth_bias_clamp_bits));
        lemma_fnv1a_concat(h, enc_u32(r.fill_mode) + enc_u32(r.cull_mode) + enc_bool(r.front_counter_clockwise) + enc_i32(r.depth_bias) + enc_u32(r.depth_bias_clamp_bits), enc_u32(r.slope_scaled_depth_bias_bits));
        lemma_fnv1a_concat(h, enc_u32(r.fill_mode) + enc_u32(r.cull_mode) + enc_bool(r.front_counter_clockwise) + enc_i32(r.depth_bias) + enc_u32(r.depth_bias_clamp_bits) + enc_u32(r.slope_scaled_depth_bias_bits), enc_bool(r.depth_clip_enable));
        lemma_fnv1a_concat(h, enc_u32(r.fill_mode) + enc_u32(r.cull_mode) + enc_bool(r.front_counter_clockwise) + enc_i32(r.depth_bias) + enc_u32(r.depth_bias_clamp_bits) + enc_u32(r.slope_scaled_depth_bias_bits) + enc_bool(r.depth_clip_enable), enc_bool(r.multisample_enable));
        lemma_fnv1a_concat(h, enc_u32(r.fill_mode) + enc_u32(r.cull_mode) + enc_bool(r.front_counter_clockwise) + enc_i32(r.depth_bias) + enc_u32(r.depth_bias_clamp_bits) + enc_u32(r.slope_scaled_depth_bias_bits) + enc_bool(r.depth_clip_enable) + enc_bool(r.multisample_enable), enc_bool(r.antialiased_line_enable));
        lemma_fnv1a_concat(h, enc_u32(r.fill_mode) + enc_u32(r.cull_mode) + enc_bool(r.front_counter_clockwise) + enc_i32(r.depth_bias) + enc_u32(r.depth_bias_clamp_bits) + enc_u32(r.slope_scaled_depth_bias_bits) + enc_bool(r.depth_clip_enable) + enc_bool(r.multisample_enable) + enc_bool(r.antialiased_line_enable), enc_u32(r.forced_sample_count));
        lemma_fnv1a_concat(h, enc_u32(r.fill_mode) + enc_u32(r.cull_mode) + enc_bool(r.front_counter_clockwise) + enc_i32(r.depth_bias) + enc_u32(r.depth_bias_clamp_bits) + enc_u32(r.slope_scaled_depth_bias_bits) + enc_bool(r.depth_clip_enable) + enc_bool(r.multisample_enable) + enc_bool(r.antialiased_line_enable) + enc_u32(r.forced_sample_count), enc_u32(r.conservative_raster));
    }
    h11
}

/// Folds one face's stencil operations into the running hash.
fn hash_ds_op(h: u64, o: &Dx12DepthStencilOpDesc) -> (r: u64)
    ensures
        r == fnv1a(h, enc_ds_op(*o)),
{
    let h1 = hash_u32(h, o.stencil_fail_op);
    let h2 = hash_u32(h1, o.stencil_depth_fail_op);
    let h3 = hash_u32(h2, o.stencil_pass_op);
    let h4 = hash_u32(h3, o.stencil_func);
    proof {
        lemma_fnv1a_concat(h, enc_u32(o.stencil_fail_op), enc_u32(o.stencil_depth_fail_op));
        lemma_fnv1a_concat(h, enc_u32(o.stencil_fail_op) + enc_u32(o.stencil_depth_fail_op), enc_u32(o.stencil_pass_op));
        lemma_fnv1a_concat(h, enc_u32(o.stencil_fail_op) + enc_u32(o.stencil_depth_fail_op) + enc_u32(o.stencil_pass_op), enc_u32(o.stencil_func));
    }
    h4
}

/// Folds the depth/stencil state into the running hash.
fn hash_depth_stencil(h: u64, d: &Dx12DepthStencilDesc) -> (r: u64)
    ensures
        r == fnv1a(h, enc_depth_stencil(*d)),
{
    let h1 = hash_bool(h, d.depth_enable);
    let h2 = hash_u32(h1, d.depth_write_mask);
    let h3 = hash_u32(h2, d.depth_func);
    let h4 = hash_bool(h3, d.stencil_enable);
    let h5 = hash_u8(h4, d.stencil_read_mask);
    let h6 = hash_u8(h5, d.stencil_write_mask);
    let h7 = hash_ds_op(h6, &d.front_face);
    let h8 = hash_ds_op(h7, &d.back_face);
    proof {
        lemma_fnv1a_concat(h, enc_bool(d.depth_enable), enc_u32(d.depth_write_mask));
        lemma_fnv1a_concat(h, enc_bool(d.depth_enable) + enc_u32(d.depth_write_mask), enc_u32(d.depth_func));
        lemma_fnv1a_concat(h, enc_bool(d.depth_enable) + enc_u32(d.depth_write_mask) + enc_u32(d.depth_func), enc_bool(d.stencil_enable));
        lemma_fnv1a_concat(h, enc_bool(d.depth_enable) + enc_u32(d.depth_write_mask) + enc_u32(d.depth_func) + enc_bool(d.stencil_enable), enc_u8(d.stencil_read_mask));
        lemma_fnv1a_concat(h, enc_bool(d.depth_enable) + enc_u32(d.depth_write_mask) + enc_u32(d.depth_func) + enc_bool(d.stencil_enable) + enc_u8(d.stencil_read_mask), enc_u8(d.stencil_write_mask));
        lemma_fnv1a_concat(h, enc_bool(d.depth_enable) + enc_u32(d.depth_write_mask) + enc_u32(d.depth_func) + enc_bool(d.stencil_enable) + enc_u8(d.stencil_read_mask) + enc_u8(d.stencil_write_mask), enc_ds_op(d.front_face));
        lemma_fnv1a_concat(h, enc_bool(d.depth_enable) + enc_u32(d.depth_write_mask) + enc_u32(d.depth_func) + enc_bool(d.stencil_enable) + enc_u8(d.stencil_read_mask) + enc_u8(d.stencil_write_mask) + enc_ds_op(d.front_face), enc_ds_op(d.back_face));
    }
    h8
}

/// Folds one input element into the running hash.
fn hash_input_element(h: u64, e: &Dx12InputElementDesc) -> (r: u64)
    ensures
        r == fnv1a(h, enc_input_element(*e)),
{
    let h1 = hash_bytes(h, &e.semantic_name);
    let h2 = hash_u32(h1, e.semantic_index);
    let h3 = hash_u32(h2, e.format);
    let h4 = hash_u32(h3, e.input_slot);
    let h5 = hash_u32(h4, e.aligned_byte_offset);
    let h6 = hash_u32(h5, e.input_slot_class);
    let h7 = hash_u32(h6, e.instance_data_step_rate);
    proof {
        lemma_fnv1a_concat(h, enc_bytes(e.semantic_name@), enc_u32(e.semantic_index));
        lemma_fnv1a_concat(h, enc_bytes(e.semantic_name@) + enc_u32(e.semantic_index), enc_u32(e.format));
        lemma_fnv1a_concat(h, enc_bytes(e.semantic_name@) + enc_u32(e.semantic_index) + enc_u32(e.format), enc_u32(e.input_slot));
        lemma_fnv1a_concat(h, enc_bytes(e.semantic_name@) + enc_u32(e.semantic_index) + enc_u32(e.format) + enc_u32(e.input_slot), enc_u32(e.aligned_byte_offset));
        lemma_fnv1a_concat(h, enc_bytes(e.semantic_name@) + enc_u32(e.semantic_index) + enc_u32(e.format) + enc_u32(e.input_slot) + enc_u32(e.aligned_byte_offset), enc_u32(e.input_slot_class));
        lemma_fnv1a_concat(h, enc_bytes(e.semantic_name@) + enc_u32(e.semantic_index) + enc_u32(e.format) + enc_u32(e.input_slot) + enc_u32(e.aligned_byte_offset) + enc_u32(e.input_slot_class), enc_u32(e.instance_data_step_rate));
    }
    h7
}

/// Appending an element on the right extends the encoding on the right.
proof fn lemma_enc_elems_snoc(s: Seq<Dx12InputElementDesc>, e: Dx12InputElementDesc)
    ensures
        enc_input_elements(s.push(e)) == enc_input_elements(s) + enc_input_element(e),
    decreases s.len(),
{
    if s.len() == 0 {
        assert(s.push(e)[0] == e);
        assert(s.push(e).drop_first().len() == 0);
        assert(enc_input_elements(s.push(e).drop_first()) == Seq::<u8>::empty());
        assert(enc_input_elements(s.push(e)) == enc_input_element(e) + Seq::<u8>::empty());
        assert(enc_input_element(e) + Seq::<u8>::empty() =~= enc_input_element(e));
        assert(enc_input_elements(s) == Seq::<u8>::empty());
        assert(Seq::<u8>::empty() + enc_input_element(e) =~= enc_input_element(e));
    } else {
        assert(s.push(e)[0] == s[0]);
        assert(s.push(e).drop_first() =~= s.drop_first().push(e));
        lemma_enc_elems_snoc(s.drop_first(), e);
        assert(enc_input_elements(s.push(e)) == enc_input_element(s[0]) + enc_input_elements(
            s.drop_first().push(e),
        ));
        assert(enc_input_elements(s) == enc_input_element(s[0]) + enc_input_elements(
            s.drop_first(),
        ));
        assert(enc_input_element(s[0]) + (enc_input_elements(s.drop_first()) + enc_input_element(e))
            =~= (enc_input_element(s[0]) + enc_input_elements(s.drop_first())) + enc_input_element(
            e,
        ));
    }
}

/// Folds every input element, in order, into the running hash.
fn hash_input_elements(h: u64, elems: &Vec<Dx12InputElementDesc>) -> (r: u64)
    ensures
        r == fnv1a(h, enc_input_elements(elems@)),
{
    let mut acc = h;
    let mut i: usize = 0;
    while i < elems.len()
        invariant
            i <= elems@.len(),
            acc == fnv1a(h, enc_input_elements(elems@.subrange(0, i as int))),
        decreases elems@.len() - i,
    {
        acc = hash_input_element(acc, &elems[i]);
        proof {
            assert(elems@.subrange(0, i + 1) =~= elems@.subrange(0, i as int).push(
                elems@[i as int],
            ));
            lemma_enc_elems_snoc(elems@.subrange(0, i as int), elems@[i as int]);
            lemma_fnv1a_concat(
                h,
                enc_input_elements(elems@.subrange(0, i as int)),
                enc_input_element(elems@[i as int]),
            );
        }
        i = i + 1;
    }
    proof {
        assert(elems@.subrange(0, elems@.len() as int) =~= elems@);
    }
    acc
}

/// Folds the render-target format list into the running hash.
fn hash_rtv_formats(h: u64, a: &[u32; 8]) -> (r: u64)
    ensures
        r == fnv1a(h, enc_rtv_formats(*a)),
{
    let h1 = hash_u32(h, a[0]);
    let h2 = hash_u32(h1, a[1]);
    let h3 = hash_u32(h2, a[2]);
    let h4 = hash_u32(h3, a[3]);
    let h5 = hash_u32(h4, a[4]);
    let h6 = hash_u32(h5, a[5]);
    let h7 = hash_u32(h6, a[6]);
    let h8 = hash_u32(h7, a[7]);
    proof {
        lemma_fnv1a_concat(h, enc_u32(a[0]), enc_u32(a[1]));
        lemma_fnv1a_concat(h, enc_u32(a[0]) + enc_u32(a[1]), enc_u32(a[2]));
        lemma_fnv1a_concat(h, enc_u32(a[0]) + enc_u32(a[1]) + enc_u32(a[2]), enc_u32(a[3]));
        lemma_fnv1a_concat(h, enc_u32(a[0]) + enc_u32(a[1]) + enc_u32(a[2]) + enc_u32(a[3]), enc_u32(a[4]));
        lemma_fnv1a_concat(h, enc_u32(a[0]) + enc_u32(a[1]) + enc_u32(a[2]) + enc_u32(a[3]) + enc_u32(a[4]), enc_u32(a[5]));
        lemma_fnv1a_concat(h, enc_u32(a[0]) + enc_u32(a[1]) + enc_u32(a[2]) + enc_u32(a[3]) + enc_u32(a[4]) + enc_u32(a[5]), enc_u32(a[6]));
        lemma_fnv1a_concat(h, enc_u32(a[0]) + enc_u32(a[1]) + enc_u32(a[2]) + enc_u32(a[3]) + enc_u32(a[4]) + enc_u32(a[5]) + enc_u32(a[6]), enc_u32(a[7]));
    }
    h8
}

/// Folds the multisampling configuration into the running hash.
fn hash_sample(h: u64, s: &Dx12SampleDesc) -> (r: u64)
    ensures
        r == fnv1a(h, enc_sample(*s)),
{
    let h1 = hash_u32(h, s.count);
    let h2 = hash_u32(h1, s.quality);
    proof {
        lemma_fnv1a_concat(h, enc_u32(s.count), enc_u32(s.quality));
    }
    h2
}

/// Computes the cache key of a graphics pipeline description: 64-bit FNV-1a
/// over both shader binaries and every fixed-function field.
pub fn calc_graphics_pipeline_hash(desc: &Dx12GraphicsPipelineDesc) -> (r: u64)
    ensures
        r == graphics_pipeline_hash(*desc),
{
    let h = FNV_OFFSET_BASIS;
    let h1 = hash_bytes(h, &desc.vs_bytecode);
    let h2 = hash_bytes(h1, &desc.ps_bytecode);
    let h3 = hash_blend(h2, &desc.blend_state);
    let h4 = hash_u32(h3, desc.sample_mask);
    let h5 = hash_rasterizer(h4, &desc.rasterizer_state);
    let h6 = hash_depth_stencil(h5, &desc.depth_stencil_state);
    let h7 = hash_u64(h6, desc.input_layout.len() as u64);
    let h8 = hash_input_elements(h7, &desc.input_layout);
    let h9 = hash_u32(h8, desc.ib_strip_cut_value);
    let h10 = hash_u32(h9, desc.primitive_topology_type);
    let h11 = hash_u32(h10, desc.num_render_targets);
    let h12 = hash_rtv_formats(h11, &desc.rtv_formats);
    let h13 = hash_u32(h12, desc.dsv_format);
    let h14 = hash_sample(h13, &desc.sample_desc);
    proof {
        lemma_fnv1a_concat((FNV_OFFSET_BASIS as u64), enc_bytes(desc.vs_bytecode@), enc_bytes(desc.ps_bytecode@));
        lemma_fnv1a_concat((FNV_OFFSET_BASIS as u64), enc_bytes(desc.vs_bytecode@) + enc_bytes(desc.ps_bytecode@), enc_blend(desc.blend_state));
        lemma_fnv1a_concat((FNV_OFFSET_BASIS as u64), enc_bytes(desc.vs_bytecode@) + enc_bytes(desc.ps_bytecode@) + enc_blend(desc.blend_state), enc_u32(desc.sample_mask));
        lemma_fnv1a_concat((FNV_OFFSET_BASIS as u64), enc_bytes(desc.vs_bytecode@) + enc_bytes(desc.ps_bytecode@) + enc_blend(desc.blend_state) + enc_u32(desc.sample_mask), enc_rasterizer(desc.rasterizer_state));
        lemma_fnv1a_concat((FNV_OFFSET_BASIS as u64), enc_bytes(desc.vs_bytecode@) + enc_bytes(desc.ps_bytecode@) + enc_blend(desc.blend_state) + enc_u32(desc.sample_mask) + enc_rasterizer(desc.rasterizer_state), enc_depth_stencil(desc.depth_stencil_state));
        lemma_fnv1a_concat((FNV_OFFSET_BASIS as u64), enc_bytes(desc.vs_bytecode@) + enc_bytes(desc.ps_bytecode@) + enc_blend(desc.blend_state) + enc_u32(desc.sample_mask) + enc_rasterizer(desc.rasterizer_state) + enc_depth_stencil(desc.depth_stencil_state), enc_u64(desc.input_layout@.len() as u64));
        lemma_fnv1a_concat((FNV_OFFSET_BASIS as u64), enc_bytes(desc.vs_bytecode@) + enc_bytes(desc.ps_bytecode@) + enc_blend(desc.blend_state) + enc_u32(desc.sample_mask) + enc_rasterizer(desc.rasterizer_state) + enc_depth_stencil(desc.depth_stencil_state) + enc_u64(desc.input_layout@.len() as u64), enc_input_elements(desc.input_layout@));
        lemma_fnv1a_concat((FNV_OFFSET_BASIS as u64), enc_bytes(desc.vs_bytecode@) + enc_bytes(desc.ps_bytecode@) + enc_blend(desc.blend_state) + enc_u32(desc.sample_mask) + enc_rasterizer(desc.rasterizer_state) + enc_depth_stencil(desc.depth_stencil_state) + enc_u64(desc.input_layout@.len() as u64) + enc_input_elements(desc.input_layout@), enc_u32(desc.ib_strip_cut_value));
        lemma_fnv1a_concat((FNV_OFFSET_BASIS as u64), enc_bytes(desc.vs_bytecode@) + enc_bytes(desc.ps_bytecode@) + enc_blend(desc.blend_state) + enc_u32(desc.sample_mask) + enc_rasterizer(desc.rasterizer_state) + enc_depth_stencil(desc.depth_stencil_state) + enc_u64(desc.input_layout@.len() as u64) + enc_input_elements(desc.input_layout@) + enc_u32(desc.ib_strip_cut_value), enc_u32(desc.primitive_topology_type));
        lemma_fnv1a_concat((FNV_OFFSET_BASIS as u64), enc_bytes(desc.vs_bytecode@) + enc_bytes(desc.ps_bytecode@) + enc_blend(desc.blend_state) + enc_u32(desc.sample_mask) + enc_rasterizer(desc.rasterizer_state) + enc_depth_stencil(desc.depth_stencil_state) + enc_u64(desc.input_layout@.len() as u64) + enc_input_elements(desc.input_layout@) + enc_u32(desc.ib_strip_cut_value) + enc_u32(desc.primitive_topology_type), enc_u32(desc.num_render_targets));
        lemma_fnv1a_concat((FNV_OFFSET_BASIS as u64), enc_bytes(desc.vs_bytecode@) + enc_bytes(desc.ps_bytecode@) + enc_blend(desc.blend_state) + enc_u32(desc.sample_mask) + enc_rasterizer(desc.rasterizer_state) + enc_depth_stencil(desc.depth_stencil_state) + enc_u64(desc.input_layout@.len() as u64) + enc_input_elements(desc.input_layout@) + enc_u32(desc.ib_strip_cut_value) + enc_u32(desc.primitive_topology_type) + enc_u32(desc.num_render_targets), enc_rtv_formats(desc.rtv_formats));
        lemma_fnv1a_concat((FNV_OFFSET_BASIS as u64), enc_bytes(desc.vs_bytecode@) + enc_bytes(desc.ps_bytecode@) + enc_blend(desc.blend_state) + enc_u32(desc.sample_mask) + enc_rasterizer(desc.rasterizer_state) + enc_depth_stencil(desc.depth_stencil_state) + enc_u64(desc.input_layout@.len() as u64) + enc_input_elements(desc.input_layout@) + enc_u32(desc.ib_strip_cut_value) + enc_u32(desc.primitive_topology_type) + enc_u32(desc.num_render_targets) + enc_rtv_formats(desc.rtv_formats), enc_u32(desc.dsv_format));
        lemma_fnv1a_concat((FNV_OFFSET_BASIS as u64), enc_bytes(desc.vs_bytecode@) + enc_bytes(desc.ps_bytecode@) + enc_blend(desc.blend_state) + enc_u32(desc.sample_mask) + enc_rasterizer(desc.rasterizer_state) + enc_depth_stencil(desc.depth_stencil_state) + enc_u64(desc.input_layout@.len() as u64) + enc_input_elements(desc.input_layout@) + enc_u32(desc.ib_strip_cut_value) + enc_u32(desc.primitive_topology_type) + enc_u32(desc.num_render_targets) + enc_rtv_formats(desc.rtv_formats) + enc_u32(desc.dsv_format), enc_sample(desc.sample_desc));
    }
    h14
}

/// Computes the cache key of a compute pipeline description: 64-bit FNV-1a
/// over the compute shader binary.
pub fn calc_compute_pipeline_hash(desc: &Dx12ComputePipelineDesc) -> (r: u64)
    ensures
        r == compute_pipeline_hash(*desc),
{
    hash_bytes(FNV_OFFSET_BASIS, &desc.cs_bytecode)
}

/// Two input elements carry the same bytes.
pub open spec fn input_element_equiv(a: Dx12InputElementDesc, b: Dx12InputElementDesc) -> bool {
    &&& a.semantic_name@ == b.semantic_name@
    &&& a.semantic_index == b.semantic_index
    &&& a.format == b.format
    &&& a.input_slot == b.input_slot
    &&& a.aligned_byte_offset == b.aligned_byte_offset
    &&& a.input_slot_class == b.input_slot_class
    &&& a.instance_data_step_rate == b.instance_data_step_rate
}

/// Two graphics pipeline descriptions are byte-identical: the same shader
/// bytes and the same value in every fixed-function field.
pub open spec fn graphics_desc_equiv(a: Dx12GraphicsPipelineDesc, b: Dx12GraphicsPipelineDesc) -> bool {
    &&& a.vs_bytecode@ == b.vs_bytecode@
    &&& a.ps_bytecode@ == b.ps_bytecode@
    &&& a.blend_state == b.blend_state
    &&& a.sample_mask == b.sample_mask
    &&& a.rasterizer_state == b.rasterizer_state
    &&& a.depth_stencil_state == b.depth_stencil_state
    &&& a.input_layout@.len() == b.input_layout@.len()
    &&& forall|i: int|
        0 <= i < a.input_layout@.len() ==> input_element_equiv(
            #[trigger] a.input_layout@[i],
            b.input_layout@[i],
        )
    &&& a.ib_strip_cut_value == b.ib_strip_cut_value
    &&& a.primitive_topology_type == b.primitive_topology_type
    &&& a.num_render_targets == b.num_render_targets
    &&& a.rtv_formats == b.rtv_formats
    &&& a.dsv_format == b.dsv_format
    &&& a.sample_desc == b.sample_desc
}

/// Element-wise identical layouts encode identically.
proof fn lemma_enc_elems_equiv(s1: Seq<Dx12InputElementDesc>, s2: Seq<Dx12InputElementDesc>)
    requires
        s1.len() == s2.len(),
        forall|i: int| 0 <= i < s1.len() ==> input_element_equiv(#[trigger] s1[i], s2[i]),
    ensures
        enc_input_elements(s1) == enc_input_elements(s2),
    decreases s1.len(),
{
    if s1.len() > 0 {
        assert(input_element_equiv(s1[0], s2[0]));
        assert(enc_input_element(s1[0]) == enc_input_element(s2[0]));
        assert(forall|i: int|
            0 <= i < s1.drop_first().len() ==> input_element_equiv(
                #[trigger] s1.drop_first()[i],
                s2.drop_first()[i],
            ));
        lemma_enc_elems_equiv(s1.drop_first(), s2.drop_first());
    }
}

/// The content hash is deterministic: byte-identical descriptions always
/// yield the same cache key, in any process and on any run.
pub proof fn lemma_graphics_hash_deterministic(
    a: Dx12GraphicsPipelineDesc,
    b: Dx12GraphicsPipelineDesc,
)
    requires
        graphics_desc_equiv(a, b),
    ensures
        graphics_pipeline_hash(a) == graphics_pipeline_hash(b),
{
    lemma_enc_elems_equiv(a.input_layout@, b.input_layout@);
    assert(enc_graphics_pipeline(a) == enc_graphics_pipeline(b));
}

/// The compute hash is deterministic in the same way.
pub proof fn lemma_compute_hash_deterministic(
    a: Dx12ComputePipelineDesc,
    b: Dx12ComputePipelineDesc,
)
    requires
        a.cs_bytecode@ == b.cs_bytecode@,
    ensures
        compute_pipeline_hash(a) == compute_pipeline_hash(b),
{
}

} // verus!
