//! Plain-value mirrors of the native API's enumerations and descriptor
//! records that the runtime's own logic reads and stores. Native objects are
//! never held here; only the numeric tags and plain descriptor fields that
//! the pools, allocators and the pipeline cache operate on.

use vstd::prelude::*;

verus! {

// Resource usage states (bit flags).
pub const D3D12_RESOURCE_STATE_COMMON: u32 = 0;
pub const D3D12_RESOURCE_STATE_VERTEX_AND_CONSTANT_BUFFER: u32 = 0x1;
pub const D3D12_RESOURCE_STATE_INDEX_BUFFER: u32 = 0x2;
pub const D3D12_RESOURCE_STATE_RENDER_TARGET: u32 = 0x4;
pub const D3D12_RESOURCE_STATE_NON_PIXEL_SHADER_RESOURCE: u32 = 0x40;
pub const D3D12_RESOURCE_STATE_PIXEL_SHADER_RESOURCE: u32 = 0x80;
pub const D3D12_RESOURCE_STATE_INDIRECT_ARGUMENT: u32 = 0x200;
pub const D3D12_RESOURCE_STATE_COPY_DEST: u32 = 0x400;
pub const D3D12_RESOURCE_STATE_COPY_SOURCE: u32 = 0x800;
pub const D3D12_RESOURCE_STATE_GENERIC_READ: u32 = 0x1 | 0x2 | 0x40 | 0x80 | 0x200 | 0x800;
pub const D3D12_RESOURCE_STATE_PRESENT: u32 = 0;

// Texture/buffer formats (the ones this runtime's callers use).
pub const DXGI_FORMAT_UNKNOWN: u32 = 0;
pub const DXGI_FORMAT_R32G32B32_FLOAT: u32 = 6;
pub const DXGI_FORMAT_R8G8B8A8_UNORM: u32 = 28;
pub const DXGI_FORMAT_R32_UINT: u32 = 42;

// Memory heap types.
pub const D3D12_HEAP_TYPE_DEFAULT: u32 = 1;
pub const D3D12_HEAP_TYPE_UPLOAD: u32 = 2;
pub const D3D12_HEAP_TYPE_READBACK: u32 = 3;
pub const D3D12_HEAP_FLAG_NONE: u32 = 0;

// Descriptor heap types and flags.
pub const D3D12_DESCRIPTOR_HEAP_TYPE_CBV_SRV_UAV: u32 = 0;
pub const D3D12_DESCRIPTOR_HEAP_TYPE_SAMPLER: u32 = 1;
pub const D3D12_DESCRIPTOR_HEAP_TYPE_RTV: u32 = 2;
pub const D3D12_DESCRIPTOR_HEAP_TYPE_DSV: u32 = 3;
pub const D3D12_DESCRIPTOR_HEAP_FLAG_NONE: u32 = 0;
pub const D3D12_DESCRIPTOR_HEAP_FLAG_SHADER_VISIBLE: u32 = 1;

// Rasterizer state.
pub const D3D12_FILL_MODE_WIREFRAME: u32 = 2;
pub const D3D12_FILL_MODE_SOLID: u32 = 3;
pub const D3D12_CULL_MODE_NONE: u32 = 1;
pub const D3D12_CULL_MODE_FRONT: u32 = 2;
pub const D3D12_CULL_MODE_BACK: u32 = 3;
pub const D3D12_DEFAULT_DEPTH_BIAS: i32 = 0;
pub const D3D12_DEFAULT_DEPTH_BIAS_CLAMP_BITS: u32 = 0;
pub const D3D12_DEFAULT_SLOPE_SCALED_DEPTH_BIAS_BITS: u32 = 0;
pub const D3D12_CONSERVATIVE_RASTERIZATION_MODE_OFF: u32 = 0;

// Blend state.
pub const D3D12_BLEND_ZERO: u32 = 1;
pub const D3D12_BLEND_ONE: u32 = 2;
pub const D3D12_BLEND_OP_ADD: u32 = 1;
pub const D3D12_LOGIC_OP_NOOP: u32 = 4;

// Depth/stencil state.
pub const D3D12_STENCIL_OP_KEEP: u32 = 1;
pub const D3D12_COMPARISON_FUNC_LESS: u32 = 2;
pub const D3D12_COMPARISON_FUNC_ALWAYS: u32 = 8;
pub const D3D12_DEPTH_WRITE_MASK_ALL: u32 = 1;
pub const D3D12_DEFAULT_STENCIL_READ_MASK: u8 = 0xff;
pub const D3D12_DEFAULT_STENCIL_WRITE_MASK: u8 = 0xff;

// Input assembly.
pub const D3D12_INPUT_CLASSIFICATION_PER_VERTEX_DATA: u32 = 0;
pub const D3D12_PRIMITIVE_TOPOLOGY_TYPE_TRIANGLE: u32 = 3;
pub const D3D12_INDEX_BUFFER_STRIP_CUT_VALUE_DISABLED: u32 = 0;

// Committed-resource descriptions.
pub const D3D12_RESOURCE_DIMENSION_BUFFER: u32 = 1;
pub const D3D12_TEXTURE_LAYOUT_ROW_MAJOR: u32 = 1;
pub const D3D12_RESOURCE_FLAG_NONE: u32 = 0;

// Resource barriers.
pub const D3D12_RESOURCE_BARRIER_TYPE_TRANSITION: u32 = 0;
pub const D3D12_RESOURCE_BARRIER_FLAG_NONE: u32 = 0;
pub const D3D12_RESOURCE_BARRIER_ALL_SUBRESOURCES: u32 = 0xffffffff;

/// Component mapping selecting (R, G, B, A) straight through.
pub const DX12_DEFAULT_SHADER_4_COMPONENT_MAPPING: u32 =
    0 | (1 << 3) | (2 << (3 * 2)) | (3 << (3 * 3)) | (1 << (3 * 4));

/// A transition barrier the caller must submit to the native command list:
/// declares that the native resource moves from one usage state to another.
#[derive(Debug, Clone, Copy, PartialEq, Eq, Structural)]
pub struct Dx12ResourceBarrier {
    pub barrier_type: u32,
    pub flags: u32,
    pub resource: u64,
    pub subresource: u32,
    pub state_before: u32,
    pub state_after: u32,
}

impl Dx12ResourceBarrier {
    /// The whole-resource transition barrier record for a state change.
    pub open spec fn spec_transition(resource: u64, state_before: u32, state_after: u32) -> Dx12ResourceBarrier {
        Dx12ResourceBarrier {
            barrier_type: D3D12_RESOURCE_BARRIER_TYPE_TRANSITION,
            flags: D3D12_RESOURCE_BARRIER_FLAG_NONE,
            resource,
            subresource: D3D12_RESOURCE_BARRIER_ALL_SUBRESOURCES,
            state_before,
            state_after,
        }
    }

    /// Builds a whole-resource transition barrier record.
    pub fn transition(resource: u64, state_before: u32, state_after: u32) -> (b:
        Dx12ResourceBarrier)
        ensures
            b == Dx12ResourceBarrier::spec_transition(resource, state_before, state_after),
    {
        Dx12ResourceBarrier {
            barrier_type: D3D12_RESOURCE_BARRIER_TYPE_TRANSITION,
            flags: D3D12_RESOURCE_BARRIER_FLAG_NONE,
            resource,
            subresource: D3D12_RESOURCE_BARRIER_ALL_SUBRESOURCES,
            state_before,
            state_after,
        }
    }
}

/// Properties of a native memory heap a committed resource is placed in.
#[derive(Debug, Clone, Copy, PartialEq, Eq, Structural)]
pub struct Dx12HeapProperties {
    pub heap_type: u32,
    pub cpu_page_property: u32,
    pub memory_pool_preference: u32,
    pub creation_node_mask: u32,
    pub visible_node_mask: u32,
}

impl Dx12HeapProperties {
    /// Single-adapter heap properties for the given heap type.
    pub fn new(heap_type: u32) -> (p: Dx12HeapProperties)
        ensures
            p == (Dx12HeapProperties {
                heap_type,
                cpu_page_property: 0,
                memory_pool_preference: 0,
                creation_node_mask: 1,
                visible_node_mask: 1,
            }),
    {
        Dx12HeapProperties {
            heap_type,
            cpu_page_property: 0,
            memory_pool_preference: 0,
            creation_node_mask: 1,
            visible_node_mask: 1,
        }
    }
}

/// Description of a committed resource to be created by the native device.
#[derive(Debug, Clone, Copy, PartialEq, Eq, Structural)]
pub struct Dx12ResourceDesc {
    pub dimension: u32,
    pub alignment: u64,
    pub width: u64,
    pub height: u32,
    pub depth_or_array_size: u16,
    pub mip_levels: u16,
    pub format: u32,
    pub sample_count: u32,
    pub sample_quality: u32,
    pub layout: u32,
    pub flags: u32,
}

impl Dx12ResourceDesc {
    /// Description of a plain buffer of `size` bytes.
    pub fn buffer(size: u64) -> (d: Dx12ResourceDesc)
        ensures
            d == (Dx12ResourceDesc {
                dimension: D3D12_RESOURCE_DIMENSION_BUFFER,
                alignment: 0,
                width: size,
                height: 1,
                depth_or_array_size: 1,
                mip_levels: 1,
                format: DXGI_FORMAT_UNKNOWN,
                sample_count: 1,
                sample_quality: 0,
                layout: D3D12_TEXTURE_LAYOUT_ROW_MAJOR,
                flags: D3D12_RESOURCE_FLAG_NONE,
            }),
    {
        Dx12ResourceDesc {
            dimension: D3D12_RESOURCE_DIMENSION_BUFFER,
            alignment: 0,
            width: size,
            height: 1,
            depth_or_array_size: 1,
            mip_levels: 1,
            format: DXGI_FORMAT_UNKNOWN,
            sample_count: 1,
            sample_quality: 0,
            layout: D3D12_TEXTURE_LAYOUT_ROW_MAJOR,
            flags: D3D12_RESOURCE_FLAG_NONE,
        }
    }
}

} // verus!
